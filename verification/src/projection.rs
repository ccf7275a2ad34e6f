//! Schema bookkeeping of the projection database: the schema's content
//! hash, when a stored database must be rebuilt, and the statements that
//! rebuild it.
use vstd::prelude::*;
use sha2::Digest;
use vstd::string::StringSliceAdditionalSpecFns;
use crate::text::{is_hex_lower, push_char};

verus! {

/// The SHA-256 digest of `data` (as computed by the `sha2` crate).
pub uninterp spec fn sha256(data: Seq<u8>) -> Seq<u8>;

/// SHA-256 of `data`, with `sha2::Sha256` (`new`, `update`, `finalize`).
/// The digest is 32 bytes long.
#[verifier::external_body]
fn sha256_digest(data: &[u8]) -> (d: Vec<u8>)
    ensures
        d@ == sha256(data@),
        d@.len() == 32,
{
    let mut hasher = sha2::Sha256::new();
    hasher.update(data);
    hasher.finalize().to_vec()
}

/// The lowercase hexadecimal digit of `n` (`0 <= n < 16`).
pub open spec fn hex_digit(n: int) -> char {
    if n < 10 {
        (n + 48) as char
    } else {
        (n + 87) as char
    }
}

/// The lowercase hexadecimal rendering of `bytes`, two digits per byte,
/// most significant first (what `{:x}` prints for a digest).
pub open spec fn spec_hex_lower(bytes: Seq<u8>) -> Seq<char>
    decreases bytes.len(),
{
    if bytes.len() == 0 {
        Seq::empty()
    } else {
        let b = bytes.last();
        spec_hex_lower(bytes.drop_last()).push(hex_digit((b / 16) as int)).push(
            hex_digit((b % 16) as int),
        )
    }
}

/// The schema hash of `schema_sql`: the lowercase hex SHA-256 of its UTF-8
/// bytes.
pub open spec fn spec_schema_hash(schema_sql: &str) -> Seq<char> {
    spec_hex_lower(sha256(schema_sql.spec_bytes()))
}

/// Whether a stored database must be rebuilt: unless the stored hash was
/// read and equals the new schema's hash.
pub open spec fn spec_needs_rebuild(stored: Option<Seq<char>>, new_hash: Seq<char>) -> bool {
    stored != Some(new_hash)
}

/// The statement that drops table `table`.
pub open spec fn spec_drop_table(table: Seq<char>) -> Seq<char> {
    "DROP TABLE IF EXISTS \""@ + table + "\""@
}

/// Whether `name` is one of SQLite's own tables: it starts with `sqlite_`.
pub open spec fn is_sqlite_internal(name: Seq<char>) -> bool {
    name.len() >= 7 && name.subrange(0, 7) == seq!['s', 'q', 'l', 'i', 't', 'e', '_']
}

/// The texts of a sequence of strings.
pub open spec fn string_views(s: Seq<String>) -> Seq<Seq<char>> {
    s.map_values(|x: String| x@)
}

/// The statements that drop the tables named `tables`, in order, skipping
/// SQLite's own tables: `tables` filtered by `!is_sqlite_internal`, each
/// mapped to `spec_drop_table`.
pub open spec fn spec_drop_statements(tables: Seq<Seq<char>>) -> Seq<Seq<char>>
    decreases tables.len(),
{
    if tables.len() == 0 {
        Seq::empty()
    } else {
        let prev = spec_drop_statements(tables.drop_last());
        if is_sqlite_internal(tables.last()) {
            prev
        } else {
            prev.push(spec_drop_table(tables.last()))
        }
    }
}

/// The statement that creates the framework-owned bookkeeping table.
pub open spec fn spec_create_schema_table() -> Seq<char> {
    "CREATE TABLE _schema (hash TEXT NOT NULL);"@
}

/// One step of applying a schema to an empty database.
#[derive(Debug)]
pub enum SchemaStep {
    /// Run these SQL statements.
    Execute(String),
    /// Insert this hash into the `_schema` table.
    RecordHash(String),
}

fn hex_char(n: u8) -> (c: char)
    requires
        n < 16,
    ensures
        c == hex_digit(n as int),
{
    if n < 10 {
        (n + 48u8) as char
    } else {
        (n + 87u8) as char
    }
}

/// Whether table `name` is one of SQLite's own (starts with `sqlite_`).
pub fn is_internal_table(name: &str) -> (r: bool)
    ensures
        r == is_sqlite_internal(name@),
{
    if name.unicode_len() < 7 {
        return false;
    }
    let r = name.get_char(0) == 's' && name.get_char(1) == 'q' && name.get_char(2) == 'l'
        && name.get_char(3) == 'i' && name.get_char(4) == 't' && name.get_char(5) == 'e'
        && name.get_char(6) == '_';
    proof {
        let p = seq!['s', 'q', 'l', 'i', 't', 'e', '_'];
        if r {
            assert(name@.subrange(0, 7) =~= p);
        } else {
            if name@.subrange(0, 7) == p {
                assert(name@.subrange(0, 7)[0] == name@[0]);
                assert(name@.subrange(0, 7)[1] == name@[1]);
                assert(name@.subrange(0, 7)[2] == name@[2]);
                assert(name@.subrange(0, 7)[3] == name@[3]);
                assert(name@.subrange(0, 7)[4] == name@[4]);
                assert(name@.subrange(0, 7)[5] == name@[5]);
                assert(name@.subrange(0, 7)[6] == name@[6]);
            }
        }
    }
    r
}

/// Renders `bytes` as lowercase hexadecimal.
pub fn hex_lower(bytes: &[u8]) -> (s: String)
    ensures
        s@ == spec_hex_lower(bytes@),
{
    let mut s = String::new();
    let mut i: usize = 0;
    assert(bytes@.take(0) =~= Seq::<u8>::empty());
    while i < bytes.len()
        invariant
            i <= bytes@.len(),
            s@ == spec_hex_lower(bytes@.take(i as int)),
        decreases bytes@.len() - i,
    {
        let b = bytes[i];
        push_char(&mut s, hex_char(b / 16));
        push_char(&mut s, hex_char(b % 16));
        proof {
            let next = bytes@.take(i + 1);
            assert(next.drop_last() =~= bytes@.take(i as int));
            assert(next.last() == b);
        }
        i = i + 1;
    }
    assert(bytes@.take(bytes@.len() as int) =~= bytes@);
    s
}

/// A SQLite projection database initialised from a DDL schema string; its
/// schema version is the SHA-256 content hash of that string.
pub struct ProjectionDb;

impl ProjectionDb {
    /// The schema hash of `schema_sql`: lowercase hex SHA-256 of its bytes.
    /// The hash is 64 lowercase hexadecimal digits.
    pub fn hash(schema_sql: &str) -> (h: String)
        ensures
            h@ == spec_schema_hash(schema_sql),
            h@.len() == 64,
            forall|i: int| 0 <= i < 64 ==> is_hex_lower(#[trigger] h@[i]),
    {
        let digest = sha256_digest(schema_sql.as_bytes());
        proof {
            lemma_hex_lower_shape(digest@);
        }
        hex_lower(digest.as_slice())
    }

    /// Whether a freshly created in-memory database must be filled by
    /// replaying all operations: always, since it starts with no projected
    /// state (its schema is applied by `schema_steps`).
    pub fn in_memory_needs_replay() -> (r: bool)
        ensures
            r == true,
    {
        true
    }

    /// Whether an on-disk database must be rebuilt: `stored` is the hash
    /// read from its `_schema` table (`None` when the table is missing,
    /// empty, or could not be read).
    pub fn needs_rebuild(stored: &Option<String>, new_hash: &String) -> (r: bool)
        ensures
            r == spec_needs_rebuild(
                match stored {
                    Some(h) => Some(h@),
                    None => None,
                },
                new_hash@,
            ),
    {
        match stored {
            Some(h) => !(*h == *new_hash),
            None => true,
        }
    }

    /// The statement that drops user table `table`.
    pub fn drop_table_statement(table: &str) -> (stmt: String)
        ensures
            stmt@ == spec_drop_table(table@),
    {
        let mut stmt = "DROP TABLE IF EXISTS \"".to_owned();
        stmt.append(table);
        stmt.append("\"");
        proof {
            reveal_strlit("DROP TABLE IF EXISTS \"");
            reveal_strlit("\"");
        }
        stmt
    }

    /// The statements that drop each of `tables` (all tables of the
    /// database, by name) except SQLite's own, in order.
    pub fn drop_statements(tables: &Vec<String>) -> (stmts: Vec<String>)
        ensures
            string_views(stmts@) == spec_drop_statements(string_views(tables@)),
    {
        let mut stmts: Vec<String> = Vec::new();
        let mut i: usize = 0;
        assert(string_views(tables@.take(0)) =~= Seq::<Seq<char>>::empty());
        assert(string_views(stmts@) =~= Seq::<Seq<char>>::empty());
        while i < tables.len()
            invariant
                i <= tables@.len(),
                string_views(stmts@) == spec_drop_statements(string_views(tables@.take(i as int))),
            decreases tables@.len() - i,
        {
            let ghost prev = stmts@;
            let name = tables[i].as_str();
            if !is_internal_table(name) {
                let stmt = Self::drop_table_statement(name);
                stmts.push(stmt);
                assert(string_views(stmts@) =~= string_views(prev).push(stmts@[prev.len() as int]@));
            }
            proof {
                let next = string_views(tables@.take(i + 1));
                assert(next.drop_last() =~= string_views(tables@.take(i as int)));
                assert(next.last() == tables@[i as int]@);
            }
            i = i + 1;
        }
        assert(tables@.take(tables@.len() as int) =~= tables@);
        stmts
    }

    /// The steps that apply `schema_sql` to an empty database: create the
    /// bookkeeping table, record the schema's hash, run the schema itself.
    pub fn schema_steps(schema_sql: &str) -> (steps: Vec<SchemaStep>)
        ensures
            steps@.len() == 3,
            steps@[0] matches SchemaStep::Execute(s) && s@ == spec_create_schema_table(),
            steps@[1] matches SchemaStep::RecordHash(h) && h@ == spec_schema_hash(schema_sql),
            steps@[2] matches SchemaStep::Execute(s) && s@ == schema_sql@,
    {
        let create = "CREATE TABLE _schema (hash TEXT NOT NULL);".to_owned();
        proof {
            reveal_strlit("CREATE TABLE _schema (hash TEXT NOT NULL);");
        }
        let mut steps: Vec<SchemaStep> = Vec::new();
        steps.push(SchemaStep::Execute(create));
        steps.push(SchemaStep::RecordHash(Self::hash(schema_sql)));
        steps.push(SchemaStep::Execute(schema_sql.to_owned()));
        steps
    }
}

proof fn lemma_hex_lower_shape(bytes: Seq<u8>)
    ensures
        spec_hex_lower(bytes).len() == 2 * bytes.len(),
        forall|i: int| 0 <= i < spec_hex_lower(bytes).len() ==> is_hex_lower(#[trigger] spec_hex_lower(bytes)[i]),
    decreases bytes.len(),
{
    if bytes.len() > 0 {
        lemma_hex_lower_shape(bytes.drop_last());
        let b = bytes.last();
        let prefix = spec_hex_lower(bytes.drop_last());
        let whole = spec_hex_lower(bytes);
        assert forall|i: int| 0 <= i < whole.len() implies is_hex_lower(#[trigger] whole[i]) by {
            if i < prefix.len() {
                assert(whole[i] == prefix[i]);
            } else {
                let n: int = if i == prefix.len() { (b / 16) as int } else { (b % 16) as int };
                assert(whole[i] == hex_digit(n));
                assert(0 <= n < 16);
                if n < 10 {
                    assert((n + 48) as char as int == n + 48);
                } else {
                    assert((n + 87) as char as int == n + 87);
                }
            }
        }
    }
}

/// A database whose schema was applied from `schema_sql` records
/// `hash(schema_sql)`; reopening it with the same schema does not rebuild,
/// reopening it with a schema of another hash does.
pub proof fn law_rebuild_exactly_on_schema_change(schema_sql: &str, new_schema_sql: &str)
    ensures
        !spec_needs_rebuild(Some(spec_schema_hash(schema_sql)), spec_schema_hash(schema_sql)),
        spec_schema_hash(new_schema_sql) != spec_schema_hash(schema_sql) ==> spec_needs_rebuild(
            Some(spec_schema_hash(schema_sql)),
            spec_schema_hash(new_schema_sql),
        ),
        spec_needs_rebuild(None, spec_schema_hash(new_schema_sql)),
{
}

} // verus!
