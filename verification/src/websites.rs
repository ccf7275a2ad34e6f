//! The websites app: its operations, the websites it projects from them,
//! and the decisions of its handlers.
use vstd::prelude::*;
use crate::errors::StoreError;
use crate::text::is_hex_lower;

verus! {

/// Data of a "website created" operation (version 1).
#[derive(Debug, Clone)]
pub struct WebsiteCreatedDataV1 {
    pub id: String,
    pub name: String,
    pub description: Option<String>,
}

/// The operations of the websites app.
#[derive(Debug, Clone)]
pub enum AppOperation {
    WebsiteCreatedV1(WebsiteCreatedDataV1),
}

/// A website as listed by the public API (one row of the `websites` table).
#[derive(Debug, Clone)]
pub struct Website {
    pub id: String,
    pub name: String,
    pub description: Option<String>,
}

/// The body of a request to create a website.
#[derive(Debug, Clone)]
pub struct CreateWebsiteData {
    pub name: String,
    pub description: Option<String>,
}

/// The answer to a request to create a website.
#[derive(Debug)]
pub enum CreateWebsiteResponse {
    /// 201: the website was published.
    Created(Website),
    /// 500: publishing failed.
    InternalServerError,
}

/// The answer to a request to list the websites.
#[derive(Debug)]
pub enum WebsitesIndexResponse {
    /// 200: the projected websites.
    Listed(Vec<Website>),
    /// 500: the projection could not be read.
    InternalServerError,
}

/// What the projection's event handler received from the node.
#[derive(Debug)]
pub enum HandlerEvent {
    /// An operation.
    Received(AppOperation),
    /// The handler fell behind and missed this many operations.
    Lagged(u64),
    /// The node's event channel closed.
    Closed,
}

/// What the projection's event handler does next.
#[derive(Debug)]
pub enum HandlerAction {
    /// Insert this row into the `websites` table, then wait for more.
    Insert(Website),
    /// Log that this many operations were missed, then wait for more.
    SkipLagged(u64),
    /// Stop handling events.
    Stop,
}

/// Whether `s` is the hyphenated lowercase text of a random (version 4,
/// RFC 4122 variant) UUID, e.g. `67e55044-10b1-426f-9247-bb680e5fe0c8`.
pub open spec fn is_uuid_v4_text(s: Seq<char>) -> bool {
    &&& s.len() == 36
    &&& forall|i: int|
        0 <= i < 36 ==> if i == 8 || i == 13 || i == 18 || i == 23 {
            s[i] == '-'
        } else {
            is_hex_lower(#[trigger] s[i])
        }
    &&& s[14] == '4'
    &&& (s[19] == '8' || s[19] == '9' || s[19] == 'a' || s[19] == 'b')
}

/// A fresh random website id: `uuid::Uuid::new_v4()` rendered with
/// `to_string`, whose documented form is the hyphenated lowercase text of
/// a version-4 UUID. Which id comes back is left open.
#[verifier::external_body]
fn new_website_id() -> (id: String)
    ensures
        is_uuid_v4_text(id@),
{
    uuid::Uuid::new_v4().to_string()
}

/// The operation published, and the website answered, when a website is
/// created with id `id` from `payload`.
pub open spec fn spec_website_created(id: String, payload: CreateWebsiteData) -> (AppOperation, Website) {
    (
        AppOperation::WebsiteCreatedV1(
            WebsiteCreatedDataV1 { id: id, name: payload.name, description: payload.description },
        ),
        Website { id: id, name: payload.name, description: payload.description },
    )
}

/// The row that the projection inserts for an operation.
pub open spec fn spec_project(operation: AppOperation) -> Website {
    match operation {
        AppOperation::WebsiteCreatedV1(data) => Website {
            id: data.id,
            name: data.name,
            description: data.description,
        },
    }
}

fn copy_text(s: &Option<String>) -> (r: Option<String>)
    ensures
        r == *s,
{
    match s {
        Some(t) => Some(t.clone()),
        None => None,
    }
}

/// The operation to publish, and the website to answer, when a website is
/// created with id `id` from `payload`.
pub fn website_created(id: String, payload: CreateWebsiteData) -> (r: (AppOperation, Website))
    ensures
        r == spec_website_created(id, payload),
        r.0 == AppOperation::WebsiteCreatedV1(
            WebsiteCreatedDataV1 { id: id, name: payload.name, description: payload.description },
        ),
        r.1 == (Website { id: id, name: payload.name, description: payload.description }),
{
    let data = WebsiteCreatedDataV1 {
        id: id.clone(),
        name: payload.name.clone(),
        description: copy_text(&payload.description),
    };
    let website = Website { id, name: payload.name, description: payload.description };
    (AppOperation::WebsiteCreatedV1(data), website)
}

/// Creates a website from `payload` under a fresh random id: the operation
/// to publish and the website to answer carry the same id, name and
/// description.
pub fn new_website(payload: CreateWebsiteData) -> (r: (AppOperation, Website))
    ensures
        is_uuid_v4_text(r.1.id@),
        r == spec_website_created(r.1.id, payload),
        r.0 == AppOperation::WebsiteCreatedV1(
            WebsiteCreatedDataV1 { id: r.1.id, name: payload.name, description: payload.description },
        ),
        r.1.name == payload.name,
        r.1.description == payload.description,
{
    let id = new_website_id();
    website_created(id, payload)
}

/// The answer to a create request, given the outcome of publishing its
/// operation: the website with 201 on success, 500 otherwise.
pub fn create_response(published: &Result<(), StoreError>, website: Website) -> (r: CreateWebsiteResponse)
    ensures
        match published {
            Ok(()) => r == CreateWebsiteResponse::Created(website),
            Err(_) => r == CreateWebsiteResponse::InternalServerError,
        },
{
    match published {
        Ok(()) => CreateWebsiteResponse::Created(website),
        Err(_) => CreateWebsiteResponse::InternalServerError,
    }
}

/// The answer to a list request, given the outcome of reading the
/// projection (`Err` holds the database's description of the failure).
pub fn index_response(queried: Result<Vec<Website>, String>) -> (r: WebsitesIndexResponse)
    ensures
        match queried {
            Ok(websites) => r == WebsitesIndexResponse::Listed(websites),
            Err(_) => r == WebsitesIndexResponse::InternalServerError,
        },
{
    match queried {
        Ok(websites) => WebsitesIndexResponse::Listed(websites),
        Err(_) => WebsitesIndexResponse::InternalServerError,
    }
}

/// The row that the projection inserts for `operation`.
pub fn project(operation: AppOperation) -> (w: Website)
    ensures
        w == spec_project(operation),
        match operation {
            AppOperation::WebsiteCreatedV1(data) => w == (Website {
                id: data.id,
                name: data.name,
                description: data.description,
            }),
        },
{
    match operation {
        AppOperation::WebsiteCreatedV1(data) => Website {
            id: data.id,
            name: data.name,
            description: data.description,
        },
    }
}

/// Decides what the projection's event handler does with `event`.
pub fn handle_event(event: HandlerEvent) -> (action: HandlerAction)
    ensures
        match event {
            HandlerEvent::Received(op) => action == HandlerAction::Insert(spec_project(op)) && match op {
                AppOperation::WebsiteCreatedV1(data) => action == HandlerAction::Insert(
                    Website { id: data.id, name: data.name, description: data.description },
                ),
            },
            HandlerEvent::Lagged(n) => action == HandlerAction::SkipLagged(n),
            HandlerEvent::Closed => action == HandlerAction::Stop,
        },
{
    match event {
        HandlerEvent::Received(op) => HandlerAction::Insert(project(op)),
        HandlerEvent::Lagged(n) => HandlerAction::SkipLagged(n),
        HandlerEvent::Closed => HandlerAction::Stop,
    }
}

/// Creating a website keeps the request's fields: for every id and
/// payload, the published operation and the answered website carry that id
/// and exactly the payload's name and description.
pub proof fn law_created_keeps_fields(id: String, payload: CreateWebsiteData)
    ensures
        spec_website_created(id, payload).0 == AppOperation::WebsiteCreatedV1(
            WebsiteCreatedDataV1 { id: id, name: payload.name, description: payload.description },
        ),
        spec_website_created(id, payload).1 == (Website {
            id: id,
            name: payload.name,
            description: payload.description,
        }),
{
}

/// The projection stores each operation's own fields: the row inserted for
/// a "website created" operation has its id, name and description.
pub proof fn law_projection_keeps_fields(data: WebsiteCreatedDataV1)
    ensures
        spec_project(AppOperation::WebsiteCreatedV1(data)) == (Website {
            id: data.id,
            name: data.name,
            description: data.description,
        }),
{
}

/// Read your writes: the row that the projection inserts for the operation
/// published by a create request is the website that the request answered.
pub proof fn law_projection_matches_created(id: String, payload: CreateWebsiteData)
    ensures
        spec_project(spec_website_created(id, payload).0) == spec_website_created(id, payload).1,
{
}

} // verus!
