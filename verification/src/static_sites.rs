//! The static-sites backend: its operations and its in-memory directory of
//! websites.
use vstd::prelude::*;

verus! {

/// Data of a "website created" operation (version 1).
#[derive(Debug, Clone)]
pub struct WebsiteCreatedDataV1 {
    pub name: String,
    pub description: String,
}

/// The operations of the static-sites backend.
#[derive(Debug, Clone)]
pub enum AppOperation {
    WebsiteCreatedV1(WebsiteCreatedDataV1),
}

/// A website as listed by the public API.
#[derive(Debug, Clone)]
pub struct Website {
    pub name: String,
    pub description: String,
}

/// The body of a request to create a website.
#[derive(Debug, Clone)]
pub struct CreateWebsiteData {
    pub name: String,
    pub description: String,
}

/// The websites known to the backend, in creation order.
pub struct WebsiteDirectory {
    websites: Vec<Website>,
}

impl WebsiteDirectory {
    /// The websites, in creation order.
    pub closed spec fn spec_websites(self) -> Seq<Website> {
        self.websites@
    }

    /// A directory holding `websites`.
    pub fn new(websites: Vec<Website>) -> (d: WebsiteDirectory)
        ensures
            d.spec_websites() == websites@,
    {
        WebsiteDirectory { websites }
    }

    /// The directory the backend starts with: three example websites.
    pub fn with_examples() -> (d: WebsiteDirectory)
        ensures
            d.spec_websites().len() == 3,
            d.spec_websites()[0].name@ == "Example Site"@,
            d.spec_websites()[0].description@ == "A static site hosted on Lores."@,
            d.spec_websites()[1].name@ == "My Blog"@,
            d.spec_websites()[1].description@ == "Personal blog built with a static generator."@,
            d.spec_websites()[2].name@ == "Portfolio"@,
            d.spec_websites()[2].description@ == "Design and development portfolio."@,
    {
        let mut websites: Vec<Website> = Vec::new();
        websites.push(
            Website {
                name: "Example Site".to_owned(),
                description: "A static site hosted on Lores.".to_owned(),
            },
        );
        websites.push(
            Website {
                name: "My Blog".to_owned(),
                description: "Personal blog built with a static generator.".to_owned(),
            },
        );
        websites.push(
            Website {
                name: "Portfolio".to_owned(),
                description: "Design and development portfolio.".to_owned(),
            },
        );
        WebsiteDirectory { websites }
    }

    /// The websites, in creation order (the index answer).
    pub fn websites(&self) -> (r: &Vec<Website>)
        ensures
            r@ == self.spec_websites(),
    {
        &self.websites
    }

    /// Adds a website after the existing ones.
    pub fn add(&mut self, website: Website)
        ensures
            final(self).spec_websites() == old(self).spec_websites().push(website),
    {
        self.websites.push(website);
    }
}

/// The operation to broadcast, and the website to add and answer, when a
/// website is created from `payload`: both carry its name and description.
pub fn website_created(payload: CreateWebsiteData) -> (r: (AppOperation, Website))
    ensures
        r.1 == (Website { name: payload.name, description: payload.description }),
        r.0 == AppOperation::WebsiteCreatedV1(
            WebsiteCreatedDataV1 { name: payload.name, description: payload.description },
        ),
{
    let op = AppOperation::WebsiteCreatedV1(
        WebsiteCreatedDataV1 { name: payload.name.clone(), description: payload.description.clone() },
    );
    (op, Website { name: payload.name, description: payload.description })
}

} // verus!
