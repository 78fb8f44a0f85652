//! The service's home page.

use crate::configure::{url_of, ServerConfig};
use vstd::prelude::*;

verus! {

/// What the home page shows: the URL of the service's domain.
#[derive(Debug)]
pub struct IndexPage {
    pub domain: String,
}

impl IndexPage {
    /// The home page of a server: its domain URL, `{schema}://{domain_name}`.
    pub fn new(server: &ServerConfig) -> (r: IndexPage)
        ensures
            r.domain@ == url_of(server@.schema, server@.domain_name),
    {
        IndexPage { domain: server.get_domain_name() }
    }
}

} // verus!
