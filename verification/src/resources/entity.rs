//! The current entity.
use crate::client::{Client, ClientSettings, Method, Request};
use crate::resources::get_request;
use vstd::prelude::*;

verus! {

/// The current entity (the tenant the API key belongs to).
pub struct Entity<'a> {
    pub(crate) client: &'a Client,
}

impl Client {
    /// The current entity (the tenant the API key belongs to).
    pub fn entity(&self) -> (r: Entity<'_>)
        ensures
            r.settings() == self@,
    {
        Entity { client: self }
    }
}

impl<'a> Entity<'a> {
    /// The configuration its requests are made with.
    pub closed spec fn settings(&self) -> ClientSettings {
        self.client@
    }

    /// Calls `GET /api/entity`.
    pub fn get(&self) -> (r: Request)
        ensures
            r@ == self.settings().request(Method::Get, "api/entity"@, Seq::empty(), None),
    {
        get_request(self.client, "api/entity")
    }
}

} // verus!
