//! Hosted checkout sessions.
use crate::client::{Client, ClientSettings, Method, Request};
use crate::encode::spec_encode_str;
use crate::resources::{get_request, id_path, Attributes};
use vstd::prelude::*;

verus! {

/// One-off hosted checkout sessions. No list, update, or delete; sessions
/// are created and inspected by id.
pub struct CheckoutSessions<'a> {
    pub(crate) client: &'a Client,
}

impl Client {
    /// One-off hosted checkout sessions.
    pub fn checkout_sessions(&self) -> (r: CheckoutSessions<'_>)
        ensures
            r.settings() == self@,
    {
        CheckoutSessions { client: self }
    }
}

impl<'a> CheckoutSessions<'a> {
    /// The configuration its requests are made with.
    pub closed spec fn settings(&self) -> ClientSettings {
        self.client@
    }

    /// Calls `POST /api/checkout_sessions`.
    /// Required attributes: `account_id`, `amount`, `success_url`.
    pub fn create(&self, attributes: &Attributes) -> (r: Request)
        ensures
            r@ == self.settings().request(Method::Post, "api/checkout_sessions"@, Seq::empty(), Some(attributes.model())),
    {
        self.client.post("api/checkout_sessions", Some(attributes.deep_clone()))
    }

    /// Calls `GET /api/checkout_sessions/:id`.
    pub fn get(&self, id: &str) -> (r: Request)
        ensures
            r@ == self.settings().request(Method::Get, "api/checkout_sessions/"@ + spec_encode_str(id@), Seq::empty(), None),
    {
        let path = id_path("api/checkout_sessions/", id);
        get_request(self.client, path.as_str())
    }
}

} // verus!
