//! Webhook endpoint management.
use crate::client::{Client, ClientSettings, Method, Request};
use crate::encode::spec_encode_str;
use crate::error::Error;
use crate::page::{list_page, listed, ListParams, PageRequest};
use crate::resources::{get_request, id_action_path, id_path, Attributes};
use vstd::prelude::*;

verus! {

/// Webhook endpoint management.
pub struct WebhookEndpoints<'a> {
    pub(crate) client: &'a Client,
}

impl Client {
    /// Webhook endpoint management.
    pub fn webhook_endpoints(&self) -> (r: WebhookEndpoints<'_>)
        ensures
            r.settings() == self@,
    {
        WebhookEndpoints { client: self }
    }
}

impl<'a> WebhookEndpoints<'a> {
    /// The configuration its requests are made with.
    pub closed spec fn settings(&self) -> ClientSettings {
        self.client@
    }

    /// Calls `GET /api/webhook_endpoints`.
    pub fn list(&self, params: ListParams) -> (res: Result<PageRequest, Error>)
        ensures
            listed(res, self.settings(), "api/webhook_endpoints"@, Seq::empty(), params),
    {
        let query: Vec<(String, String)> = Vec::new();
        assert(crate::client::pairs_view(query@) =~= Seq::empty());
        list_page(self.client, "api/webhook_endpoints", query, &params)
    }

    /// Calls `GET /api/webhook_endpoints/:id`.
    pub fn get(&self, id: &str) -> (r: Request)
        ensures
            r@ == self.settings().request(Method::Get, "api/webhook_endpoints/"@ + spec_encode_str(id@), Seq::empty(), None),
    {
        let path = id_path("api/webhook_endpoints/", id);
        get_request(self.client, path.as_str())
    }

    /// Calls `POST /api/webhook_endpoints`.
    pub fn create(&self, attributes: &Attributes) -> (r: Request)
        ensures
            r@ == self.settings().request(Method::Post, "api/webhook_endpoints"@, Seq::empty(), Some(attributes.model())),
    {
        self.client.post("api/webhook_endpoints", Some(attributes.deep_clone()))
    }

    /// Calls `PATCH /api/webhook_endpoints/:id`.
    pub fn update(&self, id: &str, attributes: &Attributes) -> (r: Request)
        ensures
            r@ == self.settings().request(
                Method::Patch,
                "api/webhook_endpoints/"@ + spec_encode_str(id@),
                Seq::empty(),
                Some(attributes.model()),
            ),
    {
        let path = id_path("api/webhook_endpoints/", id);
        self.client.patch(path.as_str(), Some(attributes.deep_clone()))
    }

    /// Calls `DELETE /api/webhook_endpoints/:id`.
    pub fn delete(&self, id: &str) -> (r: Request)
        ensures
            r@ == self.settings().request(Method::Delete, "api/webhook_endpoints/"@ + spec_encode_str(id@), Seq::empty(), None),
    {
        let path = id_path("api/webhook_endpoints/", id);
        self.client.delete(path.as_str())
    }

    /// Calls `POST /api/webhook_endpoints/:id/test`.
    pub fn test(&self, id: &str) -> (r: Request)
        ensures
            r@ == self.settings().request(
                Method::Post,
                "api/webhook_endpoints/"@ + spec_encode_str(id@) + "/test"@,
                Seq::empty(),
                None,
            ),
    {
        let path = id_action_path("api/webhook_endpoints/", id, "/test");
        self.client.post(path.as_str(), None)
    }

    /// Calls `POST /api/webhook_endpoints/:id/regenerate_secret`.
    pub fn regenerate_secret(&self, id: &str) -> (r: Request)
        ensures
            r@ == self.settings().request(
                Method::Post,
                "api/webhook_endpoints/"@ + spec_encode_str(id@) + "/regenerate_secret"@,
                Seq::empty(),
                None,
            ),
    {
        let path = id_action_path("api/webhook_endpoints/", id, "/regenerate_secret");
        self.client.post(path.as_str(), None)
    }

    /// Calls `POST /api/webhook_endpoints/:id/enable`.
    pub fn enable(&self, id: &str) -> (r: Request)
        ensures
            r@ == self.settings().request(
                Method::Post,
                "api/webhook_endpoints/"@ + spec_encode_str(id@) + "/enable"@,
                Seq::empty(),
                None,
            ),
    {
        let path = id_action_path("api/webhook_endpoints/", id, "/enable");
        self.client.post(path.as_str(), None)
    }

    /// Calls `POST /api/webhook_endpoints/:id/disable`.
    pub fn disable(&self, id: &str) -> (r: Request)
        ensures
            r@ == self.settings().request(
                Method::Post,
                "api/webhook_endpoints/"@ + spec_encode_str(id@) + "/disable"@,
                Seq::empty(),
                None,
            ),
    {
        let path = id_action_path("api/webhook_endpoints/", id, "/disable");
        self.client.post(path.as_str(), None)
    }
}

} // verus!
