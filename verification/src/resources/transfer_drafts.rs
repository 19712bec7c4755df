//! API-initiated transfers.
use crate::client::{Client, ClientSettings, Method, Request};
use crate::encode::spec_encode_str;
use crate::resources::{get_request, id_path, Attributes};
use vstd::prelude::*;

verus! {

/// API-initiated transfers. Creating a transfer draft routes it into the
/// workspace's in-app approval flow: the API never executes a transfer
/// itself. Poll [`get`](TransferDrafts::get) (status: `requested` ->
/// `processing` -> `completed` / `failed`) or subscribe to the
/// `transfer.executed` webhook.
pub struct TransferDrafts<'a> {
    pub(crate) client: &'a Client,
}

impl Client {
    /// API-initiated transfers routed into the in-app approval flow.
    pub fn transfer_drafts(&self) -> (r: TransferDrafts<'_>)
        ensures
            r.settings() == self@,
    {
        TransferDrafts { client: self }
    }
}

impl<'a> TransferDrafts<'a> {
    /// The configuration its requests are made with.
    pub closed spec fn settings(&self) -> ClientSettings {
        self.client@
    }

    /// Calls `POST /api/transfer_drafts`.
    ///
    /// Required: `account_id`, `amount`, and exactly one of `beneficiary_id`
    /// (external transfer) or `destination_account_id` (own-account move).
    /// The created draft awaits approval in the workspace's in-app approval
    /// flow.
    pub fn create(&self, attributes: &Attributes) -> (r: Request)
        ensures
            r@ == self.settings().request(Method::Post, "api/transfer_drafts"@, Seq::empty(), Some(attributes.model())),
    {
        self.client.post("api/transfer_drafts", Some(attributes.deep_clone()))
    }

    /// Calls `GET /api/transfer_drafts/:id`.
    pub fn get(&self, id: &str) -> (r: Request)
        ensures
            r@ == self.settings().request(Method::Get, "api/transfer_drafts/"@ + spec_encode_str(id@), Seq::empty(), None),
    {
        let path = id_path("api/transfer_drafts/", id);
        get_request(self.client, path.as_str())
    }
}

} // verus!
