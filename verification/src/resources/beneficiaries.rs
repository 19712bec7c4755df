//! Saved transfer recipients.
use crate::client::{Client, ClientSettings, Method, Request};
use crate::encode::spec_encode_str;
use crate::error::Error;
use crate::page::{list_page, listed, ListParams, PageRequest};
use crate::resources::{get_request, id_path};
use vstd::prelude::*;

verus! {

/// Read-only directory of saved transfer recipients. Each beneficiary embeds
/// its bank accounts; the one flagged `default` is used when a transfer names
/// only the `beneficiary_id`. Beneficiaries are created and managed in the
/// Zazu dashboard: the API never creates or modifies them.
pub struct Beneficiaries<'a> {
    pub(crate) client: &'a Client,
}

impl Client {
    /// Read-only directory of saved transfer recipients.
    pub fn beneficiaries(&self) -> (r: Beneficiaries<'_>)
        ensures
            r.settings() == self@,
    {
        Beneficiaries { client: self }
    }
}

impl<'a> Beneficiaries<'a> {
    /// The configuration its requests are made with.
    pub closed spec fn settings(&self) -> ClientSettings {
        self.client@
    }

    /// Calls `GET /api/beneficiaries`.
    pub fn list(&self, params: ListParams) -> (res: Result<PageRequest, Error>)
        ensures
            listed(res, self.settings(), "api/beneficiaries"@, Seq::empty(), params),
    {
        let query: Vec<(String, String)> = Vec::new();
        assert(crate::client::pairs_view(query@) =~= Seq::empty());
        list_page(self.client, "api/beneficiaries", query, &params)
    }

    /// Calls `GET /api/beneficiaries/:id`.
    pub fn get(&self, id: &str) -> (r: Request)
        ensures
            r@ == self.settings().request(Method::Get, "api/beneficiaries/"@ + spec_encode_str(id@), Seq::empty(), None),
    {
        let path = id_path("api/beneficiaries/", id);
        get_request(self.client, path.as_str())
    }
}

} // verus!
