//! Standalone payment links.
use crate::client::{clone_opt_string, opt_str, Client, ClientSettings, Method, Request};
use crate::encode::spec_encode_str;
use crate::error::Error;
use crate::page::{list_page, listed, ListParams, PageRequest};
use crate::resources::{get_request, id_action_path, id_path, present, push_if_present, Attributes};
use vstd::prelude::*;

verus! {

/// Filters for `GET /api/payment_links`.
#[derive(Debug)]
pub struct PaymentLinkListParams {
    /// Shared pagination inputs.
    pub list: ListParams,
    /// Filter by link status.
    pub status: Option<String>,
    /// Filter by link type (`single` / `reusable`).
    pub link_type: Option<String>,
}

impl Clone for PaymentLinkListParams {
    fn clone(&self) -> (p: Self)
        ensures
            p.list.limit == self.list.limit,
            p.list.cursor == self.list.cursor,
            p.status == self.status,
            p.link_type == self.link_type,
    {
        PaymentLinkListParams { list: self.list.clone(), status: clone_opt_string(&self.status), link_type: clone_opt_string(&self.link_type) }
    }
}

impl Default for PaymentLinkListParams {
    fn default() -> (p: Self)
        ensures
            p.list.limit is None,
            p.list.cursor is None,
            p.status is None,
            p.link_type is None,
    {
        PaymentLinkListParams { list: ListParams::default(), status: None, link_type: None }
    }
}

/// Standalone payment links (not attached to an invoice).
pub struct PaymentLinks<'a> {
    pub(crate) client: &'a Client,
}

impl Client {
    /// Standalone payment links (not attached to an invoice).
    pub fn payment_links(&self) -> (r: PaymentLinks<'_>)
        ensures
            r.settings() == self@,
    {
        PaymentLinks { client: self }
    }
}

impl<'a> PaymentLinks<'a> {
    /// The configuration its requests are made with.
    pub closed spec fn settings(&self) -> ClientSettings {
        self.client@
    }

    /// Calls `GET /api/payment_links`.
    pub fn list(&self, params: PaymentLinkListParams) -> (res: Result<PageRequest, Error>)
        ensures
            listed(
                res,
                self.settings(),
                "api/payment_links"@,
                present("status"@, opt_str(params.status)) + present("link_type"@, opt_str(params.link_type)),
                params.list,
            ),
    {
        let mut query: Vec<(String, String)> = Vec::new();
        assert(crate::client::pairs_view(query@) =~= Seq::empty());
        push_if_present(&mut query, "status", params.status.as_ref());
        push_if_present(&mut query, "link_type", params.link_type.as_ref());
        assert(crate::client::pairs_view(query@) =~= present("status"@, opt_str(params.status)) + present("link_type"@, opt_str(params.link_type)));
        list_page(self.client, "api/payment_links", query, &params.list)
    }

    /// Calls `GET /api/payment_links/:id`.
    pub fn get(&self, id: &str) -> (r: Request)
        ensures
            r@ == self.settings().request(Method::Get, "api/payment_links/"@ + spec_encode_str(id@), Seq::empty(), None),
    {
        let path = id_path("api/payment_links/", id);
        get_request(self.client, path.as_str())
    }

    /// Calls `POST /api/payment_links`.
    pub fn create(&self, attributes: &Attributes) -> (r: Request)
        ensures
            r@ == self.settings().request(Method::Post, "api/payment_links"@, Seq::empty(), Some(attributes.model())),
    {
        self.client.post("api/payment_links", Some(attributes.deep_clone()))
    }

    /// Calls `POST /api/payment_links/:id/cancel`.
    pub fn cancel(&self, id: &str) -> (r: Request)
        ensures
            r@ == self.settings().request(
                Method::Post,
                "api/payment_links/"@ + spec_encode_str(id@) + "/cancel"@,
                Seq::empty(),
                None,
            ),
    {
        let path = id_action_path("api/payment_links/", id, "/cancel");
        self.client.post(path.as_str(), None)
    }
}

} // verus!
