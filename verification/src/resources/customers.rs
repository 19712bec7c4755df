//! Customers.
use crate::client::{clone_opt_string, opt_str, Client, ClientSettings, Method, Request};
use crate::encode::spec_encode_str;
use crate::error::Error;
use crate::page::{list_page, listed, ListParams, PageRequest};
use crate::resources::{get_request, id_path, present, push_if_present, Attributes};
use vstd::prelude::*;

verus! {

/// Filters for `GET /api/customers`.
#[derive(Debug)]
pub struct CustomerListParams {
    /// Shared pagination inputs.
    pub list: ListParams,
    /// Free-text query matching company name, person name, email.
    pub q: Option<String>,
}

impl Clone for CustomerListParams {
    fn clone(&self) -> (p: Self)
        ensures
            p.list.limit == self.list.limit,
            p.list.cursor == self.list.cursor,
            p.q == self.q,
    {
        CustomerListParams { list: self.list.clone(), q: clone_opt_string(&self.q) }
    }
}

impl Default for CustomerListParams {
    fn default() -> (p: Self)
        ensures
            p.list.limit is None,
            p.list.cursor is None,
            p.q is None,
    {
        CustomerListParams { list: ListParams::default(), q: None }
    }
}

/// Individuals or businesses the entity invoices.
pub struct Customers<'a> {
    pub(crate) client: &'a Client,
}

impl Client {
    /// Individuals or businesses the entity invoices.
    pub fn customers(&self) -> (r: Customers<'_>)
        ensures
            r.settings() == self@,
    {
        Customers { client: self }
    }
}

impl<'a> Customers<'a> {
    /// The configuration its requests are made with.
    pub closed spec fn settings(&self) -> ClientSettings {
        self.client@
    }

    /// Calls `GET /api/customers`.
    pub fn list(&self, params: CustomerListParams) -> (res: Result<PageRequest, Error>)
        ensures
            listed(
                res,
                self.settings(),
                "api/customers"@,
                present("q"@, opt_str(params.q)),
                params.list,
            ),
    {
        let mut query: Vec<(String, String)> = Vec::new();
        assert(crate::client::pairs_view(query@) =~= Seq::empty());
        push_if_present(&mut query, "q", params.q.as_ref());
        assert(crate::client::pairs_view(query@) =~= present("q"@, opt_str(params.q)));
        list_page(self.client, "api/customers", query, &params.list)
    }

    /// Calls `GET /api/customers/:id`.
    pub fn get(&self, id: &str) -> (r: Request)
        ensures
            r@ == self.settings().request(Method::Get, "api/customers/"@ + spec_encode_str(id@), Seq::empty(), None),
    {
        let path = id_path("api/customers/", id);
        get_request(self.client, path.as_str())
    }

    /// Calls `POST /api/customers`.
    pub fn create(&self, attributes: &Attributes) -> (r: Request)
        ensures
            r@ == self.settings().request(Method::Post, "api/customers"@, Seq::empty(), Some(attributes.model())),
    {
        self.client.post("api/customers", Some(attributes.deep_clone()))
    }

    /// Calls `PATCH /api/customers/:id`.
    pub fn update(&self, id: &str, attributes: &Attributes) -> (r: Request)
        ensures
            r@ == self.settings().request(
                Method::Patch,
                "api/customers/"@ + spec_encode_str(id@),
                Seq::empty(),
                Some(attributes.model()),
            ),
    {
        let path = id_path("api/customers/", id);
        self.client.patch(path.as_str(), Some(attributes.deep_clone()))
    }

    /// Calls `DELETE /api/customers/:id`.
    pub fn delete(&self, id: &str) -> (r: Request)
        ensures
            r@ == self.settings().request(Method::Delete, "api/customers/"@ + spec_encode_str(id@), Seq::empty(), None),
    {
        let path = id_path("api/customers/", id);
        self.client.delete(path.as_str())
    }
}

} // verus!
