//! Invoices.
use crate::client::{clone_opt_string, opt_str, Client, ClientSettings, Method, Request};
use crate::encode::spec_encode_str;
use crate::error::Error;
use crate::json::{Json, JsonValue};
use crate::page::{list_page, listed, ListParams, PageRequest};
use crate::resources::{get_request, id_action_path, id_path, present, push_if_present, Attributes};
use vstd::prelude::*;
use vstd::string::StringExecFns;

verus! {

/// Filters for `GET /api/invoices`.
#[derive(Debug)]
pub struct InvoiceListParams {
    /// Shared pagination inputs.
    pub list: ListParams,
    /// Filter by invoice status.
    pub status: Option<String>,
    /// Filter by customer id.
    pub customer_id: Option<String>,
}

impl Clone for InvoiceListParams {
    fn clone(&self) -> (p: Self)
        ensures
            p.list.limit == self.list.limit,
            p.list.cursor == self.list.cursor,
            p.status == self.status,
            p.customer_id == self.customer_id,
    {
        InvoiceListParams { list: self.list.clone(), status: clone_opt_string(&self.status), customer_id: clone_opt_string(&self.customer_id) }
    }
}

impl Default for InvoiceListParams {
    fn default() -> (p: Self)
        ensures
            p.list.limit is None,
            p.list.cursor is None,
            p.status is None,
            p.customer_id is None,
    {
        InvoiceListParams { list: ListParams::default(), status: None, customer_id: None }
    }
}

/// Invoices and their lifecycle actions.
pub struct Invoices<'a> {
    pub(crate) client: &'a Client,
}

impl Client {
    /// Invoices and their lifecycle actions.
    pub fn invoices(&self) -> (r: Invoices<'_>)
        ensures
            r.settings() == self@,
    {
        Invoices { client: self }
    }
}

impl<'a> Invoices<'a> {
    /// The configuration its requests are made with.
    pub closed spec fn settings(&self) -> ClientSettings {
        self.client@
    }

    /// Calls `GET /api/invoices`.
    pub fn list(&self, params: InvoiceListParams) -> (res: Result<PageRequest, Error>)
        ensures
            listed(
                res,
                self.settings(),
                "api/invoices"@,
                present("status"@, opt_str(params.status)) + present("customer_id"@, opt_str(params.customer_id)),
                params.list,
            ),
    {
        let mut query: Vec<(String, String)> = Vec::new();
        assert(crate::client::pairs_view(query@) =~= Seq::empty());
        push_if_present(&mut query, "status", params.status.as_ref());
        push_if_present(&mut query, "customer_id", params.customer_id.as_ref());
        assert(crate::client::pairs_view(query@) =~= present("status"@, opt_str(params.status)) + present("customer_id"@, opt_str(params.customer_id)));
        list_page(self.client, "api/invoices", query, &params.list)
    }

    /// Calls `GET /api/invoices/:id`.
    pub fn get(&self, id: &str) -> (r: Request)
        ensures
            r@ == self.settings().request(Method::Get, "api/invoices/"@ + spec_encode_str(id@), Seq::empty(), None),
    {
        let path = id_path("api/invoices/", id);
        get_request(self.client, path.as_str())
    }

    /// Calls `POST /api/invoices`.
    pub fn create(&self, attributes: &Attributes) -> (r: Request)
        ensures
            r@ == self.settings().request(Method::Post, "api/invoices"@, Seq::empty(), Some(attributes.model())),
    {
        self.client.post("api/invoices", Some(attributes.deep_clone()))
    }

    /// Calls `PATCH /api/invoices/:id`.
    pub fn update(&self, id: &str, attributes: &Attributes) -> (r: Request)
        ensures
            r@ == self.settings().request(
                Method::Patch,
                "api/invoices/"@ + spec_encode_str(id@),
                Seq::empty(),
                Some(attributes.model()),
            ),
    {
        let path = id_path("api/invoices/", id);
        self.client.patch(path.as_str(), Some(attributes.deep_clone()))
    }

    /// Calls `POST /api/invoices/:id/send`.
    pub fn send(&self, id: &str) -> (r: Request)
        ensures
            r@ == self.settings().request(
                Method::Post,
                "api/invoices/"@ + spec_encode_str(id@) + "/send"@,
                Seq::empty(),
                None,
            ),
    {
        let path = id_action_path("api/invoices/", id, "/send");
        self.client.post(path.as_str(), None)
    }

    /// Calls `POST /api/invoices/:id/mark_as_paid`.
    pub fn mark_as_paid(&self, id: &str) -> (r: Request)
        ensures
            r@ == self.settings().request(
                Method::Post,
                "api/invoices/"@ + spec_encode_str(id@) + "/mark_as_paid"@,
                Seq::empty(),
                None,
            ),
    {
        let path = id_action_path("api/invoices/", id, "/mark_as_paid");
        self.client.post(path.as_str(), None)
    }

    /// Calls `POST /api/invoices/:id/cancel`.
    pub fn cancel(&self, id: &str) -> (r: Request)
        ensures
            r@ == self.settings().request(
                Method::Post,
                "api/invoices/"@ + spec_encode_str(id@) + "/cancel"@,
                Seq::empty(),
                None,
            ),
    {
        let path = id_action_path("api/invoices/", id, "/cancel");
        self.client.post(path.as_str(), None)
    }

    /// Calls `POST /api/invoices/:id/credit_note`.
    pub fn credit_note(&self, id: &str) -> (r: Request)
        ensures
            r@ == self.settings().request(
                Method::Post,
                "api/invoices/"@ + spec_encode_str(id@) + "/credit_note"@,
                Seq::empty(),
                None,
            ),
    {
        let path = id_action_path("api/invoices/", id, "/credit_note");
        self.client.post(path.as_str(), None)
    }

    /// Calls `DELETE /api/invoices/:id`.
    pub fn delete(&self, id: &str) -> (r: Request)
        ensures
            r@ == self.settings().request(Method::Delete, "api/invoices/"@ + spec_encode_str(id@), Seq::empty(), None),
    {
        let path = id_path("api/invoices/", id);
        self.client.delete(path.as_str())
    }

    /// Calls `POST /api/invoices/:invoice_id/payment_link` with the body
    /// `{ "account_id": account_id }`.
    pub fn create_payment_link(&self, invoice_id: &str, account_id: &str) -> (r: Request)
        ensures
            r@ == self.settings().request(
                Method::Post,
                "api/invoices/"@ + spec_encode_str(invoice_id@) + "/payment_link"@,
                Seq::empty(),
                Some(Json::Object(seq![("account_id"@, Json::Str(account_id@))])),
            ),
    {
        let path = id_action_path("api/invoices/", invoice_id, "/payment_link");
        let mut entries: Vec<(String, JsonValue)> = Vec::new();
        entries.push((String::from_str("account_id"), JsonValue::Str(String::from_str(account_id))));
        let ghost value = entries@[0].1;
        assert(value.model() == Json::Str(account_id@));
        let body = JsonValue::Object(entries);
        assert(body.model()->Object_0 =~= seq![("account_id"@, Json::Str(account_id@))]);
        self.client.post(path.as_str(), Some(body))
    }
}

} // verus!
