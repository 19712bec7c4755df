//! Accounts and their transactions.
use crate::client::{clone_opt_string, opt_str, Client, ClientSettings, Method, Request};
use crate::encode::spec_encode_str;
use crate::error::Error;
use crate::page::{list_page, listed, ListParams, PageRequest};
use crate::resources::{get_request, id_action_path, id_path, present, push_if_present};
use vstd::prelude::*;

verus! {

/// Filters for `GET /api/accounts`.
#[derive(Debug)]
pub struct AccountListParams {
    /// Shared pagination inputs.
    pub list: ListParams,
    /// Filter by account status.
    pub status: Option<String>,
    /// Filter by ISO currency code.
    pub currency_code: Option<String>,
}

impl Clone for AccountListParams {
    fn clone(&self) -> (p: Self)
        ensures
            p.list.limit == self.list.limit,
            p.list.cursor == self.list.cursor,
            p.status == self.status,
            p.currency_code == self.currency_code,
    {
        AccountListParams { list: self.list.clone(), status: clone_opt_string(&self.status), currency_code: clone_opt_string(&self.currency_code) }
    }
}

impl Default for AccountListParams {
    fn default() -> (p: Self)
        ensures
            p.list.limit is None,
            p.list.cursor is None,
            p.status is None,
            p.currency_code is None,
    {
        AccountListParams { list: ListParams::default(), status: None, currency_code: None }
    }
}

/// Filters for `GET /api/accounts/:id/transactions`.
#[derive(Debug)]
pub struct TransactionListParams {
    /// Shared pagination inputs.
    pub list: ListParams,
    /// Filter by operation (`credit` / `debit`).
    pub operation: Option<String>,
    /// ISO-8601 lower bound on the posting date.
    pub posted_after: Option<String>,
    /// ISO-8601 upper bound on the posting date.
    pub posted_before: Option<String>,
}

impl Clone for TransactionListParams {
    fn clone(&self) -> (p: Self)
        ensures
            p.list.limit == self.list.limit,
            p.list.cursor == self.list.cursor,
            p.operation == self.operation,
            p.posted_after == self.posted_after,
            p.posted_before == self.posted_before,
    {
        TransactionListParams { list: self.list.clone(), operation: clone_opt_string(&self.operation), posted_after: clone_opt_string(&self.posted_after), posted_before: clone_opt_string(&self.posted_before) }
    }
}

impl Default for TransactionListParams {
    fn default() -> (p: Self)
        ensures
            p.list.limit is None,
            p.list.cursor is None,
            p.operation is None,
            p.posted_after is None,
            p.posted_before is None,
    {
        TransactionListParams { list: ListParams::default(), operation: None, posted_after: None, posted_before: None }
    }
}

/// Accounts and their transactions.
pub struct Accounts<'a> {
    pub(crate) client: &'a Client,
}

impl Client {
    /// Accounts and their transactions.
    pub fn accounts(&self) -> (r: Accounts<'_>)
        ensures
            r.settings() == self@,
    {
        Accounts { client: self }
    }
}

impl<'a> Accounts<'a> {
    /// The configuration its requests are made with.
    pub closed spec fn settings(&self) -> ClientSettings {
        self.client@
    }

    /// Calls `GET /api/accounts`.
    pub fn list(&self, params: AccountListParams) -> (res: Result<PageRequest, Error>)
        ensures
            listed(
                res,
                self.settings(),
                "api/accounts"@,
                present("status"@, opt_str(params.status)) + present("currency_code"@, opt_str(params.currency_code)),
                params.list,
            ),
    {
        let mut query: Vec<(String, String)> = Vec::new();
        assert(crate::client::pairs_view(query@) =~= Seq::empty());
        push_if_present(&mut query, "status", params.status.as_ref());
        push_if_present(&mut query, "currency_code", params.currency_code.as_ref());
        assert(crate::client::pairs_view(query@) =~= present("status"@, opt_str(params.status)) + present("currency_code"@, opt_str(params.currency_code)));
        list_page(self.client, "api/accounts", query, &params.list)
    }

    /// Calls `GET /api/accounts/:id`.
    pub fn get(&self, id: &str) -> (r: Request)
        ensures
            r@ == self.settings().request(Method::Get, "api/accounts/"@ + spec_encode_str(id@), Seq::empty(), None),
    {
        let path = id_path("api/accounts/", id);
        get_request(self.client, path.as_str())
    }

    /// Calls `GET /api/accounts/:account_id/transactions`.
    pub fn list_transactions(&self, account_id: &str, params: TransactionListParams) -> (res: Result<
        PageRequest,
        Error,
    >)
        ensures
            listed(
                res,
                self.settings(),
                "api/accounts/"@ + spec_encode_str(account_id@) + "/transactions"@,
                present("operation"@, opt_str(params.operation)) + present(
                    "posted_after"@,
                    opt_str(params.posted_after),
                ) + present("posted_before"@, opt_str(params.posted_before)),
                params.list,
            ),
    {
        let mut query: Vec<(String, String)> = Vec::new();
        assert(crate::client::pairs_view(query@) =~= Seq::empty());
        push_if_present(&mut query, "operation", params.operation.as_ref());
        push_if_present(&mut query, "posted_after", params.posted_after.as_ref());
        push_if_present(&mut query, "posted_before", params.posted_before.as_ref());
        assert(crate::client::pairs_view(query@) =~= present("operation"@, opt_str(params.operation))
            + present("posted_after"@, opt_str(params.posted_after)) + present(
            "posted_before"@,
            opt_str(params.posted_before),
        ));
        let path = id_action_path("api/accounts/", account_id, "/transactions");
        list_page(self.client, path.as_str(), query, &params.list)
    }

    /// Calls `GET /api/accounts/:account_id/transactions/:id`.
    pub fn get_transaction(&self, account_id: &str, transaction_id: &str) -> (r: Request)
        ensures
            r@ == self.settings().request(
                Method::Get,
                "api/accounts/"@ + spec_encode_str(account_id@) + "/transactions/"@ + spec_encode_str(
                    transaction_id@,
                ),
                Seq::empty(),
                None,
            ),
    {
        let prefix = id_action_path("api/accounts/", account_id, "/transactions/");
        let path = id_path(prefix.as_str(), transaction_id);
        get_request(self.client, path.as_str())
    }
}

} // verus!
