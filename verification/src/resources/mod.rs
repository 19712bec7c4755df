//! The nine API resources. Each hangs off [`Client`](crate::Client) as an
//! accessor method (`client.accounts()`, `client.invoices()`, ...) and
//! prepares the requests of its endpoints.
use crate::client::{pairs_view, Client, Method, Request};
use crate::encode::{encode_component, spec_encode_str};
use crate::json::JsonValue;
use vstd::prelude::*;
use vstd::string::StringExecFns;

pub mod accounts;
pub mod beneficiaries;
pub mod checkout_sessions;
pub mod customers;
pub mod entity;
pub mod invoices;
pub mod payment_links;
pub mod transfer_drafts;
pub mod webhook_endpoints;

verus! {

/// A request body for create/update calls: `snake_case` keys, exactly what
/// the API accepts (see the per-endpoint docs).
pub type Attributes = JsonValue;

/// The filter `key=value` when `value` is given and not empty.
pub open spec fn present(key: Seq<char>, value: Option<Seq<char>>) -> Seq<(Seq<char>, Seq<char>)> {
    match value {
        Some(v) => if v.len() > 0 {
            seq![(key, v)]
        } else {
            Seq::empty()
        },
        None => Seq::empty(),
    }
}

/// The view of an optional borrowed string.
pub open spec fn opt_ref_str(value: Option<&String>) -> Option<Seq<char>> {
    match value {
        Some(v) => Some(v@),
        None => None,
    }
}

/// Appends the filter `key=value` when `value` is given and not empty.
pub fn push_if_present(query: &mut Vec<(String, String)>, key: &str, value: Option<&String>)
    ensures
        pairs_view(final(query)@) == pairs_view(old(query)@) + present(key@, opt_ref_str(value)),
{
    match value {
        Some(v) => {
            if v.as_str().unicode_len() > 0 {
                query.push((String::from_str(key), v.clone()));
                assert(pairs_view(query@) =~= pairs_view(old(query)@) + present(
                    key@,
                    opt_ref_str(value),
                ));
            } else {
                assert(pairs_view(query@) =~= pairs_view(old(query)@) + present(
                    key@,
                    opt_ref_str(value),
                ));
            }
        },
        None => {
            assert(pairs_view(query@) =~= pairs_view(old(query)@) + present(
                key@,
                opt_ref_str(value),
            ));
        },
    }
}

/// `prefix` followed by the percent-encoding of `id`.
pub fn id_path(prefix: &str, id: &str) -> (p: String)
    ensures
        p@ == prefix@ + spec_encode_str(id@),
{
    let mut p = String::from_str(prefix);
    let encoded = encode_component(id);
    p.append(encoded.as_str());
    p
}

/// `prefix`, the percent-encoding of `id`, then `suffix`.
pub fn id_action_path(prefix: &str, id: &str, suffix: &str) -> (p: String)
    ensures
        p@ == prefix@ + spec_encode_str(id@) + suffix@,
{
    let mut p = id_path(prefix, id);
    p.append(suffix);
    p
}

/// A `GET` request for `path` without a query.
pub fn get_request(client: &Client, path: &str) -> (r: Request)
    ensures
        r@ == client@.request(Method::Get, path@, Seq::empty(), None),
{
    let query: Vec<(String, String)> = Vec::new();
    assert(pairs_view(query@) =~= Seq::empty());
    client.get(path, query.as_slice())
}

} // verus!
