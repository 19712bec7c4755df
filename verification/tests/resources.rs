use zazu_sdk::{read_response, Client, Method, Page, Request, Response};
use zazu_sdk::JsonValue;

fn replay_client() -> Client {
    Client::builder()
        .api_key("test-api-key-for-replay")
        .base_url("http://127.0.0.1:4010")
        .build()
        .expect("build client")
}

fn s(text: &str) -> String {
    text.to_owned()
}

fn obj(entries: Vec<(&str, JsonValue)>) -> JsonValue {
    JsonValue::Object(entries.into_iter().map(|(k, v)| (s(k), v)).collect())
}

fn answer(request: &Request, method: Method, url: &str, status: u16, body: &str) -> Response {
    assert_eq!(request.method, method);
    assert_eq!(request.url, url);
    assert!(request
        .headers
        .iter()
        .any(|(k, v)| k == "Authorization" && v == "Bearer test-api-key-for-replay"));
    read_response(status, Some(s("req_fixture")), None, body.as_bytes().to_vec())
        .expect("successful response")
}

fn field<'a>(body: &'a JsonValue, key: &str) -> Option<&'a JsonValue> {
    body.get(key)
}

#[test]
fn entity_get() {
    let client = replay_client();
    let request = client.entity().get();
    let resp = answer(
        &request,
        Method::Get,
        "http://127.0.0.1:4010/api/entity",
        200,
        r#"{"id": "fixture-entity-id", "name": "Fixture SARL"}"#,
    );
    assert!(
        field(&resp.body, "id").map_or(false, |v| v.is_string()),
        "expected string id, got {:?}",
        field(&resp.body, "id")
    );
}

#[test]
fn accounts() {
    let client = replay_client();
    let request = client.accounts().list(Default::default()).expect("accounts list");
    let resp = answer(
        &request.request,
        Method::Get,
        "http://127.0.0.1:4010/api/accounts?limit=100",
        200,
        r#"{"data": [{"id": "fixture-account-id", "name": "Main"}], "has_more": false, "next_cursor": null}"#,
    );
    let page = Page::from_response(&client, request, resp);
    assert!(!page.data.is_empty(), "expected data rows");
    assert!(page.next().is_none());

    let account_id = "fixture-account-id";
    answer(
        &client.accounts().get(account_id),
        Method::Get,
        "http://127.0.0.1:4010/api/accounts/fixture-account-id",
        200,
        r#"{"id": "fixture-account-id"}"#,
    );

    let request = client
        .accounts()
        .list_transactions(account_id, Default::default())
        .expect("list transactions");
    answer(
        &request.request,
        Method::Get,
        "http://127.0.0.1:4010/api/accounts/fixture-account-id/transactions?limit=100",
        200,
        r#"{"data": [], "has_more": false, "next_cursor": null}"#,
    );

    answer(
        &client
            .accounts()
            .get_transaction(account_id, "fixture-transaction-id"),
        Method::Get,
        "http://127.0.0.1:4010/api/accounts/fixture-account-id/transactions/fixture-transaction-id",
        200,
        r#"{"id": "fixture-transaction-id"}"#,
    );
}

#[test]
fn customers() {
    let client = replay_client();
    let request = client.customers().list(Default::default()).expect("customers list");
    answer(
        &request.request,
        Method::Get,
        "http://127.0.0.1:4010/api/customers?limit=100",
        200,
        r#"{"data": [{"id": "fixture-customer-id"}], "has_more": false, "next_cursor": null}"#,
    );

    let resp = answer(
        &client.customers().get("fixture-customer-id"),
        Method::Get,
        "http://127.0.0.1:4010/api/customers/fixture-customer-id",
        200,
        r#"{"id": "fixture-customer-id", "company_name": "Fixture"}"#,
    );
    assert!(
        field(&resp.body, "id").map_or(false, |v| v.is_string()),
        "expected string id, got {:?}",
        field(&resp.body, "id")
    );
}

#[test]
fn invoices() {
    let client = replay_client();
    let request = client.invoices().list(Default::default()).expect("invoices list");
    let resp = answer(
        &request.request,
        Method::Get,
        "http://127.0.0.1:4010/api/invoices?limit=100",
        200,
        r#"{"data": [{"id": "fixture-invoice-id"}], "has_more": true, "next_cursor": "c2"}"#,
    );
    let page = Page::from_response(&client, request, resp);
    assert!(!page.data.is_empty(), "expected data rows");
    assert_eq!(
        page.next().map(|p| p.request.url),
        Some(s("http://127.0.0.1:4010/api/invoices?limit=100&cursor=c2"))
    );

    answer(
        &client.invoices().get("fixture-invoice-id"),
        Method::Get,
        "http://127.0.0.1:4010/api/invoices/fixture-invoice-id",
        200,
        r#"{"id": "fixture-invoice-id"}"#,
    );
}

#[test]
fn payment_links() {
    let client = replay_client();
    let request = client
        .payment_links()
        .list(Default::default())
        .expect("payment links list");
    answer(
        &request.request,
        Method::Get,
        "http://127.0.0.1:4010/api/payment_links?limit=100",
        200,
        r#"{"data": [], "has_more": false, "next_cursor": null}"#,
    );

    let attributes = obj(vec![
        ("account_id", JsonValue::Str(s("fixture-account-id"))),
        ("amount", JsonValue::Str(s("100.00"))),
        ("title", JsonValue::Str(s("SDK fixture"))),
        ("description", JsonValue::Str(s("Created by zazu-ruby fixture spec"))),
        ("link_type", JsonValue::Str(s("single"))),
    ]);
    let request = client.payment_links().create(&attributes);
    assert_eq!(format!("{:?}", request.body), format!("{:?}", Some(&attributes)));
    let resp = answer(
        &request,
        Method::Post,
        "http://127.0.0.1:4010/api/payment_links",
        201,
        r#"{"id": "fixture-payment-link-id", "status": "active"}"#,
    );
    assert_eq!(resp.status, 201, "expected 201, got {}", resp.status);

    let request = client
        .payment_links()
        .cancel("fixture-cancellable-payment-link-id");
    assert!(request.body.is_none());
    answer(
        &request,
        Method::Post,
        "http://127.0.0.1:4010/api/payment_links/fixture-cancellable-payment-link-id/cancel",
        200,
        r#"{"id": "fixture-cancellable-payment-link-id", "status": "cancelled"}"#,
    );
}

#[test]
fn checkout_sessions() {
    let client = replay_client();
    let resp = answer(
        &client.checkout_sessions().get("fixture-checkout-session-id"),
        Method::Get,
        "http://127.0.0.1:4010/api/checkout_sessions/fixture-checkout-session-id",
        200,
        r#"{"id": "fixture-checkout-session-id"}"#,
    );
    assert!(
        field(&resp.body, "id").map_or(false, |v| v.is_string()),
        "expected string id, got {:?}",
        field(&resp.body, "id")
    );
}

#[test]
fn webhook_endpoints() {
    let client = replay_client();
    let request = client
        .webhook_endpoints()
        .list(Default::default())
        .expect("webhook endpoints list");
    answer(
        &request.request,
        Method::Get,
        "http://127.0.0.1:4010/api/webhook_endpoints?limit=100",
        200,
        r#"{"data": [], "has_more": false, "next_cursor": null}"#,
    );
    answer(
        &client.webhook_endpoints().get("fixture-webhook-id"),
        Method::Get,
        "http://127.0.0.1:4010/api/webhook_endpoints/fixture-webhook-id",
        200,
        r#"{"id": "fixture-webhook-id"}"#,
    );
}

#[test]
fn transfer_drafts() {
    let client = replay_client();
    let attributes = obj(vec![
        ("account_id", JsonValue::Str(s("fixture-account-id"))),
        ("beneficiary_id", JsonValue::Str(s("fixture-beneficiary-id"))),
        ("amount", JsonValue::Str(s("150.00"))),
        ("payment_reference", JsonValue::Str(s("SDK fixture"))),
    ]);
    let resp = answer(
        &client.transfer_drafts().create(&attributes),
        Method::Post,
        "http://127.0.0.1:4010/api/transfer_drafts",
        201,
        r#"{"id": "fixture-transfer-draft-id", "status": "requested", "transfer": null}"#,
    );
    assert_eq!(resp.status, 201, "expected 201, got {}", resp.status);
    assert_eq!(
        field(&resp.body, "status").and_then(|v| v.as_str()).map(|v| v.as_str()),
        Some("requested"),
        "expected requested status (awaiting in-app approval), got {:?}",
        field(&resp.body, "status")
    );
    assert!(
        field(&resp.body, "transfer").map_or(false, |v| v.is_null()),
        "expected null transfer before approval, got {:?}",
        field(&resp.body, "transfer")
    );

    let got = answer(
        &client.transfer_drafts().get("fixture-transfer-draft-id"),
        Method::Get,
        "http://127.0.0.1:4010/api/transfer_drafts/fixture-transfer-draft-id",
        200,
        r#"{"id": "fixture-transfer-draft-id", "status": "processing"}"#,
    );
    assert!(
        field(&got.body, "status").map_or(false, |v| v.is_string()),
        "expected string status, got {:?}",
        field(&got.body, "status")
    );
}

#[test]
fn beneficiaries() {
    let client = replay_client();
    let request = client
        .beneficiaries()
        .list(Default::default())
        .expect("beneficiaries list");
    let resp = answer(
        &request.request,
        Method::Get,
        "http://127.0.0.1:4010/api/beneficiaries?limit=100",
        200,
        r#"{"data": [{"id": "fixture-beneficiary-id", "external_accounts": [{"id": "ea_1", "default": true}]}], "has_more": false, "next_cursor": null}"#,
    );
    let page = Page::from_response(&client, request, resp);
    assert!(!page.data.is_empty(), "expected at least one beneficiary");
    let external = page.data[0]
        .iter()
        .find(|(k, _)| k == "external_accounts")
        .map(|(_, v)| v);
    assert!(
        external.map_or(false, |v| v.is_array()),
        "expected embedded external_accounts, got {:?}",
        external
    );

    let resp = answer(
        &client.beneficiaries().get("fixture-beneficiary-id"),
        Method::Get,
        "http://127.0.0.1:4010/api/beneficiaries/fixture-beneficiary-id",
        200,
        r#"{"id": "fixture-beneficiary-id"}"#,
    );
    assert!(
        field(&resp.body, "id").map_or(false, |v| v.is_string()),
        "expected string id, got {:?}",
        field(&resp.body, "id")
    );
}
