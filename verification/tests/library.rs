use std::time::Duration;

use zazu_sdk::text::{decimal, parse_u64};
use zazu_sdk::{
    encode_component, new_api_error, read_response, status_text, AccountListParams, Client,
    CustomerListParams, Error, ErrorKind, JsonValue, ListParams, Method, Page, Response,
    TransactionListParams,
};

fn s(text: &str) -> String {
    text.to_owned()
}

fn obj(entries: Vec<(&str, JsonValue)>) -> JsonValue {
    JsonValue::Object(entries.into_iter().map(|(k, v)| (s(k), v)).collect())
}

fn client() -> Client {
    Client::builder()
        .api_key("sk_test")
        .base_url("https://api.example.test/")
        .build()
        .expect("build client")
}

fn header_pairs(headers: &[(String, String)]) -> Vec<(&str, &str)> {
    headers.iter().map(|(k, v)| (k.as_str(), v.as_str())).collect()
}

#[test]
fn encode_keeps_unreserved_characters() {
    assert_eq!(encode_component("AZaz09-._~"), "AZaz09-._~");
    assert_eq!(encode_component(""), "");
}

#[test]
fn encode_escapes_reserved_bytes_in_upper_hex() {
    assert_eq!(encode_component("a b/c?d&e=f#"), "a%20b%2Fc%3Fd%26e%3Df%23");
    assert_eq!(encode_component("%"), "%25");
    assert_eq!(encode_component("é"), "%C3%A9");
}

#[test]
fn error_kind_from_status() {
    assert_eq!(ErrorKind::from_status(401), ErrorKind::Authentication);
    assert_eq!(ErrorKind::from_status(403), ErrorKind::Forbidden);
    assert_eq!(ErrorKind::from_status(404), ErrorKind::NotFound);
    assert_eq!(ErrorKind::from_status(422), ErrorKind::Validation);
    assert_eq!(ErrorKind::from_status(429), ErrorKind::RateLimit);
    assert_eq!(ErrorKind::from_status(500), ErrorKind::Server);
    assert_eq!(ErrorKind::from_status(503), ErrorKind::Server);
    assert_eq!(ErrorKind::from_status(599), ErrorKind::Server);
    assert_eq!(ErrorKind::from_status(600), ErrorKind::Api);
    assert_eq!(ErrorKind::from_status(999), ErrorKind::Api);
    assert_eq!(ErrorKind::from_status(400), ErrorKind::Api);
    assert_eq!(ErrorKind::from_status(302), ErrorKind::Api);
}

#[test]
fn error_kind_wire_names() {
    assert_eq!(ErrorKind::Authentication.as_str(), "authentication");
    assert_eq!(ErrorKind::Forbidden.as_str(), "forbidden");
    assert_eq!(ErrorKind::NotFound.as_str(), "not_found");
    assert_eq!(ErrorKind::Validation.as_str(), "validation");
    assert_eq!(ErrorKind::RateLimit.as_str(), "rate_limit");
    assert_eq!(ErrorKind::Server.as_str(), "server");
    assert_eq!(ErrorKind::Api.as_str(), "api");
    assert_eq!(ErrorKind::RateLimit.to_string(), "rate_limit");
}

#[test]
fn status_texts() {
    assert_eq!(status_text(400), "Bad Request");
    assert_eq!(status_text(404), "Not Found");
    assert_eq!(status_text(429), "Too Many Requests");
    assert_eq!(status_text(504), "Gateway Timeout");
    assert_eq!(status_text(418), "HTTP Error");
}

#[test]
fn api_error_reads_the_error_envelope() {
    let body = obj(vec![(
        "error",
        obj(vec![
            ("type", JsonValue::Str(s("invalid_request"))),
            ("message", JsonValue::Str(s("amount is required"))),
            ("param", JsonValue::Str(s("amount"))),
        ]),
    )]);
    match new_api_error(422, Some(s("req_1")), Some(30), body) {
        Error::Api(e) => {
            assert_eq!(e.status, 422);
            assert_eq!(e.kind, ErrorKind::Validation);
            assert_eq!(e.error_type.as_deref(), Some("invalid_request"));
            assert_eq!(e.message, "amount is required");
            assert_eq!(e.param.as_deref(), Some("amount"));
            assert_eq!(e.request_id.as_deref(), Some("req_1"));
            assert_eq!(e.retry_after, None);
        }
        other => panic!("expected Error::Api, got {other:?}"),
    }
}

#[test]
fn api_error_message_falls_back_to_status_text() {
    let body = obj(vec![("error", obj(vec![("message", JsonValue::Bool(true))]))]);
    match new_api_error(404, None, None, body) {
        Error::Api(e) => {
            assert_eq!(e.message, "Not Found");
            assert_eq!(e.error_type, None);
            assert_eq!(e.param, None);
        }
        other => panic!("expected Error::Api, got {other:?}"),
    }
}

#[test]
fn retry_after_is_kept_only_for_rate_limit() {
    match new_api_error(429, None, Some(7), JsonValue::Null) {
        Error::Api(e) => {
            assert_eq!(e.kind, ErrorKind::RateLimit);
            assert_eq!(e.retry_after, Some(7));
            assert_eq!(e.message, "Too Many Requests");
        }
        other => panic!("expected Error::Api, got {other:?}"),
    }
    match new_api_error(503, None, Some(7), JsonValue::Null) {
        Error::Api(e) => assert_eq!(e.retry_after, None),
        other => panic!("expected Error::Api, got {other:?}"),
    }
}

#[test]
fn read_response_returns_success_bodies_as_is() {
    let raw = br#"{"id": "ent_1", "count": 3}"#.to_vec();
    let resp = read_response(201, Some(s("req_9")), None, raw.clone()).expect("2xx is a success");
    assert_eq!(resp.status, 201);
    assert_eq!(resp.request_id.as_deref(), Some("req_9"));
    assert!(resp.body.get("id").map_or(false, |v| v.is_string()));
    assert_eq!(format!("{:?}", resp.body.get("count")), format!("{:?}", Some(&JsonValue::Number(s("3")))));
    assert_eq!(resp.raw, raw);

    let resp = read_response(200, None, None, b"{}".to_vec()).expect("2xx is a success");
    assert!(matches!(resp.body, JsonValue::Object(ref entries) if entries.is_empty()));
}

#[test]
fn read_response_without_json_gives_null_body() {
    let resp = read_response(204, None, None, Vec::new()).expect("2xx is a success");
    assert!(resp.body.is_null());
    assert!(resp.raw.is_empty());
    let resp = read_response(200, None, None, b"not json".to_vec()).expect("2xx is a success");
    assert!(resp.body.is_null());
    assert_eq!(resp.raw, b"not json".to_vec());
}

#[test]
fn read_response_turns_non_2xx_into_api_errors() {
    let err = read_response(429, None, Some(s("+12")), b"oops".to_vec()).expect_err("429 is an error");
    match err {
        Error::Api(e) => {
            assert_eq!(e.kind, ErrorKind::RateLimit);
            assert_eq!(e.retry_after, Some(12));
            assert!(e.body.is_null());
        }
        other => panic!("expected Error::Api, got {other:?}"),
    }
    let err = read_response(429, None, Some(s("soon")), Vec::new()).expect_err("error");
    match err {
        Error::Api(e) => assert_eq!(e.retry_after, None),
        other => panic!("expected Error::Api, got {other:?}"),
    }
    let raw = br#"{"error": {"type": "invalid_request", "message": "amount is required", "param": "amount"}}"#;
    match read_response(422, Some(s("req_2")), None, raw.to_vec()).expect_err("422 is an error") {
        Error::Api(e) => {
            assert_eq!(e.kind, ErrorKind::Validation);
            assert_eq!(e.message, "amount is required");
            assert_eq!(e.error_type.as_deref(), Some("invalid_request"));
            assert_eq!(e.param.as_deref(), Some("amount"));
            assert_eq!(e.request_id.as_deref(), Some("req_2"));
        }
        other => panic!("expected Error::Api, got {other:?}"),
    }
    assert!(read_response(300, None, None, Vec::new()).is_err());
    assert!(read_response(199, None, None, Vec::new()).is_err());
    assert!(read_response(299, None, None, Vec::new()).is_ok());
}

#[test]
fn error_display_strings() {
    let with_param = new_api_error(
        422,
        None,
        None,
        obj(vec![(
            "error",
            obj(vec![
                ("message", JsonValue::Str(s("bad amount"))),
                ("param", JsonValue::Str(s("amount"))),
            ]),
        )]),
    );
    assert_eq!(
        with_param.to_string(),
        "zazu: bad amount (422 validation, param amount)"
    );
    let without_param = new_api_error(500, None, None, JsonValue::Null);
    assert_eq!(
        without_param.to_string(),
        "zazu: Internal Server Error (500 server)"
    );
    assert_eq!(Error::Configuration(s("bad")).to_string(), "zazu: bad");
    assert_eq!(
        Error::Connection(s("refused")).to_string(),
        "zazu: connection error: refused"
    );
}

#[test]
fn build_requires_an_api_key() {
    match Client::builder().base_url("http://localhost").build() {
        Err(Error::Configuration(message)) => assert_eq!(
            message,
            "missing API key: pass ClientBuilder::api_key or set ZAZU_API_KEY"
        ),
        Err(other) => panic!("expected Error::Configuration, got {other:?}"),
        Ok(_) => panic!("expected an error without an API key"),
    }
}

#[test]
fn build_defaults_and_trims_the_base_url() {
    let c = Client::builder().api_key("k").build().expect("build");
    assert_eq!(c.base_url(), "https://zazu.ma");
    assert_eq!(c.timeout(), Duration::from_secs(30));
    assert!(c.api_version().is_none());

    let c = Client::builder()
        .api_key("k")
        .base_url("http://127.0.0.1:8080///")
        .api_version("2025-01-01")
        .timeout(Duration::from_secs(5))
        .build()
        .expect("build");
    assert_eq!(c.base_url(), "http://127.0.0.1:8080");
    assert_eq!(c.api_version().map(|v| v.as_str()), Some("2025-01-01"));
    assert_eq!(c.timeout(), Duration::from_secs(5));
}

#[test]
fn environment_fills_only_unset_settings() {
    let c = Client::builder()
        .api_key("explicit")
        .with_env(Some(s("from_env")), Some(s("")), Some(s("v2")))
        .build()
        .expect("build");
    let request = c.entity().get();
    assert_eq!(request.url, "https://zazu.ma/api/entity");
    assert!(header_pairs(&request.headers).contains(&("Authorization", "Bearer explicit")));
    assert_eq!(c.api_version().map(|v| v.as_str()), Some("v2"));

    assert!(matches!(
        Client::new(Some(s("")), None, None),
        Err(Error::Configuration(_))
    ));
    let c = Client::new(Some(s("env_key")), Some(s("http://h/")), None).expect("build");
    assert_eq!(c.base_url(), "http://h");
}

#[test]
fn requests_carry_the_client_headers() {
    let request = client().entity().get();
    assert_eq!(request.method, Method::Get);
    assert_eq!(request.url, "https://api.example.test/api/entity");
    assert_eq!(
        header_pairs(&request.headers),
        vec![
            ("Authorization", "Bearer sk_test"),
            ("User-Agent", "zazu-rust/0.2.1"),
            ("Accept", "application/json"),
        ]
    );
    assert!(request.body.is_none());

    let pinned = Client::builder()
        .api_key("sk_test")
        .api_version("2024-06-01")
        .build()
        .expect("build");
    let request = pinned.beneficiaries().get("b1");
    assert_eq!(
        header_pairs(&request.headers).last(),
        Some(&("Zazu-Version", "2024-06-01"))
    );
}

#[test]
fn ids_are_percent_encoded_into_the_path() {
    let c = client();
    assert_eq!(
        c.accounts().get("acc/1 x").url,
        "https://api.example.test/api/accounts/acc%2F1%20x"
    );
    assert_eq!(
        c.accounts().get_transaction("a", "t?1").url,
        "https://api.example.test/api/accounts/a/transactions/t%3F1"
    );
    let request = c.invoices().mark_as_paid("inv_1");
    assert_eq!(request.method, Method::Post);
    assert_eq!(
        request.url,
        "https://api.example.test/api/invoices/inv_1/mark_as_paid"
    );
    assert!(request.body.is_none());
    let request = c.customers().delete("cus_1");
    assert_eq!(request.method, Method::Delete);
    assert_eq!(request.url, "https://api.example.test/api/customers/cus_1");
    let request = c.webhook_endpoints().regenerate_secret("wh 1");
    assert_eq!(
        request.url,
        "https://api.example.test/api/webhook_endpoints/wh%201/regenerate_secret"
    );
}

#[test]
fn create_and_update_send_the_attributes() {
    let c = client();
    let attributes = obj(vec![
        ("amount", JsonValue::Str(s("150.00"))),
        ("tags", JsonValue::Array(vec![JsonValue::Number(s("1")), JsonValue::Null])),
    ]);
    let request = c.transfer_drafts().create(&attributes);
    assert_eq!(request.method, Method::Post);
    assert_eq!(request.url, "https://api.example.test/api/transfer_drafts");
    let body = request.body.expect("a body");
    assert_eq!(format!("{body:?}"), format!("{attributes:?}"));

    let request = c.customers().update("cus 1", &attributes);
    assert_eq!(request.method, Method::Patch);
    assert_eq!(request.url, "https://api.example.test/api/customers/cus%201");
    assert!(request.body.is_some());

    let request = c.invoices().create_payment_link("inv_1", "acc_9");
    assert_eq!(
        request.url,
        "https://api.example.test/api/invoices/inv_1/payment_link"
    );
    let body = request.body.expect("a body");
    assert_eq!(
        body.get("account_id").and_then(|v| v.as_str()).map(|v| v.as_str()),
        Some("acc_9")
    );
}

#[test]
fn list_requests_carry_filters_limit_and_cursor() {
    let c = client();
    let page = c
        .accounts()
        .list(AccountListParams {
            status: Some(s("active")),
            currency_code: Some(s("")),
            ..Default::default()
        })
        .expect("valid limit");
    assert_eq!(
        page.request.url,
        "https://api.example.test/api/accounts?status=active&limit=100"
    );
    assert_eq!(page.limit, 100);

    let page = c
        .customers()
        .list(CustomerListParams {
            list: ListParams {
                limit: Some(5),
                cursor: Some(s("c/2")),
            },
            q: Some(s("a&b")),
        })
        .expect("valid limit");
    assert_eq!(
        page.request.url,
        "https://api.example.test/api/customers?q=a%26b&limit=5&cursor=c%2F2"
    );

    let page = c
        .accounts()
        .list_transactions(
            "acc 1",
            TransactionListParams {
                operation: Some(s("debit")),
                posted_before: Some(s("2024-01-01")),
                ..Default::default()
            },
        )
        .expect("valid limit");
    assert_eq!(
        page.request.url,
        "https://api.example.test/api/accounts/acc%201/transactions?operation=debit&posted_before=2024-01-01&limit=100"
    );
}

#[test]
fn list_rejects_out_of_range_limits() {
    let c = client();
    for limit in [0u32, 101, u32::MAX] {
        match c.webhook_endpoints().list(ListParams {
            limit: Some(limit),
            cursor: None,
        }) {
            Err(Error::Configuration(message)) => assert_eq!(
                message,
                format!("limit must be between 1 and 100 (got {limit})")
            ),
            Err(other) => panic!("expected Error::Configuration, got {other:?}"),
            Ok(_) => panic!("limit {limit} should be refused"),
        }
    }
    assert!(c.payment_links().list(Default::default()).is_ok());
    assert!(c
        .invoices()
        .list(zazu_sdk::InvoiceListParams {
            list: ListParams {
                limit: Some(1),
                cursor: None
            },
            ..Default::default()
        })
        .is_ok());
}

#[test]
fn page_reads_rows_and_follows_the_cursor() {
    let c = client();
    let request = c
        .invoices()
        .list(zazu_sdk::InvoiceListParams {
            status: Some(s("paid")),
            list: ListParams {
                limit: Some(2),
                cursor: None,
            },
            ..Default::default()
        })
        .expect("valid limit");
    let body = obj(vec![
        (
            "data",
            JsonValue::Array(vec![
                obj(vec![("id", JsonValue::Str(s("inv_1")))]),
                JsonValue::Str(s("not an object")),
                obj(vec![("id", JsonValue::Str(s("inv_2")))]),
            ]),
        ),
        ("has_more", JsonValue::Bool(true)),
        ("next_cursor", JsonValue::Str(s("cur_3"))),
    ]);
    let response = Response {
        status: 200,
        request_id: None,
        body,
        raw: Vec::new(),
    };
    let page = Page::from_response(&c, request, response);
    assert_eq!(page.data.len(), 2);
    assert_eq!(page.data[0][0].0, "id");
    assert!(page.has_more);
    assert_eq!(page.next_cursor.as_deref(), Some("cur_3"));

    let next = page.next().expect("another page follows");
    assert_eq!(
        next.request.url,
        "https://api.example.test/api/invoices?status=paid&limit=2&cursor=cur_3"
    );
    assert_eq!(next.cursor.as_deref(), Some("cur_3"));

    let last = Page::from_response(
        &c,
        next,
        Response {
            status: 200,
            request_id: None,
            body: obj(vec![("has_more", JsonValue::Bool(false))]),
            raw: Vec::new(),
        },
    );
    assert!(last.data.is_empty());
    assert!(!last.has_more);
    assert!(last.next().is_none());
}

#[test]
fn page_without_cursor_is_the_last() {
    let c = client();
    let request = c.beneficiaries().list(Default::default()).expect("valid");
    let body = obj(vec![
        ("data", JsonValue::Str(s("not an array"))),
        ("has_more", JsonValue::Bool(true)),
    ]);
    let page = Page::from_response(
        &c,
        request,
        Response {
            status: 200,
            request_id: None,
            body,
            raw: Vec::new(),
        },
    );
    assert!(page.data.is_empty());
    assert!(page.next().is_none());
}

#[test]
fn json_get_takes_the_first_matching_member() {
    let v = obj(vec![
        ("a", JsonValue::Str(s("first"))),
        ("a", JsonValue::Str(s("second"))),
        ("b", JsonValue::Bool(false)),
    ]);
    assert_eq!(
        v.get("a").and_then(|x| x.as_str()).map(|x| x.as_str()),
        Some("first")
    );
    assert_eq!(v.get("b").and_then(|x| x.as_bool()), Some(false));
    assert!(v.get("c").is_none());
    assert!(JsonValue::Str(s("a")).get("a").is_none());
}

#[test]
fn decimal_and_unsigned_parsing() {
    assert_eq!(decimal(0), "0");
    assert_eq!(decimal(1234567890), "1234567890");
    assert_eq!(decimal(u64::MAX), "18446744073709551615");
    assert_eq!(parse_u64("42"), Some(42));
    assert_eq!(parse_u64("+7"), Some(7));
    assert_eq!(parse_u64("007"), Some(7));
    assert_eq!(parse_u64("18446744073709551615"), Some(u64::MAX));
    assert_eq!(parse_u64("18446744073709551616"), None);
    assert_eq!(parse_u64(""), None);
    assert_eq!(parse_u64("+"), None);
    assert_eq!(parse_u64("-1"), None);
    assert_eq!(parse_u64("1 "), None);
    assert_eq!(parse_u64("１"), None);
}

#[test]
fn decimal_reads_back() {
    for n in [0u64, 9, 10, 99, 100, 4096, u64::MAX - 1, u64::MAX] {
        assert_eq!(parse_u64(&decimal(n)), Some(n));
    }
}

#[test]
fn clones_keep_their_contents() {
    let c = client();
    let copy = c.clone();
    assert_eq!(copy.base_url(), c.base_url());
    let request = c.payment_links().list(Default::default()).expect("valid");
    let body = obj(vec![
        ("data", JsonValue::Array(vec![obj(vec![("id", JsonValue::Str(s("pl_1")))])])),
        ("has_more", JsonValue::Bool(true)),
        ("next_cursor", JsonValue::Str(s("n1"))),
    ]);
    let page = Page::from_response(
        &c,
        request,
        Response {
            status: 200,
            request_id: Some(s("r")),
            body,
            raw: b"{}".to_vec(),
        },
    );
    let copy = page.clone();
    assert_eq!(format!("{:?}", copy.data), format!("{:?}", page.data));
    assert_eq!(copy.next_cursor, page.next_cursor);
    assert_eq!(copy.response.raw, page.response.raw);
    assert_eq!(copy.response.request_id, page.response.request_id);
    assert_eq!(
        copy.next().map(|p| p.request.url),
        page.next().map(|p| p.request.url)
    );
}

#[test]
fn get_and_delete_requests_carry_no_body() {
    let c = client();
    let attributes = obj(vec![("a", JsonValue::Bool(true))]);
    let query: Vec<(String, String)> = vec![(s("k"), s("v w"))];
    let get = c.request(Method::Get, "/api/x", &query, Some(attributes.clone()));
    assert!(get.body.is_none());
    assert_eq!(get.url, "https://api.example.test/api/x?k=v%20w");
    let delete = c.request(Method::Delete, "api/x", &[], Some(attributes.clone()));
    assert!(delete.body.is_none());
    let post = c.request(Method::Post, "api/x", &[], Some(attributes.clone()));
    assert!(post.body.is_some());
    let patch = c.request(Method::Patch, "api/x", &[], None);
    assert!(patch.body.is_none());
}

#[test]
fn read_parsed_response_uses_the_given_body() {
    let body = obj(vec![("id", JsonValue::Str(s("x")))]);
    let resp = zazu_sdk::read_parsed_response(200, None, None, b"ignored".to_vec(), Some(body))
        .expect("2xx is a success");
    assert!(resp.body.get("id").map_or(false, |v| v.is_string()));
    assert_eq!(resp.raw, b"ignored".to_vec());
    match zazu_sdk::read_parsed_response(404, None, Some(s("5")), Vec::new(), None) {
        Err(Error::Api(e)) => {
            assert_eq!(e.kind, ErrorKind::NotFound);
            assert_eq!(e.retry_after, None);
            assert!(e.body.is_null());
        }
        other => panic!("expected Error::Api, got {:?}", other.err()),
    }
}
