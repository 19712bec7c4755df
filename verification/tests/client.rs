use zazu_sdk::{Client, Error, ListParams, MAX_PER_PAGE};

#[test]
fn list_limit_validation() {
    let client = Client::builder()
        .api_key("test")
        .base_url("http://127.0.0.1:1")
        .build()
        .expect("build client");

    let err = client
        .beneficiaries()
        .list(ListParams {
            limit: Some(MAX_PER_PAGE + 1),
            ..Default::default()
        })
        .expect_err("expected limit validation error");
    assert!(
        matches!(err, Error::Configuration(_)),
        "expected Error::Configuration, got {err:?}"
    );
}

#[test]
fn new_requires_api_key() {
    match Client::new(None, None, None) {
        Err(err) => assert!(
            matches!(err, Error::Configuration(_)),
            "expected Error::Configuration, got {err:?}"
        ),
        Ok(_) => panic!("expected configuration error without an API key"),
    }
}
