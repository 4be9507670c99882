use example_indexer::api::metrics::{metric_group_patterns, metric_route_pattern_list, strip_path_params};
use example_indexer::api::openapi::{get_open_api, versioned_url};
use example_indexer::api::v1::example::hello_reply;
use example_indexer::api::v1::example::requests::HelloRequest;
use example_indexer::api::v1::example::responses::HelloResponse;
use example_indexer::api::error::Error;
use example_indexer::sqlx_client::users::{get_user, new_user};

#[test]
fn open_api_lists_production_then_test() {
    let doc = get_open_api("v1", "https://api.example.com", "https://test.example.com");
    assert_eq!(doc.description.as_deref(), Some("an example API"));
    assert_eq!(doc.servers.len(), 2);
    assert_eq!(doc.servers[0].url, "https://api.example.com/v1");
    assert_eq!(doc.servers[0].description.as_deref(), Some("production"));
    assert_eq!(doc.servers[1].url, "https://test.example.com/v1");
    assert_eq!(doc.servers[1].description.as_deref(), Some("test"));
}

#[test]
fn versioned_url_joins_with_a_slash() {
    assert_eq!(versioned_url("", "v2"), "/v2");
    assert_eq!(versioned_url("http://h/", "v1"), "http://h//v1");
}

#[test]
fn strip_path_params_drops_colons() {
    assert_eq!(strip_path_params("/v1/pairs/address/:address"), "/v1/pairs/address/address");
    assert_eq!(strip_path_params("::"), "");
    assert_eq!(strip_path_params("/plain"), "/plain");
    assert_eq!(strip_path_params("/é/:ü"), "/é/ü");
}

#[test]
fn metric_groups_are_the_registered_ones() {
    let groups = metric_group_patterns();
    let expected: Vec<(&str, &str)> = vec![
        ("/v2/pools/address/address", "/v2/pools/address/:address"),
        ("/v1/pairs/address/address", "/v1/pairs/address/:address"),
        (
            "/v1/pairs/left/left_address/right/right_address",
            "/v1/pairs/left/:left_address/right/:right_address",
        ),
        (
            "/v1/pairs/left/left_address/right/right_address/ohlcv",
            "/v1/pairs/left/:left_address/right/:right_address/ohlcv",
        ),
        ("/v1/pairs/address/address/ohlcv", "/v1/pairs/address/:address/ohlcv"),
        ("/v1/pairs/address/address/volume", "/v1/pairs/address/:address/volume"),
        ("/v1/pairs/address/address/tvl", "/v1/pairs/address/:address/tvl"),
        ("/v1/pairs/address/address/fee", "/v1/pairs/address/:address/fee"),
        ("/v1/pairs/pool/pool_address/ts/timestamp", "/v1/pairs/pool/:pool_address/ts/:timestamp"),
        ("/v1/currencies/currency_address", "/v1/currencies/:currency_address"),
        ("/v1/currencies/currency_address/prices", "/v1/currencies/:currency_address/prices"),
        ("/v1/currencies/currency_address/volume", "/v1/currencies/:currency_address/volume"),
        ("/v1/currencies/currency_address/tvl", "/v1/currencies/:currency_address/tvl"),
        ("/v1/currencies/currency_address/fee", "/v1/currencies/:currency_address/fee"),
    ];
    assert_eq!(groups.len(), expected.len());
    for (got, want) in groups.iter().zip(expected.iter()) {
        assert_eq!(got.0, want.0);
        assert_eq!(got.1, want.1);
    }
    assert_eq!(metric_route_pattern_list().len(), 14);
}

#[test]
fn metric_groups_hold_no_colon_and_are_distinct() {
    let groups = metric_group_patterns();
    for (group, pattern) in groups.iter() {
        assert!(!group.contains(':'));
        assert_ne!(group, pattern);
    }
    for i in 0..groups.len() {
        for j in (i + 1)..groups.len() {
            assert_ne!(groups[i].0, groups[j].0);
        }
    }
}

#[test]
fn hello_answers_with_the_found_user() {
    let reply = hello_reply(Ok("0:abc".to_string()));
    assert_eq!(reply.ok().unwrap().user, "0:abc");
}

#[test]
fn hello_answers_lookup_errors() {
    let reply = hello_reply(Err(anyhow::Error::msg("user not found")));
    assert!(matches!(reply, Err(Error::NotFound)));
    let reply = hello_reply(Err(anyhow::Error::msg("db timeout")));
    match reply {
        Err(err) => assert_eq!(err.status_code(), 500),
        Ok(_) => panic!("expected an error"),
    }
}

#[test]
fn hello_on_any_address_answers_the_example_user() {
    for address in ["", "0:abc", "someone"] {
        let reply = hello_reply(get_user(address));
        assert_eq!(reply.ok().unwrap().user, "example user address");
    }
}

#[test]
fn storing_a_user_succeeds() {
    assert!(new_user("0:abc").is_ok());
}

#[test]
fn hello_request_default_and_clone() {
    let req = HelloRequest::default();
    assert_eq!(req.user_address, "");
    let req = HelloRequest { user_address: "0:1".to_string() };
    assert_eq!(req.clone().user_address, "0:1");
    let resp = HelloResponse { user: "u".to_string() };
    assert_eq!(resp.clone().user, "u");
}
