use indexer_client::camel::to_camel_case;
use indexer_client::params::{encode_query, optional_param, required_param, ParamPair};
use indexer_client::render::{bool_to_str, u64_to_dec};
use indexer_client::rest::{complete_request, normalize_host, RestHandler};

fn pair(key: &str, value: Option<&str>) -> ParamPair {
    ParamPair { key: key.to_string(), value: value.map(|v| v.to_string()) }
}

#[test]
fn camel_converts_snake_identifier() {
    assert_eq!(to_camel_case("sub_account_number"), "subAccountNumber");
}

#[test]
fn camel_is_identity_on_camel_case_input() {
    assert_eq!(to_camel_case("subAccountNumber"), "subAccountNumber");
    assert_eq!(to_camel_case("limit"), "limit");
}

#[test]
fn camel_is_idempotent() {
    let once = to_camel_case("good_til_block_before_or_at");
    let twice = to_camel_case(&once);
    assert_eq!(once, "goodTilBlockBeforeOrAt");
    assert_eq!(twice, once);
}

#[test]
fn camel_edge_cases() {
    assert_eq!(to_camel_case(""), "");
    assert_eq!(to_camel_case("_abc"), "Abc");
    assert_eq!(to_camel_case("a__b"), "aB");
    assert_eq!(to_camel_case("a_"), "a");
    assert_eq!(to_camel_case("a_1"), "a1");
}

#[test]
fn decimal_rendering_exact_values() {
    assert_eq!(u64_to_dec(0), "0");
    assert_eq!(u64_to_dec(5), "5");
    assert_eq!(u64_to_dec(507), "507");
    assert_eq!(u64_to_dec(3000), "3000");
    assert_eq!(u64_to_dec(u64::MAX), "18446744073709551615");
}

#[test]
fn bool_rendering_exact_values() {
    assert_eq!(bool_to_str(true), "true");
    assert_eq!(bool_to_str(false), "false");
}

#[test]
fn encode_joins_pairs_in_caller_order() {
    let q = encode_query(&vec![pair("a", Some("1")), pair("b", Some("2"))]);
    assert_eq!(q, "a=1&b=2");
}

#[test]
fn encode_is_order_sensitive() {
    let fwd = encode_query(&vec![pair("a", Some("1")), pair("b", Some("2"))]);
    let rev = encode_query(&vec![pair("b", Some("2")), pair("a", Some("1"))]);
    assert_eq!(rev, "b=2&a=1");
    assert_ne!(fwd, rev);
}

#[test]
fn encode_is_stable_across_calls() {
    let make = || encode_query(&vec![pair("x", Some("9")), pair("y", None), pair("z", Some("0"))]);
    assert_eq!(make(), make());
    assert_eq!(make(), "x=9&z=0");
}

#[test]
fn encode_drops_absent_values_entirely() {
    let q = encode_query(&vec![pair("a", Some("1")), pair("b", None), pair("c", Some("3"))]);
    assert_eq!(q, "a=1&c=3");
    assert!(!q.contains("b="));
    let entries: Vec<&str> = q.split('&').collect();
    assert!(entries.iter().all(|e| !e.starts_with("b=")));
}

#[test]
fn encode_keeps_present_empty_value() {
    // An explicit empty string is a value and is encoded; only absence is dropped.
    let q = encode_query(&vec![pair("k", Some(""))]);
    assert_eq!(q, "k=");
}

#[test]
fn encode_of_all_absent_is_empty() {
    let q = encode_query(&vec![pair("a", None), pair("b", None)]);
    assert_eq!(q, "");
}

#[test]
fn required_param_camel_cases_key() {
    let p = required_param("sub_account_number", "5".to_string());
    assert_eq!(p.key, "subAccountNumber");
    assert_eq!(p.value.as_deref(), Some("5"));
}

#[test]
fn optional_param_keeps_absence() {
    let p = optional_param("created_before_or_at", None);
    assert_eq!(p.key, "createdBeforeOrAt");
    assert!(p.value.is_none());
}

#[test]
fn normalize_strips_exactly_one_separator() {
    assert_eq!(normalize_host("https://indexer.example.com/".to_string()), "https://indexer.example.com");
    assert_eq!(normalize_host("https://indexer.example.com".to_string()), "https://indexer.example.com");
    assert_eq!(normalize_host("https://indexer.example.com//".to_string()), "https://indexer.example.com/");
    assert_eq!(normalize_host("".to_string()), "");
}

#[test]
fn rest_handler_accepts_valid_host() {
    let h = RestHandler::new("https://indexer.example.com/".to_string(), None).unwrap();
    assert_eq!(h.host(), "https://indexer.example.com");
    assert_eq!(h.timeout_millis(), 3000);
}

#[test]
fn rest_handler_keeps_given_timeout() {
    let h = RestHandler::new("https://indexer.example.com".to_string(), Some(5000)).unwrap();
    assert_eq!(h.timeout_millis(), 5000);
}

#[test]
fn rest_handler_rejects_non_url_host() {
    let e = RestHandler::new("not a url".to_string(), None).unwrap_err();
    assert_eq!(e.message(), "Provided api host is not a url: not a url");
    assert!(RestHandler::new("".to_string(), None).is_err());
}

#[test]
fn get_url_appends_query_only_when_nonempty() {
    let h = RestHandler::new("https://indexer.example.com".to_string(), None).unwrap();
    let url = h
        .get_url("/v4/transfers".to_string(), Some(vec![pair("limit", Some("10"))]))
        .unwrap();
    assert_eq!(url, "https://indexer.example.com/v4/transfers?limit=10");
    let bare = h
        .get_url("/v4/transfers".to_string(), Some(vec![pair("limit", None)]))
        .unwrap();
    assert_eq!(bare, "https://indexer.example.com/v4/transfers");
    let none = h.get_url("/v4/transfers".to_string(), None).unwrap();
    assert_eq!(none, "https://indexer.example.com/v4/transfers");
}

#[test]
fn post_url_has_no_query_string() {
    let h = RestHandler::new("https://indexer.example.com".to_string(), None).unwrap();
    let url = h.post_url("/v4/orders".to_string()).unwrap();
    assert_eq!(url, "https://indexer.example.com/v4/orders");
}

#[test]
fn complete_request_passes_value_through() {
    let r: Result<u32, indexer_client::errors::APIError> = complete_request(Ok(7u32));
    assert_eq!(r.unwrap(), 7);
}

#[test]
fn complete_request_wraps_failure_description() {
    let r: Result<u32, indexer_client::errors::APIError> =
        complete_request(Err("error decoding response body".to_string()));
    assert_eq!(r.unwrap_err().message(), "error decoding response body");
}

#[test]
fn undecodable_body_yields_request_error() {
    // What the transport hands back fails to decode into the expected
    // structure; the call must surface one APIError, never a partial value.
    let body = "{\"fills\": 12}";
    let decoded: Result<Vec<String>, String> =
        serde_json::from_str::<Vec<String>>(body).map_err(|e| e.to_string());
    let r = complete_request(decoded);
    assert!(r.is_err());
}
