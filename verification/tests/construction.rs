use consul::uri::{parse, ParsedUri};
use consul::{Client, InvalidUri};

#[test]
fn an_absolute_uri_makes_a_client() {
    let client = Client::new("http://127.0.0.1:8500").unwrap();
    assert_eq!(client.base_uri(), "http://127.0.0.1:8500");
}

#[test]
fn the_base_uri_is_kept_as_given() {
    let client = Client::new("https://consul.example/ui/").unwrap();
    assert_eq!(client.base_uri(), "https://consul.example/ui/");
}

#[test]
fn a_text_that_is_no_absolute_uri_fails_at_construction() {
    assert!(matches!(Client::new("::not a uri::"), Err(InvalidUri::NotAbsolute)));
}

#[test]
fn an_empty_url_is_malformed() {
    assert!(matches!(Client::new(""), Err(InvalidUri::Malformed(_))));
}

#[test]
fn a_url_without_authority_is_malformed() {
    assert!(matches!(Client::new("http://"), Err(InvalidUri::Malformed(_))));
    assert!(matches!(Client::new("http:///v1"), Err(InvalidUri::Malformed(_))));
}

#[test]
fn a_url_with_one_bracket_is_malformed() {
    assert!(matches!(Client::new("http://[::1:8500"), Err(InvalidUri::Malformed(_))));
    assert!(Client::new("http://[::1]:8500").is_ok());
}

#[test]
fn a_host_with_a_path_but_no_scheme_is_malformed() {
    assert!(matches!(Client::new("127.0.0.1:8500/v1"), Err(InvalidUri::Malformed(_))));
}

#[test]
fn other_forms_of_uri_are_not_absolute() {
    assert!(matches!(Client::new("/v1/kv"), Err(InvalidUri::NotAbsolute)));
    assert!(matches!(Client::new("*"), Err(InvalidUri::NotAbsolute)));
    assert!(matches!(Client::new("localhost:8500"), Err(InvalidUri::NotAbsolute)));
}

#[test]
fn parse_tells_the_form_and_keeps_the_text() {
    let absolute = parse("http://127.0.0.1:8500").unwrap();
    assert!(absolute.absolute);
    assert_eq!(absolute.text, "http://127.0.0.1:8500");
    let origin = parse("/v1/kv/x?recurse").unwrap();
    assert!(!origin.absolute);
    assert_eq!(origin.text, "/v1/kv/x?recurse");
    assert!(matches!(parse(""), Err(InvalidUri::Malformed(_))));
}

#[test]
fn a_client_is_bound_only_at_an_absolute_uri() {
    let relative = ParsedUri { text: "/v1".to_string(), absolute: false };
    assert!(matches!(relative.into_absolute(), Err(InvalidUri::NotAbsolute)));
    let relative = ParsedUri { text: "/v1".to_string(), absolute: false };
    assert!(matches!(Client::at(relative), Err(InvalidUri::NotAbsolute)));
    let absolute = ParsedUri { text: "http://h".to_string(), absolute: true };
    assert_eq!(absolute.into_absolute().unwrap(), "http://h");
    let absolute = ParsedUri { text: "http://h".to_string(), absolute: true };
    assert_eq!(Client::at(absolute).unwrap().base_uri(), "http://h");
}

fn shareable<T: Send + Sync>(_: &T) {}

#[test]
fn a_client_and_its_endpoints_can_be_shared_between_threads() {
    let client = Client::new("http://127.0.0.1:8500").unwrap();
    shareable(&client);
    shareable(&client.agent());
    shareable(&client.kv());
}
