use consul::{Check, Client, ContentType, InvalidUri, Method, RegisterService};

fn sample_service() -> RegisterService {
    RegisterService {
        ID: "hello".to_string(),
        Name: "test".to_string(),
        Tags: vec![],
        Port: 9999,
        Address: "127.0.0.1".to_string(),
        Check: Some(Check {
            http: Some("http://127.0.0.1:9999/health".into()),
            interval: "1s".into(),
            script: None,
            ttl: None,
            DeregisterCriticalServiceAfter: "24h".into(),
        }),
    }
}

#[test]
fn it_works() {
    let client = Client::new("http://127.0.0.1:8500").unwrap();
    let sr = RegisterService {
        ID: "hello".to_string(),
        Name: "test".to_string(),
        Tags: vec![],
        Port: 9999,
        Address: "127.0.0.1".to_string(),
        Check: Some(Check {
            http: Some("http://127.0.0.1:9999/health".into()),
            interval: "1s".into(),
            script: None,
            ttl: None,
            DeregisterCriticalServiceAfter: "24h".into(),
        }),
    };
    let res = client.agent().register(sr).unwrap();
    println!("{:?}", res);
}

#[test]
fn key_value() {
    let client = Client::new("http://127.0.0.1:8500").unwrap();
    let res = client.kv().put("hello/world", vec![1, 2, 3, 4]).unwrap();
    println!("{:?}", res);
}

#[test]
fn register_builds_a_json_put_to_the_agent() {
    let client = Client::new("http://127.0.0.1:8500").unwrap();
    let request = client.agent().register(sample_service()).unwrap();
    assert_eq!(request.method, Method::Put);
    assert_eq!(request.uri, "http://127.0.0.1:8500/v1/agent/service/register");
    assert_eq!(request.content_type, ContentType::Json);
    assert_eq!(request.content_type.as_str(), "application/json");
    let expected = "{\"ID\":\"hello\",\"Name\":\"test\",\"Tags\":[],\"Port\":9999,\
        \"Address\":\"127.0.0.1\",\"Check\":{\"interval\":\"1s\",\
        \"http\":\"http://127.0.0.1:9999/health\",\
        \"DeregisterCriticalServiceAfter\":\"24h\"}}";
    assert_eq!(String::from_utf8(request.body.clone()).unwrap(), expected);
    assert_eq!(request.content_length(), expected.len() as u64);
}

#[test]
fn register_body_counts_bytes_not_characters() {
    let client = Client::new("http://127.0.0.1:8500").unwrap();
    let mut service = sample_service();
    service.Name = "caf\u{e9}".to_string();
    service.Check = None;
    let request = client.agent().register(service).unwrap();
    let expected = "{\"ID\":\"hello\",\"Name\":\"caf\u{e9}\",\"Tags\":[],\"Port\":9999,\
        \"Address\":\"127.0.0.1\"}";
    assert_eq!(request.body, expected.as_bytes().to_vec());
    assert_eq!(request.content_length(), expected.chars().count() as u64 + 1);
}

#[test]
fn put_builds_a_raw_put_below_the_kv_prefix() {
    let client = Client::new("http://127.0.0.1:8500").unwrap();
    let request = client.kv().put("hello/world", vec![1, 2, 3, 4]).unwrap();
    assert_eq!(request.method, Method::Put);
    assert_eq!(request.uri, "http://127.0.0.1:8500/v1/kv/hello/world");
    assert_eq!(request.content_type, ContentType::OctetStream);
    assert_eq!(request.content_type.as_str(), "application/octet-stream");
    assert_eq!(request.body, vec![1, 2, 3, 4]);
    assert_eq!(request.content_length(), 4);
}

#[test]
fn put_with_an_empty_value_has_length_zero() {
    let client = Client::new("http://127.0.0.1:8500").unwrap();
    let request = client.kv().put("k", vec![]).unwrap();
    assert_eq!(request.body, Vec::<u8>::new());
    assert_eq!(request.content_length(), 0);
}

#[test]
fn put_does_not_escape_the_key() {
    let client = Client::new("http://127.0.0.1:8500").unwrap();
    let request = client.kv().put("a b/%zz", vec![0]).unwrap();
    assert_eq!(request.uri, "http://127.0.0.1:8500/v1/kv/a b/%zz");
}

#[test]
fn request_appends_the_path_without_normalizing() {
    let client = Client::new("http://127.0.0.1:8500/").unwrap();
    let request = client
        .request(Method::Get, "/v1/status/leader", ContentType::OctetStream, vec![])
        .unwrap();
    assert_eq!(request.method, Method::Get);
    assert_eq!(request.uri, "http://127.0.0.1:8500//v1/status/leader");
}

#[test]
fn request_reports_a_target_that_is_no_uri() {
    let client = Client::new("http://127.0.0.1:8500").unwrap();
    let r = client.request(Method::Put, "[", ContentType::OctetStream, vec![1]);
    assert!(matches!(r, Err(InvalidUri::Malformed(_))));
}

#[test]
fn request_json_sends_the_json_text_of_the_value() {
    let client = Client::new("http://consul.example:8500").unwrap();
    let check = Check {
        ttl: Some("15s".to_string()),
        interval: "10s".to_string(),
        http: None,
        script: None,
        DeregisterCriticalServiceAfter: "1m".to_string(),
    };
    let request = client.request_json(Method::Post, "/v1/agent/check/register", check).unwrap();
    assert_eq!(request.method, Method::Post);
    assert_eq!(request.uri, "http://consul.example:8500/v1/agent/check/register");
    assert_eq!(request.content_type, ContentType::Json);
    assert_eq!(
        String::from_utf8(request.body).unwrap(),
        "{\"ttl\":\"15s\",\"interval\":\"10s\",\"DeregisterCriticalServiceAfter\":\"1m\"}"
    );
}

#[test]
fn two_calls_on_one_client_do_not_mix() {
    let client = Client::new("http://127.0.0.1:8500").unwrap();
    let kv_a = client.kv();
    let kv_b = client.kv();
    let first = kv_a.put("left", vec![1, 1, 1]).unwrap();
    let second = kv_b.put("right", vec![2, 2]).unwrap();
    assert_eq!(first.uri, "http://127.0.0.1:8500/v1/kv/left");
    assert_eq!(first.body, vec![1, 1, 1]);
    assert_eq!(second.uri, "http://127.0.0.1:8500/v1/kv/right");
    assert_eq!(second.body, vec![2, 2]);
    assert_eq!(client.base_uri(), "http://127.0.0.1:8500");
}

#[test]
fn a_request_holds_its_parts_and_counts_its_body() {
    let request = consul::Request::new(
        Method::Delete,
        "http://h/v1/kv/gone".to_string(),
        ContentType::OctetStream,
        vec![9; 300],
    );
    assert_eq!(request.method, Method::Delete);
    assert_eq!(request.uri, "http://h/v1/kv/gone");
    assert_eq!(request.content_type, ContentType::OctetStream);
    assert_eq!(request.body.len(), 300);
    assert_eq!(request.content_length(), 300);
}

#[test]
fn the_same_key_under_another_base_goes_elsewhere() {
    let here = Client::new("http://127.0.0.1:8500").unwrap();
    let there = Client::new("https://consul.example").unwrap();
    let a = here.kv().put("k", vec![1]).unwrap();
    let b = there.kv().put("k", vec![1]).unwrap();
    assert_eq!(a.uri, "http://127.0.0.1:8500/v1/kv/k");
    assert_eq!(b.uri, "https://consul.example/v1/kv/k");
}
