use mycelia::http::{
    get_method, method_from_name, new_http_client, request_from_parts, Args, BodyReader, BodyTooLarge,
    ClientMakeError, HostClientResource, HttpClientError, HttpRequest, Method, TestFunction,
    RESPONSE_LIMIT,
};

#[test]
fn client_table() {
    let mut table: HostClientResource<String> = HostClientResource::new();
    assert_eq!(table.add_client(7, "first".to_string()), 7);
    assert_eq!(table.add_client(8, "second".to_string()), 8);
    table.client_for(7).unwrap().push_str("-used");
    assert_eq!(table.client_for(7).unwrap(), "first-used");
    table.drop_client(7);
    assert!(matches!(table.client_for(7), Err(ClientMakeError::NotFound)));
    assert_eq!(table.client_for(8).unwrap(), "second");
    assert!(matches!(table.client_for(9), Err(ClientMakeError::NotFound)));
    table.add_client(8, "replaced".to_string());
    assert_eq!(table.client_for(8).unwrap(), "replaced");
}

fn request(method: Method) -> HttpRequest {
    HttpRequest { method, headers: vec![], body: vec![], uri: "http://example.com".into() }
}

#[test]
fn methods() {
    for name in ["GET", "HEAD", "POST", "PUT", "DELETE", "CONNECT", "OPTIONS", "TRACE", "PATCH"] {
        let m = method_from_name(name);
        assert!(!matches!(m, Method::Other(_)));
        assert_eq!(get_method(&request(m)).unwrap(), name);
    }
    assert!(matches!(method_from_name("get"), Method::Other(s) if s == "get"));
    assert!(matches!(method_from_name("PURGE"), Method::Other(s) if s == "PURGE"));
    assert!(matches!(get_method(&request(Method::Other("PURGE".into()))), Err(HttpClientError::BadRequest)));
}

#[test]
fn body_limit() {
    let mut reader = BodyReader::new();
    assert!(reader.push_chunk(b"hello ").is_ok());
    assert!(reader.push_chunk(b"world").is_ok());
    let big = vec![0u8; RESPONSE_LIMIT - 11];
    assert!(reader.push_chunk(&big).is_ok());
    match reader.push_chunk(b"!") {
        Err(BodyTooLarge { amount, limit }) => {
            assert_eq!(amount, RESPONSE_LIMIT + 1);
            assert_eq!(limit, 5 * 1024 * 1024);
        }
        Ok(()) => panic!("the body went past the limit"),
    }
    let body = reader.into_body();
    assert_eq!(body.len(), RESPONSE_LIMIT);
    assert_eq!(&body[..11], b"hello world");
}

#[test]
fn incoming_requests() {
    let r = request_from_parts(
        "POST",
        vec![("host".into(), Some("localhost".into())), ("x-bin".into(), None)],
        None,
        "/path?q=1".into(),
    );
    assert!(matches!(r.method, Method::Post));
    assert_eq!(r.headers, vec![("host".to_string(), "localhost".to_string()), ("x-bin".to_string(), "not supported".to_string())]);
    assert!(r.body.is_empty());
    assert_eq!(r.uri, "/path?q=1");
    let r = request_from_parts("BREW", vec![], Some(vec![1, 2]), "/".into());
    assert!(matches!(r.method, Method::Other(ref s) if s == "BREW"));
    assert_eq!(r.body, vec![1, 2]);
}

#[test]
fn example_function() {
    let answer = TestFunction::handle_request(request(Method::Get));
    assert_eq!(answer.status, 200);
    assert!(answer.headers.is_empty());
    assert_eq!(answer.body, b"Hello World!".to_vec());
    let probe = TestFunction::probe_request();
    assert!(matches!(probe.method, Method::Get));
    assert_eq!(probe.uri, "https://google.com");
}

#[test]
fn guest_client_and_server_options() {
    let mut client = new_http_client(41u32);
    *client.client() += 1;
    assert_eq!(*client.client(), 42);
    let args = Args { function_component: None, rpc_port: None, http_port: Some(8080) };
    let rpc = args.rpc_address();
    assert_eq!((rpc.ip, rpc.port), ([127, 0, 0, 1], 50051));
    let http = args.http_address();
    assert_eq!((http.ip, http.port), ([127, 0, 0, 1], 8080));
}

#[test]
fn example_function_sends_its_probe_then_answers() {
    let mut req = request(Method::Post);
    req.body = vec![1, 2, 3];
    let (probe, answer) = TestFunction::respond(req);
    assert!(matches!(probe.method, Method::Get));
    assert!(probe.headers.is_empty());
    assert!(probe.body.is_empty());
    assert_eq!(probe.uri, "https://google.com");
    assert_eq!(answer.status, 200);
    assert!(answer.headers.is_empty());
    assert_eq!(answer.body, vec![1, 2, 3]);
}
