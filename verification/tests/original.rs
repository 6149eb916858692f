use mycelia::http::{HttpRequest, Method, TestFunction};

#[test]
fn it_works() {}

#[test]
fn it_invokes_a_function() {
    let should_echo = HttpRequest {
        method: Method::Get,
        headers: vec![],
        body: vec![2, 4, 6],
        uri: "foo".into(),
    };
    let result = TestFunction::handle_request(should_echo);
    assert_eq!(result.status, 200u16);
    assert_eq!(result.body, vec![2, 4, 6]);
}
