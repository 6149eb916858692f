use mycelia::devserver::swap_step;
use mycelia::server::server_run_args;
use mycelia::xtask::{component_build_outcome, wasm_build_outcome, workspace_build_outcome};
use mycelia::devserver::{component_path_check, deploy_reply, stop_reply, RpcServer};
use mycelia::http::client_response;
use mycelia::rc::stamp_version;
use mycelia::server::{DeployAction, DeployEvent, DeployFlow, ServerState};
use mycelia::text::push_signed_decimal;
use mycelia::version::SemVer;
use mycelia::xtask::{
    component_build_failure, missing_input_failure, print_help, wasm_build_failure,
    workspace_build_failure, xtask_build_failure, Guest, MissingInput, missing_input,
};

#[test]
fn signed_decimals() {
    for i in [0i32, 5, -5, 128, -1, i32::MAX, i32::MIN] {
        let mut s = String::new();
        push_signed_decimal(&mut s, i);
        assert_eq!(s, i.to_string());
    }
}

#[test]
fn stamping_the_version() {
    let tag = SemVer { major: 1, minor: 4, patch: 0, pre: String::new(), build: String::new() };
    assert_eq!(stamp_version("{\"version\": \"__VERSION__\"}", &tag), "{\"version\": \"1.4.0\"}");
    assert_eq!(stamp_version("no placeholder", &tag), "no placeholder");
}

#[test]
fn build_messages() {
    assert_eq!(print_help(), "Tasks:\n\nwasm            build wasm using wasm32-wasi target\ncomponents      build components using wasm-tools\n");
    assert_eq!(workspace_build_failure(101), "`cargo build --workspace` failed.\n\nStatus code: 101");
    assert_eq!(xtask_build_failure(-1), "`cargo xtask build` failed.\n\nStatus code: -1");
    let g = Guest::new("/repo/guests/js_function".into(), "js_function", Some("mycelia_guest_function"));
    assert_eq!(wasm_build_failure(&g, 1), "Build wasm 'js_function' failed.\n\nCommand: `cargo build --target wasm32-wasi --release --package js_function`\nGuest path: '/repo/guests/js_function'\nStatus code: 1");
    assert_eq!(missing_input_failure("/repo", &g, MissingInput::WasmGuest), "wasm guest file '/repo/target/wasm32-wasi/release/mycelia_guest_function.wasm' for 'js_function' does not exist");
    assert_eq!(missing_input_failure("/repo", &g, MissingInput::WasiSnapshot), "wasi snapshot file '/repo/wasi_snapshot_preview1.reactor.wasm.dev' for 'js_function' does not exist");
    assert_eq!(missing_input_failure("/repo", &g, MissingInput::ComponentsDir), "component output directory '/repo/components' for 'js_function' does not exist");
    assert_eq!(component_build_failure("/repo", &g, 2), "Build component 'js_function' failed.\n\nCommand: `wasm-tools component new /repo/target/wasm32-wasi/release/mycelia_guest_function.wasm --adapt /repo/wasi_snapshot_preview1.reactor.wasm.dev -o /repo/components`\nGuest path: '/repo/guests/js_function'\nStatus code: 2");
}

#[test]
fn rpc_answers() {
    let server = RpcServer::new(7u8);
    assert_eq!(*server.command_sink(), 7);
    assert_eq!(server.echo("cli::server_state()".into()), "cli::server_state()");
    assert_eq!(deploy_reply(Some(Ok(()))).unwrap(), "Ok");
    assert_eq!(deploy_reply(None).unwrap(), "Ok");
    assert_eq!(deploy_reply(Some(Err("bad component".into()))).unwrap_err(), "bad component");
    assert!(stop_reply(Some(Ok(()))).is_ok());
    assert_eq!(stop_reply(None).unwrap_err(), "Failed to stop server");
    assert_eq!(stop_reply(Some(Err("x".into()))).unwrap_err(), "Failed to stop server");
    assert!(component_path_check(true, true).is_ok());
    assert_eq!(component_path_check(true, false).unwrap_err(), "Component path doesn't exist or isn't a file. Did you specify the correct path?");
    assert!(component_path_check(false, false).is_err());
}

#[test]
fn server_confirmation_is_client_success() {
    let (mut flow, _) = DeployFlow::start("/repo", "127.0.0.1", 50051, "game");
    flow.on_event(DeployEvent::PathChecked(true));
    flow.on_event(DeployEvent::Polled(Ok(ServerState::Started)));
    flow.on_event(DeployEvent::Connected(None));
    let reply = deploy_reply(Some(Ok(()))).unwrap();
    assert!(matches!(flow.on_event(DeployEvent::Replied(reply)), DeployAction::Finish(Ok(()))));
}

#[test]
fn host_responses() {
    let r = client_response(404, vec![(Some("content-type".into()), "text/plain".into()), (None, "x".into())], b"nope".to_vec());
    assert_eq!(r.status, 404);
    assert_eq!(r.headers, vec![("content-type".to_string(), "text/plain".to_string()), (String::new(), "x".to_string())]);
    assert_eq!(r.body, b"nope".to_vec());
}

#[test]
fn component_inputs_are_checked_in_order() {
    assert!(missing_input(true, true, true).is_ok());
    assert!(matches!(missing_input(false, false, false), Err(MissingInput::WasmGuest)));
    assert!(matches!(missing_input(false, true, true), Err(MissingInput::WasmGuest)));
    assert!(matches!(missing_input(true, false, false), Err(MissingInput::WasiSnapshot)));
    assert!(matches!(missing_input(true, true, false), Err(MissingInput::ComponentsDir)));
}

#[test]
fn swapping_in_a_component() {
    assert!(mycelia::devserver::swap_reply(true, true, Some(Ok(()))).is_ok());
    assert_eq!(
        mycelia::devserver::swap_reply(false, false, None).unwrap_err(),
        "Component path doesn't exist or isn't a file. Did you specify the correct path?"
    );
    assert_eq!(
        mycelia::devserver::swap_reply(true, false, None).unwrap_err(),
        "Component path doesn't exist or isn't a file. Did you specify the correct path?"
    );
    assert_eq!(
        mycelia::devserver::swap_reply(true, true, Some(Err("bad magic".to_string()))).unwrap_err(),
        "Failed to create a component from path. Did you specify a valid wasm32-wasi component?, Error bad magic"
    );
}

#[test]
fn swapping_replaces_the_served_component_only_on_ok() {
    let (served, reply) = swap_step("old", true, true, Some(Ok("new")));
    assert_eq!(served, "new");
    assert!(reply.is_ok());
    let (served, reply) = swap_step("old", true, true, Some(Err("bad magic".to_string())));
    assert_eq!(served, "old");
    assert_eq!(
        reply.unwrap_err(),
        "Failed to create a component from path. Did you specify a valid wasm32-wasi component?, Error bad magic"
    );
    let (served, reply) = swap_step("old", false, false, None);
    assert_eq!(served, "old");
    assert_eq!(
        reply.unwrap_err(),
        "Component path doesn't exist or isn't a file. Did you specify the correct path?"
    );
    let (served, reply) = swap_step("old", true, false, None);
    assert_eq!(served, "old");
    assert!(reply.is_err());
}

#[test]
fn build_exit_codes() {
    let g = Guest::new("/repo/guests/function".to_string(), "function", None);
    assert!(workspace_build_outcome(0).is_ok());
    assert_eq!(workspace_build_outcome(101).unwrap_err(), "`cargo build --workspace` failed.\n\nStatus code: 101");
    assert!(wasm_build_outcome(&g, 0).is_ok());
    assert_eq!(wasm_build_outcome(&g, 1).unwrap_err(), wasm_build_failure(&g, 1));
    assert!(component_build_outcome("/repo", &g, 0).is_ok());
    assert_eq!(component_build_outcome("/repo", &g, -1).unwrap_err(), component_build_failure("/repo", &g, -1));
}

#[test]
fn development_server_arguments() {
    assert_eq!(
        server_run_args(3001, 50051, false),
        vec!["run", "--package=development_server", "--", "--http-port=3001", "--rpc-port=50051"]
    );
    assert_eq!(
        server_run_args(8080, 9, true),
        vec!["run", "--quiet", "--package=development_server", "--", "--http-port=8080", "--rpc-port=9"]
    );
}
