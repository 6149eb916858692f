use mycelia::server::{
    connect_failure_state, echo_state, poll_after_sleep, poll_on_state, rpc_address, start_decision,
    stop_outcome, DeployAction, DeployEvent, DeployFlow, DeploymentError, PollAction, PollError,
    ServerError, ServerState, StartError, StartMode, StopError, StopReply, POLL_TIMEOUT_NANOS,
};
use mycelia::xtask::{
    component_build, dir_components, dir_guests, dir_target, guests, output_name_for, priority_of,
    task_for, wasm_build_args, Guest, GuestEntry, XtaskTask,
};

fn entry(name: &str, is_dir: bool) -> GuestEntry {
    GuestEntry { path: format!("/repo/guests/{}", name), name: name.to_string(), is_dir }
}

#[test]
fn guest_order_and_names() {
    let g = Guest::new("/repo/guests/js_function".into(), "js_function", Some("mycelia_guest_function"));
    assert_eq!(g.name_output, "mycelia_guest_function");
    let g = Guest::new("/repo/guests/function".into(), "function", None);
    assert_eq!(g.name_output, "function");
    assert_eq!(output_name_for("js_function").as_deref(), Some("mycelia_guest_function"));
    assert_eq!(output_name_for("function"), None);
    assert_eq!(priority_of("mycelia_guest_function"), 1);
    assert_eq!(priority_of("*"), 0);
    assert_eq!(priority_of("function"), 0);

    let listed = guests(vec![
        entry("mycelia_guest_function", true),
        entry("README.md", false),
        entry("function", true),
        entry("js_function", true),
    ]);
    let names: Vec<&str> = listed.iter().map(|g| g.name.as_str()).collect();
    assert_eq!(names, vec!["function", "js_function", "mycelia_guest_function"]);
    assert_eq!(listed[1].name_output, "mycelia_guest_function");
    assert_eq!(listed[2].path, "/repo/guests/mycelia_guest_function");
}

#[test]
fn build_paths_and_arguments() {
    assert_eq!(dir_target("/repo"), "/repo/target");
    assert_eq!(dir_components("/repo"), "/repo/components");
    assert_eq!(dir_guests("/repo"), "/repo/guests");
    let g = Guest::new("/repo/guests/js_function".into(), "js_function", Some("mycelia_guest_function"));
    assert_eq!(wasm_build_args(&g), vec!["build", "--target=wasm32-wasi", "--release", "--package=mycelia_guest_function"]);
    let c = component_build("/repo", &g);
    assert_eq!(c.wasm_guest, "/repo/target/wasm32-wasi/release/mycelia_guest_function.wasm");
    assert_eq!(c.wasi_snapshot, "/repo/wasi_snapshot_preview1.reactor.wasm.dev");
    assert_eq!(c.adapt_arg, "--adapt=/repo/wasi_snapshot_preview1.reactor.wasm.dev");
    assert_eq!(c.output_arg, "-o=/repo/components/js_function-component.wasm");
    assert!(matches!(task_for(Some("build")), XtaskTask::Build));
    assert!(matches!(task_for(Some("wasm")), XtaskTask::Help));
    assert!(matches!(task_for(None), XtaskTask::Help));
}

#[test]
fn server_states() {
    assert_eq!(rpc_address("127.0.0.1", 50051), "http://127.0.0.1:50051");
    assert!(matches!(echo_state("cli::server_state()"), ServerState::Started));
    assert!(matches!(echo_state("something else"), ServerState::StartingUp));
    assert!(matches!(connect_failure_state("transport error", true), Ok(ServerState::StartingUp)));
    assert!(matches!(connect_failure_state("transport error", false), Ok(ServerState::NotStarted)));
    assert!(matches!(connect_failure_state("invalid uri", false),
        Err(ServerError::ServerError { cause }) if cause == "invalid uri"));
}

#[test]
fn polling() {
    assert!(matches!(poll_on_state(Ok(ServerState::StartingUp)), PollAction::Sleep));
    assert!(matches!(poll_on_state(Ok(ServerState::Started)), PollAction::Finish(Ok(ServerState::Started))));
    assert!(matches!(poll_on_state(Ok(ServerState::NotStarted)), PollAction::Finish(Ok(ServerState::NotStarted))));
    assert!(matches!(poll_on_state(Err(ServerError::ServerError { cause: "x".into() })),
        PollAction::Finish(Err(PollError::ServerError { cause })) if cause == "x"));
    assert!(matches!(poll_after_sleep(1_000_000_000), PollAction::Query));
    assert!(matches!(poll_after_sleep(POLL_TIMEOUT_NANOS), PollAction::Query));
    assert!(matches!(poll_after_sleep(POLL_TIMEOUT_NANOS + 1), PollAction::Finish(Err(PollError::Timeout))));
}

#[test]
fn starting_and_stopping() {
    assert!(matches!(start_decision(Ok(ServerState::NotStarted), false), Ok(StartMode::Foreground)));
    assert!(matches!(start_decision(Ok(ServerState::Started), true), Ok(StartMode::Background)));
    assert!(matches!(start_decision(Err("boom".into()), true), Err(StartError::ServerError { cause }) if cause == "boom"));
    assert!(stop_outcome(StopReply::Stopped).is_ok());
    assert!(stop_outcome(StopReply::ConnectFailed("transport error".into())).is_ok());
    assert!(matches!(stop_outcome(StopReply::ConnectFailed("bad".into())), Err(StopError::ClientError { cause }) if cause == "bad"));
    assert!(matches!(stop_outcome(StopReply::CallFailed("denied".into())), Err(StopError::MethodError { cause }) if cause == "denied"));
}

/// Runs a deployment against scripted answers and records the actions.
fn deploy(path_exists: bool, first_poll: Result<ServerState, PollError>, connect: Option<String>, reply: &str) -> (Vec<String>, Result<(), DeploymentError>) {
    let (mut flow, mut action) = DeployFlow::start("/repo", "127.0.0.1", 50051, "game");
    let mut log = vec![];
    let mut first_poll = Some(first_poll);
    let mut connect = Some(connect);
    loop {
        let event = match action {
            DeployAction::CheckPath(p) => { log.push(format!("check {}", p)); DeployEvent::PathChecked(path_exists) }
            DeployAction::Poll { just_started } => {
                log.push(format!("poll {}", just_started));
                match first_poll.take() {
                    Some(r) => DeployEvent::Polled(r),
                    None => DeployEvent::Polled(Ok(ServerState::Started)),
                }
            }
            DeployAction::StartInBackground => { log.push("start".into()); DeployEvent::Started }
            DeployAction::Connect(a) => { log.push(format!("connect {}", a)); DeployEvent::Connected(connect.take().unwrap()) }
            DeployAction::Deploy(p) => { log.push(format!("deploy {}", p)); DeployEvent::Replied(reply.to_string()) }
            DeployAction::StopServer => { log.push("stop".into()); DeployEvent::Stopped }
            DeployAction::Finish(r) => return (log, r),
        };
        action = flow.on_event(event);
    }
}

#[test]
fn deploying_to_a_running_server() {
    let (log, r) = deploy(true, Ok(ServerState::Started), None, "Ok");
    assert!(r.is_ok());
    assert_eq!(log, vec!["check /repo/components/game.wasm", "poll false", "connect http://127.0.0.1:50051", "deploy /repo/components/game.wasm"]);
    let (_, r) = deploy(true, Ok(ServerState::Started), None, "broken");
    assert!(matches!(r, Err(DeploymentError::DeploymentError { cause }) if cause == "broken"));
}

#[test]
fn deploying_starts_and_stops_the_server() {
    let (log, r) = deploy(true, Ok(ServerState::NotStarted), None, "Ok");
    assert!(r.is_ok());
    assert_eq!(log, vec!["check /repo/components/game.wasm", "poll false", "start", "poll true", "connect http://127.0.0.1:50051", "deploy /repo/components/game.wasm", "stop"]);
    let (log, r) = deploy(true, Ok(ServerState::NotStarted), Some("refused".into()), "Ok");
    assert_eq!(log.last().unwrap(), "stop");
    assert!(matches!(r, Err(DeploymentError::ClientError { cause }) if cause == "refused"));
}

#[test]
fn deploying_fails_early() {
    let (log, r) = deploy(false, Ok(ServerState::Started), None, "Ok");
    assert_eq!(log.len(), 1);
    assert!(matches!(r, Err(DeploymentError::PathNotFound { component, path }) if component == "game" && path == "/repo/components/game.wasm"));
    let (_, r) = deploy(true, Err(PollError::Timeout), None, "Ok");
    assert!(matches!(r, Err(DeploymentError::ServerError)));
    let (log, r) = deploy(true, Ok(ServerState::Started), Some("refused".into()), "Ok");
    assert!(!log.contains(&"stop".to_string()));
    assert!(matches!(r, Err(DeploymentError::ClientError { .. })));
}
