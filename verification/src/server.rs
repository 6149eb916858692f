//! The command-line client of the development server: how it reads the
//! server's answers while starting, stopping and deploying to it.
use vstd::prelude::*;
use crate::paths::{join, join_path};
use crate::text::{decimal, push_decimal, same_text};

verus! {

/// What the client knows of the development server.
#[derive(Debug)]
pub enum ServerState {
    NotStarted,
    StartingUp,
    Started,
}

/// The server answered in a way that the client does not expect.
#[derive(Debug)]
pub enum ServerError {
    ServerError { cause: String },
}

/// Waiting for the server failed.
#[derive(Debug)]
pub enum PollError {
    ServerError { cause: String },
    Timeout,
}

/// Starting the server failed.
#[derive(Debug)]
pub enum StartError {
    ServerError { cause: String },
}

/// Stopping the server failed.
#[derive(Debug)]
pub enum StopError {
    ClientError { cause: String },
    MethodError { cause: String },
}

/// Deploying a component failed.
#[derive(Debug)]
pub enum DeploymentError {
    PathNotFound { component: String, path: String },
    ClientError { cause: String },
    DeploymentError { cause: String },
    ServerError,
}

/// `http://<ip>:<port>`.
pub open spec fn address_text(ip: Seq<char>, port: u16) -> Seq<char> {
    "http://"@ + ip + ":"@ + decimal(port as nat)
}

/// The address of a server listening on `ip` and `port`.
pub fn rpc_address(ip: &str, port: u16) -> (r: String)
    ensures
        r@ == address_text(ip@, port),
{
    let mut s = String::from_str("http://");
    s.append(ip);
    s.append(":");
    push_decimal(&mut s, port as u64);
    s
}

/// The message that the client sends to the server's echo call.
pub open spec fn echo_payload() -> Seq<char> {
    "cli::server_state()"@
}

/// Reads the server's echo of the payload: the server has started when it
/// echoes the payload back, and is still starting up otherwise.
pub fn echo_state(message: &str) -> (r: ServerState)
    ensures
        message@ == echo_payload() ==> r is Started,
        message@ != echo_payload() ==> r is StartingUp,
{
    if same_text(message, "cli::server_state()") {
        ServerState::Started
    } else {
        ServerState::StartingUp
    }
}

/// The message of a connection that failed because nothing listens.
pub open spec fn transport_error_text() -> Seq<char> {
    "transport error"@
}

/// Reads the failure to connect to the server: when nothing listens, the
/// server is starting up if it was just started and not started otherwise;
/// any other failure is an error with its message.
pub fn connect_failure_state(error_text: &str, just_started: bool) -> (r: Result<
    ServerState,
    ServerError,
>)
    ensures
        error_text@ == transport_error_text() ==> if just_started {
            r matches Ok(ServerState::StartingUp)
        } else {
            r matches Ok(ServerState::NotStarted)
        },
        error_text@ != transport_error_text() ==> (r matches Err(ServerError::ServerError { cause })
            && cause@ == error_text@),
{
    if same_text(error_text, "transport error") {
        if just_started {
            Ok(ServerState::StartingUp)
        } else {
            Ok(ServerState::NotStarted)
        }
    } else {
        Err(ServerError::ServerError { cause: error_text.to_string() })
    }
}

/// `--http-port=<port>` or `--rpc-port=<port>`: `flag` followed by `=` and
/// the port.
pub open spec fn port_arg_text(flag: Seq<char>, port: u16) -> Seq<char> {
    flag + "="@ + decimal(port as nat)
}

/// The arguments of `cargo` that run the development server with these
/// ports: `run [--quiet] --package=development_server -- --http-port=<http>
/// --rpc-port=<rpc>`, with `--quiet` when it runs in the background.
pub fn server_run_args(http_port: u16, rpc_port: u16, background: bool) -> (r: Vec<String>)
    ensures
        r@.len() == if background { 6nat } else { 5nat },
        r@[0]@ == "run"@,
        background ==> r@[1]@ == "--quiet"@,
        r@[r@.len() - 4]@ == "--package=development_server"@,
        r@[r@.len() - 3]@ == "--"@,
        r@[r@.len() - 2]@ == port_arg_text("--http-port"@, http_port),
        r@[r@.len() - 1]@ == port_arg_text("--rpc-port"@, rpc_port),
{
    let mut r: Vec<String> = Vec::new();
    r.push(String::from_str("run"));
    if background {
        r.push(String::from_str("--quiet"));
    }
    r.push(String::from_str("--package=development_server"));
    r.push(String::from_str("--"));
    let mut http = String::from_str("--http-port=");
    push_decimal(&mut http, http_port as u64);
    let mut rpc = String::from_str("--rpc-port=");
    push_decimal(&mut rpc, rpc_port as u64);
    proof {
        reveal_strlit("--http-port=");
        reveal_strlit("--http-port");
        reveal_strlit("--rpc-port=");
        reveal_strlit("--rpc-port");
        reveal_strlit("=");
        assert("--http-port="@ =~= "--http-port"@ + "="@);
        assert("--rpc-port="@ =~= "--rpc-port"@ + "="@);
    }
    r.push(http);
    r.push(rpc);
    r
}

/// What waiting for the server asks for next.
#[derive(Debug)]
pub enum PollAction {
    /// Ask the server for its state.
    Query,
    /// Wait one second.
    Sleep,
    /// Waiting is over, with this result.
    Finish(Result<ServerState, PollError>),
}

/// How long the client waits for a server that is starting up, in
/// nanoseconds.
pub const POLL_TIMEOUT_NANOS: u128 = 10_000_000_000;

/// Reads the state of the server while waiting for it: a server that is
/// starting up is waited for; any other state or error ends the wait.
pub fn poll_on_state(state: Result<ServerState, ServerError>) -> (r: PollAction)
    ensures
        match state {
            Ok(ServerState::StartingUp) => r is Sleep,
            Ok(ServerState::Started) => r matches PollAction::Finish(Ok(ServerState::Started)),
            Ok(ServerState::NotStarted) => r matches PollAction::Finish(Ok(ServerState::NotStarted)),
            Err(ServerError::ServerError { cause }) => r matches PollAction::Finish(
                Err(PollError::ServerError { cause: c }),
            ) && c@ == cause@,
        },
{
    match state {
        Ok(ServerState::StartingUp) => PollAction::Sleep,
        Ok(ServerState::Started) => PollAction::Finish(Ok(ServerState::Started)),
        Ok(ServerState::NotStarted) => PollAction::Finish(Ok(ServerState::NotStarted)),
        Err(ServerError::ServerError { cause }) => PollAction::Finish(
            Err(PollError::ServerError { cause }),
        ),
    }
}

/// After a second of waiting: ask again, unless more than the timeout has
/// passed since the wait began.
pub fn poll_after_sleep(elapsed_nanos: u128) -> (r: PollAction)
    ensures
        elapsed_nanos > POLL_TIMEOUT_NANOS ==> r matches PollAction::Finish(Err(PollError::Timeout)),
        elapsed_nanos <= POLL_TIMEOUT_NANOS ==> r is Query,
{
    if elapsed_nanos > POLL_TIMEOUT_NANOS {
        PollAction::Finish(Err(PollError::Timeout))
    } else {
        PollAction::Query
    }
}

/// How the server is started.
#[derive(Debug)]
pub enum StartMode {
    /// Run it attached to this process, forwarding its output.
    Foreground,
    /// Spawn it detached, with its output discarded.
    Background,
}

/// Reads the state of the server before starting it (an error as its
/// message): any state lets the start go on, in the mode asked for.
pub fn start_decision(state: Result<ServerState, String>, background: bool) -> (r: Result<
    StartMode,
    StartError,
>)
    ensures
        match state {
            Ok(_) => if background {
                r matches Ok(StartMode::Background)
            } else {
                r matches Ok(StartMode::Foreground)
            },
            Err(text) => r matches Err(StartError::ServerError { cause }) && cause@ == text@,
        },
{
    match state {
        Ok(_) => if background {
            Ok(StartMode::Background)
        } else {
            Ok(StartMode::Foreground)
        },
        Err(text) => Err(StartError::ServerError { cause: text }),
    }
}

/// How a request to stop the server went.
#[derive(Debug)]
pub enum StopReply {
    /// The connection failed with this message.
    ConnectFailed(String),
    /// The stop call failed with this message.
    CallFailed(String),
    /// The server confirmed that it stops.
    Stopped,
}

/// Reads how the stop request went: a server that does not listen needs no
/// stopping.
pub fn stop_outcome(reply: StopReply) -> (r: Result<(), StopError>)
    ensures
        match reply {
            StopReply::ConnectFailed(text) => if text@ == transport_error_text() {
                r is Ok
            } else {
                r matches Err(StopError::ClientError { cause }) && cause@ == text@
            },
            StopReply::CallFailed(text) => r matches Err(StopError::MethodError { cause }) && cause@
                == text@,
            StopReply::Stopped => r is Ok,
        },
{
    match reply {
        StopReply::ConnectFailed(text) => if same_text(text.as_str(), "transport error") {
            Ok(())
        } else {
            Err(StopError::ClientError { cause: text })
        },
        StopReply::CallFailed(text) => Err(StopError::MethodError { cause: text }),
        StopReply::Stopped => Ok(()),
    }
}

/// What deploying a component asks for next.
#[derive(Debug)]
pub enum DeployAction {
    /// Report whether the component file at this path exists.
    CheckPath(String),
    /// Wait for the state of the server (see [`poll_on_state`]) and report it.
    Poll { just_started: bool },
    /// Start the server in the background.
    StartInBackground,
    /// Connect to the server at this address and report how it went.
    Connect(String),
    /// Ask the server to deploy the component at this path and report its
    /// reply.
    Deploy(String),
    /// Stop the server again.
    StopServer,
    /// Deploying is over, with this result.
    Finish(Result<(), DeploymentError>),
}

/// What happened after a [`DeployAction`].
#[derive(Debug)]
pub enum DeployEvent {
    /// Whether the component file exists.
    PathChecked(bool),
    /// The state of the server, or why waiting for it failed.
    Polled(Result<ServerState, PollError>),
    /// The server was started in the background.
    Started,
    /// The connection succeeded (`None`) or failed with this message.
    Connected(Option<String>),
    /// The server's reply to the deploy request.
    Replied(String),
    /// The server was stopped.
    Stopped,
}

/// How far a deployment has gone.
#[derive(Debug)]
pub enum DeployStage {
    CheckingPath,
    Polling,
    Starting,
    PollingAfterStart,
    Connecting,
    Deploying,
    Stopping,
    Finished,
}

/// Deploying the component `component` (the file
/// `components/<component>.wasm` of the workspace) to the development
/// server, which is started in the background for the deployment when it
/// does not run, and stopped again afterwards.
#[derive(Debug)]
pub struct DeployFlow {
    pub component: String,
    pub path: String,
    pub address: String,
    /// Whether the first look at the server found it not started.
    pub started_here: bool,
    pub stage: DeployStage,
    /// The result that is reported once the server has been stopped again.
    pub pending: Option<Result<(), DeploymentError>>,
}

/// The reply with which the server confirms a deployment.
pub open spec fn deploy_ok_text() -> Seq<char> {
    "Ok"@
}

/// The result that the server's reply to a deploy request stands for.
pub open spec fn reply_result(message: Seq<char>, result: Result<(), DeploymentError>) -> bool {
    if message == deploy_ok_text() {
        result is Ok
    } else {
        result matches Err(DeploymentError::DeploymentError { cause }) && cause@ == message
    }
}

/// The path of the component file `component` in the workspace at `root`.
pub open spec fn component_path_text(root: Seq<char>, component: Seq<char>) -> Seq<char> {
    join_path(root, "components/"@ + component + ".wasm"@)
}

impl DeployFlow {
    /// Whether `event` answers the action that the flow asked for last.
    pub open spec fn expects(&self, event: DeployEvent) -> bool {
        match self.stage {
            DeployStage::CheckingPath => event is PathChecked,
            DeployStage::Polling => event is Polled,
            DeployStage::Starting => event is Started,
            DeployStage::PollingAfterStart => event is Polled,
            DeployStage::Connecting => event is Connected,
            DeployStage::Deploying => event is Replied,
            DeployStage::Stopping => event is Stopped && self.pending is Some,
            DeployStage::Finished => false,
        }
    }

    /// Begins deploying `component` of the workspace at `root` to the server
    /// whose rpc port is `rpc_port` on `ip`: first the component file must
    /// exist.
    pub fn start(root: &str, ip: &str, rpc_port: u16, component: &str) -> (r: (
        DeployFlow,
        DeployAction,
    ))
        ensures
            r.0.component@ == component@,
            r.0.path@ == component_path_text(root@, component@),
            r.0.address@ == address_text(ip@, rpc_port),
            r.0.stage is CheckingPath,
            r.1 matches DeployAction::CheckPath(p) && p@ == r.0.path@,
    {
        let mut file = String::from_str("components/");
        file.append(component);
        file.append(".wasm");
        let path = join(root, file.as_str());
        let address = rpc_address(ip, rpc_port);
        let check = path.clone();
        (
            DeployFlow {
                component: component.to_string(),
                path,
                address,
                started_here: false,
                stage: DeployStage::CheckingPath,
                pending: None,
            },
            DeployAction::CheckPath(check),
        )
    }

    /// Reads what happened and says what comes next.
    pub fn on_event(&mut self, event: DeployEvent) -> (action: DeployAction)
        requires
            old(self).expects(event),
        ensures
            final(self).component == old(self).component,
            final(self).path == old(self).path,
            final(self).address == old(self).address,
            old(self).stage is CheckingPath ==> match event {
                DeployEvent::PathChecked(exists) => if exists {
                    action matches DeployAction::Poll { just_started } && !just_started
                        && final(self).stage is Polling
                } else {
                    &&& action matches DeployAction::Finish(
                        Err(DeploymentError::PathNotFound { component, path }),
                    )
                    &&& component@ == old(self).component@
                    &&& path@ == old(self).path@
                    &&& final(self).stage is Finished
                },
                _ => true,
            },
            old(self).stage is Polling ==> match event {
                DeployEvent::Polled(Ok(ServerState::NotStarted)) => action is StartInBackground
                    && final(self).started_here && final(self).stage is Starting,
                DeployEvent::Polled(Ok(_)) => action matches DeployAction::Connect(a) && a@
                    == old(self).address@ && !final(self).started_here
                    && final(self).stage is Connecting,
                DeployEvent::Polled(Err(_)) => action matches DeployAction::Finish(
                    Err(DeploymentError::ServerError),
                ) && final(self).stage is Finished,
                _ => true,
            },
            old(self).stage is Starting ==> (action matches DeployAction::Poll { just_started }
                && just_started && final(self).stage is PollingAfterStart && final(self).started_here
                == old(self).started_here),
            old(self).stage is PollingAfterStart ==> (action matches DeployAction::Connect(a) && a@
                == old(self).address@ && final(self).stage is Connecting && final(self).started_here
                == old(self).started_here),
            old(self).stage is Connecting ==> match event {
                DeployEvent::Connected(None) => action matches DeployAction::Deploy(p) && p@
                    == old(self).path@ && final(self).stage is Deploying && final(self).started_here
                    == old(self).started_here,
                DeployEvent::Connected(Some(text)) => if old(self).started_here {
                    &&& action is StopServer
                    &&& final(self).stage is Stopping
                    &&& final(self).pending matches Some(Err(DeploymentError::ClientError { cause }))
                    &&& cause@ == text@
                } else {
                    &&& action matches DeployAction::Finish(
                        Err(DeploymentError::ClientError { cause }),
                    )
                    &&& cause@ == text@
                    &&& final(self).stage is Finished
                },
                _ => true,
            },
            old(self).stage is Deploying ==> match event {
                DeployEvent::Replied(message) => if old(self).started_here {
                    &&& action is StopServer
                    &&& final(self).stage is Stopping
                    &&& final(self).pending matches Some(res) && reply_result(message@, res)
                } else {
                    &&& action matches DeployAction::Finish(res) && reply_result(message@, res)
                    &&& final(self).stage is Finished
                },
                _ => true,
            },
            old(self).stage is Stopping ==> (action matches DeployAction::Finish(res) && old(
                self,
            ).pending == Some(res) && final(self).stage is Finished),
    {
        match event {
            DeployEvent::PathChecked(exists) => {
                if exists {
                    self.stage = DeployStage::Polling;
                    DeployAction::Poll { just_started: false }
                } else {
                    self.stage = DeployStage::Finished;
                    DeployAction::Finish(
                        Err(
                            DeploymentError::PathNotFound {
                                component: self.component.clone(),
                                path: self.path.clone(),
                            },
                        ),
                    )
                }
            },
            DeployEvent::Polled(state) => {
                match self.stage {
                    DeployStage::Polling => match state {
                        Ok(ServerState::NotStarted) => {
                            self.started_here = true;
                            self.stage = DeployStage::Starting;
                            DeployAction::StartInBackground
                        },
                        Ok(_) => {
                            self.started_here = false;
                            self.stage = DeployStage::Connecting;
                            DeployAction::Connect(self.address.clone())
                        },
                        Err(_) => {
                            self.stage = DeployStage::Finished;
                            DeployAction::Finish(Err(DeploymentError::ServerError))
                        },
                    },
                    _ => {
                        self.stage = DeployStage::Connecting;
                        DeployAction::Connect(self.address.clone())
                    },
                }
            },
            DeployEvent::Started => {
                self.stage = DeployStage::PollingAfterStart;
                DeployAction::Poll { just_started: true }
            },
            DeployEvent::Connected(failure) => match failure {
                None => {
                    self.stage = DeployStage::Deploying;
                    DeployAction::Deploy(self.path.clone())
                },
                Some(text) => {
                    let err = DeploymentError::ClientError { cause: text };
                    if self.started_here {
                        self.pending = Some(Err(err));
                        self.stage = DeployStage::Stopping;
                        DeployAction::StopServer
                    } else {
                        self.stage = DeployStage::Finished;
                        DeployAction::Finish(Err(err))
                    }
                },
            },
            DeployEvent::Replied(message) => {
                let result = if same_text(message.as_str(), "Ok") {
                    Ok(())
                } else {
                    Err(DeploymentError::DeploymentError { cause: message })
                };
                if self.started_here {
                    self.pending = Some(result);
                    self.stage = DeployStage::Stopping;
                    DeployAction::StopServer
                } else {
                    self.stage = DeployStage::Finished;
                    DeployAction::Finish(result)
                }
            },
            DeployEvent::Stopped => {
                let pending = self.pending.take();
                self.stage = DeployStage::Finished;
                match pending {
                    Some(result) => DeployAction::Finish(result),
                    None => DeployAction::Finish(Ok(())),
                }
            },
        }
    }
}

} // verus!
