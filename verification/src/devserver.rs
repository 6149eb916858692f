//! The development server's side of its rpc protocol: what it answers to
//! the echo, deploy and stop calls, and when it accepts a new function
//! component.
use vstd::prelude::*;

verus! {

/// The rpc server of the development server, which hands the commands it
/// receives to the server's event loop through `command_sink`.
pub struct RpcServer<S> {
    command_sink: S,
}

impl<S> RpcServer<S> {
    /// Where the server sends its commands.
    pub closed spec fn sink(&self) -> S {
        self.command_sink
    }

    /// A server that sends its commands to `command_sink`.
    pub fn new(command_sink: S) -> (r: RpcServer<S>)
        ensures
            r.sink() == command_sink,
    {
        RpcServer { command_sink }
    }

    /// The command sink, to send a command with.
    pub fn command_sink(&self) -> (r: &S)
        ensures
            *r == self.sink(),
    {
        &self.command_sink
    }

    /// The answer to an echo call: the message itself.
    pub fn echo(&self, message: String) -> (r: String)
        ensures
            r@ == message@,
    {
        message
    }
}

/// The reply with which the server confirms a deployment.
pub open spec fn deploy_ok_reply() -> Seq<char> {
    "Ok"@
}

/// The answer to a deploy call, from what the event loop replied to the
/// swap command (`None` where no reply came): a failed swap is an error
/// with its message; otherwise the server replies `Ok`.
pub fn deploy_reply(swap: Option<Result<(), String>>) -> (r: Result<String, String>)
    ensures
        match swap {
            Some(Err(e)) => r matches Err(m) && m@ == e@,
            _ => r matches Ok(m) && m@ == deploy_ok_reply(),
        },
{
    match swap {
        Some(Err(e)) => Err(e),
        _ => Ok(String::from_str("Ok")),
    }
}

/// The message of a stop call that the event loop did not confirm.
pub open spec fn stop_failure_text() -> Seq<char> {
    "Failed to stop server"@
}

/// The answer to a stop call, from what the event loop replied (`None`
/// where no reply came): only a confirmed stop succeeds.
pub fn stop_reply(reply: Option<Result<(), String>>) -> (r: Result<(), String>)
    ensures
        reply matches Some(Ok(())) ==> r is Ok,
        !(reply matches Some(Ok(()))) ==> (r matches Err(m) && m@ == stop_failure_text()),
{
    match reply {
        Some(Ok(())) => Ok(()),
        _ => Err(String::from_str("Failed to stop server")),
    }
}

/// The message with which a component path that is not a file is refused.
pub open spec fn bad_component_path_text() -> Seq<char> {
    "Component path doesn't exist or isn't a file. Did you specify the correct path?"@
}

/// Checks the path of a component to deploy: it must exist and be a file.
pub fn component_path_check(path_exists: bool, is_file: bool) -> (r: Result<(), String>)
    ensures
        path_exists && is_file ==> r is Ok,
        !(path_exists && is_file) ==> (r matches Err(m) && m@ == bad_component_path_text()),
{
    if !path_exists || !is_file {
        Err(
            String::from_str(
                "Component path doesn't exist or isn't a file. Did you specify the correct path?",
            ),
        )
    } else {
        Ok(())
    }
}

/// The beginning of the message with which a file that is not a valid
/// component is refused; the loader's error follows it.
pub open spec fn bad_component_text() -> Seq<char> {
    "Failed to create a component from path. Did you specify a valid wasm32-wasi component?, Error "@
}

/// The answer to a request to swap in the component at a path: the path
/// check first (see [`component_path_check`]); then, where the path is a
/// file, how loading it went (`Err` with the loader's error text). Where
/// both pass, the served component is swapped and the answer is `Ok`.
pub fn swap_reply(path_exists: bool, is_file: bool, load: Option<Result<(), String>>) -> (r: Result<(), String>)
    requires
        path_exists && is_file ==> load is Some,
    ensures
        !(path_exists && is_file) ==> (r matches Err(m) && m@ == bad_component_path_text()),
        path_exists && is_file ==> match load {
            Some(Ok(())) => r is Ok,
            Some(Err(e)) => r matches Err(m) && m@ == bad_component_text() + e@,
            None => false,
        },
{
    match component_path_check(path_exists, is_file) {
        Err(m) => Err(m),
        Ok(()) => match load {
            Some(Ok(())) => Ok(()),
            Some(Err(e)) => {
                let mut m = String::from_str(
                    "Failed to create a component from path. Did you specify a valid wasm32-wasi component?, Error ",
                );
                m.append(e.as_str());
                Err(m)
            },
            None => Ok(()),
        },
    }
}

/// One deploy command of the development server's command loop: the
/// component it serves is `served`; the command asks to swap in the
/// component at a path, which is checked (`path_exists`, `is_file`) and,
/// where it is a file, loaded (`load`: the loaded component, or the
/// loader's error text). The reply is that of [`swap_reply`]; the served
/// component is replaced by the loaded one exactly when the reply is `Ok`,
/// and stays as it was otherwise.
pub fn swap_step<M>(served: M, path_exists: bool, is_file: bool, load: Option<Result<M, String>>) -> (r: (M, Result<(), String>))
    requires
        path_exists && is_file ==> load is Some,
    ensures
        !(path_exists && is_file) ==> (r.1 matches Err(m) && m@ == bad_component_path_text()),
        path_exists && is_file ==> match load {
            Some(Ok(_)) => r.1 is Ok,
            Some(Err(e)) => r.1 matches Err(m) && m@ == bad_component_text() + e@,
            None => false,
        },
        r.1 is Ok ==> (load matches Some(Ok(m)) && r.0 == m),
        r.1 is Err ==> r.0 == served,
{
    if !(path_exists && is_file) {
        let reply = swap_reply(path_exists, is_file, None);
        return (served, reply);
    }
    match load {
        Some(Ok(m)) => {
            let reply = swap_reply(path_exists, is_file, Some(Ok(())));
            (m, reply)
        },
        Some(Err(e)) => {
            let reply = swap_reply(path_exists, is_file, Some(Err(e)));
            (served, reply)
        },
        None => (served, swap_reply(path_exists, is_file, None)),
    }
}

} // verus!
