//! The calls that change a sandbox's state, made against its control socket:
//! what each one sends, and how the answer is read.
//!
//! Every call is a single HTTP request with a JSON body, and succeeds only
//! where the answer's status is 204.

use crate::delay::Delay;
use vstd::prelude::*;

verus! {

/// The HTTP method of a control request.
#[derive(Clone, Copy, Debug, PartialEq, Eq, Structural)]
pub enum Method {
    Put,
    Patch,
}

/// What a control request is made for.
#[derive(Clone, Copy, Debug, PartialEq, Eq, Structural)]
pub enum Operation {
    /// Pause the sandbox.
    Pause,
    /// Resume the sandbox.
    Resume,
    /// Load the sandbox's state from a snapshot.
    Restore,
    /// Write the sandbox's state to a snapshot.
    CreateSnapshot,
}

/// One request to a sandbox's control socket.
#[derive(Clone, Debug, PartialEq, Eq)]
pub struct ControlRequest {
    pub method: Method,
    /// The path of the resource, such as `/vm`.
    pub path: String,
    /// The value of the `Accept` header.
    pub accept: String,
    /// The value of the `Content-Type` header.
    pub content_type: String,
    /// The JSON body.
    pub body: String,
}

/// How a control request ended.
#[derive(Clone, Copy, Debug, PartialEq, Eq, Structural)]
pub enum ControlOutcome {
    /// The socket answered with `status`, after `elapsed`.
    Replied { status: u16, elapsed: Delay },
    /// The request could not be built or sent, or no answer came.
    Unsent,
}

/// A control request that did not end in status 204.
#[derive(Clone, Debug, PartialEq, Eq)]
pub struct ControlPlaneError {
    /// The path of the control socket.
    pub socket: String,
    /// What the request was made for.
    pub operation: Operation,
    /// The status of the answer, where there was one.
    pub status: Option<u16>,
}

/// The only status that counts as success: 204, no content.
pub const NO_CONTENT: u16 = 204;

/// The body that asks for the state `Paused`.
pub open spec fn pause_body() -> Seq<char> {
    "{\"state\":\"Paused\"}"@
}

/// The body that asks for the state `Resumed`.
pub open spec fn resume_body() -> Seq<char> {
    "{\"state\":\"Resumed\"}"@
}

/// The body that asks to load a snapshot from a state file and a memory
/// file, without diff snapshots and without resuming the sandbox.
pub open spec fn restore_body(state_file: Seq<char>, memory_file: Seq<char>) -> Seq<char> {
    "{\"snapshot_path\":\""@ + state_file + "\",\"mem_file_path\":\""@ + memory_file
        + "\",\"enable_diff_snapshots\":false,\"resume_vm\":false}"@
}

/// The body that asks for a full snapshot, written to a state file and a
/// memory file.
pub open spec fn create_snapshot_body(state_file: Seq<char>, memory_file: Seq<char>) -> Seq<char> {
    "{\"snapshot_path\":\""@ + state_file + "\",\"mem_file_path\":\""@ + memory_file
        + "\",\"snapshot_type\":\"Full\"}"@
}

impl Operation {
    /// The method that the operation is sent with.
    pub open spec fn method(self) -> Method {
        match self {
            Operation::Pause | Operation::Resume => Method::Patch,
            Operation::Restore | Operation::CreateSnapshot => Method::Put,
        }
    }

    /// The resource that the operation is sent to.
    pub open spec fn path(self) -> Seq<char> {
        match self {
            Operation::Pause | Operation::Resume => "/vm"@,
            Operation::Restore => "/snapshot/load"@,
            Operation::CreateSnapshot => "/snapshot/create"@,
        }
    }
}

impl ControlRequest {
    /// Whether this is the request for `operation` with the given body: the
    /// operation's method and path, and JSON named in both headers.
    pub open spec fn carries(self, operation: Operation, body: Seq<char>) -> bool {
        &&& self.method == operation.method()
        &&& self.path@ == operation.path()
        &&& self.accept@ == "application/json"@
        &&& self.content_type@ == "application/json"@
        &&& self.body@ == body
    }

    /// The request with the given method, path and body, and JSON named in
    /// both headers.
    fn json(method: Method, path: &str, body: String) -> (r: ControlRequest)
        ensures
            r.method == method,
            r.path@ == path@,
            r.accept@ == "application/json"@,
            r.content_type@ == "application/json"@,
            r.body == body,
    {
        ControlRequest {
            method,
            path: path.to_owned(),
            accept: "application/json".to_owned(),
            content_type: "application/json".to_owned(),
            body,
        }
    }

    /// The request that pauses a sandbox.
    pub fn pause() -> (r: ControlRequest)
        ensures
            r.carries(Operation::Pause, pause_body()),
    {
        ControlRequest::json(Method::Patch, "/vm", "{\"state\":\"Paused\"}".to_owned())
    }

    /// The request that resumes a sandbox.
    pub fn resume() -> (r: ControlRequest)
        ensures
            r.carries(Operation::Resume, resume_body()),
    {
        ControlRequest::json(Method::Patch, "/vm", "{\"state\":\"Resumed\"}".to_owned())
    }

    /// The request that loads a sandbox's state from the snapshot in
    /// `state_file` and `memory_file`. The sandbox stays paused.
    pub fn restore(state_file: &str, memory_file: &str) -> (r: ControlRequest)
        ensures
            r.carries(Operation::Restore, restore_body(state_file@, memory_file@)),
    {
        let mut body = "{\"snapshot_path\":\"".to_owned();
        body.append(state_file);
        body.append("\",\"mem_file_path\":\"");
        body.append(memory_file);
        body.append("\",\"enable_diff_snapshots\":false,\"resume_vm\":false}");
        ControlRequest::json(Method::Put, "/snapshot/load", body)
    }

    /// The request that writes a full snapshot of a sandbox to `state_file`
    /// and `memory_file`.
    pub fn create_snapshot(state_file: &str, memory_file: &str) -> (r: ControlRequest)
        ensures
            r.carries(Operation::CreateSnapshot, create_snapshot_body(state_file@, memory_file@)),
    {
        let mut body = "{\"snapshot_path\":\"".to_owned();
        body.append(state_file);
        body.append("\",\"mem_file_path\":\"");
        body.append(memory_file);
        body.append("\",\"snapshot_type\":\"Full\"}");
        ControlRequest::json(Method::Put, "/snapshot/create", body)
    }
}

impl ControlOutcome {
    /// Whether the socket answered with status 204.
    pub open spec fn succeeded(self) -> bool {
        self matches ControlOutcome::Replied { status, .. } && status == NO_CONTENT
    }

    /// The status of the answer, where there was one.
    pub open spec fn status(self) -> Option<u16> {
        match self {
            ControlOutcome::Replied { status, .. } => Some(status),
            ControlOutcome::Unsent => None,
        }
    }

    /// Whether `e` reports this outcome as the failure of `operation` on
    /// `socket`.
    pub open spec fn fails_with(self, socket: Seq<char>, operation: Operation, e: ControlPlaneError) -> bool {
        e.socket@ == socket && e.operation == operation && e.status == self.status()
    }

    /// The time that the request took, where the socket answered with status
    /// 204; any other answer, and none, is an error that names the socket,
    /// the operation and the status.
    pub fn settle(self, socket: &str, operation: Operation) -> (r: Result<Delay, ControlPlaneError>)
        ensures
            r is Ok <==> self.succeeded(),
            r matches Ok(d) ==> self matches ControlOutcome::Replied { elapsed, .. } && d == elapsed,
            r matches Err(e) ==> self.fails_with(socket@, operation, e),
    {
        match self {
            ControlOutcome::Replied { status, elapsed } => {
                if status == NO_CONTENT {
                    Ok(elapsed)
                } else {
                    Err(
                        ControlPlaneError {
                            socket: socket.to_owned(),
                            operation,
                            status: Some(status),
                        },
                    )
                }
            },
            ControlOutcome::Unsent => Err(
                ControlPlaneError { socket: socket.to_owned(), operation, status: None },
            ),
        }
    }
}

} // verus!
