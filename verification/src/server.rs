//! A small in-memory row server: it answers a scan by streaming its stored
//! rows in order, and answers every mutation with an empty stream. Useful as
//! the remote end of the protocol in tests and demonstrations.

use vstd::prelude::*;

use crate::client::StreamEvent;
use crate::protocol::DeleteRequest;
use crate::protocol::ExecuteRequest;
use crate::protocol::InsertRequest;
use crate::protocol::ResultSet;
use crate::protocol::UpdateRequest;
use vstd::string::StringExecFns;

verus! {

/// The row server: a fixed set of rows it echoes to every scan.
#[derive(Debug, PartialEq, Eq)]
pub struct EchoFdw {
    pub rows: Vec<ResultSet>,
}

impl EchoFdw {
    /// A server that will stream exactly these rows, in this order.
    pub fn new(rows: Vec<ResultSet>) -> (r: EchoFdw)
        ensures
            r.rows == rows,
    {
        EchoFdw { rows }
    }

    /// Answers a scan: every stored row, in order, then completion.
    pub fn execute(&self, _request: &ExecuteRequest) -> (out: Vec<StreamEvent>)
        ensures
            out@.len() == self.rows@.len() + 1,
            forall|i: int|
                0 <= i < self.rows@.len() ==> (#[trigger] out@[i] matches StreamEvent::Message(rs)
                    && rs.model() == self.rows@[i].model() && rs.values@.len()
                    == self.rows@[i].values@.len()),
            out@[self.rows@.len() as int] is Completed,
    {
        let mut out: Vec<StreamEvent> = Vec::new();
        let mut i: usize = 0;
        while i < self.rows.len()
            invariant
                i <= self.rows@.len(),
                out@.len() == i as int,
                forall|k: int|
                    0 <= k < i as int ==> (#[trigger] out@[k] matches StreamEvent::Message(rs)
                        && rs.model() == self.rows@[k].model() && rs.values@.len()
                        == self.rows@[k].values@.len()),
            decreases self.rows@.len() - i as int,
        {
            out.push(StreamEvent::Message(self.rows[i].deep_copy()));
            i = i + 1;
        }
        out.push(StreamEvent::Completed);
        out
    }

    /// Answers an insert: nothing to echo, so an empty stream that completes
    /// at once.
    pub fn insert(&self, _request: &InsertRequest) -> (out: Vec<StreamEvent>)
        ensures
            out@.len() == 1,
            out@[0] is Completed,
    {
        let mut out: Vec<StreamEvent> = Vec::new();
        out.push(StreamEvent::Completed);
        out
    }

    /// Answers an update: an empty stream that completes at once.
    pub fn update(&self, _request: &UpdateRequest) -> (out: Vec<StreamEvent>)
        ensures
            out@.len() == 1,
            out@[0] is Completed,
    {
        let mut out: Vec<StreamEvent> = Vec::new();
        out.push(StreamEvent::Completed);
        out
    }

    /// Answers a delete: an empty stream that completes at once.
    pub fn delete(&self, _request: &DeleteRequest) -> (out: Vec<StreamEvent>)
        ensures
            out@.len() == 1,
            out@[0] is Completed,
    {
        let mut out: Vec<StreamEvent> = Vec::new();
        out.push(StreamEvent::Completed);
        out
    }
}

/// A greeting request: who is asking.
#[derive(Debug, PartialEq, Eq)]
pub struct HelloRequest {
    pub name: String,
}

/// A greeting reply.
#[derive(Debug, PartialEq, Eq)]
pub struct HelloReply {
    pub message: String,
}

/// The greeter the first cut of the row server answered with: it greets the
/// caller by name.
#[derive(Debug, PartialEq, Eq)]
pub struct MyGreeter {}

impl MyGreeter {
    /// Replies with `Hello <name>!`.
    pub fn say_hello(&self, request: &HelloRequest) -> (r: HelloReply)
        ensures
            r.message@ == "Hello "@ + request.name@ + "!"@,
    {
        let mut message = "Hello ".to_owned();
        message.append(request.name.as_str());
        message.append("!");
        HelloReply { message }
    }
}

} // verus!
