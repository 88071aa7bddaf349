//! Consuming a response stream.
//!
//! The transport hands the logic one event at a time: a row message, normal
//! completion, or a failure that ends the stream. The pull-based
//! [`ScanCursor`] decides what each event means for a scan; [`collect_stream`]
//! drains a whole scan into rows, and [`drain_stream`] drains a mutation's
//! echo stream. A row message whose width disagrees with the request's
//! descriptor is a protocol violation and fails the call; rows already
//! delivered before a mid-stream failure stay delivered.

use vstd::prelude::*;

use crate::codec::CodecError;
use crate::protocol::ResultSet;
use crate::value::ValModel;
use crate::value::lemma_value_items_model;

verus! {

/// One event of a response stream, in arrival order.
#[derive(Debug, PartialEq, Eq)]
pub enum StreamEvent {
    /// The server streamed one row message.
    Message(ResultSet),
    /// The stream completed normally.
    Completed,
    /// The server ended the stream with the reported failure.
    Failed(String),
}

/// Model of a stream event.
pub enum EvModel {
    Message(Seq<ValModel>),
    Completed,
    Failed(Seq<char>),
}

impl StreamEvent {
    pub open spec fn model(self) -> EvModel {
        match self {
            StreamEvent::Message(rs) => EvModel::Message(rs.model()),
            StreamEvent::Completed => EvModel::Completed,
            StreamEvent::Failed(msg) => EvModel::Failed(msg@),
        }
    }
}

/// Why a call failed.
#[derive(Debug, PartialEq, Eq)]
pub enum FdwError {
    /// The codec refused a value in either direction.
    Codec(CodecError),
    /// A streamed row's width disagrees with the request's descriptor.
    Protocol { expected: usize, got: usize },
    /// The server reported a failure on the stream.
    Remote(String),
    /// The connection could not be established.
    Connection(String),
}

/// Model of a call failure.
pub enum ErrModel {
    Codec(CodecError),
    Protocol(int, int),
    Remote(Seq<char>),
    Connection(Seq<char>),
}

impl FdwError {
    pub open spec fn model(self) -> ErrModel {
        match self {
            FdwError::Codec(e) => ErrModel::Codec(e),
            FdwError::Protocol { expected, got } => ErrModel::Protocol(
                expected as int,
                got as int,
            ),
            FdwError::Remote(msg) => ErrModel::Remote(msg@),
            FdwError::Connection(msg) => ErrModel::Connection(msg@),
        }
    }
}

/// Whether the event delivers a row of exactly the descriptor's width: the one
/// kind of event that lets a scan continue.
pub open spec fn good_message(n: int, ev: EvModel) -> bool {
    ev matches EvModel::Message(vals) && vals.len() == n
}

/// The stream, read under a descriptor of width `n`, stops at position `t`:
/// everything before `t` is a row of the right width, and the event at `t` is
/// not.
pub open spec fn stops_at(n: int, evs: Seq<StreamEvent>, t: int) -> bool {
    &&& 0 <= t < evs.len()
    &&& !good_message(n, evs[t].model())
    &&& forall|j: int| 0 <= j < t ==> good_message(n, (#[trigger] evs[j]).model())
}

/// Whether the stream stops at all under a descriptor of width `n`. A remote
/// server terminates every stream, so a fully received stream always does.
pub open spec fn stream_stops(n: int, evs: Seq<StreamEvent>) -> bool {
    exists|t: int| stops_at(n, evs, t)
}

/// The stop position of a stream is unique: the contracts below, stated for
/// every stop position, pin one outcome.
pub proof fn lemma_stop_position_unique(n: int, evs: Seq<StreamEvent>, t1: int, t2: int)
    requires
        stops_at(n, evs, t1),
        stops_at(n, evs, t2),
    ensures
        t1 == t2,
{
}

/// Law: every row a scan delivers before it stops has exactly the width of
/// the descriptor the request was built from.
pub proof fn lemma_delivered_rows_have_descriptor_width(
    n: int,
    evs: Seq<StreamEvent>,
    t: int,
    j: int,
)
    requires
        stops_at(n, evs, t),
        0 <= j < t,
    ensures
        evs[j].model() matches EvModel::Message(vals) && vals.len() == n,
{
}

/// The pull side of a scan call: one stream is consumed one event at a time,
/// and the cursor decides what each event means. It starts open and closes on
/// completion or on the first failure; rows handed out before that stay with
/// their taker.
#[derive(Debug, PartialEq, Eq)]
pub struct ScanCursor {
    pub ncols: usize,
    pub open: bool,
}

/// What one pulled event amounts to.
#[derive(Debug, PartialEq, Eq)]
pub enum ScanStep {
    /// A row of the descriptor's width, handed to the caller.
    Deliver(ResultSet),
    /// The stream completed; the scan is over.
    Finished,
    /// The stream failed; the scan is over and the call fails.
    Failed(FdwError),
}

/// Model of one pulled event's outcome.
pub enum StepModel {
    Deliver(Seq<ValModel>),
    Finished,
    Failed(ErrModel),
}

impl ScanStep {
    pub open spec fn model(self) -> StepModel {
        match self {
            ScanStep::Deliver(rs) => StepModel::Deliver(rs.model()),
            ScanStep::Finished => StepModel::Finished,
            ScanStep::Failed(e) => StepModel::Failed(e.model()),
        }
    }
}

/// What consuming one event under a descriptor of width `n` must amount to.
pub open spec fn step_spec(n: int, ev: EvModel) -> StepModel {
    match ev {
        EvModel::Message(vals) => if vals.len() == n {
            StepModel::Deliver(vals)
        } else {
            StepModel::Failed(ErrModel::Protocol(n, vals.len() as int))
        },
        EvModel::Completed => StepModel::Finished,
        EvModel::Failed(msg) => StepModel::Failed(ErrModel::Remote(msg)),
    }
}

impl ScanCursor {
    /// A cursor for a scan issued under a descriptor of width `ncols`.
    pub fn new(ncols: usize) -> (r: ScanCursor)
        ensures
            r.ncols == ncols,
            r.open,
    {
        ScanCursor { ncols, open: true }
    }

    /// Consumes the next stream event. A row of the right width is delivered
    /// and the cursor stays open; anything else closes the cursor — normal
    /// completion finishes the scan, a wrong-width row is a protocol
    /// violation, and a reported failure is passed on.
    pub fn step(&mut self, ev: StreamEvent) -> (r: ScanStep)
        requires
            old(self).open,
        ensures
            final(self).ncols == old(self).ncols,
            final(self).open == good_message(old(self).ncols as int, ev.model()),
            r.model() == step_spec(old(self).ncols as int, ev.model()),
            r matches ScanStep::Deliver(out) ==> out.values@.len() == old(self).ncols as int,
    {
        match ev {
            StreamEvent::Message(rs) => {
                proof {
                    lemma_value_items_model(rs.values@);
                }
                if rs.values.len() == self.ncols {
                    ScanStep::Deliver(rs)
                } else {
                    let got = rs.values.len();
                    self.open = false;
                    ScanStep::Failed(FdwError::Protocol { expected: self.ncols, got })
                }
            },
            StreamEvent::Completed => {
                self.open = false;
                ScanStep::Finished
            },
            StreamEvent::Failed(msg) => {
                self.open = false;
                ScanStep::Failed(FdwError::Remote(msg))
            },
        }
    }
}

/// Drains a whole scan stream into its rows, in arrival order: the rows
/// before the stop, if the stream completed there; the exact failure
/// otherwise. Mirrors pulling a scan to its end in one call.
pub fn collect_stream(ncols: usize, events: &Vec<StreamEvent>) -> (r: Result<
    Vec<ResultSet>,
    FdwError,
>)
    requires
        stream_stops(ncols as int, events@),
    ensures
        forall|t: int|
            stops_at(ncols as int, events@, t) ==> {
                &&& (events@[t].model() is Completed ==> (r matches Ok(rows) && rows@.len() == t
                    && forall|j: int|
                    0 <= j < t ==> (#[trigger] rows@[j]).model() == events@[j].model()
                        ->Message_0 && rows@[j].values@.len() == ncols as int))
                &&& (events@[t].model() is Failed ==> (r matches Err(e) && e.model()
                    == ErrModel::Remote(events@[t].model()->Failed_0)))
                &&& (events@[t].model() is Message ==> (r matches Err(e) && e.model()
                    == ErrModel::Protocol(ncols as int, events@[t].model()->Message_0.len() as int)))
            },
{
    let mut out: Vec<ResultSet> = Vec::new();
    let mut i: usize = 0;
    while i < events.len()
        invariant
            i <= events@.len(),
            out@.len() == i as int,
            forall|j: int| 0 <= j < i as int ==> good_message(ncols as int, (#[trigger] events@[j]).model()),
            forall|j: int|
                0 <= j < i as int ==> (#[trigger] out@[j]).model() == events@[j].model()
                    ->Message_0 && out@[j].values@.len() == ncols as int,
        decreases events@.len() - i as int,
    {
        match &events[i] {
            StreamEvent::Message(rs) => {
                proof {
                    lemma_value_items_model(rs.values@);
                }
                if rs.values.len() == ncols {
                    out.push(rs.deep_copy());
                } else {
                    return Err(FdwError::Protocol { expected: ncols, got: rs.values.len() });
                }
            },
            StreamEvent::Completed => {
                return Ok(out);
            },
            StreamEvent::Failed(msg) => {
                return Err(FdwError::Remote(msg.clone()));
            },
        }
        i = i + 1;
    }
    proof {
        let t = choose|t: int| stops_at(ncols as int, events@, t);
        assert(good_message(ncols as int, events@[t].model()));
        assert(false);
    }
    unreached()
}

/// Drains a mutation's echo stream to completion, discarding the echoed rows:
/// the engine-facing mutation contract returns no rows, but a malformed echo
/// row or a reported failure still fails the call.
pub fn drain_stream(ncols: usize, events: &Vec<StreamEvent>) -> (r: Result<(), FdwError>)
    requires
        stream_stops(ncols as int, events@),
    ensures
        forall|t: int|
            stops_at(ncols as int, events@, t) ==> {
                &&& (events@[t].model() is Completed ==> r is Ok)
                &&& (events@[t].model() is Failed ==> (r matches Err(e) && e.model()
                    == ErrModel::Remote(events@[t].model()->Failed_0)))
                &&& (events@[t].model() is Message ==> (r matches Err(e) && e.model()
                    == ErrModel::Protocol(ncols as int, events@[t].model()->Message_0.len() as int)))
            },
{
    let mut i: usize = 0;
    while i < events.len()
        invariant
            i <= events@.len(),
            forall|j: int| 0 <= j < i as int ==> good_message(ncols as int, (#[trigger] events@[j]).model()),
        decreases events@.len() - i as int,
    {
        match &events[i] {
            StreamEvent::Message(rs) => {
                proof {
                    lemma_value_items_model(rs.values@);
                }
                if rs.values.len() != ncols {
                    return Err(FdwError::Protocol { expected: ncols, got: rs.values.len() });
                }
            },
            StreamEvent::Completed => {
                return Ok(());
            },
            StreamEvent::Failed(msg) => {
                return Err(FdwError::Remote(msg.clone()));
            },
        }
        i = i + 1;
    }
    proof {
        let t = choose|t: int| stops_at(ncols as int, events@, t);
        assert(good_message(ncols as int, events@[t].model()));
        assert(false);
    }
    unreached()
}

} // verus!
