//! The connection actor: the single-threaded owner of one client
//! connection.
//!
//! Frames are processed strictly in arrival order. On each inbound
//! frame the actor first sweeps its in-flight set, dropping every task
//! the worker pool has reported complete, then triages the frame: a
//! binary frame is rejected (the protocol is text only), a text frame
//! that does not parse as an envelope is ignored softly, and a parsed
//! envelope becomes a prepared task — a fresh request context plus the
//! raw argument string — for the surrounding process to hand to the
//! worker pool. The actor never blocks on a running handler, so new
//! envelopes are accepted while earlier ones still execute.

use vstd::prelude::*;

use crate::pathsettings::PathSettings;
use crate::tasks::Request;
use crate::tasks::RequestView;
use crate::tasks::StorageStatus;
use crate::wire::json_envelope;
use crate::wire::parse_envelope;

verus! {

/// A handle to one submitted, not yet reclaimed unit of work.
#[derive(Clone, Copy, PartialEq, Eq, Structural)]
pub struct InFlightTask {
    pub request_id: u32,
}

/// One inbound frame, as the transport delivers it.
pub enum InboundFrame {
    Text(String),
    Binary(Vec<u8>),
}

/// A unit of work ready for the pool: the request's fresh context and
/// the raw argument string its handler will decode.
pub struct PreparedTask {
    pub context: Request,
    pub args: String,
}

/// What the actor decided about one inbound frame.
pub enum ActorAction {
    Submit(PreparedTask),
    IgnoreMalformed,
    IgnoreBinary,
}

/// The in-flight set after dropping every task whose id the pool has
/// reported complete, keeping the rest in order.
pub open spec fn spec_swept(s: Seq<InFlightTask>, done: Seq<u32>) -> Seq<InFlightTask> {
    s.filter(|t: InFlightTask| !done.contains(t.request_id))
}

fn contains_id(done: &Vec<u32>, id: u32) -> (r: bool)
    ensures
        r == done@.contains(id),
{
    let n = done.len();
    let mut i: usize = 0;
    while i < n
        invariant
            i <= n,
            n == done@.len(),
            forall|j: int| 0 <= j < i ==> done@[j] != id,
        decreases n - i,
    {
        if done[i] == id {
            return true;
        }
        i = i + 1;
    }
    false
}

pub struct ConnectionActor {
    pub path_settings: PathSettings,
    pub storage: StorageStatus,
    pub in_flight: Vec<InFlightTask>,
}

impl ConnectionActor {
    /// Open a connection: an empty in-flight set and nothing else.
    pub fn new(path_settings: PathSettings, storage: StorageStatus) -> (a: ConnectionActor)
        ensures
            a.in_flight@ == Seq::<InFlightTask>::empty(),
            a.path_settings == path_settings,
            a.storage == storage,
    {
        ConnectionActor { path_settings, storage, in_flight: Vec::new() }
    }

    /// Reclaim completed work: drop exactly the in-flight tasks whose
    /// ids the pool has reported complete, preserving the order of the
    /// rest.
    pub fn sweep(&mut self, completed: &Vec<u32>)
        ensures
            final(self).in_flight@ == spec_swept(old(self).in_flight@, completed@),
            final(self).path_settings == old(self).path_settings,
            final(self).storage == old(self).storage,
    {
        let ghost pre = self.in_flight@;
        let ghost pred = |t: InFlightTask| !completed@.contains(t.request_id);
        let n = self.in_flight.len();
        let mut kept: Vec<InFlightTask> = Vec::new();
        let mut i: usize = 0;
        proof {
            reveal_with_fuel(Seq::filter, 1);
            assert(pre.take(0) =~= Seq::<InFlightTask>::empty());
            assert(Seq::<InFlightTask>::empty().filter(pred) =~= Seq::<InFlightTask>::empty());
        }
        while i < n
            invariant
                i <= n,
                n == pre.len(),
                self.in_flight@ == pre,
                kept@ == pre.take(i as int).filter(pred),
                pred == (|t: InFlightTask| !completed@.contains(t.request_id)),
            decreases n - i,
        {
            let t = self.in_flight[i];
            let ghost taken = pre.take(i as int);
            if !contains_id(completed, t.request_id) {
                kept.push(t);
            }
            i = i + 1;
            proof {
                reveal_with_fuel(Seq::filter, 1);
                assert(pre.take(i as int) =~= taken.push(t));
                assert(taken.push(t).drop_last() =~= taken);
                assert(taken.push(t).last() == t);
                if pred(t) {
                    assert(taken.push(t).filter(pred) =~= taken.filter(pred).push(t));
                } else {
                    assert(taken.push(t).filter(pred) =~= taken.filter(pred));
                }
            }
        }
        proof {
            assert(pre.take(n as int) =~= pre);
        }
        self.in_flight = kept;
    }

    /// Process one inbound frame: sweep the in-flight set, then triage
    /// the frame. A parsed envelope yields a prepared task whose
    /// context carries the envelope's id and name, this connection's
    /// configuration, and an empty log; its id joins the in-flight
    /// set. Malformed text and binary frames are dropped without
    /// dispatching anything.
    pub fn on_message(&mut self, frame: InboundFrame, completed: &Vec<u32>) -> (action:
        ActorAction)
        ensures
            final(self).path_settings == old(self).path_settings,
            final(self).storage == old(self).storage,
            frame matches InboundFrame::Binary(_) ==> {
                &&& action is IgnoreBinary
                &&& final(self).in_flight@ == spec_swept(old(self).in_flight@, completed@)
            },
            (frame matches InboundFrame::Text(raw) && json_envelope(raw@) is None) ==> {
                &&& action is IgnoreMalformed
                &&& final(self).in_flight@ == spec_swept(old(self).in_flight@, completed@)
            },
            (frame matches InboundFrame::Text(raw) && json_envelope(raw@) is Some) ==> ({
                let env = json_envelope(frame->Text_0@)->Some_0;
                &&& action matches ActorAction::Submit(task) && task.context@ == (RequestView {
                    id: env.0,
                    name: env.1,
                    path_settings: old(self).path_settings,
                    storage: old(self).storage,
                    sent: Seq::<crate::tasks::FrameView>::empty(),
                }) && task.args@ == env.2
                &&& final(self).in_flight@ == spec_swept(old(self).in_flight@, completed@).push(
                    InFlightTask { request_id: env.0 },
                )
            }),
    {
        self.sweep(completed);
        match frame {
            InboundFrame::Binary(_) => ActorAction::IgnoreBinary,
            InboundFrame::Text(raw) => match parse_envelope(raw.as_str()) {
                None => ActorAction::IgnoreMalformed,
                Some(envelope) => {
                    let context = Request {
                        id: envelope.id,
                        name: envelope.name,
                        path_settings: self.path_settings.clone(),
                        storage: self.storage,
                        sent: Vec::new(),
                    };
                    self.in_flight.push(InFlightTask { request_id: envelope.id });
                    proof {
                        assert(context.sent@.map_values(|f: crate::tasks::OutboundFrame| f@)
                            =~= Seq::<crate::tasks::FrameView>::empty());
                    }
                    ActorAction::Submit(PreparedTask { context, args: envelope.args })
                },
            },
        }
    }
}

} // verus!
