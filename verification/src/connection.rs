//! Voice connection manager: tracks the bot's at-most-one voice connection
//! in its guild and turns join/move/leave requests into the primitive
//! transport actions to perform. A join while a connection is open first
//! releases the old connection; a leave with no connection is a no-op.

use vstd::prelude::*;

verus! {

/// A primitive action performed against the external voice transport, in
/// the order the actions are returned.
#[derive(Clone, Copy, Debug, PartialEq, Eq)]
pub enum ConnAction {
    /// Establish a connection into `channel`.
    Acquire { channel: u64 },
    /// Release the held connection.
    Release,
    /// Move the held connection to `channel`.
    Switch { channel: u64 },
}

/// An operation requested of the connection manager.
#[derive(Clone, Copy, Debug, PartialEq, Eq)]
pub enum ConnOp {
    Join { channel: u64 },
    MoveTo { channel: u64 },
    Leave,
}

/// Model of one manager operation: the successor connection state and the
/// transport actions performed, in order.
pub open spec fn conn_step(connected: Option<u64>, op: ConnOp) -> (Option<u64>, Seq<ConnAction>) {
    match op {
        ConnOp::Join { channel } => (
            Option::Some(channel),
            if connected is Some {
                seq![ConnAction::Release, ConnAction::Acquire { channel }]
            } else {
                seq![ConnAction::Acquire { channel }]
            },
        ),
        ConnOp::MoveTo { channel } => match connected {
            Option::Some(_) => (Option::Some(channel), seq![ConnAction::Switch { channel }]),
            Option::None => (Option::None, Seq::<ConnAction>::empty()),
        },
        ConnOp::Leave => (
            Option::None,
            if connected is Some {
                seq![ConnAction::Release]
            } else {
                Seq::<ConnAction>::empty()
            },
        ),
    }
}

/// Model of a whole run: the connection state after the operations, and the
/// concatenated action trace.
pub open spec fn conn_run(connected: Option<u64>, ops: Seq<ConnOp>) -> (
    Option<u64>,
    Seq<ConnAction>,
)
    decreases ops.len(),
{
    if ops.len() == 0 {
        (connected, Seq::<ConnAction>::empty())
    } else {
        let head = conn_step(connected, ops[0]);
        let rest = conn_run(head.0, ops.skip(1));
        (rest.0, head.1 + rest.1)
    }
}

/// Net number of connections a trace acquires: each `Acquire` counts one,
/// each `Release` counts one back, a `Switch` keeps the connection.
pub open spec fn outstanding(trace: Seq<ConnAction>) -> int
    decreases trace.len(),
{
    if trace.len() == 0 {
        0
    } else {
        outstanding(trace.drop_last()) + match trace.last() {
            ConnAction::Acquire { .. } => 1,
            ConnAction::Release => -1int,
            ConnAction::Switch { .. } => 0,
        }
    }
}

/// One where a connection is held, zero where none is.
pub open spec fn held(connected: Option<u64>) -> int {
    if connected is Some {
        1
    } else {
        0
    }
}

/// Tracks the bot's voice connection in its one guild.
#[derive(Clone, Copy, Debug, PartialEq, Eq)]
pub struct ConnectionManager {
    /// Channel of the held connection, if any.
    pub connected: Option<u64>,
}

impl ConnectionManager {
    /// A fresh manager holding no connection.
    pub fn new() -> (m: ConnectionManager)
        ensures
            m.connected is None,
    {
        ConnectionManager { connected: None }
    }

    /// Requests a connection into `channel`; where one is already held it is
    /// released first, so at most one connection exists at any time.
    pub fn join(&mut self, channel: u64) -> (acts: Vec<ConnAction>)
        ensures
            final(self).connected == conn_step(old(self).connected, ConnOp::Join { channel }).0,
            acts@ == conn_step(old(self).connected, ConnOp::Join { channel }).1,
    {
        let mut acts: Vec<ConnAction> = Vec::new();
        if self.connected.is_some() {
            acts.push(ConnAction::Release);
        }
        acts.push(ConnAction::Acquire { channel });
        self.connected = Some(channel);
        proof {
            assert(acts@ =~= conn_step(old(self).connected, ConnOp::Join { channel }).1);
        }
        acts
    }

    /// Moves the held connection to `channel`; with no connection held,
    /// nothing is done.
    pub fn move_to(&mut self, channel: u64) -> (acts: Vec<ConnAction>)
        ensures
            final(self).connected == conn_step(old(self).connected, ConnOp::MoveTo { channel }).0,
            acts@ == conn_step(old(self).connected, ConnOp::MoveTo { channel }).1,
    {
        let mut acts: Vec<ConnAction> = Vec::new();
        if self.connected.is_some() {
            acts.push(ConnAction::Switch { channel });
            self.connected = Some(channel);
        }
        proof {
            assert(acts@ =~= conn_step(old(self).connected, ConnOp::MoveTo { channel }).1);
        }
        acts
    }

    /// Releases the held connection; a leave with no connection is a no-op.
    pub fn leave(&mut self) -> (acts: Vec<ConnAction>)
        ensures
            final(self).connected == conn_step(old(self).connected, ConnOp::Leave).0,
            acts@ == conn_step(old(self).connected, ConnOp::Leave).1,
    {
        let mut acts: Vec<ConnAction> = Vec::new();
        if self.connected.is_some() {
            acts.push(ConnAction::Release);
        }
        self.connected = None;
        proof {
            assert(acts@ =~= conn_step(old(self).connected, ConnOp::Leave).1);
        }
        acts
    }
}

/// The net of a concatenated trace is the sum of the nets of its parts.
proof fn lemma_outstanding_add(a: Seq<ConnAction>, b: Seq<ConnAction>)
    ensures
        outstanding(a + b) == outstanding(a) + outstanding(b),
    decreases b.len(),
{
    if b.len() == 0 {
        assert(a + b =~= a);
    } else {
        lemma_outstanding_add(a, b.drop_last());
        assert((a + b).drop_last() =~= a + b.drop_last());
    }
}

/// The actions of a single operation keep the count of held connections
/// between zero and one at every point, and land on the successor state's
/// count.
proof fn lemma_conn_step_bounded(connected: Option<u64>, op: ConnOp)
    ensures
        forall|j: int|
            0 <= j <= conn_step(connected, op).1.len() ==> 0 <= held(connected)
                + #[trigger] outstanding(conn_step(connected, op).1.take(j)) <= 1,
        held(conn_step(connected, op).0) == held(connected) + outstanding(
            conn_step(connected, op).1,
        ),
{
    let acts = conn_step(connected, op).1;
    assert(outstanding(Seq::<ConnAction>::empty()) == 0);
    assert(acts.take(0) =~= Seq::<ConnAction>::empty());
    if acts.len() >= 1 {
        assert(acts.take(1) =~= seq![acts[0]]);
        assert(seq![acts[0]].drop_last() =~= Seq::<ConnAction>::empty());
        assert(outstanding(seq![acts[0]]) == outstanding(Seq::<ConnAction>::empty()) + match acts[0] {
            ConnAction::Acquire { .. } => 1int,
            ConnAction::Release => -1int,
            ConnAction::Switch { .. } => 0int,
        });
    }
    if acts.len() >= 2 {
        assert(acts.take(2) =~= acts);
        assert(acts.drop_last() =~= seq![acts[0]]);
        assert(outstanding(acts) == outstanding(seq![acts[0]]) + match acts[1] {
            ConnAction::Acquire { .. } => 1int,
            ConnAction::Release => -1int,
            ConnAction::Switch { .. } => 0int,
        });
    }
}

/// In any run, every prefix of the action trace keeps the count of held
/// connections between zero and one, and the final count matches the final
/// connection state.
proof fn lemma_conn_run_bounded(connected: Option<u64>, ops: Seq<ConnOp>)
    ensures
        forall|i: int|
            0 <= i <= conn_run(connected, ops).1.len() ==> 0 <= held(connected)
                + #[trigger] outstanding(conn_run(connected, ops).1.take(i)) <= 1,
        held(conn_run(connected, ops).0) == held(connected) + outstanding(
            conn_run(connected, ops).1,
        ),
    decreases ops.len(),
{
    if ops.len() == 0 {
        assert(forall|i: int|
            0 <= i <= conn_run(connected, ops).1.len() ==> conn_run(connected, ops).1.take(i)
                =~= Seq::<ConnAction>::empty());
        assert(outstanding(Seq::<ConnAction>::empty()) == 0);
    } else {
        let head = conn_step(connected, ops[0]);
        let rest = conn_run(head.0, ops.skip(1));
        let tr = conn_run(connected, ops).1;
        lemma_conn_step_bounded(connected, ops[0]);
        lemma_conn_run_bounded(head.0, ops.skip(1));
        lemma_outstanding_add(head.1, rest.1);
        assert(head.1.take(head.1.len() as int) =~= head.1);

        assert forall|i: int| 0 <= i <= tr.len() implies 0 <= held(connected)
            + #[trigger] outstanding(tr.take(i)) <= 1 by {
            if i <= head.1.len() {
                assert(tr.take(i) =~= head.1.take(i));
            } else {
                let k = i - head.1.len();
                assert(tr.take(i) =~= head.1 + rest.1.take(k));
                lemma_outstanding_add(head.1, rest.1.take(k));
                assert(0 <= held(head.0) + outstanding(rest.1.take(k)) <= 1);
            }
        }
    }
}

/// No double-join: run from the disconnected state, every prefix of the
/// transport action trace of any operation sequence holds at most one
/// connection — each `Acquire` beyond the first is preceded by a matching
/// `Release` — and never releases a connection it does not hold.
pub proof fn lemma_at_most_one_connection(ops: Seq<ConnOp>)
    ensures
        forall|i: int|
            0 <= i <= conn_run(Option::None, ops).1.len() ==> 0 <= #[trigger] outstanding(
                conn_run(Option::None, ops).1.take(i),
            ) <= 1,
{
    lemma_conn_run_bounded(Option::None, ops);
}

} // verus!
