//! The mutation worker: the single owner of the device state, which applies
//! dequeued commands one at a time and asks for a commit after each.
//!
//! The worker only decides; the caller performs what it asks for (wait for
//! the next command, push the state to the device, stop) and reports back.
use vstd::prelude::*;
use crate::device::{DeviceState, DeviceView};
use crate::types::Command;

verus! {

/// Where the worker stands in its cycle.
#[derive(Clone, Copy, Debug, PartialEq, Eq, Structural)]
pub enum Phase {
    /// Waiting for the next command.
    Idle,
    /// A command has been applied; its commit is outstanding.
    Applying,
    /// The queue has closed; nothing more will happen.
    Stopped,
}

/// What the caller reports to the worker.
#[derive(Clone, Copy, Debug, PartialEq, Eq, Structural)]
pub enum WorkerEvent {
    /// A command was taken from the queue.
    Dequeued(Command),
    /// The state was pushed to the device; `false` when the device refused it.
    Committed(bool),
    /// The queue is closed for good and drained.
    QueueClosed,
}

/// What the worker asks the caller to do next.
#[derive(Clone, Copy, Debug, PartialEq, Eq, Structural)]
pub enum WorkerAction {
    /// Wait for the next command from the queue.
    Receive,
    /// Push the current device state to the device.
    Commit,
    /// End the worker.
    Stop,
}

/// The mathematical content of a worker.
pub struct WorkerView {
    pub device: DeviceView,
    pub phase: Phase,
}

/// The action that a phase waits on.
pub open spec fn awaited(phase: Phase) -> WorkerAction {
    match phase {
        Phase::Idle => WorkerAction::Receive,
        Phase::Applying => WorkerAction::Commit,
        Phase::Stopped => WorkerAction::Stop,
    }
}

impl WorkerView {
    /// One transition. A command is applied only when the worker is idle, so
    /// that at most one command is in flight; a commit outcome, failed or
    /// not, returns the worker to idle; the closed queue stops an idle
    /// worker. An event that the phase does not wait for changes nothing,
    /// and the worker repeats what it waits on.
    pub open spec fn step(self, ev: WorkerEvent) -> (WorkerView, WorkerAction) {
        match (self.phase, ev) {
            (Phase::Idle, WorkerEvent::Dequeued(cmd)) => (
                WorkerView { device: self.device.apply(cmd), phase: Phase::Applying },
                WorkerAction::Commit,
            ),
            (Phase::Applying, WorkerEvent::Committed(_)) => (
                WorkerView { phase: Phase::Idle, ..self },
                WorkerAction::Receive,
            ),
            (Phase::Idle, WorkerEvent::QueueClosed) => (
                WorkerView { phase: Phase::Stopped, ..self },
                WorkerAction::Stop,
            ),
            _ => (self, awaited(self.phase)),
        }
    }

    /// The worker after a sequence of events, with the actions it asked for.
    pub open spec fn feed(self, evs: Seq<WorkerEvent>) -> (WorkerView, Seq<WorkerAction>)
        decreases evs.len(),
    {
        if evs.len() == 0 {
            (self, Seq::empty())
        } else {
            let (w, acts) = self.feed(evs.drop_last());
            let (w2, a) = w.step(evs.last());
            (w2, acts.push(a))
        }
    }
}

/// The events of a worker that takes each command from the queue in turn and
/// commits after each, the device answering with `oks`.
pub open spec fn drain_events(cmds: Seq<Command>, oks: Seq<bool>) -> Seq<WorkerEvent>
    decreases cmds.len(),
{
    if cmds.len() == 0 || oks.len() == 0 {
        Seq::empty()
    } else {
        drain_events(cmds.drop_last(), oks.drop_last()) + seq![
            WorkerEvent::Dequeued(cmds.last()),
            WorkerEvent::Committed(oks.last()),
        ]
    }
}

/// The number of commits among `acts`.
pub open spec fn commit_count(acts: Seq<WorkerAction>) -> nat
    decreases acts.len(),
{
    if acts.len() == 0 {
        0
    } else {
        commit_count(acts.drop_last()) + if acts.last() == WorkerAction::Commit {
            1nat
        } else {
            0nat
        }
    }
}

/// No command is lost: an idle worker that takes K commands from the queue,
/// whatever the device answers to each commit, asks for exactly K commits,
/// ends idle, and holds the state that applying the K commands in order gives.
pub proof fn lemma_drain_commits_each_command(w: WorkerView, cmds: Seq<Command>, oks: Seq<bool>)
    requires
        w.phase == Phase::Idle,
        cmds.len() == oks.len(),
    ensures
        w.feed(drain_events(cmds, oks)).0 == (WorkerView {
            device: w.device.apply_all(cmds),
            phase: Phase::Idle,
        }),
        commit_count(w.feed(drain_events(cmds, oks)).1) == cmds.len(),
        w.feed(drain_events(cmds, oks)).1.len() == 2 * cmds.len(),
    decreases cmds.len(),
{
    if cmds.len() > 0 {
        let (pc, po) = (cmds.drop_last(), oks.drop_last());
        lemma_drain_commits_each_command(w, pc, po);
        let prev = drain_events(pc, po);
        let d1 = WorkerEvent::Dequeued(cmds.last());
        let c1 = WorkerEvent::Committed(oks.last());
        let evs = drain_events(cmds, oks);
        assert(evs == prev + seq![d1, c1]);
        assert(evs.drop_last() =~= prev.push(d1));
        assert(evs.drop_last().drop_last() =~= prev);
        let acts1 = w.feed(evs.drop_last()).1;
        let acts = w.feed(evs).1;
        assert(acts.drop_last() == acts1);
        assert(acts1.drop_last() == w.feed(prev).1);
        assert(acts1.last() == WorkerAction::Commit);
        assert(acts.last() == WorkerAction::Receive);
        assert(commit_count(acts1) == commit_count(w.feed(prev).1) + 1);
        assert(commit_count(acts) == commit_count(acts1));
    }
}

proof fn lemma_commit_count_append(x: Seq<WorkerAction>, y: Seq<WorkerAction>)
    ensures
        commit_count(x + y) == commit_count(x) + commit_count(y),
    decreases y.len(),
{
    if y.len() > 0 {
        assert((x + y).drop_last() =~= x + y.drop_last());
        lemma_commit_count_append(x, y.drop_last());
    } else {
        assert(x + y =~= x);
    }
}

proof fn lemma_feed_append(w: WorkerView, x: Seq<WorkerEvent>, y: Seq<WorkerEvent>)
    ensures
        w.feed(x + y).0 == w.feed(x).0.feed(y).0,
        w.feed(x + y).1 == w.feed(x).1 + w.feed(x).0.feed(y).1,
    decreases y.len(),
{
    if y.len() > 0 {
        assert((x + y).drop_last() =~= x + y.drop_last());
        assert((x + y).last() == y.last());
        lemma_feed_append(w, x, y.drop_last());
        let mid = w.feed(x).0;
        let acts = w.feed(x).1;
        let yacts = mid.feed(y.drop_last()).1;
        let a = mid.feed(y.drop_last()).0.step(y.last()).1;
        assert((acts + yacts).push(a) =~= acts + yacts.push(a));
    } else {
        assert(x + y =~= x);
        assert(w.feed(x).1 + Seq::<WorkerAction>::empty() =~= w.feed(x).1);
    }
}

/// No command is lost, from any running worker: a worker that has not
/// stopped first finishes its outstanding commit, if any, with the device's
/// answer `ok0`; then, taking K commands from the queue, whatever the device
/// answers, it asks for exactly K commits, ends idle, and holds the state that
/// applying the K commands in order gives.
pub proof fn lemma_running_worker_drains(
    w: WorkerView,
    ok0: bool,
    cmds: Seq<Command>,
    oks: Seq<bool>,
)
    requires
        w.phase != Phase::Stopped,
        cmds.len() == oks.len(),
    ensures
        ({
            let pre = if w.phase == Phase::Applying {
                seq![WorkerEvent::Committed(ok0)]
            } else {
                Seq::empty()
            };
            let (end, acts) = w.feed(pre + drain_events(cmds, oks));
            &&& end == (WorkerView { device: w.device.apply_all(cmds), phase: Phase::Idle })
            &&& commit_count(acts) == cmds.len()
        }),
{
    let pre = if w.phase == Phase::Applying {
        seq![WorkerEvent::Committed(ok0)]
    } else {
        Seq::<WorkerEvent>::empty()
    };
    let evs = drain_events(cmds, oks);
    lemma_feed_append(w, pre, evs);
    let mid = w.feed(pre).0;
    if w.phase == Phase::Applying {
        assert(pre.drop_last() =~= Seq::<WorkerEvent>::empty());
        assert(pre.last() == WorkerEvent::Committed(ok0));
        assert(w.feed(pre.drop_last()) == (w, Seq::<WorkerAction>::empty()));
        assert(w.feed(pre).1 =~= Seq::<WorkerAction>::empty().push(WorkerAction::Receive));
        let one = w.feed(pre).1;
        assert(one.drop_last() =~= Seq::<WorkerAction>::empty());
        assert(one.last() == WorkerAction::Receive);
        assert(commit_count(one.drop_last()) == 0);
    } else {
        assert(w.feed(pre).1 =~= Seq::<WorkerAction>::empty());
        assert(commit_count(w.feed(pre).1) == 0);
    }
    assert(commit_count(w.feed(pre).1) == 0);
    assert(mid == (WorkerView { phase: Phase::Idle, ..w }));
    lemma_drain_commits_each_command(mid, cmds, oks);
    lemma_commit_count_append(w.feed(pre).1, mid.feed(evs).1);
}

/// The single owner of the device state.
pub struct Worker {
    device: DeviceState,
    phase: Phase,
}

impl View for Worker {
    type V = WorkerView;

    closed spec fn view(&self) -> WorkerView {
        WorkerView { device: self.device@, phase: self.phase }
    }
}

impl Worker {
    /// A worker over a neutral device state whose first commit is outstanding:
    /// the neutral state is pushed to the device before any command is taken.
    pub fn new() -> (r: Worker)
        ensures
            r@ == (WorkerView { device: DeviceState::neutral(), phase: Phase::Applying }),
            r@.device.wf(),
    {
        Worker { device: DeviceState::new(), phase: Phase::Applying }
    }

    /// The current device state, which a commit pushes to the device.
    pub fn device(&self) -> (r: &DeviceState)
        ensures
            r@ == self@.device,
    {
        &self.device
    }

    /// The worker's phase.
    pub fn phase(&self) -> (r: Phase)
        ensures
            r == self@.phase,
    {
        self.phase
    }

    /// Takes one event and returns what the caller is to do next.
    pub fn on_event(&mut self, ev: WorkerEvent) -> (a: WorkerAction)
        requires
            old(self)@.device.wf(),
        ensures
            (final(self)@, a) == old(self)@.step(ev),
            final(self)@.device.wf(),
    {
        match (self.phase, ev) {
            (Phase::Idle, WorkerEvent::Dequeued(cmd)) => {
                self.device.apply_command(cmd);
                self.phase = Phase::Applying;
                WorkerAction::Commit
            },
            (Phase::Applying, WorkerEvent::Committed(_)) => {
                self.phase = Phase::Idle;
                WorkerAction::Receive
            },
            (Phase::Idle, WorkerEvent::QueueClosed) => {
                self.phase = Phase::Stopped;
                WorkerAction::Stop
            },
            _ => match self.phase {
                Phase::Idle => WorkerAction::Receive,
                Phase::Applying => WorkerAction::Commit,
                Phase::Stopped => WorkerAction::Stop,
            },
        }
    }
}

} // verus!
