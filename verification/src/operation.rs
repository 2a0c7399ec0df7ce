//! Multi-phase operation tracker: one user-visible workflow instance, its
//! phases, and the events it emits. The tracker gives a caller linear,
//! short-circuiting error handling: every fallible step routes through
//! [`Operation::fail_if_err`], so the first failure marks the operation
//! terminal and halts the remaining phases.
//!
//! Invariants: at most one phase is running at a time, and once the operation
//! is terminal (succeeded or failed) no call changes its state again.

use vstd::prelude::*;

use crate::events::EventModel;
use crate::events::UiEvent;
use crate::text::str_eq;

verus! {

/// Status of a single phase.
#[derive(Clone, Copy, PartialEq, Eq, Structural, Debug)]
pub enum PhaseStatus {
    /// Declared but not yet entered. This tracker records a phase on entry,
    /// so its own history never holds a pending phase; the status exists for
    /// callers that present a workflow's phases ahead of running them.
    Pending,
    Running,
    Succeeded,
    Failed,
}

/// Status of the whole operation.
#[derive(Clone, Copy, PartialEq, Eq, Structural, Debug)]
pub enum OpStatus {
    Running,
    Succeeded,
    Failed,
}

/// One phase of an operation.
pub struct Phase {
    pub name: String,
    pub status: PhaseStatus,
    pub message: Option<String>,
}

/// The mathematical shape of a [`Phase`].
#[verifier::ext_equal]
pub struct PhaseModel {
    pub name: Seq<char>,
    pub status: PhaseStatus,
    pub message: Option<Seq<char>>,
}

impl View for Phase {
    type V = PhaseModel;

    open spec fn view(&self) -> PhaseModel {
        PhaseModel {
            name: self.name@,
            status: self.status,
            message: match self.message {
                Some(m) => Some(m@),
                None => None,
            },
        }
    }
}

/// The mathematical shape of an [`Operation`].
#[verifier::ext_equal]
pub struct OpModel {
    pub name: Seq<char>,
    pub phases: Seq<PhaseModel>,
    pub status: OpStatus,
    pub events: Seq<EventModel>,
}

/// Phase `i` of `m` exists and is running.
pub open spec fn phase_running(m: OpModel, i: int) -> bool {
    0 <= i < m.phases.len() && m.phases[i].status is Running
}

/// Some phase of `m` is running.
pub open spec fn has_running(m: OpModel) -> bool {
    exists|i: int| phase_running(m, i)
}

/// The index of the running phase (meaningful only under [`has_running`]).
pub open spec fn running_index(m: OpModel) -> int {
    choose|i: int| phase_running(m, i)
}

/// The name of the running phase (meaningful only under [`has_running`]).
pub open spec fn running_name(m: OpModel) -> Seq<char> {
    m.phases[running_index(m)].name
}

/// Well-formedness: at most one phase runs at a time, and a terminal
/// operation has no running phase.
pub open spec fn wf_model(m: OpModel) -> bool {
    &&& forall|i: int, j: int| phase_running(m, i) && phase_running(m, j) ==> i == j
    &&& !(m.status is Running) ==> !has_running(m)
}

/// The model after a failure in `phase` with `message`: the running phase
/// (or, with none running, a fresh phase named `phase`) is marked failed
/// with the message, the operation becomes terminal, and exactly one
/// failure event is appended.
pub open spec fn failed_model(m: OpModel, phase: Seq<char>, message: Seq<char>) -> OpModel {
    OpModel {
        name: m.name,
        status: OpStatus::Failed,
        phases: if has_running(m) {
            m.phases.update(
                running_index(m),
                PhaseModel {
                    name: m.phases[running_index(m)].name,
                    status: PhaseStatus::Failed,
                    message: Some(message),
                },
            )
        } else {
            m.phases.push(
                PhaseModel { name: phase, status: PhaseStatus::Failed, message: Some(message) },
            )
        },
        events: m.events.push(
            EventModel::OperationFailed { operation: m.name, phase: phase, message: message },
        ),
    }
}

/// The model after a phase named `phase` is started on an idle running
/// operation: the phase is appended running and one started event is
/// recorded.
pub open spec fn started_model(m: OpModel, phase: Seq<char>) -> OpModel {
    OpModel {
        name: m.name,
        status: OpStatus::Running,
        phases: m.phases.push(
            PhaseModel { name: phase, status: PhaseStatus::Running, message: None },
        ),
        events: m.events.push(EventModel::PhaseStarted { operation: m.name, phase: phase }),
    }
}

/// The model after moving on from the running phase `from` to `to`: `from`
/// is marked succeeded, `to` is appended running, and the two events are
/// recorded in order.
pub open spec fn advanced_model(m: OpModel, from: Seq<char>, to: Seq<char>) -> OpModel {
    OpModel {
        name: m.name,
        status: OpStatus::Running,
        phases: m.phases.update(
            running_index(m),
            PhaseModel {
                name: from,
                status: PhaseStatus::Succeeded,
                message: m.phases[running_index(m)].message,
            },
        ).push(PhaseModel { name: to, status: PhaseStatus::Running, message: None }),
        events: m.events.push(EventModel::PhaseSucceeded { operation: m.name, phase: from }).push(
            EventModel::PhaseStarted { operation: m.name, phase: to },
        ),
    }
}

/// The model after completing the running phase `phase`: the phase and the
/// operation are marked succeeded and one completion event is recorded.
pub open spec fn completed_model(m: OpModel, phase: Seq<char>) -> OpModel {
    OpModel {
        name: m.name,
        status: OpStatus::Succeeded,
        phases: m.phases.update(
            running_index(m),
            PhaseModel {
                name: phase,
                status: PhaseStatus::Succeeded,
                message: m.phases[running_index(m)].message,
            },
        ),
        events: m.events.push(EventModel::OperationCompleted { operation: m.name }),
    }
}

/// The operation is live and `phase` is the phase currently running.
pub open spec fn in_phase(m: OpModel, phase: Seq<char>) -> bool {
    m.status is Running && has_running(m) && running_name(m) == phase
}

/// One call of the tracker's mutating interface, by its inputs. For
/// [`TrackerCall::FailIfErr`], `error` carries the message of an error
/// result and is `None` for a success result.
pub enum TrackerCall {
    Start { phase: Seq<char> },
    MoveOn { from: Seq<char>, to: Seq<char> },
    Fail { phase: Seq<char>, message: Seq<char> },
    FailIfErr { phase: Seq<char>, error: Option<Seq<char>> },
    Complete { phase: Seq<char> },
}

/// The operation's state after one call, exactly as the five methods'
/// contracts leave it. A terminal operation is a fixed point of every call.
pub open spec fn step_model(m: OpModel, c: TrackerCall) -> OpModel {
    if !(m.status is Running) {
        m
    } else {
        match c {
            TrackerCall::Start { phase } => if has_running(m) {
                m
            } else {
                started_model(m, phase)
            },
            TrackerCall::MoveOn { from, to } => if has_running(m) && running_name(m) == from {
                advanced_model(m, from, to)
            } else {
                m
            },
            TrackerCall::Fail { phase, message } => failed_model(m, phase, message),
            TrackerCall::FailIfErr { phase, error } => match error {
                Some(message) => failed_model(m, phase, message),
                None => m,
            },
            TrackerCall::Complete { phase } => if has_running(m) && running_name(m) == phase {
                completed_model(m, phase)
            } else {
                m
            },
        }
    }
}

/// The operation's state after a sequence of calls, first call first.
pub open spec fn steps_model(m: OpModel, calls: Seq<TrackerCall>) -> OpModel
    decreases calls.len(),
{
    if calls.len() == 0 {
        m
    } else {
        steps_model(step_model(m, calls.first()), calls.drop_first())
    }
}

/// Terminal idempotence: once an operation reached a terminal state — failed
/// or succeeded — no sequence of later calls changes its state.
pub proof fn lemma_terminal_is_frozen(m: OpModel, calls: Seq<TrackerCall>)
    requires
        !(m.status is Running),
    ensures
        steps_model(m, calls) == m,
    decreases calls.len(),
{
    if calls.len() > 0 {
        assert(step_model(m, calls.first()) == m);
        lemma_terminal_is_frozen(m, calls.drop_first());
    }
}

/// Tracker for one user-visible workflow instance.
pub struct Operation {
    name: String,
    phases: Vec<Phase>,
    status: OpStatus,
    events: Vec<UiEvent>,
}

impl View for Operation {
    type V = OpModel;

    closed spec fn view(&self) -> OpModel {
        OpModel {
            name: self.name@,
            phases: self.phases@.map_values(|p: Phase| p@),
            status: self.status,
            events: self.events@.map_values(|e: UiEvent| e@),
        }
    }
}

impl Operation {
    /// Well-formedness of the tracker's state.
    pub open spec fn wf(&self) -> bool {
        wf_model(self@)
    }

    /// A fresh operation: running, with no phases and no events yet.
    pub fn new(name: String) -> (op: Operation)
        ensures
            op.wf(),
            op@.name == name@,
            op@.phases == Seq::<PhaseModel>::empty(),
            op@.status is Running,
            op@.events == Seq::<EventModel>::empty(),
    {
        let op = Operation {
            name,
            phases: Vec::new(),
            status: OpStatus::Running,
            events: Vec::new(),
        };
        proof {
            assert(op@.phases =~= Seq::<PhaseModel>::empty());
            assert(op@.events =~= Seq::<EventModel>::empty());
        }
        op
    }

    /// The index of the running phase, if any.
    fn find_running(&self) -> (r: Option<usize>)
        requires
            self.wf(),
        ensures
            match r {
                Some(i) => phase_running(self@, i as int) && running_index(self@) == i as int,
                None => !has_running(self@),
            },
    {
        let n = self.phases.len();
        let mut i: usize = 0;
        while i < n
            invariant
                i <= n,
                n == self.phases@.len(),
                self.wf(),
                forall|j: int| 0 <= j < i ==> !(#[trigger] self@.phases[j].status is Running),
            decreases n - i,
        {
            if self.phases[i].status == PhaseStatus::Running {
                proof {
                    assert(phase_running(self@, i as int));
                    assert(phase_running(self@, running_index(self@)));
                }
                return Some(i);
            }
            i += 1;
        }
        proof {
            assert forall|k: int| !phase_running(self@, k) by {
                if 0 <= k < self@.phases.len() {
                    assert(!(self@.phases[k].status is Running));
                }
            }
        }
        None
    }

    /// Declares entry into a phase and records a phase-started event. Fails,
    /// changing nothing, if the operation is terminal or a phase is already
    /// running.
    pub fn start(&mut self, phase: &str) -> (r: Result<(), String>)
        requires
            old(self).wf(),
        ensures
            final(self).wf(),
            !(old(self)@.status is Running) ==> r is Err && *final(self) == *old(self),
            old(self)@.status is Running && has_running(old(self)@) ==> r is Err && *final(self)
                == *old(self),
            old(self)@.status is Running && !has_running(old(self)@) ==> r is Ok && final(self)@
                == started_model(old(self)@, phase@),
            final(self)@ == step_model(old(self)@, TrackerCall::Start { phase: phase@ }),
    {
        if self.status != OpStatus::Running {
            return Err("operation is already finished".to_owned());
        }
        match self.find_running() {
            Some(_) => {
                return Err("another phase is still running".to_owned());
            },
            None => {},
        }
        let entry = Phase { name: phase.to_owned(), status: PhaseStatus::Running, message: None };
        self.phases.push(entry);
        let ev = UiEvent::PhaseStarted { operation: self.name.clone(), phase: phase.to_owned() };
        self.events.push(ev);
        proof {
            assert(self@.phases =~= old(self)@.phases.push(
                PhaseModel { name: phase@, status: PhaseStatus::Running, message: None },
            ));
            assert(self@.events =~= old(self)@.events.push(
                EventModel::PhaseStarted { operation: old(self)@.name, phase: phase@ },
            ));
            let n = old(self)@.phases.len() as int;
            assert forall|i: int, j: int|
                phase_running(self@, i) && phase_running(self@, j) implies i == j by {
                if i < n {
                    assert(!phase_running(old(self)@, i));
                    assert(self@.phases[i] == old(self)@.phases[i]);
                    assert(false);
                }
                if j < n {
                    assert(!phase_running(old(self)@, j));
                    assert(self@.phases[j] == old(self)@.phases[j]);
                    assert(false);
                }
            }
            assert(self@ =~= started_model(old(self)@, phase@));
        }
        Ok(())
    }

    /// Atomically marks the running phase `from` succeeded and starts `to`,
    /// recording both events. Fails, changing nothing, if the operation is
    /// terminal or `from` is not the running phase.
    pub fn move_on(&mut self, from: &str, to: &str) -> (r: Result<(), String>)
        requires
            old(self).wf(),
        ensures
            final(self).wf(),
            !(old(self)@.status is Running) ==> r is Err && *final(self) == *old(self),
            old(self)@.status is Running && !(has_running(old(self)@) && running_name(old(self)@)
                == from@) ==> r is Err && *final(self) == *old(self),
            old(self)@.status is Running && has_running(old(self)@) && running_name(old(self)@)
                == from@ ==> r is Ok && final(self)@ == advanced_model(old(self)@, from@, to@),
            final(self)@ == step_model(old(self)@, TrackerCall::MoveOn { from: from@, to: to@ }),
    {
        if self.status != OpStatus::Running {
            return Err("operation is already finished".to_owned());
        }
        let idx = match self.find_running() {
            None => {
                return Err("no phase is running".to_owned());
            },
            Some(i) => i,
        };
        if !str_eq(self.phases[idx].name.as_str(), from) {
            return Err("a different phase is running".to_owned());
        }
        let ghost before = self@;
        {
            let ph = &mut self.phases[idx];
            ph.status = PhaseStatus::Succeeded;
        }
        let entry = Phase { name: to.to_owned(), status: PhaseStatus::Running, message: None };
        self.phases.push(entry);
        let ev1 = UiEvent::PhaseSucceeded { operation: self.name.clone(), phase: from.to_owned() };
        self.events.push(ev1);
        let ev2 = UiEvent::PhaseStarted { operation: self.name.clone(), phase: to.to_owned() };
        self.events.push(ev2);
        proof {
            let ri = running_index(before);
            assert(ri == idx as int);
            assert(self@.phases =~= before.phases.update(
                ri,
                PhaseModel {
                    name: from@,
                    status: PhaseStatus::Succeeded,
                    message: before.phases[ri].message,
                },
            ).push(PhaseModel { name: to@, status: PhaseStatus::Running, message: None }));
            assert(self@.events =~= before.events.push(
                EventModel::PhaseSucceeded { operation: before.name, phase: from@ },
            ).push(EventModel::PhaseStarted { operation: before.name, phase: to@ }));
            let n = before.phases.len() as int;
            assert forall|i: int, j: int|
                phase_running(self@, i) && phase_running(self@, j) implies i == j by {
                if i < n {
                    assert(phase_running(before, i) || i == ri);
                    assert(false);
                }
                if j < n {
                    assert(phase_running(before, j) || j == ri);
                    assert(false);
                }
            }
            assert(self@ =~= advanced_model(before, from@, to@));
        }
        Ok(())
    }

    /// Marks the phase failed with the message, makes the operation terminal,
    /// records exactly one failure event, and returns the message as an error
    /// so the caller can stop. On an already-terminal operation nothing
    /// changes and the error is still returned.
    pub fn fail(&mut self, phase: &str, message: String) -> (r: Result<(), String>)
        requires
            old(self).wf(),
        ensures
            final(self).wf(),
            r == Err::<(), String>(message),
            !(old(self)@.status is Running) ==> *final(self) == *old(self),
            old(self)@.status is Running ==> final(self)@ == failed_model(
                old(self)@,
                phase@,
                message@,
            ),
            final(self)@ == step_model(
                old(self)@,
                TrackerCall::Fail { phase: phase@, message: message@ },
            ),
    {
        if self.status != OpStatus::Running {
            return Err(message);
        }
        let ghost before = self@;
        let found = self.find_running();
        match found {
            Some(i) => {
                let ph = &mut self.phases[i];
                ph.status = PhaseStatus::Failed;
                ph.message = Some(message.clone());
            },
            None => {
                let entry = Phase {
                    name: phase.to_owned(),
                    status: PhaseStatus::Failed,
                    message: Some(message.clone()),
                };
                self.phases.push(entry);
            },
        }
        self.status = OpStatus::Failed;
        let ev = UiEvent::OperationFailed {
            operation: self.name.clone(),
            phase: phase.to_owned(),
            message: message.clone(),
        };
        self.events.push(ev);
        proof {
            let expected = failed_model(before, phase@, message@);
            assert(self@.events =~= expected.events);
            if has_running(before) {
                assert(self@.phases =~= expected.phases);
            } else {
                assert(self@.phases =~= expected.phases);
            }
            assert(self@ =~= expected);
            assert forall|k: int| !phase_running(self@, k) by {
                if 0 <= k < self@.phases.len() {
                    if has_running(before) {
                        assert(phase_running(before, running_index(before)));
                        if k != running_index(before) {
                            assert(self@.phases[k] == before.phases[k]);
                            assert(!phase_running(before, k));
                        }
                    } else {
                        if k < before.phases.len() {
                            assert(self@.phases[k] == before.phases[k]);
                            assert(!phase_running(before, k));
                        }
                    }
                }
            }
        }
        Err(message)
    }

    /// The composition primitive: passes a success through unchanged and
    /// routes an error into [`Operation::fail`], so a multi-step pipeline
    /// short-circuits on its first failure.
    pub fn fail_if_err<T>(&mut self, phase: &str, res: Result<T, String>) -> (r: Result<T, String>)
        requires
            old(self).wf(),
        ensures
            final(self).wf(),
            res is Ok ==> r == res && *final(self) == *old(self),
            res matches Err(e) ==> {
                &&& r == Err::<T, String>(e)
                &&& (!(old(self)@.status is Running) ==> *final(self) == *old(self))
                &&& (old(self)@.status is Running ==> final(self)@ == failed_model(
                    old(self)@,
                    phase@,
                    e@,
                ))
            },
            final(self)@ == step_model(
                old(self)@,
                TrackerCall::FailIfErr {
                    phase: phase@,
                    error: match res {
                        Ok(_) => None,
                        Err(e) => Some(e@),
                    },
                },
            ),
    {
        match res {
            Ok(v) => Ok(v),
            Err(e) => match self.fail(phase, e) {
                Ok(_) => vstd::pervasive::unreached(),
                Err(m) => Err(m),
            },
        }
    }

    /// Marks the running phase `phase` and the operation succeeded and
    /// records a completion event. Fails, changing nothing, if the operation
    /// is terminal or `phase` is not the running phase.
    pub fn complete(&mut self, phase: &str) -> (r: Result<(), String>)
        requires
            old(self).wf(),
        ensures
            final(self).wf(),
            !(old(self)@.status is Running) ==> r is Err && *final(self) == *old(self),
            old(self)@.status is Running && !(has_running(old(self)@) && running_name(old(self)@)
                == phase@) ==> r is Err && *final(self) == *old(self),
            old(self)@.status is Running && has_running(old(self)@) && running_name(old(self)@)
                == phase@ ==> r is Ok && final(self)@ == completed_model(old(self)@, phase@),
            final(self)@ == step_model(old(self)@, TrackerCall::Complete { phase: phase@ }),
    {
        if self.status != OpStatus::Running {
            return Err("operation is already finished".to_owned());
        }
        let idx = match self.find_running() {
            None => {
                return Err("no phase is running".to_owned());
            },
            Some(i) => i,
        };
        if !str_eq(self.phases[idx].name.as_str(), phase) {
            return Err("a different phase is running".to_owned());
        }
        let ghost before = self@;
        {
            let ph = &mut self.phases[idx];
            ph.status = PhaseStatus::Succeeded;
        }
        self.status = OpStatus::Succeeded;
        let ev = UiEvent::OperationCompleted { operation: self.name.clone() };
        self.events.push(ev);
        proof {
            let ri = running_index(before);
            assert(ri == idx as int);
            assert(self@.phases =~= before.phases.update(
                ri,
                PhaseModel {
                    name: phase@,
                    status: PhaseStatus::Succeeded,
                    message: before.phases[ri].message,
                },
            ));
            assert(self@.events =~= before.events.push(
                EventModel::OperationCompleted { operation: before.name },
            ));
            assert forall|k: int| !phase_running(self@, k) by {
                assert(phase_running(before, ri));
                if 0 <= k < self@.phases.len() && k != ri {
                    assert(self@.phases[k] == before.phases[k]);
                    assert(!phase_running(before, k));
                }
            }
            assert(self@ =~= completed_model(before, phase@));
        }
        Ok(())
    }

    /// The operation's name.
    pub fn name(&self) -> (r: &String)
        ensures
            r@ == self@.name,
    {
        &self.name
    }

    /// The operation's status.
    pub fn status(&self) -> (r: OpStatus)
        ensures
            r == self@.status,
    {
        self.status
    }

    /// True once the operation is succeeded or failed.
    pub fn is_terminal(&self) -> (r: bool)
        ensures
            r == !(self@.status is Running),
    {
        self.status != OpStatus::Running
    }

    /// How many phases have been declared.
    pub fn phase_count(&self) -> (n: usize)
        ensures
            n == self@.phases.len(),
    {
        self.phases.len()
    }

    /// The phase at an index, in declaration order.
    pub fn phase_at(&self, i: usize) -> (p: &Phase)
        requires
            i < self@.phases.len(),
        ensures
            p@ == self@.phases[i as int],
    {
        &self.phases[i]
    }

    /// The status of the first phase with the given name, if any.
    pub fn phase_status(&self, name: &str) -> (r: Option<PhaseStatus>)
        ensures
            match r {
                Some(st) => exists|i: int|
                    0 <= i < self@.phases.len() && (#[trigger] self@.phases[i]).name == name@
                        && self@.phases[i].status == st,
                None => forall|i: int|
                    0 <= i < self@.phases.len() ==> (#[trigger] self@.phases[i]).name != name@,
            },
    {
        let n = self.phases.len();
        let mut i: usize = 0;
        while i < n
            invariant
                i <= n,
                n == self.phases@.len(),
                forall|j: int| 0 <= j < i ==> (#[trigger] self@.phases[j]).name != name@,
            decreases n - i,
        {
            if str_eq(self.phases[i].name.as_str(), name) {
                proof {
                    assert(0 <= i < self@.phases.len() && self@.phases[i as int].name == name@);
                }
                return Some(self.phases[i].status);
            }
            i += 1;
        }
        None
    }

    /// How many events have been recorded so far.
    pub fn event_count(&self) -> (n: usize)
        ensures
            n == self@.events.len(),
    {
        self.events.len()
    }

    /// The event at an index, in emission order.
    pub fn event_at(&self, i: usize) -> (e: &UiEvent)
        requires
            i < self@.events.len(),
        ensures
            e@ == self@.events[i as int],
    {
        &self.events[i]
    }
}

} // verus!
