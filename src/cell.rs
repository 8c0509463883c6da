use vstd::prelude::*;

verus! {

/// Where the one-time latch of a cell stands.
#[derive(PartialEq, Eq, Structural, Clone, Copy, Debug)]
pub enum LatchState {
    /// Nobody has asked for the value yet.
    NotStarted,
    /// One caller is running the initializer.
    Running,
    /// The value is stored and never changes again.
    Done,
    /// The initializer failed; the cell stays failed.
    Poisoned,
}

/// What a caller arriving at the latch is told to do.
#[derive(PartialEq, Eq, Structural, Clone, Copy, Debug)]
pub enum Access {
    /// The caller has won the latch and must run the initializer, then report
    /// its outcome with `LazyCell::complete`.
    RunInitializer,
    /// Another caller is running the initializer: wait for it, then ask again.
    Wait,
    /// The value is stored: read it.
    Ready,
    /// The initializer has failed: report the failure.
    Failed,
}

/// The failure that a poisoned cell reports to every caller.
#[derive(PartialEq, Eq, Structural, Clone, Copy, Debug)]
pub enum InitError {
    InitializationFailure,
}

/// The mathematical state of a cell: its latch, its slot, and how many times
/// the initializer has been started.
pub struct CellModel<T> {
    pub state: LatchState,
    pub slot: Option<T>,
    pub runs: nat,
}

/// A write-once cell whose value is produced by an initializer that runs at
/// most once.
pub struct LazyCell<T> {
    state: LatchState,
    slot: Option<T>,
    runs: u8,
}

/// The state of a cell that nobody has touched.
pub open spec fn fresh<T>() -> CellModel<T> {
    CellModel { state: LatchState::NotStarted, slot: None, runs: 0 }
}

/// The latch is started exactly when the initializer has been started, which
/// happens at most once, and the slot is filled exactly when the latch is done.
pub open spec fn model_wf<T>(m: CellModel<T>) -> bool {
    &&& m.runs <= 1
    &&& (m.state == LatchState::NotStarted <==> m.runs == 0)
    &&& (m.state == LatchState::Done <==> m.slot is Some)
}

/// What a caller that arrives at a latch in state `s` is told.
pub open spec fn access_of(s: LatchState) -> Access {
    match s {
        LatchState::NotStarted => Access::RunInitializer,
        LatchState::Running => Access::Wait,
        LatchState::Done => Access::Ready,
        LatchState::Poisoned => Access::Failed,
    }
}

/// The cell after a caller arrives: only the first arrival starts the
/// initializer.
pub open spec fn after_arrive<T>(m: CellModel<T>) -> CellModel<T> {
    if m.state == LatchState::NotStarted {
        CellModel { state: LatchState::Running, slot: None, runs: m.runs + 1 }
    } else {
        m
    }
}

/// The cell after the running initializer reports `outcome` (`None` for a
/// failure).
pub open spec fn after_complete<T>(m: CellModel<T>, outcome: Option<T>) -> CellModel<T> {
    match outcome {
        Some(v) => CellModel { state: LatchState::Done, slot: Some(v), runs: m.runs },
        None => CellModel { state: LatchState::Poisoned, slot: None, runs: m.runs },
    }
}

/// One step taken at the latch. Callers reach the latch one at a time, so any
/// run of concurrent callers is some sequence of these steps.
pub enum LatchEvent<T> {
    /// A caller arrives and asks for the value.
    Arrive,
    /// The caller running the initializer reports its outcome.
    Complete(Option<T>),
}

/// The cell after one step. Only a running latch takes an outcome.
pub open spec fn apply_event<T>(m: CellModel<T>, e: LatchEvent<T>) -> CellModel<T> {
    match e {
        LatchEvent::Arrive => after_arrive(m),
        LatchEvent::Complete(out) => if m.state == LatchState::Running {
            after_complete(m, out)
        } else {
            m
        },
    }
}

/// The cell after a sequence of steps, taken in order.
pub open spec fn replay<T>(m: CellModel<T>, events: Seq<LatchEvent<T>>) -> CellModel<T>
    decreases events.len(),
{
    if events.len() == 0 {
        m
    } else {
        apply_event(replay(m, events.drop_last()), events.last())
    }
}

impl<T> View for LazyCell<T> {
    type V = CellModel<T>;

    closed spec fn view(&self) -> CellModel<T> {
        CellModel { state: self.state, slot: self.slot, runs: self.runs as nat }
    }
}

impl<T> LazyCell<T> {
    pub open spec fn wf(&self) -> bool {
        model_wf(self@)
    }

    /// A cell whose value has not been asked for.
    pub fn new() -> (c: LazyCell<T>)
        ensures
            c@ == fresh::<T>(),
            c.wf(),
    {
        LazyCell { state: LatchState::NotStarted, slot: None, runs: 0 }
    }

    /// Where the latch stands.
    pub fn state(&self) -> (s: LatchState)
        ensures
            s == self@.state,
    {
        self.state
    }

    /// How many times the initializer has been started: 0 or 1.
    pub fn init_runs(&self) -> (n: u8)
        requires
            self.wf(),
        ensures
            n as nat == self@.runs,
            n <= 1,
    {
        self.runs
    }

    /// A caller arrives at the latch. The first one is told to run the
    /// initializer and moves the latch to `Running`; the others are told what
    /// the latch's state calls for, and change nothing.
    pub fn arrive(&mut self) -> (a: Access)
        requires
            old(self).wf(),
        ensures
            a == access_of(old(self)@.state),
            final(self)@ == after_arrive(old(self)@),
            final(self).wf(),
    {
        match self.state {
            LatchState::NotStarted => {
                self.state = LatchState::Running;
                self.runs = 1;
                Access::RunInitializer
            },
            LatchState::Running => Access::Wait,
            LatchState::Done => Access::Ready,
            LatchState::Poisoned => Access::Failed,
        }
    }

    /// The caller that won the latch reports what the initializer produced:
    /// a value is stored and the latch is done, a failure (`None`) poisons the
    /// cell for good.
    pub fn complete(&mut self, outcome: Option<T>) -> (r: Result<(), InitError>)
        requires
            old(self).wf(),
            old(self)@.state == LatchState::Running,
        ensures
            final(self)@ == after_complete(old(self)@, outcome),
            final(self).wf(),
            r is Ok <==> outcome is Some,
            r is Err ==> r == Err::<(), InitError>(InitError::InitializationFailure),
    {
        match outcome {
            Some(v) => {
                self.slot = Some(v);
                self.state = LatchState::Done;
                Ok(())
            },
            None => {
                self.state = LatchState::Poisoned;
                Err(InitError::InitializationFailure)
            },
        }
    }

    /// The stored value, if the latch is done.
    pub fn get(&self) -> (r: Option<&T>)
        requires
            self.wf(),
        ensures
            r is Some <==> self@.state == LatchState::Done,
            r matches Some(v) ==> self@.slot == Some(*v),
    {
        match &self.slot {
            Some(v) => Some(v),
            None => None,
        }
    }

    /// The stored value of a cell whose latch is done. A done latch always has
    /// its value, so this never fails.
    pub fn value(&self) -> (v: &T)
        requires
            self.wf(),
            self@.state == LatchState::Done,
        ensures
            self@.slot == Some(*v),
    {
        self.slot.as_ref().unwrap()
    }

    /// The value of the cell, produced by `init` if nobody has asked for it
    /// yet. The initializer runs only on a fresh cell; a done cell hands back
    /// its value and a poisoned one fails, without calling it. `init` reports
    /// a failure with `None`, which poisons the cell.
    pub fn get_or_init<F: FnOnce() -> Option<T>>(&mut self, init: F) -> (r: Result<&T, InitError>)
        requires
            old(self).wf(),
            old(self)@.state != LatchState::Running,
            old(self)@.state == LatchState::NotStarted ==> init.requires(()),
        ensures
            final(self).wf(),
            old(self)@.state == LatchState::NotStarted ==> exists|out: Option<T>|
                #[trigger] init.ensures((), out) && final(self)@ == after_complete(
                    after_arrive(old(self)@),
                    out,
                ),
            old(self)@.state != LatchState::NotStarted ==> final(self)@ == old(self)@,
            r is Ok <==> final(self)@.state == LatchState::Done,
            r matches Ok(v) ==> final(self)@.slot == Some(*v),
            r is Err ==> r == Err::<&T, InitError>(InitError::InitializationFailure),
    {
        if self.arrive() == Access::RunInitializer {
            let out = init();
            let _ = self.complete(out);
        }
        if self.state == LatchState::Done {
            Ok(self.value())
        } else {
            Err(InitError::InitializationFailure)
        }
    }
}

/// Every step keeps a cell well formed.
pub proof fn lemma_replay_wf<T>(m: CellModel<T>, events: Seq<LatchEvent<T>>)
    requires
        model_wf(m),
    ensures
        model_wf(replay(m, events)),
    decreases events.len(),
{
    if events.len() > 0 {
        lemma_replay_wf(m, events.drop_last());
    }
}

/// Replaying two sequences one after the other is replaying their
/// concatenation.
pub proof fn lemma_replay_concat<T>(m: CellModel<T>, a: Seq<LatchEvent<T>>, b: Seq<LatchEvent<T>>)
    ensures
        replay(m, a + b) == replay(replay(m, a), b),
    decreases b.len(),
{
    if b.len() == 0 {
        assert(a + b =~= a);
    } else {
        lemma_replay_concat(m, a, b.drop_last());
        assert((a + b).drop_last() =~= a + b.drop_last());
        assert((a + b).last() == b.last());
    }
}

/// A done cell stays as it is, whatever steps follow.
proof fn lemma_done_fixed<T>(m: CellModel<T>, events: Seq<LatchEvent<T>>)
    requires
        m.state == LatchState::Done,
    ensures
        replay(m, events) == m,
    decreases events.len(),
{
    if events.len() > 0 {
        lemma_done_fixed(m, events.drop_last());
    }
}

/// A poisoned cell stays as it is, whatever steps follow.
proof fn lemma_poisoned_fixed<T>(m: CellModel<T>, events: Seq<LatchEvent<T>>)
    requires
        m.state == LatchState::Poisoned,
    ensures
        replay(m, events) == m,
    decreases events.len(),
{
    if events.len() > 0 {
        lemma_poisoned_fixed(m, events.drop_last());
    }
}

/// From a fresh cell, the initializer has been started once if some caller
/// has arrived, and never otherwise.
proof fn lemma_runs_from_fresh<T>(events: Seq<LatchEvent<T>>)
    ensures
        replay(fresh::<T>(), events).runs == (if exists|i: int|
            0 <= i < events.len() && #[trigger] events[i] is Arrive {
            1nat
        } else {
            0nat
        }),
    decreases events.len(),
{
    if events.len() > 0 {
        let prev = events.drop_last();
        lemma_runs_from_fresh(prev);
        lemma_replay_wf(fresh::<T>(), prev);
        if exists|i: int| 0 <= i < prev.len() && #[trigger] prev[i] is Arrive {
            let i = choose|i: int| 0 <= i < prev.len() && #[trigger] prev[i] is Arrive;
            assert(events[i] is Arrive);
        }
        if events.last() is Arrive {
            assert(events[events.len() - 1] is Arrive);
        } else if exists|i: int| 0 <= i < events.len() && #[trigger] events[i] is Arrive {
            let i = choose|i: int| 0 <= i < events.len() && #[trigger] events[i] is Arrive;
            assert(prev[i] is Arrive);
        }
    }
}

/// However many callers race on a fresh cell, and in whatever order their
/// steps interleave, the initializer is started exactly once when at least
/// one caller has arrived; and from the moment any caller can read the value,
/// every later state of the cell holds that same value, so all callers read
/// one and the same value.
pub proof fn lemma_initializer_runs_once<T>(events: Seq<LatchEvent<T>>)
    ensures
        model_wf(replay(fresh::<T>(), events)),
        replay(fresh::<T>(), events).runs <= 1,
        (exists|i: int| 0 <= i < events.len() && #[trigger] events[i] is Arrive) ==> replay(
            fresh::<T>(),
            events,
        ).runs == 1,
        forall|i: int, j: int|
            0 <= i <= j <= events.len() && #[trigger] replay(fresh::<T>(), events.take(i)).state
                == LatchState::Done ==> #[trigger] replay(fresh::<T>(), events.take(j))
                == replay(fresh::<T>(), events.take(i)),
{
    lemma_replay_wf(fresh::<T>(), events);
    lemma_runs_from_fresh(events);
    assert forall|i: int, j: int|
        0 <= i <= j <= events.len() && #[trigger] replay(fresh::<T>(), events.take(i)).state
            == LatchState::Done implies #[trigger] replay(fresh::<T>(), events.take(j)) == replay(
        fresh::<T>(),
        events.take(i),
    ) by {
        let rest = events.subrange(i, j);
        assert(events.take(j) =~= events.take(i) + rest);
        lemma_replay_concat(fresh::<T>(), events.take(i), rest);
        lemma_done_fixed(replay(fresh::<T>(), events.take(i)), rest);
    }
}

/// Once a cell is done, every later caller is told to read the value, the
/// value stays the same, and the initializer is never started again.
pub proof fn lemma_done_is_idempotent<T>(m: CellModel<T>, events: Seq<LatchEvent<T>>)
    requires
        model_wf(m),
        m.state == LatchState::Done,
    ensures
        replay(m, events) == m,
        access_of(replay(m, events).state) == Access::Ready,
        replay(m, events).runs == m.runs,
{
    lemma_done_fixed(m, events);
}

/// When the running initializer fails, the cell is poisoned for good: the
/// callers that were waiting and every caller that comes later are told of
/// the failure, and none of them finds a value or starts the initializer.
pub proof fn lemma_failure_poisons<T>(m: CellModel<T>, events: Seq<LatchEvent<T>>)
    requires
        model_wf(m),
        m.state == LatchState::Running,
    ensures
        access_of(replay(after_complete(m, None), events).state) == Access::Failed,
        replay(after_complete(m, None), events).slot is None,
        replay(after_complete(m, None), events).runs == m.runs,
{
    lemma_poisoned_fixed(after_complete(m, None), events);
}

} // verus!
