use vstd::prelude::*;
use vstd::string::StringExecFns;

verus! {

/// Coarse category of a failure reported by the engine.
#[derive(Debug, PartialEq, Eq, Copy, Clone, Structural)]
pub enum ErrorKind {
    Failed,
    Overloaded,
    Disconnected,
    Unimplemented,
}

/// The category that the engine's failure code `code` stands for, if it is
/// one of the known codes.
pub open spec fn kind_of_code(code: u32) -> Option<ErrorKind> {
    if code == 0 {
        Some(ErrorKind::Failed)
    } else if code == 1 {
        Some(ErrorKind::Overloaded)
    } else if code == 2 {
        Some(ErrorKind::Disconnected)
    } else if code == 3 {
        Some(ErrorKind::Unimplemented)
    } else {
        None
    }
}

impl ErrorKind {
    /// The category behind the engine's failure code, if it knows one.
    pub fn from_code(code: u32) -> (r: Option<ErrorKind>)
        ensures
            r == kind_of_code(code),
    {
        match code {
            0 => Some(ErrorKind::Failed),
            1 => Some(ErrorKind::Overloaded),
            2 => Some(ErrorKind::Disconnected),
            3 => Some(ErrorKind::Unimplemented),
            _ => None,
        }
    }
}

/// A failure of a service call: a description, which `from_engine` never
/// leaves empty, and the failure's category where the engine gave one.
#[derive(Debug, Clone)]
pub struct HttpError {
    pub kind: Option<ErrorKind>,
    pub description: String,
}

/// The description given to a failure that the engine reported without one.
pub const UNDESCRIBED_FAILURE: &'static str = "the engine reported a failure without a description";

impl HttpError {
    /// The error carries a description.
    pub open spec fn described(&self) -> bool {
        self.description@.len() > 0
    }

    /// Turns the engine's failure signal, a failure code and a description,
    /// into a typed error. A non-empty description is kept as it is; an empty
    /// one is replaced by `UNDESCRIBED_FAILURE`, so the error always carries
    /// a description.
    pub fn from_engine(code: u32, description: String) -> (r: HttpError)
        ensures
            r.kind == kind_of_code(code),
            r.described(),
            description@.len() > 0 ==> r.description@ == description@,
            description@.len() == 0 ==> r.description@ == UNDESCRIBED_FAILURE@,
    {
        let text = if description.as_str().is_empty() {
            proof {
                reveal_strlit("the engine reported a failure without a description");
            }
            String::from_str(UNDESCRIBED_FAILURE)
        } else {
            description
        };
        HttpError { kind: ErrorKind::from_code(code), description: text }
    }
}

/// What a finished call hands back.
pub type Outcome = Result<(), HttpError>;

/// Where a call stands, as seen from the side that awaits it.
pub enum CallState {
    /// The engine is running the call; the caller awaits it and the borrowed
    /// headers and streams are in the engine's hands.
    InFlight,
    /// The caller gave up the call; the engine may still touch the borrowed
    /// handles until it finishes or acknowledges the cancellation.
    Cancelling,
    /// The caller was resumed with the outcome.
    Resolved,
    /// The call was abandoned and the engine has let go of the borrowed
    /// handles.
    Released,
}

/// What can happen to a call.
pub enum CallEvent {
    /// The engine finished the call with this outcome.
    Finished(Outcome),
    /// The awaiting caller abandoned the call.
    Abandon,
    /// The engine acknowledged that it no longer touches the borrowed handles.
    Acknowledged,
}

/// What the bridge does in answer to an event.
pub enum CallAction {
    /// Wake the awaiting caller with this outcome; the borrowed handles are
    /// the caller's again.
    Resume(Outcome),
    /// Ask the engine to abort the call; the borrowed handles stay in place.
    Cancel,
    /// The borrowed handles may be freed or moved.
    Release,
    /// Nothing to do.
    Idle,
}

/// The next state of a call and the action taken, for each state and event.
pub open spec fn next(state: CallState, event: CallEvent) -> (CallState, CallAction) {
    match state {
        CallState::InFlight => match event {
            CallEvent::Finished(o) => (CallState::Resolved, CallAction::Resume(o)),
            CallEvent::Abandon => (CallState::Cancelling, CallAction::Cancel),
            CallEvent::Acknowledged => (CallState::InFlight, CallAction::Idle),
        },
        CallState::Cancelling => match event {
            CallEvent::Finished(_) => (CallState::Released, CallAction::Release),
            CallEvent::Abandon => (CallState::Cancelling, CallAction::Idle),
            CallEvent::Acknowledged => (CallState::Released, CallAction::Release),
        },
        CallState::Resolved => (CallState::Resolved, CallAction::Idle),
        CallState::Released => (CallState::Released, CallAction::Idle),
    }
}

/// Whether the engine may still be touching the borrowed handles.
pub open spec fn engine_holds_borrows(state: CallState) -> bool {
    state is InFlight || state is Cancelling
}

/// Whether the action hands the borrowed handles back to their owner.
pub open spec fn gives_back_borrows(action: CallAction) -> bool {
    action is Resume || action is Release
}

/// Feeds one event to a call: returns its next state and the action to take.
pub fn step(state: CallState, event: CallEvent) -> (r: (CallState, CallAction))
    ensures
        r == next(state, event),
{
    match state {
        CallState::InFlight => match event {
            CallEvent::Finished(o) => (CallState::Resolved, CallAction::Resume(o)),
            CallEvent::Abandon => (CallState::Cancelling, CallAction::Cancel),
            CallEvent::Acknowledged => (CallState::InFlight, CallAction::Idle),
        },
        CallState::Cancelling => match event {
            CallEvent::Finished(_) => (CallState::Released, CallAction::Release),
            CallEvent::Abandon => (CallState::Cancelling, CallAction::Idle),
            CallEvent::Acknowledged => (CallState::Released, CallAction::Release),
        },
        CallState::Resolved => (CallState::Resolved, CallAction::Idle),
        CallState::Released => (CallState::Released, CallAction::Idle),
    }
}

/// The actions taken when the events `evs` reach a call in `state`, in order.
pub open spec fn run(state: CallState, evs: Seq<CallEvent>) -> Seq<CallAction>
    decreases evs.len(),
{
    if evs.len() == 0 {
        Seq::empty()
    } else {
        let (s, a) = next(state, evs[0]);
        seq![a] + run(s, evs.subrange(1, evs.len() as int))
    }
}

/// How many of `acts` resume the caller.
pub open spec fn resume_count(acts: Seq<CallAction>) -> nat
    decreases acts.len(),
{
    if acts.len() == 0 {
        0
    } else {
        (if acts[0] is Resume { 1nat } else { 0nat }) + resume_count(acts.subrange(1, acts.len() as int))
    }
}

/// How many of `acts` hand the borrowed handles back.
pub open spec fn give_back_count(acts: Seq<CallAction>) -> nat
    decreases acts.len(),
{
    if acts.len() == 0 {
        0
    } else {
        (if gives_back_borrows(acts[0]) { 1nat } else { 0nat }) + give_back_count(acts.subrange(1, acts.len() as int))
    }
}

/// The outcome of the first resumption among `acts`, if there is one.
pub open spec fn first_resumed(acts: Seq<CallAction>) -> Option<Outcome>
    decreases acts.len(),
{
    if acts.len() == 0 {
        None
    } else if acts[0] is Resume {
        Some(acts[0]->Resume_0)
    } else {
        first_resumed(acts.subrange(1, acts.len() as int))
    }
}

/// The outcome of the first `Finished` event among `evs`, if there is one.
pub open spec fn first_finished(evs: Seq<CallEvent>) -> Option<Outcome>
    decreases evs.len(),
{
    if evs.len() == 0 {
        None
    } else if evs[0] is Finished {
        Some(evs[0]->Finished_0)
    } else {
        first_finished(evs.subrange(1, evs.len() as int))
    }
}

/// Whether the caller abandons the call anywhere in `evs`.
pub open spec fn abandons(evs: Seq<CallEvent>) -> bool {
    exists|i: int| 0 <= i < evs.len() && #[trigger] evs[i] is Abandon
}

/// A run has one action per event.
pub proof fn lemma_run_len(state: CallState, evs: Seq<CallEvent>)
    ensures
        run(state, evs).len() == evs.len(),
    decreases evs.len(),
{
    if evs.len() > 0 {
        lemma_run_len(next(state, evs[0]).0, evs.subrange(1, evs.len() as int));
    }
}

/// From any state a call resumes its caller at most once, and only from
/// `InFlight`; it hands the borrowed handles back at most once, and only while
/// the engine still holds them.
pub proof fn lemma_at_most_once(state: CallState, evs: Seq<CallEvent>)
    ensures
        resume_count(run(state, evs)) <= (if state is InFlight { 1nat } else { 0nat }),
        give_back_count(run(state, evs)) <= (if engine_holds_borrows(state) { 1nat } else { 0nat }),
    decreases evs.len(),
{
    if evs.len() > 0 {
        let rest = evs.subrange(1, evs.len() as int);
        let (s, a) = next(state, evs[0]);
        lemma_at_most_once(s, rest);
        let acts = run(state, evs);
        assert(acts[0] == a);
        assert(acts.subrange(1, acts.len() as int) =~= run(s, rest));
    }
}

/// A call that is not abandoned and that the engine finishes resumes its
/// caller exactly once, with the outcome of the first `Finished` event: a
/// success when the engine succeeded, and when it failed, a failure that
/// carries a description whenever the reported error does, as every error
/// made by `HttpError::from_engine` does. It never both resumes and releases.
pub proof fn lemma_resolves_exactly_once(evs: Seq<CallEvent>)
    requires
        !abandons(evs),
        first_finished(evs) is Some,
    ensures
        resume_count(run(CallState::InFlight, evs)) == 1,
        give_back_count(run(CallState::InFlight, evs)) == 1,
        first_resumed(run(CallState::InFlight, evs)) == first_finished(evs),
        first_finished(evs) matches Some(Err(e)) ==> (e.described() ==> (first_resumed(
            run(CallState::InFlight, evs),
        ) matches Some(Err(f)) && f.described())),
    decreases evs.len(),
{
    let rest = evs.subrange(1, evs.len() as int);
    let (s, a) = next(CallState::InFlight, evs[0]);
    let acts = run(CallState::InFlight, evs);
    assert(acts[0] == a);
    assert(acts.subrange(1, acts.len() as int) =~= run(s, rest));
    if evs[0] is Finished {
        lemma_at_most_once(s, rest);
    } else {
        assert(!(evs[0] is Abandon)) by {
            assert(evs[0] is Abandon ==> abandons(evs));
        }
        assert(!abandons(rest)) by {
            if abandons(rest) {
                let i = choose|i: int| 0 <= i < rest.len() && #[trigger] rest[i] is Abandon;
                assert(evs[i + 1] is Abandon);
            }
        }
        lemma_resolves_exactly_once(rest);
    }
}

/// The borrowed handles are handed back only in answer to the engine
/// finishing the call or acknowledging its cancellation, never on the
/// caller's abandonment alone.
pub proof fn lemma_give_back_only_on_engine_signal(state: CallState, evs: Seq<CallEvent>, i: int)
    requires
        0 <= i < evs.len(),
    ensures
        run(state, evs).len() == evs.len(),
        gives_back_borrows(run(state, evs)[i]) ==> !(evs[i] is Abandon),
    decreases evs.len(),
{
    lemma_run_len(state, evs);
    let rest = evs.subrange(1, evs.len() as int);
    let (s, a) = next(state, evs[0]);
    let acts = run(state, evs);
    if i > 0 {
        lemma_give_back_only_on_engine_signal(s, rest, i - 1);
        assert(acts[i] == run(s, rest)[i - 1]);
        assert(evs[i] == rest[i - 1]);
    }
}

/// Once the caller has abandoned an in-flight call, the caller is never
/// resumed, and the borrowed handles are handed back only when the engine
/// finishes or acknowledges: until then every action leaves them in place.
pub proof fn lemma_abandoned_never_resumes(evs: Seq<CallEvent>)
    ensures
        resume_count(run(CallState::Cancelling, evs)) == 0,
        give_back_count(run(CallState::Cancelling, evs)) <= 1,
        forall|i: int| 0 <= i < evs.len() && (forall|j: int| 0 <= j <= i ==> #[trigger] evs[j] is Abandon)
            ==> !gives_back_borrows(#[trigger] run(CallState::Cancelling, evs)[i]),
    decreases evs.len(),
{
    lemma_at_most_once(CallState::Cancelling, evs);
    lemma_run_len(CallState::Cancelling, evs);
    if evs.len() > 0 {
        let rest = evs.subrange(1, evs.len() as int);
        let (s, a) = next(CallState::Cancelling, evs[0]);
        let acts = run(CallState::Cancelling, evs);
        lemma_abandoned_never_resumes(rest);
        assert forall|i: int| 0 <= i < evs.len() && (forall|j: int| 0 <= j <= i ==> #[trigger] evs[j] is Abandon)
            implies !gives_back_borrows(#[trigger] acts[i]) by {
            if i > 0 {
                assert(evs[0] is Abandon);
                assert(acts[i] == run(s, rest)[i - 1]);
                assert forall|j: int| 0 <= j <= i - 1 implies #[trigger] rest[j] is Abandon by {
                    assert(evs[j + 1] is Abandon);
                }
            }
        }
    }
}

} // verus!
