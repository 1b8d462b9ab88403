//! Scopes that switch the engine's recording and train-mode flags and put
//! them back.
//!
//! The two flags belong to the engine and are shared by the whole process.
//! A scope overrides one or both of them when it is entered, remembers what
//! the engine says they were, and on exit restores each flag that it has
//! in fact changed. Scopes are meant to be nested like brackets. Nothing
//! here guards the flags against other threads: where several threads enter
//! scopes, the last writer wins.
use vstd::prelude::*;
use crate::base::{CallView, EngineCall, EngineReply, Error};

verus! {

/// The call that sets the recording flag.
pub fn set_recording_call(is_recording: bool) -> (call: EngineCall)
    ensures
        call@ == (CallView::SetIsRecording { on: is_recording }),
{
    EngineCall::SetIsRecording { on: is_recording }
}

/// The call that sets the train-mode flag.
pub fn set_training_call(train_mode: bool) -> (call: EngineCall)
    ensures
        call@ == (CallView::SetIsTraining { on: train_mode }),
{
    EngineCall::SetIsTraining { on: train_mode }
}

/// The call that asks for the recording flag.
pub fn is_recording_call() -> (call: EngineCall)
    ensures
        call@ == CallView::IsRecording,
{
    EngineCall::IsRecording
}

/// The call that asks for the train-mode flag.
pub fn is_training_call() -> (call: EngineCall)
    ensures
        call@ == CallView::IsTraining,
{
    EngineCall::IsTraining
}

/// The value that a flag had before it was set, as the reply to the set
/// call tells it: the engine answers with an integer that is zero for a
/// flag that was off.
pub open spec fn previous(reply: EngineReply) -> Result<bool, Error> {
    match reply.spec_integer() {
        Err(e) => Err(e),
        Ok(prev) => Ok(prev != 0),
    }
}

/// Reads the previous value of the recording flag out of the reply to the
/// call that set it.
pub fn set_recording(reply: &EngineReply) -> (outcome: Result<bool, Error>)
    ensures
        outcome == previous(*reply),
{
    match reply.integer() {
        Err(e) => Err(e),
        Ok(prev) => Ok(prev != 0),
    }
}

/// Reads the previous value of the train-mode flag out of the reply to the
/// call that set it.
pub fn set_training(reply: &EngineReply) -> (outcome: Result<bool, Error>)
    ensures
        outcome == previous(*reply),
{
    match reply.integer() {
        Err(e) => Err(e),
        Ok(prev) => Ok(prev != 0),
    }
}

/// Reads the recording flag out of the reply to the query.
pub fn is_recording(reply: &EngineReply) -> (outcome: Result<bool, Error>)
    ensures
        outcome == reply.spec_flag(),
{
    reply.flag()
}

/// Reads the train-mode flag out of the reply to the query.
pub fn is_training(reply: &EngineReply) -> (outcome: Result<bool, Error>)
    ensures
        outcome == reply.spec_flag(),
{
    reply.flag()
}

/// What a scope asks for and what it has found.
pub struct ScopeView {
    /// The value that the recording flag is to have inside the scope;
    /// `None` leaves the flag alone.
    pub enter_is_record: Option<bool>,
    /// The value that the train-mode flag is to have inside the scope;
    /// `None` leaves the flag alone.
    pub enter_train_mode: Option<bool>,
    /// The value that the recording flag had when the scope set it.
    pub prev_is_record: Option<bool>,
    /// The value that the train-mode flag had when the scope set it.
    pub prev_train_mode: Option<bool>,
}

/// The calls that enter a scope: one for each flag that the scope is to
/// set, the recording flag first.
pub open spec fn spec_enter_calls(scope: ScopeView) -> Seq<CallView> {
    let recording = match scope.enter_is_record {
        Some(on) => seq![CallView::SetIsRecording { on }],
        None => Seq::empty(),
    };
    let training = match scope.enter_train_mode {
        Some(on) => seq![CallView::SetIsTraining { on }],
        None => Seq::empty(),
    };
    recording + training
}

/// The scope after the reply for the recording flag was read, the number
/// of replies used, and the error that stopped this, if any.
pub open spec fn entered_recording(scope: ScopeView, replies: Seq<EngineReply>) -> (
    ScopeView,
    int,
    Option<Error>,
) {
    match scope.enter_is_record {
        None => (scope, 0, None),
        Some(_) => if replies.len() < 1 {
            (scope, 0, Some(Error::UnexpectedReply))
        } else {
            match previous(replies[0]) {
                Err(e) => (scope, 0, Some(e)),
                Ok(prev) => (ScopeView { prev_is_record: Some(prev), ..scope }, 1, None),
            }
        },
    }
}

/// The scope after the replies to the entering calls were read, and the
/// error that stopped this, if any. A flag whose reply was read before the
/// error is remembered, so that the exit still restores it.
pub open spec fn spec_entered(scope: ScopeView, replies: Seq<EngineReply>) -> (
    ScopeView,
    Option<Error>,
) {
    let (after, used, stopped) = entered_recording(scope, replies);
    if stopped is Some {
        (after, stopped)
    } else {
        match scope.enter_train_mode {
            None => (after, None),
            Some(_) => if replies.len() < used + 1 {
                (after, Some(Error::UnexpectedReply))
            } else {
                match previous(replies[used]) {
                    Err(e) => (after, Some(e)),
                    Ok(prev) => (ScopeView { prev_train_mode: Some(prev), ..after }, None),
                }
            },
        }
    }
}

/// The calls that leave a scope: for each flag that the scope has set to a
/// value other than the one it had, the call that sets it back.
pub open spec fn spec_exit_calls(scope: ScopeView) -> Seq<CallView> {
    let recording = match (scope.enter_is_record, scope.prev_is_record) {
        (Some(on), Some(prev)) => if prev != on {
            seq![CallView::SetIsRecording { on: prev }]
        } else {
            Seq::empty()
        },
        _ => Seq::empty(),
    };
    let training = match (scope.enter_train_mode, scope.prev_train_mode) {
        (Some(on), Some(prev)) => if prev != on {
            seq![CallView::SetIsTraining { on: prev }]
        } else {
            Seq::empty()
        },
        _ => Seq::empty(),
    };
    recording + training
}

/// The contents of a list of calls.
pub open spec fn call_views(calls: Seq<EngineCall>) -> Seq<CallView> {
    calls.map_values(|c: EngineCall| c@)
}

/// A scope that overrides the engine's recording and train-mode flags.
pub struct RecordingStateScope {
    enter_is_record: Option<bool>,
    enter_train_mode: Option<bool>,
    prev_is_record: Option<bool>,
    prev_train_mode: Option<bool>,
}

impl View for RecordingStateScope {
    type V = ScopeView;

    closed spec fn view(&self) -> ScopeView {
        ScopeView {
            enter_is_record: self.enter_is_record,
            enter_train_mode: self.enter_train_mode,
            prev_is_record: self.prev_is_record,
            prev_train_mode: self.prev_train_mode,
        }
    }
}

impl RecordingStateScope {
    /// A scope that is to set the recording flag to `is_record` and the
    /// train-mode flag to `train_mode`, each only where a value is given.
    /// The scope is not entered yet.
    pub fn new(is_record: Option<bool>, train_mode: Option<bool>) -> (scope: RecordingStateScope)
        ensures
            scope@ == (ScopeView {
                enter_is_record: is_record,
                enter_train_mode: train_mode,
                prev_is_record: None,
                prev_train_mode: None,
            }),
    {
        RecordingStateScope {
            enter_is_record: is_record,
            enter_train_mode: train_mode,
            prev_is_record: None,
            prev_train_mode: None,
        }
    }

    /// The calls that enter the scope, in the order in which they are to be
    /// made.
    pub fn enter_calls(&self) -> (calls: Vec<EngineCall>)
        ensures
            call_views(calls@) == spec_enter_calls(self@),
    {
        let mut calls: Vec<EngineCall> = Vec::new();
        if let Some(on) = self.enter_is_record {
            calls.push(set_recording_call(on));
        }
        if let Some(on) = self.enter_train_mode {
            calls.push(set_training_call(on));
        }
        assert(call_views(calls@) =~= spec_enter_calls(self@));
        calls
    }

    /// Enters the scope: reads what the flags were out of the replies to
    /// the entering calls, which come in the order of the calls. A call that
    /// failed is the error, and so is a reply that is missing.
    pub fn enter(&mut self, replies: &Vec<EngineReply>) -> (outcome: Result<(), Error>)
        ensures
            final(self)@ == spec_entered(old(self)@, replies@).0,
            match outcome {
                Ok(_) => spec_entered(old(self)@, replies@).1 == None::<Error>,
                Err(e) => spec_entered(old(self)@, replies@).1 == Some(e),
            },
    {
        let mut used: usize = 0;
        if self.enter_is_record.is_some() {
            if replies.len() < 1 {
                return Err(Error::UnexpectedReply);
            }
            match set_recording(&replies[0]) {
                Err(e) => {
                    return Err(e);
                },
                Ok(prev) => {
                    self.prev_is_record = Some(prev);
                    used = 1;
                },
            }
        }
        if self.enter_train_mode.is_some() {
            if replies.len() < used + 1 {
                return Err(Error::UnexpectedReply);
            }
            match set_training(&replies[used]) {
                Err(e) => {
                    return Err(e);
                },
                Ok(prev) => {
                    self.prev_train_mode = Some(prev);
                },
            }
        }
        Ok(())
    }

    /// Leaves the scope: the calls that restore the flags, in the order in
    /// which they are to be made. A flag that the scope did not set, or set
    /// to the value it had anyway, gets no call.
    pub fn exit(self) -> (calls: Vec<EngineCall>)
        ensures
            call_views(calls@) == spec_exit_calls(self@),
    {
        let mut calls: Vec<EngineCall> = Vec::new();
        if let (Some(on), Some(prev)) = (self.enter_is_record, self.prev_is_record) {
            if prev != on {
                calls.push(set_recording_call(prev));
            }
        }
        if let (Some(on), Some(prev)) = (self.enter_train_mode, self.prev_train_mode) {
            if prev != on {
                calls.push(set_training_call(prev));
            }
        }
        assert(call_views(calls@) =~= spec_exit_calls(self@));
        calls
    }
}

/// A scope for code whose gradients are to be computed: recording on,
/// train mode on.
pub fn record() -> (scope: RecordingStateScope)
    ensures
        scope@ == (ScopeView {
            enter_is_record: Some(true),
            enter_train_mode: Some(true),
            prev_is_record: None,
            prev_train_mode: None,
        }),
{
    RecordingStateScope::new(Some(true), Some(true))
}

/// A scope for code that needs no gradients: recording off, train mode
/// off.
pub fn pause() -> (scope: RecordingStateScope)
    ensures
        scope@ == (ScopeView {
            enter_is_record: Some(false),
            enter_train_mode: Some(false),
            prev_is_record: None,
            prev_train_mode: None,
        }),
{
    RecordingStateScope::new(Some(false), Some(false))
}

/// A scope that turns train mode on and leaves recording alone.
pub fn train_mode() -> (scope: RecordingStateScope)
    ensures
        scope@ == (ScopeView {
            enter_is_record: None,
            enter_train_mode: Some(true),
            prev_is_record: None,
            prev_train_mode: None,
        }),
{
    RecordingStateScope::new(None, Some(true))
}

/// A scope that turns train mode off and leaves recording alone.
pub fn predict_mode() -> (scope: RecordingStateScope)
    ensures
        scope@ == (ScopeView {
            enter_is_record: None,
            enter_train_mode: Some(false),
            prev_is_record: None,
            prev_train_mode: None,
        }),
{
    RecordingStateScope::new(None, Some(false))
}

/// The engine's two flags.
pub struct Flags {
    pub recording: bool,
    pub training: bool,
}

/// The flags after the engine has carried out one call. Only the two set
/// calls touch them.
pub open spec fn flag_step(flags: Flags, call: CallView) -> Flags {
    match call {
        CallView::SetIsRecording { on } => Flags { recording: on, ..flags },
        CallView::SetIsTraining { on } => Flags { training: on, ..flags },
        _ => flags,
    }
}

/// The flags after the engine has carried out the calls in order.
pub open spec fn flags_after(flags: Flags, calls: Seq<CallView>) -> Flags
    decreases calls.len(),
{
    if calls.len() == 0 {
        flags
    } else {
        flags_after(flag_step(flags, calls[0]), calls.drop_first())
    }
}

/// Whether `reply` is what the engine answers to `call` when the flags are
/// `flags`: a set call is answered with the value the flag had.
pub open spec fn answers(flags: Flags, call: CallView, reply: EngineReply) -> bool {
    match call {
        CallView::SetIsRecording { on } => previous(reply) == Ok::<bool, Error>(flags.recording),
        CallView::SetIsTraining { on } => previous(reply) == Ok::<bool, Error>(flags.training),
        _ => true,
    }
}

/// Whether `replies` are what the engine answers to `calls`, made in order
/// from the flags `flags` on.
pub open spec fn answers_all(flags: Flags, calls: Seq<CallView>, replies: Seq<EngineReply>) -> bool
    decreases calls.len(),
{
    if calls.len() == 0 {
        replies.len() == 0
    } else {
        &&& replies.len() == calls.len()
        &&& answers(flags, calls[0], replies[0])
        &&& answers_all(flag_step(flags, calls[0]), calls.drop_first(), replies.drop_first())
    }
}

/// Inside a scope each flag that the scope was to set has the value asked
/// for, and each other flag the value it had.
pub proof fn lemma_scope_sets_flags(scope: ScopeView, flags: Flags)
    ensures
        flags_after(flags, spec_enter_calls(scope)) == (Flags {
            recording: match scope.enter_is_record {
                Some(on) => on,
                None => flags.recording,
            },
            training: match scope.enter_train_mode {
                Some(on) => on,
                None => flags.training,
            },
        }),
{
    let calls = spec_enter_calls(scope);
    reveal_with_fuel(flags_after, 3);
    if calls.len() == 2 {
        assert(calls.drop_first().len() == 1);
        assert(calls.drop_first().drop_first().len() == 0);
    } else if calls.len() == 1 {
        assert(calls.drop_first().len() == 0);
    }
}

/// Scope restoration: entering a scope and leaving it again puts both
/// flags back to exactly what they were, whatever the scope asked for and
/// whatever the flags were, as long as the flags are, at the exit, what the
/// scope made them.
pub proof fn lemma_scope_restores(scope: ScopeView, flags: Flags, replies: Seq<EngineReply>)
    requires
        scope.prev_is_record is None,
        scope.prev_train_mode is None,
        answers_all(flags, spec_enter_calls(scope), replies),
    ensures
        spec_entered(scope, replies).1 is None,
        flags_after(
            flags_after(flags, spec_enter_calls(scope)),
            spec_exit_calls(spec_entered(scope, replies).0),
        ) == flags,
{
    let calls = spec_enter_calls(scope);
    let inside = flags_after(flags, calls);
    lemma_scope_sets_flags(scope, flags);
    reveal_with_fuel(answers_all, 3);
    reveal_with_fuel(flags_after, 3);
    if calls.len() == 2 {
        assert(calls.drop_first().len() == 1);
        assert(calls.drop_first()[0] == calls[1]);
        assert(replies.drop_first()[0] == replies[1]);
    }
    let entered = spec_entered(scope, replies).0;
    let back = spec_exit_calls(entered);
    if back.len() == 2 {
        assert(back.drop_first().len() == 1);
        assert(back.drop_first()[0] == back[1]);
        assert(back.drop_first().drop_first().len() == 0);
    } else if back.len() == 1 {
        assert(back.drop_first().len() == 0);
    }
}

/// Nested scopes: when an inner scope is entered and left inside an outer
/// one, the exit of the inner scope puts the flags back to what the outer
/// scope made them, and the exit of the outer scope then puts them back to
/// what they were before it.
pub proof fn lemma_nested_scopes_restore(
    outer: ScopeView,
    inner: ScopeView,
    flags: Flags,
    outer_replies: Seq<EngineReply>,
    inner_replies: Seq<EngineReply>,
)
    requires
        outer.prev_is_record is None,
        outer.prev_train_mode is None,
        inner.prev_is_record is None,
        inner.prev_train_mode is None,
        answers_all(flags, spec_enter_calls(outer), outer_replies),
        answers_all(
            flags_after(flags, spec_enter_calls(outer)),
            spec_enter_calls(inner),
            inner_replies,
        ),
    ensures
        ({
            let in_outer = flags_after(flags, spec_enter_calls(outer));
            let in_inner = flags_after(in_outer, spec_enter_calls(inner));
            let after_inner = flags_after(
                in_inner,
                spec_exit_calls(spec_entered(inner, inner_replies).0),
            );
            let after_outer = flags_after(
                after_inner,
                spec_exit_calls(spec_entered(outer, outer_replies).0),
            );
            after_inner == in_outer && after_outer == flags
        }),
{
    let in_outer = flags_after(flags, spec_enter_calls(outer));
    lemma_scope_restores(inner, in_outer, inner_replies);
    lemma_scope_restores(outer, flags, outer_replies);
}

} // verus!
