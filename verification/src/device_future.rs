//! A future for work on a device, as a state machine.
//!
//! ```text
//!   Idle --poll--> Executing --callback--> Complete
//! ```
//!
//! The first poll executes the operation and launches a callback behind it in
//! the stream. The callback raises a flag and wakes the task; a later poll that
//! finds the flag raised hands out the result. What touches the device, the
//! flag or the waker is asked for by a [`PollAction`], and its outcome comes
//! back as a [`PollEvent`].

use vstd::prelude::*;

verus! {

/// The state of a [`DeviceFuture`].
#[derive(Debug, Eq, PartialEq, Copy, Clone, Structural)]
pub enum DeviceFutureState {
    /// The future holds an error from the start.
    Failed,
    /// The operation has not been submitted.
    Idle,
    /// The operation has been submitted, and the callback is awaited.
    Executing,
    /// The outcome has been handed out. The future must not be polled again.
    Complete,
}

impl Default for DeviceFutureState {
    /// The initial state.
    fn default() -> (state: DeviceFutureState)
        ensures
            state == DeviceFutureState::Idle,
    {
        DeviceFutureState::Idle
    }
}

/// What went wrong.
#[derive(Debug, Eq, PartialEq, Copy, Clone)]
pub enum FutureError<E> {
    /// The future cannot be executed as it is.
    Internal(&'static str),
    /// The device reported an error.
    Device(E),
}

/// What a poll waits for.
#[derive(Debug, Eq, PartialEq, Copy, Clone, Structural)]
pub enum Awaiting {
    /// The next poll.
    Poll,
    /// The waker is registered, in front of the execution.
    WakerForExecution,
    /// The operation is executed.
    Execution,
    /// The callback is launched.
    Callback,
    /// The flag is read.
    Flag,
    /// The waker is registered, in front of the second reading of the flag.
    WakerForFlag,
    /// The flag is read once more.
    FlagAgain,
}

/// What a poll asks for.
#[derive(Debug)]
pub enum PollAction<Op, T, E> {
    /// Register the waker of the task.
    RegisterWaker,
    /// Execute the operation.
    Execute(Op),
    /// Launch the callback behind the operation.
    LaunchCallback,
    /// Read the flag.
    ReadFlag,
    /// The poll ends: not done.
    Pending,
    /// The poll ends: done.
    Ready(Result<T, FutureError<E>>),
}

/// What has happened.
#[derive(Debug)]
pub enum PollEvent<T, E> {
    /// The future is polled.
    Polled,
    /// The waker was registered.
    WakerRegistered,
    /// The operation was executed.
    Executed(Result<T, E>),
    /// The callback was launched.
    CallbackLaunched(Result<(), E>),
    /// The flag was read.
    FlagRead(bool),
}

/// A future for the operation `Op` in the execution context `Ctx`.
#[derive(Debug)]
pub struct DeviceFuture<Op, Ctx, T, E> {
    /// The operation, until it is executed.
    pub device_operation: Option<Op>,
    /// Where it is executed.
    pub execution_context: Option<Ctx>,
    /// The result, between the execution and the end.
    pub result: Option<T>,
    /// The error of a failed future.
    pub error: Option<FutureError<E>>,
    /// The state.
    pub state: DeviceFutureState,
    /// What is waited for.
    pub awaiting: Awaiting,
}

/// The error of a future without a context.
pub open spec fn no_context() -> Seq<char> {
    "Cannot execute future without an execution context."@
}

/// The error of a future without an operation.
pub open spec fn no_operation() -> Seq<char> {
    "No operation has been set."@
}

/// `outcome` is an error of the future itself, with this text.
pub open spec fn internal<T, E>(outcome: Result<T, FutureError<E>>, text: Seq<char>) -> bool {
    outcome matches Err(FutureError::Internal(message)) && message@ == text
}

impl<Op, Ctx, T, E> DeviceFuture<Op, Ctx, T, E> {
    /// A failed future holds its error, an executing one its result, and what
    /// is waited for fits the state.
    pub open spec fn wf(self) -> bool {
        &&& self.state is Failed ==> self.error is Some && self.awaiting is Poll
        &&& self.state is Executing ==> self.result is Some && (self.awaiting is Poll
            || self.awaiting is Flag || self.awaiting is WakerForFlag || self.awaiting is FlagAgain)
        &&& self.state is Idle ==> (self.awaiting is Poll || self.awaiting is WakerForExecution
            || self.awaiting is Execution || self.awaiting is Callback)
        &&& self.awaiting is Callback ==> self.result is Some
        &&& self.state is Complete ==> self.awaiting is Poll
    }

    /// The event is one that is waited for.
    pub open spec fn expects(self, event: PollEvent<T, E>) -> bool {
        match event {
            PollEvent::Polled => self.awaiting is Poll && self.state !is Complete,
            PollEvent::WakerRegistered => self.awaiting is WakerForExecution
                || self.awaiting is WakerForFlag,
            PollEvent::Executed(_) => self.awaiting is Execution,
            PollEvent::CallbackLaunched(_) => self.awaiting is Callback,
            PollEvent::FlagRead(_) => self.awaiting is Flag || self.awaiting is FlagAgain,
        }
    }

    /// An idle future without operation and context.
    pub fn new() -> (future: Self)
        ensures
            future.wf(),
            future.state is Idle,
            future.awaiting is Poll,
            future.device_operation is None,
            future.execution_context is None,
            future.result is None,
            future.error is None,
    {
        DeviceFuture {
            device_operation: None,
            execution_context: None,
            result: None,
            error: None,
            state: DeviceFutureState::Idle,
            awaiting: Awaiting::Poll,
        }
    }

    /// A future that yields the error on its first poll.
    pub fn failed(error: FutureError<E>) -> (future: Self)
        ensures
            future.wf(),
            future.state is Failed,
            future.awaiting is Poll,
            future.device_operation is None,
            future.execution_context is None,
            future.result is None,
            future.error == Some(error),
    {
        DeviceFuture {
            device_operation: None,
            execution_context: None,
            result: None,
            error: Some(error),
            state: DeviceFutureState::Failed,
            awaiting: Awaiting::Poll,
        }
    }

    /// The future as it is when it has ended; what else it holds is as before.
    pub open spec fn ended(self) -> Self {
        DeviceFuture { state: DeviceFutureState::Complete, awaiting: Awaiting::Poll, ..self }
    }

    /// The event takes the future `self` to `after`, which asks for `action`.
    pub open spec fn moves(
        self,
        event: PollEvent<T, E>,
        after: Self,
        action: PollAction<Op, T, E>,
    ) -> bool {
        match event {
            PollEvent::Polled => match self.state {
                DeviceFutureState::Failed => {
                    &&& action == PollAction::<Op, T, E>::Ready(Err(self.error->Some_0))
                    &&& after == (DeviceFuture { error: None, ..self.ended() })
                },
                DeviceFutureState::Idle => {
                    &&& action is RegisterWaker
                    &&& after == (DeviceFuture { awaiting: Awaiting::WakerForExecution, ..self })
                },
                _ => {
                    &&& action is ReadFlag
                    &&& after == (DeviceFuture { awaiting: Awaiting::Flag, ..self })
                },
            },
            PollEvent::WakerRegistered => if self.awaiting is WakerForFlag {
                &&& action is ReadFlag
                &&& after == (DeviceFuture { awaiting: Awaiting::FlagAgain, ..self })
            } else if self.execution_context is None {
                &&& action matches PollAction::Ready(outcome) && internal(outcome, no_context())
                &&& after == self.ended()
            } else if self.device_operation is None {
                &&& action matches PollAction::Ready(outcome) && internal(outcome, no_operation())
                &&& after == self.ended()
            } else {
                &&& action == PollAction::<Op, T, E>::Execute(self.device_operation->Some_0)
                &&& after == (DeviceFuture {
                    device_operation: None,
                    awaiting: Awaiting::Execution,
                    ..self
                })
            },
            PollEvent::Executed(Err(error)) => {
                &&& action == PollAction::<Op, T, E>::Ready(Err(FutureError::Device(error)))
                &&& after == self.ended()
            },
            PollEvent::Executed(Ok(out)) => {
                &&& action is LaunchCallback
                &&& after == (DeviceFuture {
                    result: Some(out),
                    awaiting: Awaiting::Callback,
                    ..self
                })
            },
            PollEvent::CallbackLaunched(Err(error)) => {
                &&& action == PollAction::<Op, T, E>::Ready(Err(FutureError::Device(error)))
                &&& after == self.ended()
            },
            PollEvent::CallbackLaunched(Ok(_)) => {
                &&& action is Pending
                &&& after == (DeviceFuture {
                    state: DeviceFutureState::Executing,
                    awaiting: Awaiting::Poll,
                    ..self
                })
            },
            PollEvent::FlagRead(true) => {
                &&& action == PollAction::<Op, T, E>::Ready(Ok(self.result->Some_0))
                &&& after == (DeviceFuture { result: None, ..self.ended() })
            },
            PollEvent::FlagRead(false) => if self.awaiting is FlagAgain {
                &&& action is Pending
                &&& after == (DeviceFuture { awaiting: Awaiting::Poll, ..self })
            } else {
                &&& action is RegisterWaker
                &&& after == (DeviceFuture { awaiting: Awaiting::WakerForFlag, ..self })
            },
        }
    }

    /// Takes note of an event and says what to do next.
    pub fn advance(&mut self, event: PollEvent<T, E>) -> (action: PollAction<Op, T, E>)
        requires
            old(self).wf(),
            old(self).expects(event),
        ensures
            final(self).wf(),
            old(self).moves(event, *final(self), action),
    {
        match event {
            PollEvent::Polled => match self.state {
                DeviceFutureState::Failed => {
                    self.state = DeviceFutureState::Complete;
                    match self.error.take() {
                        Some(error) => PollAction::Ready(Err(error)),
                        None => vstd::pervasive::unreached(),
                    }
                },
                DeviceFutureState::Idle => {
                    self.awaiting = Awaiting::WakerForExecution;
                    PollAction::RegisterWaker
                },
                _ => {
                    self.awaiting = Awaiting::Flag;
                    PollAction::ReadFlag
                },
            },
            PollEvent::WakerRegistered => {
                if self.awaiting == Awaiting::WakerForFlag {
                    self.awaiting = Awaiting::FlagAgain;
                    return PollAction::ReadFlag;
                }
                self.execute()
            },
            PollEvent::Executed(Err(error)) => self.end(Err(FutureError::Device(error))),
            PollEvent::Executed(Ok(out)) => {
                self.result = Some(out);
                self.awaiting = Awaiting::Callback;
                PollAction::LaunchCallback
            },
            PollEvent::CallbackLaunched(Err(error)) => self.end(Err(FutureError::Device(error))),
            PollEvent::CallbackLaunched(Ok(_)) => {
                self.state = DeviceFutureState::Executing;
                self.awaiting = Awaiting::Poll;
                PollAction::Pending
            },
            PollEvent::FlagRead(complete) => {
                if complete {
                    match self.result.take() {
                        Some(out) => self.end(Ok(out)),
                        None => vstd::pervasive::unreached(),
                    }
                } else if self.awaiting == Awaiting::FlagAgain {
                    self.awaiting = Awaiting::Poll;
                    PollAction::Pending
                } else {
                    self.awaiting = Awaiting::WakerForFlag;
                    PollAction::RegisterWaker
                }
            },
        }
    }

    /// Hands out the operation for its execution.
    fn execute(&mut self) -> (action: PollAction<Op, T, E>)
        requires
            old(self).wf(),
            old(self).awaiting is WakerForExecution,
        ensures
            final(self).wf(),
            old(self).moves(PollEvent::WakerRegistered, *final(self), action),
    {
        if self.execution_context.is_none() {
            return self.end(
                Err(
                    FutureError::Internal("Cannot execute future without an execution context."),
                ),
            );
        }
        match self.device_operation.take() {
            None => self.end(Err(FutureError::Internal("No operation has been set."))),
            Some(operation) => {
                self.awaiting = Awaiting::Execution;
                PollAction::Execute(operation)
            },
        }
    }

    /// Ends the future with an outcome.
    fn end(&mut self, outcome: Result<T, FutureError<E>>) -> (action: PollAction<Op, T, E>)
        ensures
            *final(self) == old(self).ended(),
            action == PollAction::<Op, T, E>::Ready(outcome),
    {
        self.state = DeviceFutureState::Complete;
        self.awaiting = Awaiting::Poll;
        PollAction::Ready(outcome)
    }
}

/// How far a state is on the way to the end.
pub open spec fn progress(state: DeviceFutureState) -> int {
    match state {
        DeviceFutureState::Failed => 0,
        DeviceFutureState::Idle => 0,
        DeviceFutureState::Executing => 1,
        DeviceFutureState::Complete => 2,
    }
}

/// The state only moves forward, and an outcome is handed out exactly when the
/// future becomes complete.
pub proof fn futures_move_forward<Op, Ctx, T, E>(
    before: DeviceFuture<Op, Ctx, T, E>,
    event: PollEvent<T, E>,
    after: DeviceFuture<Op, Ctx, T, E>,
    action: PollAction<Op, T, E>,
)
    requires
        before.wf(),
        before.expects(event),
        before.moves(event, after, action),
    ensures
        progress(before.state) <= progress(after.state),
        before.state !is Complete,
        action is Ready <==> after.state is Complete,
        after.wf(),
{
}

/// An operation is executed at most once: it is handed out only while it is
/// there, and is then gone for good.
pub proof fn operations_are_executed_once<Op, Ctx, T, E>(
    before: DeviceFuture<Op, Ctx, T, E>,
    event: PollEvent<T, E>,
    after: DeviceFuture<Op, Ctx, T, E>,
    action: PollAction<Op, T, E>,
)
    requires
        before.wf(),
        before.expects(event),
        before.moves(event, after, action),
    ensures
        action matches PollAction::Execute(operation) ==> before.device_operation == Some(operation)
            && after.device_operation is None,
        before.device_operation is None ==> after.device_operation is None,
{
}

/// A result is handed out only after the callback raised the flag, and it is
/// the one that the execution gave.
pub proof fn results_wait_for_the_callback<Op, Ctx, T, E>(
    before: DeviceFuture<Op, Ctx, T, E>,
    event: PollEvent<T, E>,
    after: DeviceFuture<Op, Ctx, T, E>,
    action: PollAction<Op, T, E>,
)
    requires
        before.wf(),
        before.expects(event),
        before.moves(event, after, action),
    ensures
        (action matches PollAction::Ready(Ok(out)) && before.result == Some(out)) || !(
        action matches PollAction::Ready(Ok(_))),
        action matches PollAction::Ready(Ok(_)) ==> event == PollEvent::<T, E>::FlagRead(true)
            && before.state is Executing,
        event matches PollEvent::Executed(Ok(out)) ==> after.result == Some(out),
        event !is Executed && after.state !is Complete ==> after.result == before.result,
{
}

/// No wake-up is lost: a poll ends without an outcome only behind the launch of
/// the callback, or where the flag was read once more behind the registration
/// of the waker; and the callback is launched only where the waker was
/// registered in front of the execution.
pub proof fn wake_ups_are_not_lost<Op, Ctx, T, E>(
    before: DeviceFuture<Op, Ctx, T, E>,
    event: PollEvent<T, E>,
    after: DeviceFuture<Op, Ctx, T, E>,
    action: PollAction<Op, T, E>,
)
    requires
        before.wf(),
        before.expects(event),
        before.moves(event, after, action),
    ensures
        action is Pending ==> (event matches PollEvent::CallbackLaunched(Ok(_))) || (event
            == PollEvent::<T, E>::FlagRead(false) && before.awaiting is FlagAgain),
        after.awaiting is FlagAgain <==> event is WakerRegistered && action is ReadFlag
            && before.state is Executing,
        action is Execute ==> event is WakerRegistered && before.state is Idle,
        action is LaunchCallback <==> event matches PollEvent::Executed(Ok(_)),
        event is Polled && before.state is Executing ==> action is ReadFlag,
        event == PollEvent::<T, E>::FlagRead(false) && before.awaiting is Flag ==> action
            is RegisterWaker,
{
}

/// What a poll waits for next is what it has asked for, and a poll that has
/// ended waits for the next poll.
pub proof fn polls_wait_for_what_they_asked<Op, Ctx, T, E>(
    before: DeviceFuture<Op, Ctx, T, E>,
    event: PollEvent<T, E>,
    after: DeviceFuture<Op, Ctx, T, E>,
    action: PollAction<Op, T, E>,
    next: PollEvent<T, E>,
)
    requires
        before.wf(),
        before.expects(event),
        before.moves(event, after, action),
    ensures
        after.expects(next) <==> match action {
            PollAction::RegisterWaker => next is WakerRegistered,
            PollAction::Execute(_) => next is Executed,
            PollAction::LaunchCallback => next is CallbackLaunched,
            PollAction::ReadFlag => next is FlagRead,
            PollAction::Pending => next is Polled,
            PollAction::Ready(_) => false,
        },
{
}

/// Errors are handed out as they came: one that the future was made with on the
/// first poll, one of the device at once, and a future that has nowhere to
/// execute or nothing to execute says so, the missing context first.
pub proof fn errors_are_handed_out<Op, Ctx, T, E>(
    before: DeviceFuture<Op, Ctx, T, E>,
    event: PollEvent<T, E>,
    after: DeviceFuture<Op, Ctx, T, E>,
    action: PollAction<Op, T, E>,
)
    requires
        before.wf(),
        before.expects(event),
        before.moves(event, after, action),
    ensures
        event is Polled && before.state is Failed ==> (before.error matches Some(error)
            && action == PollAction::<Op, T, E>::Ready(Err(error)) && after.error is None),
        event matches PollEvent::Executed(Err(error)) ==> action == PollAction::<Op, T, E>::Ready(
            Err(FutureError::Device(error)),
        ),
        event matches PollEvent::CallbackLaunched(Err(error)) ==> action
            == PollAction::<Op, T, E>::Ready(Err(FutureError::Device(error))),
        event is WakerRegistered && before.state is Idle && before.execution_context is None
            ==> (action matches PollAction::Ready(outcome) && internal(
            outcome,
            "Cannot execute future without an execution context."@,
        )),
        event is WakerRegistered && before.state is Idle && before.execution_context is Some
            && before.device_operation is None ==> (action matches PollAction::Ready(outcome)
            && internal(outcome, "No operation has been set."@)),
        action matches PollAction::Ready(Err(_)) ==> {
            ||| event is Polled && before.state is Failed
            ||| event matches PollEvent::Executed(Err(_))
            ||| event matches PollEvent::CallbackLaunched(Err(_))
            ||| event is WakerRegistered && (before.execution_context is None
                || before.device_operation is None)
        },
{
}

/// A future never touches where it executes, and nothing but a failed poll its
/// error.
pub proof fn futures_keep_their_context<Op, Ctx, T, E>(
    before: DeviceFuture<Op, Ctx, T, E>,
    event: PollEvent<T, E>,
    after: DeviceFuture<Op, Ctx, T, E>,
    action: PollAction<Op, T, E>,
)
    requires
        before.wf(),
        before.expects(event),
        before.moves(event, after, action),
    ensures
        after.execution_context == before.execution_context,
        before.state !is Failed ==> after.error == before.error,
        action !is Execute ==> after.device_operation == before.device_operation,
{
}

/// A new future has nothing to execute and waits for its first poll, which
/// registers the waker; a failed one hands out its error on the first poll.
pub proof fn futures_begin_with_a_poll<Op, Ctx, T, E>(
    fresh: DeviceFuture<Op, Ctx, T, E>,
    error: FutureError<E>,
    broken: DeviceFuture<Op, Ctx, T, E>,
    event: PollEvent<T, E>,
    after: DeviceFuture<Op, Ctx, T, E>,
    action: PollAction<Op, T, E>,
)
    requires
        call_ensures(DeviceFuture::<Op, Ctx, T, E>::new, (), fresh),
        call_ensures(DeviceFuture::<Op, Ctx, T, E>::failed, (error,), broken),
    ensures
        fresh.expects(event) <==> event is Polled,
        broken.expects(event) <==> event is Polled,
        fresh.device_operation is None && fresh.execution_context is None,
        event is Polled && fresh.moves(event, after, action) ==> action is RegisterWaker,
        event is Polled && broken.moves(event, after, action) ==> action
            == PollAction::<Op, T, E>::Ready(Err(error)),
{
}

} // verus!
