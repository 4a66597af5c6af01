use cuda_oxide::device_future::{
    DeviceFuture, DeviceFutureState, FutureError, PollAction, PollEvent,
};

type Future = DeviceFuture<&'static str, u32, i32, i64>;

fn ready() -> Future {
    let mut future = Future::new();
    future.device_operation = Some("saxpy");
    future.execution_context = Some(7);
    future
}

/// Runs one poll to its end; the flag is read from `flags` in turn.
fn poll(
    future: &mut Future,
    executed: Result<i32, i64>,
    launched: Result<(), i64>,
    flags: &mut Vec<bool>,
    log: &mut Vec<String>,
) -> Option<Result<i32, FutureError<i64>>> {
    let mut event = PollEvent::Polled;
    loop {
        let action = future.advance(event);
        event = match action {
            PollAction::RegisterWaker => {
                log.push("register".to_string());
                PollEvent::WakerRegistered
            }
            PollAction::Execute(operation) => {
                log.push(format!("execute {operation}"));
                PollEvent::Executed(executed)
            }
            PollAction::LaunchCallback => {
                log.push("launch".to_string());
                PollEvent::CallbackLaunched(launched)
            }
            PollAction::ReadFlag => {
                log.push("read".to_string());
                PollEvent::FlagRead(flags.remove(0))
            }
            PollAction::Pending => return None,
            PollAction::Ready(outcome) => return Some(outcome),
        };
    }
}

#[test]
fn futures_start_idle() {
    assert_eq!(DeviceFutureState::default(), DeviceFutureState::Idle);
    assert_eq!(Future::new().state, DeviceFutureState::Idle);
}

#[test]
fn a_future_executes_once_and_waits_for_the_flag() {
    let mut future = ready();
    let mut log = vec![];
    let mut flags = vec![false, false, true];
    assert_eq!(poll(&mut future, Ok(42), Ok(()), &mut flags, &mut log), None);
    assert_eq!(future.state, DeviceFutureState::Executing);
    assert_eq!(poll(&mut future, Ok(0), Ok(()), &mut flags, &mut log), None);
    assert_eq!(
        poll(&mut future, Ok(0), Ok(()), &mut flags, &mut log),
        Some(Ok(42))
    );
    assert_eq!(future.state, DeviceFutureState::Complete);
    assert_eq!(
        log,
        [
            "register",
            "execute saxpy",
            "launch",
            "read",
            "register",
            "read",
            "read"
        ]
    );
}

#[test]
fn a_flag_that_is_raised_during_registration_is_seen() {
    let mut future = ready();
    let mut log = vec![];
    let mut flags = vec![false, true];
    assert_eq!(poll(&mut future, Ok(5), Ok(()), &mut flags, &mut log), None);
    assert_eq!(
        poll(&mut future, Ok(0), Ok(()), &mut flags, &mut log),
        Some(Ok(5))
    );
}

#[test]
fn a_failed_future_yields_its_error() {
    let mut future = Future::failed(FutureError::Device(9));
    assert_eq!(future.state, DeviceFutureState::Failed);
    let outcome = poll(&mut future, Ok(0), Ok(()), &mut vec![], &mut vec![]);
    assert_eq!(outcome, Some(Err(FutureError::Device(9))));
    assert_eq!(future.state, DeviceFutureState::Complete);
}

#[test]
fn a_future_without_context_or_operation_fails() {
    let mut future = ready();
    future.execution_context = None;
    assert_eq!(
        poll(&mut future, Ok(0), Ok(()), &mut vec![], &mut vec![]),
        Some(Err(FutureError::Internal(
            "Cannot execute future without an execution context."
        )))
    );
    let mut future = ready();
    future.device_operation = None;
    assert_eq!(
        poll(&mut future, Ok(0), Ok(()), &mut vec![], &mut vec![]),
        Some(Err(FutureError::Internal("No operation has been set.")))
    );
    assert_eq!(future.state, DeviceFutureState::Complete);
}

#[test]
fn device_errors_end_the_future() {
    let mut future = ready();
    assert_eq!(
        poll(&mut future, Err(3), Ok(()), &mut vec![], &mut vec![]),
        Some(Err(FutureError::Device(3)))
    );
    let mut future = ready();
    assert_eq!(
        poll(&mut future, Ok(1), Err(4), &mut vec![], &mut vec![]),
        Some(Err(FutureError::Device(4)))
    );
    assert_eq!(future.state, DeviceFutureState::Complete);
}
