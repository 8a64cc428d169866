use upstream_core::control::TransportCancellation;
use upstream_core::error::{IgnoredDatagrams, SideEffectState, UpstreamError};
use upstream_core::lifecycle::{
    close_finish, close_start, CloseCompletion, CloseResult, CloseTransition, Lifecycle,
    LifecycleState,
};

const NOW: u64 = 1_000_000;

#[test]
fn commit_gate_orders_response_commit_before_close() {
    let mut lifecycle = Lifecycle::new();

    assert_eq!(lifecycle.commit_response(), Ok(()));
    assert_eq!(lifecycle.state(), LifecycleState::Open);

    assert_eq!(lifecycle.begin_close(), CloseTransition::BeganClosing);
    assert_eq!(lifecycle.state(), LifecycleState::Closing);
    assert_eq!(lifecycle.finish_close(), CloseCompletion::Closed);
    assert_eq!(lifecycle.state(), LifecycleState::Closed);
}

#[test]
fn commit_gate_orders_close_before_response_commit() {
    let mut lifecycle = Lifecycle::new();

    assert_eq!(lifecycle.begin_close(), CloseTransition::BeganClosing);
    assert_eq!(lifecycle.state(), LifecycleState::Closing);

    assert_eq!(
        lifecycle.commit_response(),
        Err(UpstreamError::Closed(SideEffectState::Sent))
    );
    assert_eq!(
        lifecycle.commit_response(),
        Err(UpstreamError::Closed(SideEffectState::Sent))
    );

    assert_eq!(lifecycle.finish_close(), CloseCompletion::Closed);
    assert_eq!(
        lifecycle.commit_response(),
        Err(UpstreamError::Closed(SideEffectState::Sent))
    );
}

#[test]
fn final_commit_priority_is_owner_then_cancellation_then_deadline_then_success() {
    let future = NOW + 30_000;
    let past = NOW - 1_000;
    let quiet = TransportCancellation::new();
    let cancelled = TransportCancellation::new();
    cancelled.cancel();

    let lifecycle = Lifecycle::new();
    assert_eq!(
        lifecycle.commit_final_response(&quiet, future, NOW, SideEffectState::Sent),
        Ok(())
    );

    let lifecycle = Lifecycle::new();
    assert_eq!(
        lifecycle.commit_final_response(&cancelled, future, NOW, SideEffectState::Sent),
        Err(UpstreamError::Cancelled(SideEffectState::Sent))
    );

    let lifecycle = Lifecycle::new();
    assert_eq!(
        lifecycle.commit_final_response(&quiet, past, NOW, SideEffectState::Sent),
        Err(UpstreamError::DeadlineExceeded(SideEffectState::Sent))
    );

    let lifecycle = Lifecycle::new();
    assert_eq!(
        lifecycle.commit_final_response(&cancelled, past, NOW, SideEffectState::Sent),
        Err(UpstreamError::Cancelled(SideEffectState::Sent))
    );

    let mut lifecycle = Lifecycle::new();
    assert_eq!(lifecycle.begin_close(), CloseTransition::BeganClosing);
    assert_eq!(
        lifecycle.commit_final_response(&cancelled, past, NOW, SideEffectState::Sent),
        Err(UpstreamError::Closed(SideEffectState::Sent))
    );
}

#[test]
fn final_commit_success_is_not_reversed_by_a_later_close() {
    let mut lifecycle = Lifecycle::new();
    let quiet = TransportCancellation::new();
    let future = NOW + 30_000;

    assert_eq!(
        lifecycle.commit_final_response(&quiet, future, NOW, SideEffectState::Sent),
        Ok(())
    );

    assert_eq!(lifecycle.begin_close(), CloseTransition::BeganClosing);
    assert_eq!(lifecycle.state(), LifecycleState::Closing);
    assert_eq!(
        lifecycle.commit_final_response(&quiet, future, NOW, SideEffectState::Sent),
        Err(UpstreamError::Closed(SideEffectState::Sent))
    );
    assert_eq!(lifecycle.finish_close(), CloseCompletion::Closed);
}

#[test]
fn close_waits_for_registered_exchanges_before_completing() {
    let mut lifecycle = Lifecycle::new();
    assert_eq!(lifecycle.register(), Ok(()));
    assert_eq!(lifecycle.in_flight(), 1);
    assert_eq!(lifecycle.begin_close(), CloseTransition::BeganClosing);
    assert_eq!(
        lifecycle.register(),
        Err(UpstreamError::Closed(SideEffectState::NotSent)),
        "a closing owner refuses new registrations"
    );
    assert_eq!(lifecycle.finish_close(), CloseCompletion::InFlight);
    lifecycle.release();
    assert_eq!(lifecycle.finish_close(), CloseCompletion::Closed);
    assert_eq!(lifecycle.finish_close(), CloseCompletion::AlreadyClosed);
    assert_eq!(lifecycle.begin_close(), CloseTransition::AlreadyClosed);
}

#[test]
fn close_steps_report_the_awaited_outcome() {
    assert_eq!(close_start(CloseTransition::AlreadyClosed), Some(CloseResult::AlreadyClosed));
    assert_eq!(close_start(CloseTransition::BeganClosing), None);
    assert_eq!(close_start(CloseTransition::AlreadyClosing), None);
    assert_eq!(close_finish(CloseCompletion::Closed), CloseResult::Closed);
    assert_eq!(close_finish(CloseCompletion::AlreadyClosed), CloseResult::Closed);
    assert_eq!(close_finish(CloseCompletion::InFlight), CloseResult::AlreadyClosing);
    assert_eq!(close_finish(CloseCompletion::NotClosing), CloseResult::AlreadyClosing);
}

#[test]
fn an_open_lifecycle_is_not_finished() {
    let mut lifecycle = Lifecycle::new();
    assert_eq!(lifecycle.finish_close(), CloseCompletion::NotClosing);
    assert_eq!(lifecycle.ensure_open(), Ok(()));
    assert_eq!(lifecycle.begin_close(), CloseTransition::BeganClosing);
    assert_eq!(lifecycle.begin_close(), CloseTransition::AlreadyClosing);
    assert_eq!(
        lifecycle.ensure_open(),
        Err(UpstreamError::Closed(SideEffectState::NotSent))
    );
}

#[test]
fn defaults_are_the_empty_values() {
    let ignored = IgnoredDatagrams::default();
    assert_eq!(ignored, IgnoredDatagrams::none());
    assert!(!ignored.any());
    let lifecycle = Lifecycle::default();
    assert_eq!(lifecycle.state(), LifecycleState::Open);
    assert_eq!(lifecycle.in_flight(), 0);
}

#[test]
fn the_final_commit_follows_owner_then_cancellation_then_deadline() {
    let mut lifecycle = Lifecycle::new();
    assert_eq!(lifecycle.commit_final_observed(false, NOW + 1, NOW, SideEffectState::Sent), Ok(()));
    assert_eq!(
        lifecycle.commit_final_observed(true, NOW, NOW, SideEffectState::Sent),
        Err(UpstreamError::Cancelled(SideEffectState::Sent))
    );
    assert_eq!(
        lifecycle.commit_final_observed(false, NOW, NOW, SideEffectState::Sent),
        Err(UpstreamError::DeadlineExceeded(SideEffectState::Sent))
    );
    lifecycle.begin_close();
    assert_eq!(
        lifecycle.commit_final_observed(true, NOW, NOW, SideEffectState::Sent),
        Err(UpstreamError::Closed(SideEffectState::Sent))
    );
}
