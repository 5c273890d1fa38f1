use wanderer_connector::errors::CoreError;
use wanderer_connector::listener::{
    backoff_delay_ms, BackoffConfig, ListenerAction, ListenerEvent, ListenerState,
    NotificationChannel,
};
use wanderer_connector::message::NotificationMessage;

fn cfg() -> BackoffConfig {
    BackoffConfig { initial_delay_ms: 100, multiplier: 2, cap_ms: 1000, max_retries: 5 }
}

fn channels() -> Vec<String> {
    vec!["system_insert".to_string(), "user_insert".to_string()]
}

fn msg(channel: &str, payload: &str) -> NotificationMessage {
    NotificationMessage {
        channel: channel.to_string(),
        payload: payload.to_string(),
        originating_session_id: 4711,
    }
}

fn listening_channel() -> NotificationChannel {
    let mut ch = NotificationChannel::new(cfg(), channels());
    assert_eq!(ch.step(ListenerEvent::StartRequested), ListenerAction::OpenConnection);
    assert_eq!(ch.step(ListenerEvent::ConnectSucceeded), ListenerAction::SubscribeAll);
    assert_eq!(ch.current_state(), ListenerState::Listening);
    ch
}

#[test]
fn starts_disconnected_and_connects_on_start() {
    let mut ch = NotificationChannel::new(cfg(), channels());
    assert_eq!(ch.current_state(), ListenerState::Disconnected);
    assert_eq!(ch.step(ListenerEvent::StartRequested), ListenerAction::OpenConnection);
    assert_eq!(ch.current_state(), ListenerState::Connecting);
    assert_eq!(ch.step(ListenerEvent::ConnectSucceeded), ListenerAction::SubscribeAll);
    assert_eq!(ch.current_state(), ListenerState::Listening);
}

#[test]
fn notification_frames_are_delivered_other_frames_discarded() {
    let mut ch = listening_channel();
    let n = msg("system_insert", "{\"id\":1}");
    assert_eq!(
        ch.step(ListenerEvent::FrameNotification(n.clone())),
        ListenerAction::Deliver(n)
    );
    assert_eq!(ch.step(ListenerEvent::FrameOther), ListenerAction::DiscardFrame);
    assert_eq!(ch.current_state(), ListenerState::Listening);
}

#[test]
fn connection_loss_reconnects_resubscribes_and_delivers_again() {
    let mut ch = listening_channel();
    // Losing the connection schedules a backoff sleep.
    assert_eq!(ch.step(ListenerEvent::ReadFailed), ListenerAction::SleepThenRetry(100));
    assert_eq!(ch.current_state(), ListenerState::Reconnecting);
    // The elapsed backoff reopens the connection.
    assert_eq!(ch.step(ListenerEvent::BackoffElapsed), ListenerAction::OpenConnection);
    assert_eq!(ch.current_state(), ListenerState::Connecting);
    // A successful reconnect re-issues every subscribe command.
    assert_eq!(ch.step(ListenerEvent::ConnectSucceeded), ListenerAction::SubscribeAll);
    assert_eq!(ch.current_state(), ListenerState::Listening);
    assert_eq!(ch.channel_names().clone(), channels());
    // A notification published after the reconnection is still delivered.
    let n = msg("user_insert", "{\"id\":2}");
    assert_eq!(
        ch.step(ListenerEvent::FrameNotification(n.clone())),
        ListenerAction::Deliver(n)
    );
}

#[test]
fn backoff_grows_by_the_multiplier_up_to_the_cap() {
    let c = cfg();
    let delays: Vec<u64> = (0..6).map(|a| backoff_delay_ms(&c, a)).collect();
    assert_eq!(delays, vec![100, 200, 400, 800, 1000, 1000]);
}

#[test]
fn backoff_initial_delay_is_already_capped() {
    let c = BackoffConfig { initial_delay_ms: 500, multiplier: 3, cap_ms: 300, max_retries: 1 };
    assert_eq!(backoff_delay_ms(&c, 0), 300);
    assert_eq!(backoff_delay_ms(&c, 4), 300);
}

#[test]
fn consecutive_failures_escalate_the_backoff() {
    let mut ch = listening_channel();
    assert_eq!(ch.step(ListenerEvent::ReadFailed), ListenerAction::SleepThenRetry(100));
    assert_eq!(ch.step(ListenerEvent::BackoffElapsed), ListenerAction::OpenConnection);
    assert_eq!(ch.step(ListenerEvent::ConnectFailed), ListenerAction::SleepThenRetry(200));
    assert_eq!(ch.step(ListenerEvent::BackoffElapsed), ListenerAction::OpenConnection);
    assert_eq!(ch.step(ListenerEvent::ConnectFailed), ListenerAction::SleepThenRetry(400));
    // A successful connect resets the failure count.
    assert_eq!(ch.step(ListenerEvent::BackoffElapsed), ListenerAction::OpenConnection);
    assert_eq!(ch.step(ListenerEvent::ConnectSucceeded), ListenerAction::SubscribeAll);
    assert_eq!(ch.step(ListenerEvent::ReadFailed), ListenerAction::SleepThenRetry(100));
}

#[test]
fn exceeding_max_retries_is_fatal() {
    let c = BackoffConfig { initial_delay_ms: 10, multiplier: 2, cap_ms: 40, max_retries: 2 };
    let mut ch = NotificationChannel::new(c, channels());
    ch.step(ListenerEvent::StartRequested);
    assert_eq!(ch.step(ListenerEvent::ConnectFailed), ListenerAction::SleepThenRetry(10));
    ch.step(ListenerEvent::BackoffElapsed);
    assert_eq!(ch.step(ListenerEvent::ConnectFailed), ListenerAction::SleepThenRetry(20));
    ch.step(ListenerEvent::BackoffElapsed);
    assert_eq!(
        ch.step(ListenerEvent::ConnectFailed),
        ListenerAction::ReportFatal(CoreError::Fatal)
    );
    assert_eq!(ch.current_state(), ListenerState::ShuttingDown);
}

#[test]
fn protocol_violation_is_fatal() {
    let mut ch = listening_channel();
    assert_eq!(
        ch.step(ListenerEvent::ProtocolViolation),
        ListenerAction::ReportFatal(CoreError::ProtocolError)
    );
    assert_eq!(ch.current_state(), ListenerState::ShuttingDown);
}

#[test]
fn stop_closes_the_socket_and_ends_disconnected() {
    let mut ch = listening_channel();
    assert_eq!(ch.step(ListenerEvent::StopRequested), ListenerAction::CloseConnection);
    assert_eq!(ch.current_state(), ListenerState::ShuttingDown);
    assert_eq!(ch.step(ListenerEvent::SocketClosed), ListenerAction::NoAction);
    assert_eq!(ch.current_state(), ListenerState::Disconnected);
    // No notification is produced once shut down.
    let n = msg("system_insert", "late");
    assert_eq!(ch.step(ListenerEvent::FrameNotification(n)), ListenerAction::DiscardFrame);
}
