//! The notification listener: one dedicated, persistent connection used
//! exclusively for subscribing to change events, with a lifecycle of
//! connection, continuous reading, reconnection with exponential
//! backoff, and shutdown.
//!
//! The state machine here is the listener's entire decision logic. The
//! caller owns the socket, the clock and the sleep, and drives `step`
//! with one `ListenerEvent` at a time; `step` answers with the next
//! `ListenerAction` to perform. The dedicated listener connection is
//! never drawn from the command connection pool and never used for
//! command execution: nothing here holds, produces or accepts a
//! `PooledConnection`.
//!
//! Delivery is at-most-once and best-effort: subscriptions do not
//! persist across reconnection, so `SubscribeAll` re-issues every
//! subscribe command after each successful connect, and anything the
//! datastore emitted during an outage is lost — a documented gap, not a
//! silent assumption of reliability.

use vstd::prelude::*;

use crate::errors::CoreError;
use crate::message::NotificationMessage;

verus! {

/// The lifecycle state of the notification listener.
#[derive(Clone, Copy, Debug, PartialEq, Eq, Structural)]
pub enum ListenerState {
    /// No socket open; the initial and final state.
    Disconnected,
    /// Opening the dedicated connection.
    Connecting,
    /// Continuously reading protocol frames; the only state that
    /// yields notifications.
    Listening,
    /// Waiting out a backoff delay after a connection or read failure.
    Reconnecting,
    /// Stop requested or failure deemed unrecoverable; closing down.
    ShuttingDown,
}

/// What the outside world reports to the listener.
#[derive(Clone, Debug, PartialEq)]
pub enum ListenerEvent {
    /// The caller asks the listener to start.
    StartRequested,
    /// The dedicated connection opened; the listener will now ask for
    /// the subscribe commands to be issued.
    ConnectSucceeded,
    /// Opening the dedicated connection failed.
    ConnectFailed,
    /// A well-formed notification frame arrived.
    FrameNotification(NotificationMessage),
    /// A well-formed frame of another kind arrived.
    FrameOther,
    /// Reading from the socket failed (transient connection loss).
    ReadFailed,
    /// A malformed frame arrived; unrecoverable.
    ProtocolViolation,
    /// The backoff delay the listener asked for has elapsed.
    BackoffElapsed,
    /// The caller asks the listener to stop.
    StopRequested,
    /// The socket is closed and all resources are released.
    SocketClosed,
}

/// What the listener asks the outside world to do next.
#[derive(Clone, Debug, PartialEq)]
pub enum ListenerAction {
    /// Open the dedicated listener connection.
    OpenConnection,
    /// Issue a subscribe command for every configured channel name.
    SubscribeAll,
    /// Hand the notification to the event router.
    Deliver(NotificationMessage),
    /// Drop a frame that is not a notification.
    DiscardFrame,
    /// Sleep the given number of milliseconds, then report
    /// `BackoffElapsed`.
    SleepThenRetry(u64),
    /// Close the socket and release its resources.
    CloseConnection,
    /// Surface the carried error to the process-level supervisor:
    /// `Fatal` when the retry budget is exhausted, `ProtocolError` for
    /// an unrecoverable malformed frame. Either way the listener is
    /// closing down for good.
    ReportFatal(CoreError),
    /// Nothing to do.
    NoAction,
}

/// The reconnection backoff parameters: an initial delay that grows by
/// a multiplier after each consecutive failure, up to a cap, with a
/// maximum number of retries before the listener gives up for good.
#[derive(Clone, Copy, Debug)]
pub struct BackoffConfig {
    pub initial_delay_ms: u64,
    pub multiplier: u64,
    pub cap_ms: u64,
    pub max_retries: u64,
}

/// The backoff delay before retry number `attempt` (counting from
/// zero): the initial delay multiplied `attempt` times, never above the
/// cap.
pub open spec fn spec_backoff(cfg: BackoffConfig, attempt: nat) -> int
    decreases attempt,
{
    if attempt == 0 {
        if cfg.initial_delay_ms < cfg.cap_ms {
            cfg.initial_delay_ms as int
        } else {
            cfg.cap_ms as int
        }
    } else {
        let grown = spec_backoff(cfg, (attempt - 1) as nat) * cfg.multiplier;
        if grown < cfg.cap_ms {
            grown
        } else {
            cfg.cap_ms as int
        }
    }
}

/// Computes the backoff delay before retry number `attempt`.
pub fn backoff_delay_ms(cfg: &BackoffConfig, attempt: u64) -> (r: u64)
    ensures
        r as int == spec_backoff(*cfg, attempt as nat),
{
    let mut d: u64 = if cfg.initial_delay_ms < cfg.cap_ms {
        cfg.initial_delay_ms
    } else {
        cfg.cap_ms
    };
    let mut i: u64 = 0;
    while i < attempt
        invariant
            i <= attempt,
            d as int == spec_backoff(*cfg, i as nat),
        decreases attempt - i,
    {
        proof {
            assert((d as int) * (cfg.multiplier as int) <= (u64::MAX as int) * (u64::MAX as int))
                by (nonlinear_arith)
                requires
                    d <= u64::MAX,
                    cfg.multiplier <= u64::MAX,
            ;
        }
        let grown: u128 = (d as u128) * (cfg.multiplier as u128);
        d = if grown < cfg.cap_ms as u128 {
            grown as u64
        } else {
            cfg.cap_ms
        };
        i = i + 1;
    }
    d
}

/// The state after handling `ev` in state `s` with `retries`
/// consecutive failures so far.
pub open spec fn spec_next_state(
    s: ListenerState,
    retries: u64,
    max_retries: u64,
    ev: ListenerEvent,
) -> ListenerState {
    match ev {
        ListenerEvent::StartRequested => if s is Disconnected {
            ListenerState::Connecting
        } else {
            s
        },
        ListenerEvent::ConnectSucceeded => if s is Connecting {
            ListenerState::Listening
        } else {
            s
        },
        ListenerEvent::ConnectFailed => if s is Connecting {
            if retries >= max_retries {
                ListenerState::ShuttingDown
            } else {
                ListenerState::Reconnecting
            }
        } else {
            s
        },
        ListenerEvent::FrameNotification(_) => s,
        ListenerEvent::FrameOther => s,
        ListenerEvent::ReadFailed => if s is Listening {
            if retries >= max_retries {
                ListenerState::ShuttingDown
            } else {
                ListenerState::Reconnecting
            }
        } else {
            s
        },
        ListenerEvent::ProtocolViolation => ListenerState::ShuttingDown,
        ListenerEvent::BackoffElapsed => if s is Reconnecting {
            ListenerState::Connecting
        } else {
            s
        },
        ListenerEvent::StopRequested => ListenerState::ShuttingDown,
        ListenerEvent::SocketClosed => if s is ShuttingDown {
            ListenerState::Disconnected
        } else {
            s
        },
    }
}

/// The consecutive-failure count after handling `ev`: reset by a
/// successful connect, advanced by a failure that leads to another
/// retry, kept otherwise.
pub open spec fn spec_next_retries(
    s: ListenerState,
    retries: u64,
    max_retries: u64,
    ev: ListenerEvent,
) -> u64 {
    match ev {
        ListenerEvent::ConnectSucceeded => if s is Connecting {
            0
        } else {
            retries
        },
        ListenerEvent::ConnectFailed => if s is Connecting && retries < max_retries {
            (retries + 1) as u64
        } else {
            retries
        },
        ListenerEvent::ReadFailed => if s is Listening && retries < max_retries {
            (retries + 1) as u64
        } else {
            retries
        },
        _ => retries,
    }
}

/// The action the listener requests on handling `ev` in state `s` with
/// `retries` consecutive failures so far.
pub open spec fn spec_action(
    s: ListenerState,
    retries: u64,
    cfg: BackoffConfig,
    ev: ListenerEvent,
) -> ListenerAction {
    match ev {
        ListenerEvent::StartRequested => if s is Disconnected {
            ListenerAction::OpenConnection
        } else {
            ListenerAction::NoAction
        },
        ListenerEvent::ConnectSucceeded => if s is Connecting {
            ListenerAction::SubscribeAll
        } else {
            ListenerAction::NoAction
        },
        ListenerEvent::ConnectFailed => if s is Connecting {
            if retries >= cfg.max_retries {
                ListenerAction::ReportFatal(CoreError::Fatal)
            } else {
                ListenerAction::SleepThenRetry(spec_backoff(cfg, retries as nat) as u64)
            }
        } else {
            ListenerAction::NoAction
        },
        ListenerEvent::FrameNotification(n) => if s is Listening {
            ListenerAction::Deliver(n)
        } else {
            ListenerAction::DiscardFrame
        },
        ListenerEvent::FrameOther => ListenerAction::DiscardFrame,
        ListenerEvent::ReadFailed => if s is Listening {
            if retries >= cfg.max_retries {
                ListenerAction::ReportFatal(CoreError::Fatal)
            } else {
                ListenerAction::SleepThenRetry(spec_backoff(cfg, retries as nat) as u64)
            }
        } else {
            ListenerAction::NoAction
        },
        ListenerEvent::ProtocolViolation => ListenerAction::ReportFatal(CoreError::ProtocolError),
        ListenerEvent::BackoffElapsed => if s is Reconnecting {
            ListenerAction::OpenConnection
        } else {
            ListenerAction::NoAction
        },
        ListenerEvent::StopRequested => ListenerAction::CloseConnection,
        ListenerEvent::SocketClosed => ListenerAction::NoAction,
    }
}

/// The notification listener's decision logic: its lifecycle state, the
/// consecutive-failure count, the backoff parameters, and the channel
/// names it subscribes to.
pub struct NotificationChannel {
    state: ListenerState,
    retries_used: u64,
    backoff: BackoffConfig,
    channels: Vec<String>,
}

impl NotificationChannel {
    /// The current lifecycle state.
    pub closed spec fn state(&self) -> ListenerState {
        self.state
    }

    /// How many consecutive connection failures have been retried.
    pub closed spec fn retries(&self) -> u64 {
        self.retries_used
    }

    /// The configured backoff parameters.
    pub closed spec fn cfg(&self) -> BackoffConfig {
        self.backoff
    }

    /// The configured channel names, in subscription order.
    pub closed spec fn channels_seq(&self) -> Seq<String> {
        self.channels@
    }

    /// A fresh listener: disconnected, with no failures recorded.
    pub fn new(backoff: BackoffConfig, channels: Vec<String>) -> (r: NotificationChannel)
        ensures
            r.state() == ListenerState::Disconnected,
            r.retries() == 0,
            r.cfg() == backoff,
            r.channels_seq() == channels@,
    {
        NotificationChannel { state: ListenerState::Disconnected, retries_used: 0, backoff, channels }
    }

    /// The current lifecycle state, for the caller.
    pub fn current_state(&self) -> (r: ListenerState)
        ensures
            r == self.state(),
    {
        self.state
    }

    /// The channel names a `SubscribeAll` action must re-issue a
    /// subscribe command for, in order.
    pub fn channel_names(&self) -> (r: &Vec<String>)
        ensures
            r@ == self.channels_seq(),
    {
        &self.channels
    }

    /// Handles one event and answers with the action to perform next.
    /// The transition is exactly the one `spec_next_state`,
    /// `spec_next_retries` and `spec_action` describe; the configured
    /// backoff and channel list never change.
    pub fn step(&mut self, event: ListenerEvent) -> (a: ListenerAction)
        ensures
            final(self).state() == spec_next_state(
                old(self).state(),
                old(self).retries(),
                old(self).cfg().max_retries,
                event,
            ),
            final(self).retries() == spec_next_retries(
                old(self).state(),
                old(self).retries(),
                old(self).cfg().max_retries,
                event,
            ),
            a == spec_action(old(self).state(), old(self).retries(), old(self).cfg(), event),
            final(self).cfg() == old(self).cfg(),
            final(self).channels_seq() == old(self).channels_seq(),
    {
        match event {
            ListenerEvent::StartRequested => {
                if matches!(self.state, ListenerState::Disconnected) {
                    self.state = ListenerState::Connecting;
                    ListenerAction::OpenConnection
                } else {
                    ListenerAction::NoAction
                }
            },
            ListenerEvent::ConnectSucceeded => {
                if matches!(self.state, ListenerState::Connecting) {
                    self.state = ListenerState::Listening;
                    self.retries_used = 0;
                    ListenerAction::SubscribeAll
                } else {
                    ListenerAction::NoAction
                }
            },
            ListenerEvent::ConnectFailed => {
                if matches!(self.state, ListenerState::Connecting) {
                    self.fail_once()
                } else {
                    ListenerAction::NoAction
                }
            },
            ListenerEvent::FrameNotification(n) => {
                if matches!(self.state, ListenerState::Listening) {
                    ListenerAction::Deliver(n)
                } else {
                    ListenerAction::DiscardFrame
                }
            },
            ListenerEvent::FrameOther => ListenerAction::DiscardFrame,
            ListenerEvent::ReadFailed => {
                if matches!(self.state, ListenerState::Listening) {
                    self.fail_once()
                } else {
                    ListenerAction::NoAction
                }
            },
            ListenerEvent::ProtocolViolation => {
                self.state = ListenerState::ShuttingDown;
                ListenerAction::ReportFatal(CoreError::ProtocolError)
            },
            ListenerEvent::BackoffElapsed => {
                if matches!(self.state, ListenerState::Reconnecting) {
                    self.state = ListenerState::Connecting;
                    ListenerAction::OpenConnection
                } else {
                    ListenerAction::NoAction
                }
            },
            ListenerEvent::StopRequested => {
                self.state = ListenerState::ShuttingDown;
                ListenerAction::CloseConnection
            },
            ListenerEvent::SocketClosed => {
                if matches!(self.state, ListenerState::ShuttingDown) {
                    self.state = ListenerState::Disconnected;
                }
                ListenerAction::NoAction
            },
        }
    }

    /// One more consecutive failure: below the retry budget, schedule a
    /// backoff and retry; at the budget, give up for good.
    fn fail_once(&mut self) -> (a: ListenerAction)
        ensures
            old(self).retries() >= old(self).cfg().max_retries ==> (final(self).state()
                == ListenerState::ShuttingDown && final(self).retries() == old(self).retries() && a
                == ListenerAction::ReportFatal(CoreError::Fatal)),
            old(self).retries() < old(self).cfg().max_retries ==> (final(self).state()
                == ListenerState::Reconnecting && final(self).retries() == old(self).retries() + 1
                && a == ListenerAction::SleepThenRetry(
                spec_backoff(old(self).cfg(), old(self).retries() as nat) as u64,
            )),
            final(self).cfg() == old(self).cfg(),
            final(self).channels_seq() == old(self).channels_seq(),
    {
        if self.retries_used >= self.backoff.max_retries {
            self.state = ListenerState::ShuttingDown;
            ListenerAction::ReportFatal(CoreError::Fatal)
        } else {
            let delay = backoff_delay_ms(&self.backoff, self.retries_used);
            self.retries_used = self.retries_used + 1;
            self.state = ListenerState::Reconnecting;
            ListenerAction::SleepThenRetry(delay)
        }
    }
}

/// Recovery after connection loss: a listener that is `Listening` with
/// retry budget left moves to `Reconnecting` on a read failure and asks
/// for a backoff sleep; when the backoff elapses it moves back to
/// `Connecting` and asks for the connection to be opened; on a
/// successful connect it is `Listening` again and asks for every
/// configured channel to be re-subscribed; and a notification frame
/// arriving then is delivered. Subscriptions do not persist across the
/// reconnect — `SubscribeAll` is what re-establishes them.
pub proof fn lemma_reconnect_then_redeliver(
    retries: u64,
    cfg: BackoffConfig,
    n: NotificationMessage,
)
    requires
        retries < cfg.max_retries,
    ensures
        ({
            let s1 = spec_next_state(
                ListenerState::Listening,
                retries,
                cfg.max_retries,
                ListenerEvent::ReadFailed,
            );
            let r1 = spec_next_retries(
                ListenerState::Listening,
                retries,
                cfg.max_retries,
                ListenerEvent::ReadFailed,
            );
            let s2 = spec_next_state(s1, r1, cfg.max_retries, ListenerEvent::BackoffElapsed);
            let r2 = spec_next_retries(s1, r1, cfg.max_retries, ListenerEvent::BackoffElapsed);
            let s3 = spec_next_state(s2, r2, cfg.max_retries, ListenerEvent::ConnectSucceeded);
            s1 == ListenerState::Reconnecting && spec_action(
                ListenerState::Listening,
                retries,
                cfg,
                ListenerEvent::ReadFailed,
            ) == ListenerAction::SleepThenRetry(spec_backoff(cfg, retries as nat) as u64) && s2
                == ListenerState::Connecting && spec_action(
                s1,
                r1,
                cfg,
                ListenerEvent::BackoffElapsed,
            ) == ListenerAction::OpenConnection && s3 == ListenerState::Listening && spec_action(
                s2,
                r2,
                cfg,
                ListenerEvent::ConnectSucceeded,
            ) == ListenerAction::SubscribeAll && spec_action(
                s3,
                0,
                cfg,
                ListenerEvent::FrameNotification(n),
            ) == ListenerAction::Deliver(n)
        }),
{
}

} // verus!
