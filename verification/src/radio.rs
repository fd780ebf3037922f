//! The receive-window discipline of the end device.
//!
//! After each transmit the device opens two receive windows. It waits the
//! first delay, listens for the first duration, and where nothing came it
//! waits the second delay and listens for the second duration. The pair
//! gives the received bytes, or no bytes when both windows missed.
//!
//! The discipline is a state machine that does not touch the transceiver:
//! it is told what happened and answers with what is to be done next.

use crate::device::keys::Config;
use vstd::prelude::*;

verus! {

/// Where a pair of receive windows stands.
#[derive(Clone, Copy, Debug, PartialEq, Eq, Structural)]
pub enum WindowPhase {
    /// The delay before the first window.
    Rx1Delay,
    /// The first window is open.
    Rx1Open,
    /// A packet came in the first window and is read.
    Rx1Read,
    /// The delay before the second window.
    Rx2Delay,
    /// The second window is open.
    Rx2Open,
    /// A packet came in the second window and is read.
    Rx2Read,
    /// The pair has closed.
    Closed,
}

/// What the caller reports to the window.
#[derive(Clone, Debug, PartialEq, Eq)]
pub enum WindowEvent {
    /// The delay asked for has passed.
    Slept,
    /// The wait for a packet has ended: with a packet of this size, or with
    /// nothing when the window closed.
    Polled(Option<usize>),
    /// The packet has been read, or the transceiver failed to hand it over.
    Read(Option<Vec<u8>>),
}

/// What the window asks of the caller.
#[derive(Clone, Debug, PartialEq, Eq)]
pub enum WindowAction {
    /// Idle for this many milliseconds, report `Slept`.
    Sleep(u64),
    /// Wait for a packet for at most this many milliseconds, report
    /// `Polled`.
    Poll(i32),
    /// Read the packet, report `Read`.
    ReadPacket,
    /// The pair has closed with these bytes; empty when nothing came.
    Deliver(Vec<u8>),
    /// The event does not belong here; nothing has changed.
    Ignore,
}

/// A pair of receive windows with its timing.
#[derive(Clone, Copy, Debug, PartialEq, Eq)]
pub struct ReceiveWindow {
    pub phase: WindowPhase,
    pub rx1_delay: u64,
    pub rx1_duration: i32,
    pub rx2_delay: u64,
    pub rx2_duration: i32,
}

impl ReceiveWindow {
    /// This window in another phase.
    pub open spec fn at(self, phase: WindowPhase) -> ReceiveWindow {
        ReceiveWindow {
            phase,
            rx1_delay: self.rx1_delay,
            rx1_duration: self.rx1_duration,
            rx2_delay: self.rx2_delay,
            rx2_duration: self.rx2_duration,
        }
    }
}

/// The pair closes and gives `bytes`.
pub open spec fn delivers(
    pre: ReceiveWindow,
    bytes: Seq<u8>,
    post: ReceiveWindow,
    action: WindowAction,
) -> bool {
    &&& post == pre.at(WindowPhase::Closed)
    &&& action matches WindowAction::Deliver(b)
    &&& b@ == bytes
}

/// The first window has missed: the delay before the second begins.
pub open spec fn second_chance(pre: ReceiveWindow, post: ReceiveWindow, action: WindowAction) -> bool {
    post == pre.at(WindowPhase::Rx2Delay) && action == WindowAction::Sleep(pre.rx2_delay)
}

/// The step of a pair of receive windows: from `pre`, told `event`, to
/// `post` with `action` asked of the caller. A packet that cannot be read
/// counts as a miss of its window.
pub open spec fn window_step(
    pre: ReceiveWindow,
    event: WindowEvent,
    post: ReceiveWindow,
    action: WindowAction,
) -> bool {
    match (pre.phase, event) {
        (WindowPhase::Rx1Delay, WindowEvent::Slept) => post == pre.at(WindowPhase::Rx1Open)
            && action == WindowAction::Poll(pre.rx1_duration),
        (WindowPhase::Rx1Open, WindowEvent::Polled(Some(_))) => post == pre.at(
            WindowPhase::Rx1Read,
        ) && action is ReadPacket,
        (WindowPhase::Rx1Open, WindowEvent::Polled(None)) => second_chance(pre, post, action),
        (WindowPhase::Rx1Read, WindowEvent::Read(Some(bytes))) => delivers(
            pre,
            bytes@,
            post,
            action,
        ),
        (WindowPhase::Rx1Read, WindowEvent::Read(None)) => second_chance(pre, post, action),
        (WindowPhase::Rx2Delay, WindowEvent::Slept) => post == pre.at(WindowPhase::Rx2Open)
            && action == WindowAction::Poll(pre.rx2_duration),
        (WindowPhase::Rx2Open, WindowEvent::Polled(Some(_))) => post == pre.at(
            WindowPhase::Rx2Read,
        ) && action is ReadPacket,
        (WindowPhase::Rx2Open, WindowEvent::Polled(None)) => delivers(
            pre,
            Seq::<u8>::empty(),
            post,
            action,
        ),
        (WindowPhase::Rx2Read, WindowEvent::Read(Some(bytes))) => delivers(
            pre,
            bytes@,
            post,
            action,
        ),
        (WindowPhase::Rx2Read, WindowEvent::Read(None)) => delivers(
            pre,
            Seq::<u8>::empty(),
            post,
            action,
        ),
        _ => post == pre && action is Ignore,
    }
}

impl ReceiveWindow {
    /// Opens a pair of receive windows with the timing of `config`: the
    /// delay before the first window is to be kept.
    pub fn open(config: &Config) -> (out: (ReceiveWindow, WindowAction))
        ensures
            out.0 == (ReceiveWindow {
                phase: WindowPhase::Rx1Delay,
                rx1_delay: config.rx1_delay,
                rx1_duration: config.rx1_duration,
                rx2_delay: config.rx2_delay,
                rx2_duration: config.rx2_duration,
            }),
            out.1 == WindowAction::Sleep(config.rx1_delay),
            wait_of(out.1) + wait_left(out.0) == longest_wait(*config),
    {
        (
            ReceiveWindow {
                phase: WindowPhase::Rx1Delay,
                rx1_delay: config.rx1_delay,
                rx1_duration: config.rx1_duration,
                rx2_delay: config.rx2_delay,
                rx2_duration: config.rx2_duration,
            },
            WindowAction::Sleep(config.rx1_delay),
        )
    }

    /// Closes the pair with `bytes`.
    fn deliver(&mut self, bytes: Vec<u8>) -> (action: WindowAction)
        ensures
            delivers(*old(self), bytes@, *final(self), action),
    {
        self.phase = WindowPhase::Closed;
        WindowAction::Deliver(bytes)
    }

    /// Goes on to the second window.
    fn retry(&mut self) -> (action: WindowAction)
        ensures
            second_chance(*old(self), *final(self), action),
    {
        self.phase = WindowPhase::Rx2Delay;
        WindowAction::Sleep(self.rx2_delay)
    }

    /// One step of the pair: takes `event` and says what to do next.
    pub fn step(&mut self, event: WindowEvent) -> (action: WindowAction)
        ensures
            window_step(*old(self), event, *final(self), action),
    {
        let phase: WindowPhase = self.phase;
        match event {
            WindowEvent::Slept => {
                if phase == WindowPhase::Rx1Delay {
                    self.phase = WindowPhase::Rx1Open;
                    WindowAction::Poll(self.rx1_duration)
                } else if phase == WindowPhase::Rx2Delay {
                    self.phase = WindowPhase::Rx2Open;
                    WindowAction::Poll(self.rx2_duration)
                } else {
                    WindowAction::Ignore
                }
            },
            WindowEvent::Polled(size) => {
                if phase == WindowPhase::Rx1Open {
                    if size.is_some() {
                        self.phase = WindowPhase::Rx1Read;
                        WindowAction::ReadPacket
                    } else {
                        self.retry()
                    }
                } else if phase == WindowPhase::Rx2Open {
                    if size.is_some() {
                        self.phase = WindowPhase::Rx2Read;
                        WindowAction::ReadPacket
                    } else {
                        self.deliver(Vec::new())
                    }
                } else {
                    WindowAction::Ignore
                }
            },
            WindowEvent::Read(packet) => {
                if phase == WindowPhase::Rx1Read {
                    match packet {
                        Some(bytes) => self.deliver(bytes),
                        None => self.retry(),
                    }
                } else if phase == WindowPhase::Rx2Read {
                    match packet {
                        Some(bytes) => self.deliver(bytes),
                        None => self.deliver(Vec::new()),
                    }
                } else {
                    WindowAction::Ignore
                }
            },
        }
    }
}

/// The milliseconds of waiting that `action` asks for.
pub open spec fn wait_of(action: WindowAction) -> int {
    match action {
        WindowAction::Sleep(millis) => millis as int,
        WindowAction::Poll(millis) => millis as int,
        _ => 0,
    }
}

/// The milliseconds of waiting that a pair of windows can still ask for.
pub open spec fn wait_left(window: ReceiveWindow) -> int {
    match window.phase {
        WindowPhase::Rx1Delay => window.rx1_duration + window.rx2_delay + window.rx2_duration,
        WindowPhase::Rx1Open => window.rx2_delay + window.rx2_duration,
        WindowPhase::Rx1Read => window.rx2_delay + window.rx2_duration,
        WindowPhase::Rx2Delay => window.rx2_duration as int,
        _ => 0,
    }
}

/// The longest that a pair of windows with the timing of `config` waits:
/// the two delays and the two durations together.
pub open spec fn longest_wait(config: Config) -> int {
    config.rx1_delay + config.rx1_duration + config.rx2_delay + config.rx2_duration
}

/// A pair of windows never waits longer than the two delays and the two
/// durations together: what a step asks for comes off what can still be
/// asked for, and a pair that has just been opened has the whole of it, less
/// the first delay.
pub proof fn lemma_window_wait_bounded(
    pre: ReceiveWindow,
    event: WindowEvent,
    post: ReceiveWindow,
    action: WindowAction,
)
    requires
        pre.rx1_duration >= 0,
        pre.rx2_duration >= 0,
        window_step(pre, event, post, action),
    ensures
        wait_of(action) + wait_left(post) <= wait_left(pre),
        wait_left(post) >= 0,
{
}

/// The timing of a pair of windows never changes, and a closed pair stays
/// closed.
pub proof fn lemma_window_timing_kept(
    pre: ReceiveWindow,
    event: WindowEvent,
    post: ReceiveWindow,
    action: WindowAction,
)
    requires
        window_step(pre, event, post, action),
    ensures
        post == pre.at(post.phase),
        pre.phase is Closed ==> post == pre && action is Ignore,
{
}

/// The second window is opened only after the first has missed, and it is
/// timed by the settings of the second window.
pub proof fn lemma_second_window_timing(
    pre: ReceiveWindow,
    event: WindowEvent,
    post: ReceiveWindow,
    action: WindowAction,
)
    requires
        window_step(pre, event, post, action),
        post.phase != pre.phase,
    ensures
        post.phase is Rx2Delay ==> (pre.phase is Rx1Open || pre.phase is Rx1Read) && action
            == WindowAction::Sleep(pre.rx2_delay),
        post.phase is Rx2Open ==> pre.phase is Rx2Delay && action == WindowAction::Poll(
            pre.rx2_duration,
        ),
{
}

} // verus!
