//! The button classifier: a per-press state machine that debounces a
//! noisy active-low input and classifies the press duration into a
//! command.
//!
//! The machine is driven by events. The caller waits on the input
//! line and on the debounce timer as the returned [`ButtonAction`]
//! asks, stamps each event with the current time in milliseconds,
//! and feeds it to [`step`]. A press cycle runs
//! `Idle -> ArmedLow -> Measuring -> Classifying -> Idle`; the only
//! action that carries a command is the one taken when the release
//! debounce elapses.
//!
//! The press start is recorded when the press-side debounce elapses,
//! and the duration is computed when the release-side debounce
//! elapses, so the measured duration includes the release debounce
//! window. That matches the behaviour of the classification, which is
//! kept literally: durations at or above the long-press threshold
//! emit `Pulse`, shorter ones emit `Toggle`.

use vstd::prelude::*;
use crate::hpd::HpdCommand;
use crate::timing::LONG_PRESS_THRESHOLD_MS;

verus! {

/// Phase of the current press cycle.
#[derive(Clone, Copy, Debug, PartialEq, Eq, Structural)]
pub enum ButtonPhase {
    /// Waiting for a falling edge (button pressed, active low).
    Idle,
    /// Falling edge seen; waiting out the press-side debounce window.
    ArmedLow,
    /// Press confirmed at `press_start_ms`; waiting for the rising edge.
    Measuring {
        /// Time the press was confirmed, in milliseconds.
        press_start_ms: u64,
    },
    /// Rising edge seen; waiting out the release-side debounce window.
    Classifying {
        /// Time the press was confirmed, in milliseconds.
        press_start_ms: u64,
    },
}

/// An event fed to the classifier.
#[derive(Clone, Copy, Debug, PartialEq, Eq, Structural)]
pub enum ButtonEvent {
    /// The input line fell (button pressed).
    FallingEdge {
        /// Time of the edge, in milliseconds.
        now_ms: u64,
    },
    /// A debounce wait elapsed; `pressed` is the line sampled low.
    DebounceElapsed {
        /// Time the wait elapsed, in milliseconds.
        now_ms: u64,
        /// Whether the line still reads pressed (low).
        pressed: bool,
    },
    /// The input line rose (button released).
    RisingEdge {
        /// Time of the edge, in milliseconds.
        now_ms: u64,
    },
}

/// What the caller must do after a step.
#[derive(Clone, Copy, Debug, PartialEq, Eq, Structural)]
pub enum ButtonAction {
    /// Wait for the next edge on the input line.
    AwaitEdge,
    /// Suspend for the debounce window, then report the elapsed wait.
    AwaitDebounce,
    /// Deliver this command, then wait for the next edge.
    Emit {
        /// The classified command.
        command: HpdCommand,
    },
}

/// The command a measured press duration classifies to: long presses
/// (at or above the threshold) pulse, short presses toggle.
pub open spec fn spec_classify(press_duration_ms: u64) -> HpdCommand {
    if press_duration_ms >= LONG_PRESS_THRESHOLD_MS {
        HpdCommand::Pulse
    } else {
        HpdCommand::Toggle
    }
}

/// Classify a measured press duration.
pub fn classify(press_duration_ms: u64) -> (cmd: HpdCommand)
    ensures
        cmd == spec_classify(press_duration_ms),
{
    if press_duration_ms >= LONG_PRESS_THRESHOLD_MS {
        HpdCommand::Pulse
    } else {
        HpdCommand::Toggle
    }
}

/// Event times never run backwards relative to the press being
/// measured: a debounce that ends a press cycle cannot elapse before
/// the press was confirmed.
pub open spec fn event_wf(phase: ButtonPhase, event: ButtonEvent) -> bool {
    match (phase, event) {
        (
            ButtonPhase::Classifying { press_start_ms },
            ButtonEvent::DebounceElapsed { now_ms, pressed },
        ) => now_ms >= press_start_ms,
        _ => true,
    }
}

/// One transition of the classifier. Events that a phase is not
/// waiting on leave it unchanged, still waiting on the same action.
pub open spec fn spec_step(phase: ButtonPhase, event: ButtonEvent) -> (ButtonPhase, ButtonAction) {
    match (phase, event) {
        (ButtonPhase::Idle, ButtonEvent::FallingEdge { now_ms }) => (
            ButtonPhase::ArmedLow,
            ButtonAction::AwaitDebounce,
        ),
        (ButtonPhase::Idle, _) => (ButtonPhase::Idle, ButtonAction::AwaitEdge),
        (ButtonPhase::ArmedLow, ButtonEvent::DebounceElapsed { now_ms, pressed }) => if pressed {
            (ButtonPhase::Measuring { press_start_ms: now_ms }, ButtonAction::AwaitEdge)
        } else {
            (ButtonPhase::Idle, ButtonAction::AwaitEdge)
        },
        (ButtonPhase::ArmedLow, _) => (ButtonPhase::ArmedLow, ButtonAction::AwaitDebounce),
        (ButtonPhase::Measuring { press_start_ms }, ButtonEvent::RisingEdge { now_ms }) => (
            ButtonPhase::Classifying { press_start_ms },
            ButtonAction::AwaitDebounce,
        ),
        (ButtonPhase::Measuring { press_start_ms }, _) => (
            ButtonPhase::Measuring { press_start_ms },
            ButtonAction::AwaitEdge,
        ),
        (
            ButtonPhase::Classifying { press_start_ms },
            ButtonEvent::DebounceElapsed { now_ms, pressed },
        ) => (
            ButtonPhase::Idle,
            ButtonAction::Emit { command: spec_classify((now_ms - press_start_ms) as u64) },
        ),
        (ButtonPhase::Classifying { press_start_ms }, _) => (
            ButtonPhase::Classifying { press_start_ms },
            ButtonAction::AwaitDebounce,
        ),
    }
}

/// Drive the classifier one event forward.
pub fn step(phase: ButtonPhase, event: ButtonEvent) -> (r: (ButtonPhase, ButtonAction))
    requires
        event_wf(phase, event),
    ensures
        r == spec_step(phase, event),
{
    match (phase, event) {
        (ButtonPhase::Idle, ButtonEvent::FallingEdge { now_ms: _ }) => (
            ButtonPhase::ArmedLow,
            ButtonAction::AwaitDebounce,
        ),
        (ButtonPhase::Idle, _) => (ButtonPhase::Idle, ButtonAction::AwaitEdge),
        (ButtonPhase::ArmedLow, ButtonEvent::DebounceElapsed { now_ms, pressed }) => if pressed {
            (ButtonPhase::Measuring { press_start_ms: now_ms }, ButtonAction::AwaitEdge)
        } else {
            (ButtonPhase::Idle, ButtonAction::AwaitEdge)
        },
        (ButtonPhase::ArmedLow, _) => (ButtonPhase::ArmedLow, ButtonAction::AwaitDebounce),
        (ButtonPhase::Measuring { press_start_ms }, ButtonEvent::RisingEdge { now_ms: _ }) => (
            ButtonPhase::Classifying { press_start_ms },
            ButtonAction::AwaitDebounce,
        ),
        (ButtonPhase::Measuring { press_start_ms }, _) => (
            ButtonPhase::Measuring { press_start_ms },
            ButtonAction::AwaitEdge,
        ),
        (
            ButtonPhase::Classifying { press_start_ms },
            ButtonEvent::DebounceElapsed { now_ms, pressed: _ },
        ) => (
            ButtonPhase::Idle,
            ButtonAction::Emit { command: classify(now_ms - press_start_ms) },
        ),
        (ButtonPhase::Classifying { press_start_ms }, _) => (
            ButtonPhase::Classifying { press_start_ms },
            ButtonAction::AwaitDebounce,
        ),
    }
}

/// Law: a press that bounces back high within the debounce window is
/// discarded as noise - the machine returns to idle and no command is
/// emitted.
pub proof fn lemma_bounce_emits_nothing(now_ms: u64)
    ensures
        spec_step(
            ButtonPhase::ArmedLow,
            ButtonEvent::DebounceElapsed { now_ms, pressed: false },
        ) == (ButtonPhase::Idle, ButtonAction::AwaitEdge),
{
}

/// Law: the classifier emits a command only when the release-side
/// debounce elapses in the classifying phase - no edge, bounce or
/// stray event produces one.
pub proof fn lemma_emits_only_when_classifying(phase: ButtonPhase, event: ButtonEvent)
    ensures
        spec_step(phase, event).1 is Emit ==> phase is Classifying && event is DebounceElapsed,
{
}

/// Law: the long-press threshold is sharp - a measured duration
/// classifies to `Pulse` exactly when it reaches the threshold, and
/// to `Toggle` exactly when it falls short; no other command is ever
/// produced.
pub proof fn lemma_long_press_threshold(press_duration_ms: u64)
    ensures
        (spec_classify(press_duration_ms) == HpdCommand::Pulse) <==> press_duration_ms
            >= LONG_PRESS_THRESHOLD_MS,
        (spec_classify(press_duration_ms) == HpdCommand::Toggle) <==> press_duration_ms
            < LONG_PRESS_THRESHOLD_MS,
{
}

/// Law: a full clean press cycle - falling edge, confirmed press at
/// `start_ms`, rising edge, release debounce elapsing at `end_ms` -
/// runs the machine from idle back to idle and emits exactly the
/// command that the measured duration `end_ms - start_ms` classifies
/// to.
pub proof fn lemma_press_cycle(
    fall_ms: u64,
    start_ms: u64,
    rise_ms: u64,
    end_ms: u64,
    released: bool,
)
    requires
        end_ms >= start_ms,
    ensures
        ({
            let s1 = spec_step(ButtonPhase::Idle, ButtonEvent::FallingEdge { now_ms: fall_ms });
            let s2 = spec_step(
                s1.0,
                ButtonEvent::DebounceElapsed { now_ms: start_ms, pressed: true },
            );
            let s3 = spec_step(s2.0, ButtonEvent::RisingEdge { now_ms: rise_ms });
            let s4 = spec_step(
                s3.0,
                ButtonEvent::DebounceElapsed { now_ms: end_ms, pressed: released },
            );
            s4 == (
                ButtonPhase::Idle,
                ButtonAction::Emit { command: spec_classify((end_ms - start_ms) as u64) },
            )
        }),
{
}

} // verus!
