use hpd_control::hpd::{HpdCommand, HpdController, HpdState, LineHold};
use hpd_control::button::{classify, step, ButtonAction, ButtonEvent, ButtonPhase};
use hpd_control::channel::CommandChannel;
use hpd_control::dispatch::{dispatch, drain};
use hpd_control::timing::{
    DEBOUNCE_MS, EDID_READ_DELAY_MS, HPD_PULSE_LONG_MS, HPD_PULSE_MIN_MS,
    HPD_PULSE_RECOMMENDED_MS, LONG_PRESS_THRESHOLD_MS,
};

#[test]
fn timing_table_matches_hdmi_spec() {
    assert_eq!(HPD_PULSE_MIN_MS, 100);
    assert_eq!(HPD_PULSE_RECOMMENDED_MS, 200);
    assert_eq!(HPD_PULSE_LONG_MS, 500);
    assert_eq!(EDID_READ_DELAY_MS, 50);
    assert_eq!(DEBOUNCE_MS, 50);
    assert_eq!(LONG_PRESS_THRESHOLD_MS, 500);
}

#[test]
fn new_controller_starts_disconnected_line_low() {
    let c = HpdController::new();
    assert_eq!(c.state(), HpdState::Disconnected);
    assert!(!c.line_is_high());
}

#[test]
fn assert_connects_and_raises_line() {
    let mut c = HpdController::new();
    c.assert_hpd();
    assert_eq!(c.state(), HpdState::Connected);
    assert!(c.line_is_high());
    // Idempotent.
    c.assert_hpd();
    assert_eq!(c.state(), HpdState::Connected);
    assert!(c.line_is_high());
}

#[test]
fn deassert_disconnects_and_lowers_line() {
    let mut c = HpdController::new();
    c.assert_hpd();
    c.deassert();
    assert_eq!(c.state(), HpdState::Disconnected);
    assert!(!c.line_is_high());
}

#[test]
fn toggle_swaps_connected_and_disconnected() {
    let mut c = HpdController::new();
    c.toggle();
    assert_eq!(c.state(), HpdState::Connected);
    assert!(c.line_is_high());
    c.toggle();
    assert_eq!(c.state(), HpdState::Disconnected);
    assert!(!c.line_is_high());
}

#[test]
fn dispatch_toggle_from_connected_goes_low() {
    let mut c = HpdController::new();
    c.assert_hpd();
    let w = dispatch(&mut c, HpdCommand::Toggle);
    assert_eq!(c.state(), HpdState::Disconnected);
    assert!(!c.line_is_high());
    assert!(w.is_empty());
}

#[test]
fn pulse_from_connected_restores_connected() {
    let mut c = HpdController::new();
    c.assert_hpd();
    let w = c.pulse_duration(200);
    assert_eq!(
        w,
        vec![LineHold {
            high: false,
            hold_ms: 200,
        }]
    );
    assert_eq!(c.state(), HpdState::Connected);
    assert!(c.line_is_high());
}

#[test]
fn pulse_from_disconnected_stays_disconnected() {
    let mut c = HpdController::new();
    let w = c.pulse_duration(100);
    assert_eq!(
        w,
        vec![LineHold {
            high: false,
            hold_ms: 100,
        }]
    );
    assert_eq!(c.state(), HpdState::Disconnected);
    assert!(!c.line_is_high());
}

#[test]
fn pulse_default_uses_recommended_width() {
    let mut c = HpdController::new();
    c.assert_hpd();
    let w = c.pulse();
    assert_eq!(
        w,
        vec![LineHold {
            high: false,
            hold_ms: HPD_PULSE_RECOMMENDED_MS,
        }]
    );
    assert_eq!(c.state(), HpdState::Connected);
}

#[test]
fn reconnect_cycle_always_ends_connected() {
    let mut disconnected = HpdController::new();
    let w1 = disconnected.reconnect_cycle();
    assert_eq!(
        w1,
        vec![LineHold {
            high: false,
            hold_ms: HPD_PULSE_LONG_MS,
        }]
    );
    assert_eq!(disconnected.state(), HpdState::Connected);
    assert!(disconnected.line_is_high());

    let mut connected = HpdController::new();
    connected.assert_hpd();
    let w2 = connected.reconnect_cycle();
    assert_eq!(
        w2,
        vec![LineHold {
            high: false,
            hold_ms: HPD_PULSE_LONG_MS,
        }]
    );
    assert_eq!(connected.state(), HpdState::Connected);
    assert!(connected.line_is_high());
}

#[test]
fn channel_delivers_in_fifo_order() {
    let mut ch = CommandChannel::new();
    assert_eq!(ch.len(), 0);
    assert!(ch.try_send(HpdCommand::Toggle));
    assert!(ch.try_send(HpdCommand::Assert));
    assert_eq!(ch.len(), 2);
    assert_eq!(ch.try_receive(), Some(HpdCommand::Toggle));
    assert_eq!(ch.try_receive(), Some(HpdCommand::Assert));
    assert_eq!(ch.try_receive(), None);
}

#[test]
fn channel_backpressure_at_capacity_four() {
    let mut ch = CommandChannel::new();
    assert!(ch.try_send(HpdCommand::Assert));
    assert!(ch.try_send(HpdCommand::Deassert));
    assert!(ch.try_send(HpdCommand::Toggle));
    assert!(ch.try_send(HpdCommand::Pulse));
    // The queue holds four: a fifth send is held back.
    assert!(!ch.try_send(HpdCommand::Reconnect));
    assert_eq!(ch.len(), 4);
    // A receive frees a slot, and the held-back send goes through.
    assert_eq!(ch.try_receive(), Some(HpdCommand::Assert));
    assert!(ch.try_send(HpdCommand::Reconnect));
    assert_eq!(ch.len(), 4);
}

#[test]
fn drain_executes_in_order_a_then_b() {
    // [Assert, Toggle] in order ends Disconnected; the reverse order
    // would end Connected.
    let mut c = HpdController::new();
    let mut ch = CommandChannel::new();
    assert!(ch.try_send(HpdCommand::Assert));
    assert!(ch.try_send(HpdCommand::Toggle));
    let w = drain(&mut c, &mut ch);
    assert_eq!(c.state(), HpdState::Disconnected);
    assert_eq!(ch.len(), 0);
    assert!(w.is_empty());
}

#[test]
fn drain_concatenates_holds_in_order() {
    // A pulse (200 ms low) queued before a reconnect (500 ms low)
    // drives the line through exactly those holds, in that order.
    let mut c = HpdController::new();
    c.assert_hpd();
    let mut ch = CommandChannel::new();
    assert!(ch.try_send(HpdCommand::Pulse));
    assert!(ch.try_send(HpdCommand::Reconnect));
    let w = drain(&mut c, &mut ch);
    assert_eq!(
        w,
        vec![
            LineHold {
                high: false,
                hold_ms: 200,
            },
            LineHold {
                high: false,
                hold_ms: 500,
            },
        ]
    );
    assert_eq!(c.state(), HpdState::Connected);
}

#[test]
fn bounce_within_debounce_emits_no_command() {
    let (p1, a1) = step(ButtonPhase::Idle, ButtonEvent::FallingEdge { now_ms: 0 });
    assert_eq!(p1, ButtonPhase::ArmedLow);
    assert_eq!(a1, ButtonAction::AwaitDebounce);
    // Line bounced back high before the debounce window elapsed.
    let (p2, a2) = step(
        p1,
        ButtonEvent::DebounceElapsed {
            now_ms: 30,
            pressed: false,
        },
    );
    assert_eq!(p2, ButtonPhase::Idle);
    assert_eq!(a2, ButtonAction::AwaitEdge);
}

#[test]
fn classify_threshold_is_sharp() {
    assert_eq!(classify(300), HpdCommand::Toggle);
    assert_eq!(classify(499), HpdCommand::Toggle);
    assert_eq!(classify(500), HpdCommand::Pulse);
    assert_eq!(classify(600), HpdCommand::Pulse);
    assert_eq!(classify(0), HpdCommand::Toggle);
}

fn run_press_cycle(fall_ms: u64, rise_ms: u64) -> ButtonAction {
    let (p1, _) = step(ButtonPhase::Idle, ButtonEvent::FallingEdge { now_ms: fall_ms });
    let (p2, _) = step(
        p1,
        ButtonEvent::DebounceElapsed {
            now_ms: fall_ms + DEBOUNCE_MS,
            pressed: true,
        },
    );
    let (p3, _) = step(p2, ButtonEvent::RisingEdge { now_ms: rise_ms });
    let (p4, action) = step(
        p3,
        ButtonEvent::DebounceElapsed {
            now_ms: rise_ms + DEBOUNCE_MS,
            pressed: false,
        },
    );
    assert_eq!(p4, ButtonPhase::Idle);
    action
}

#[test]
fn press_300ms_emits_toggle() {
    // Falling edge at t=0, rising edge at t=300: confirmed at 50,
    // measured at 350, duration 300 -> short press.
    let action = run_press_cycle(0, 300);
    assert_eq!(
        action,
        ButtonAction::Emit {
            command: HpdCommand::Toggle,
        }
    );
}

#[test]
fn press_600ms_emits_pulse_and_pulses_line() {
    let action = run_press_cycle(0, 600);
    assert_eq!(
        action,
        ButtonAction::Emit {
            command: HpdCommand::Pulse,
        }
    );

    // The emitted command, sent through the queue and dispatched,
    // drives a 200 ms low pulse and restores the connected state.
    let mut c = HpdController::new();
    c.assert_hpd();
    let mut ch = CommandChannel::new();
    if let ButtonAction::Emit { command } = action {
        assert!(ch.try_send(command));
    }
    let w = drain(&mut c, &mut ch);
    assert_eq!(
        w,
        vec![LineHold {
            high: false,
            hold_ms: 200,
        }]
    );
    assert_eq!(c.state(), HpdState::Connected);
    assert!(c.line_is_high());
}

#[test]
fn dispatch_maps_every_command() {
    let mut c = HpdController::new();
    dispatch(&mut c, HpdCommand::Assert);
    assert_eq!(c.state(), HpdState::Connected);
    dispatch(&mut c, HpdCommand::Deassert);
    assert_eq!(c.state(), HpdState::Disconnected);
    dispatch(&mut c, HpdCommand::Toggle);
    assert_eq!(c.state(), HpdState::Connected);
    dispatch(&mut c, HpdCommand::Pulse);
    assert_eq!(c.state(), HpdState::Connected);
    dispatch(&mut c, HpdCommand::Deassert);
    dispatch(&mut c, HpdCommand::Reconnect);
    assert_eq!(c.state(), HpdState::Connected);
}
