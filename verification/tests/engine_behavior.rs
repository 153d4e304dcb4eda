use controller_mapper::action::{Key, MouseButton, MouseButtonOrKey};
use controller_mapper::engine::{
    run_cycles, ControllerEvent, EmitterCall, EngineError, EventKind, LoopState, RemapSession,
};
use controller_mapper::identity::ControllerIdentity;
use controller_mapper::input::{Button, Joystick, StickAxis};
use controller_mapper::integrator::AnalogIntegrator;
use controller_mapper::profile::Profile;
use controller_mapper::session::resolve;
use controller_mapper::window::{ErrorWindow, KeyPressWindow, MainWindow, WindowType};

fn one_pad_profile() -> Profile {
    Profile::from_identities(&vec![ControllerIdentity::from_descriptor(
        42,
        "Pad".to_string(),
    )])
}

fn pressed(handle: u64, b: Button) -> ControllerEvent {
    ControllerEvent { session_handle: handle, kind: EventKind::ButtonPressed(b) }
}

fn released(handle: u64, b: Button) -> ControllerEvent {
    ControllerEvent { session_handle: handle, kind: EventKind::ButtonReleased(b) }
}

fn axis(handle: u64, a: StickAxis, amount: i64) -> ControllerEvent {
    ControllerEvent { session_handle: handle, kind: EventKind::AxisChanged(a, amount) }
}

// --- resolver ---

#[test]
fn resolve_records_known_devices_and_excludes_unknown_ones() {
    let p = Profile::from_identities(&vec![
        ControllerIdentity::from_descriptor(42, "A".to_string()),
        ControllerIdentity::from_descriptor(43, "B".to_string()),
    ]);
    let devices = vec![(1u64, 42u128), (2u64, 99u128), (3u64, 43u128)];
    let smap = resolve(&p, &devices);
    assert_eq!(smap.len(), 2);
    assert_eq!(smap.lookup(1), Some(42));
    assert_eq!(smap.lookup(2), None);
    assert_eq!(smap.lookup(3), Some(43));
}

// --- deadzone boundary (analog integrator) ---

#[test]
fn deadzone_boundary_sample_at_deadzone_is_neutral() {
    // |amount| of exactly 0.05 of full deflection produces zero velocity.
    let mut a = AnalogIntegrator::seed(0, 0);
    a.set_horizontal(50_000);
    assert_eq!(a.velocity_x(), 0);
    a.set_horizontal(-50_000);
    assert_eq!(a.velocity_x(), 0);
    a.set_vertical(50_000);
    assert_eq!(a.velocity_y(), 0);
    assert!(!a.cursor_active());
}

#[test]
fn deadzone_boundary_sample_past_deadzone_moves() {
    // 0.0501 of full deflection is 50_100 deflection units; the velocity
    // is 50_100 position units per tick, i.e. 0.0501 * 0.5 pixels on the
    // horizontal axis and -(0.0501 * 0.5) pixels on the vertical axis.
    let mut a = AnalogIntegrator::seed(0, 0);
    a.set_horizontal(50_100);
    assert_eq!(a.velocity_x(), 50_100);
    a.set_vertical(50_100);
    assert_eq!(a.velocity_y(), -50_100);
    assert!(a.cursor_active());
}

#[test]
fn motion_is_additive_and_linear() {
    let mut a = AnalogIntegrator::seed(0, 0);
    a.set_horizontal(1_000_000); // full deflection: half a pixel per tick
    assert_eq!(a.advance(), (0, 0)); // 0.5 px
    assert_eq!(a.advance(), (1, 0)); // 1.0 px
    assert_eq!(a.advance(), (1, 0)); // 1.5 px
    assert_eq!(a.advance(), (2, 0)); // 2.0 px
}

#[test]
fn negative_positions_truncate_toward_zero() {
    let mut a = AnalogIntegrator::seed(0, 0);
    a.set_horizontal(-1_000_000);
    assert_eq!(a.advance(), (0, 0)); // -0.5 px
    assert_eq!(a.advance(), (-1, 0)); // -1.0 px
}

#[test]
fn position_saturates_at_the_representable_range() {
    let mut a = AnalogIntegrator::seed(2_147_483_647, -2_147_483_648);
    a.set_horizontal(1_000_000);
    a.set_vertical(-1_000_000); // vertical inverts: velocity +1_000_000
    assert_eq!(a.advance(), (2_147_483_647, -2_147_483_647));
    let mut b = AnalogIntegrator::seed(0, -2_147_483_648);
    b.set_vertical(1_000_000); // velocity -1_000_000, already at the floor
    assert_eq!(b.advance(), (0, -2_147_483_648));
}

#[test]
fn resync_adopts_the_reported_cursor_position_exactly() {
    let mut a = AnalogIntegrator::seed(5, 5);
    a.resync(Some((10, 20)));
    assert_eq!(a.position_pixels(), (10, 20));
}

#[test]
fn resync_without_a_report_falls_back_to_the_stored_pixel() {
    let mut a = AnalogIntegrator::seed(0, 0);
    a.set_horizontal(1_000_000);
    a.advance(); // 0.5 px
    a.advance(); // 1.0 px
    a.advance(); // 1.5 px
    a.resync(None); // back on the whole pixel: 1.0 px
    a.advance(); // 1.5 px again
    assert_eq!(a.position_pixels(), (1, 0));
}

// --- end-to-end scenarios over the translation loop ---

#[test]
fn bound_press_and_release_emit_exactly_the_bound_key() {
    let mut p = one_pad_profile();
    p.insert_key_to_all(Button::DPadUp, Key::Character('W'));
    let devices = vec![(7u64, 42u128)];
    let mut session = RemapSession::start_session(&p, &devices, (0, 0));

    let batches = vec![vec![pressed(7, Button::DPadUp)], vec![released(7, Button::DPadUp)]];
    let os_cursor = vec![(0, 0), (0, 0)];
    let (calls, cycles, result) = run_cycles(&mut session, &p, &batches, &os_cursor, 2);

    assert_eq!(
        calls,
        vec![
            EmitterCall::Press(MouseButtonOrKey::Key(Key::Character('W'))),
            EmitterCall::Release(MouseButtonOrKey::Key(Key::Character('W'))),
        ]
    );
    assert_eq!(cycles, 2);
    assert_eq!(result, Ok(()));
    assert_eq!(session.state(), LoopState::Idle);
}

#[test]
fn unbound_inputs_emit_nothing() {
    let p = one_pad_profile();
    let devices = vec![(7u64, 42u128)];
    let mut session = RemapSession::start_session(&p, &devices, (0, 0));
    let batches = vec![vec![pressed(7, Button::South), released(7, Button::South)]];
    let os_cursor = vec![(0, 0)];
    let (calls, cycles, result) = run_cycles(&mut session, &p, &batches, &os_cursor, 1);
    assert!(calls.is_empty());
    assert_eq!(cycles, 1);
    assert_eq!(result, Ok(()));
}

#[test]
fn unresolved_session_handle_is_fatal_to_the_loop() {
    let mut p = one_pad_profile();
    p.insert_key_to_all(Button::DPadUp, Key::Character('W'));
    let devices = vec![(7u64, 42u128)];
    let mut session = RemapSession::start_session(&p, &devices, (0, 0));

    // Handle 9 was not connected when the loop started.
    let batches = vec![vec![pressed(7, Button::DPadUp), pressed(9, Button::DPadUp)]];
    let os_cursor = vec![(0, 0)];
    let (calls, cycles, result) = run_cycles(&mut session, &p, &batches, &os_cursor, 1);

    assert_eq!(result, Err(EngineError::UnresolvedSessionHandle));
    // The event before the failure was still emitted; nothing after it.
    assert_eq!(
        calls,
        vec![EmitterCall::Press(MouseButtonOrKey::Key(Key::Character('W')))]
    );
    assert_eq!(cycles, 1);
    assert_eq!(session.state(), LoopState::Idle);
}

#[test]
fn cancellation_runs_at_most_one_more_cycle_and_drops_no_event() {
    let mut p = one_pad_profile();
    p.insert_key_to_all(Button::DPadUp, Key::Character('W'));
    let devices = vec![(7u64, 42u128)];
    let mut session = RemapSession::start_session(&p, &devices, (0, 0));

    // The flag is set during cycle 0, observed at the top of cycle 1.
    let batches = vec![
        vec![pressed(7, Button::DPadUp), released(7, Button::DPadUp)],
        vec![pressed(7, Button::DPadUp)],
        vec![pressed(7, Button::DPadUp)],
    ];
    let os_cursor = vec![(0, 0), (0, 0), (0, 0)];
    let (calls, cycles, result) = run_cycles(&mut session, &p, &batches, &os_cursor, 1);

    // Exactly the one cycle that had already begun ran, in full.
    assert_eq!(cycles, 1);
    assert_eq!(
        calls,
        vec![
            EmitterCall::Press(MouseButtonOrKey::Key(Key::Character('W'))),
            EmitterCall::Release(MouseButtonOrKey::Key(Key::Character('W'))),
        ]
    );
    assert_eq!(result, Ok(()));
    assert_eq!(session.state(), LoopState::Idle);
}

#[test]
fn drift_correction_tracks_the_reported_cursor_when_idle() {
    let p = one_pad_profile();
    let devices = vec![(7u64, 42u128)];
    let mut session = RemapSession::start_session(&p, &devices, (5, 5));

    // A cycle with no axis event and a neutral integrator: no cursor
    // move is emitted, and the stored position equals the reported one.
    let batches = vec![vec![pressed(7, Button::South)]];
    let os_cursor = vec![(10, 20)];
    let (calls, _, result) = run_cycles(&mut session, &p, &batches, &os_cursor, 1);
    assert!(calls.is_empty());
    assert_eq!(result, Ok(()));
    assert_eq!(session.cursor_pixels(), (10, 20));
}

#[test]
fn wired_stick_drives_the_cursor_and_unwired_stick_does_not() {
    let mut p = one_pad_profile();
    p.toggle_stick_mouse_to_all(Joystick::Left); // left stick on, right off
    let devices = vec![(7u64, 42u128)];
    let mut session = RemapSession::start_session(&p, &devices, (0, 0));

    let batches = vec![
        vec![axis(7, StickAxis::RightStickX, 1_000_000)], // ignored: right stick unwired
        vec![axis(7, StickAxis::LeftStickX, 1_000_000)],  // half a pixel per tick
        vec![],
        vec![],
        vec![],
    ];
    let os_cursor = vec![(0, 0); 5];
    let (calls, cycles, result) = run_cycles(&mut session, &p, &batches, &os_cursor, 5);

    // Cycle 0 is idle (resync, no move); cycles 1-4 each move the cursor.
    assert_eq!(
        calls,
        vec![
            EmitterCall::MoveCursor(0, 0),
            EmitterCall::MoveCursor(1, 0),
            EmitterCall::MoveCursor(1, 0),
            EmitterCall::MoveCursor(2, 0),
        ]
    );
    assert_eq!(cycles, 5);
    assert_eq!(result, Ok(()));
}

#[test]
fn vertical_axis_is_sign_inverted() {
    let mut p = one_pad_profile();
    p.toggle_stick_mouse_to_all(Joystick::Left);
    let devices = vec![(7u64, 42u128)];
    let mut session = RemapSession::start_session(&p, &devices, (0, 0));

    let batches = vec![vec![axis(7, StickAxis::LeftStickY, 1_000_000)], vec![]];
    let os_cursor = vec![(0, 0); 2];
    let (calls, _, result) = run_cycles(&mut session, &p, &batches, &os_cursor, 2);
    // Pushing the stick up moves the cursor toward smaller screen y.
    assert_eq!(
        calls,
        vec![EmitterCall::MoveCursor(0, 0), EmitterCall::MoveCursor(0, -1)]
    );
    assert_eq!(result, Ok(()));
}

#[test]
fn returning_into_the_deadzone_stops_the_cursor() {
    let mut p = one_pad_profile();
    p.toggle_stick_mouse_to_all(Joystick::Left);
    let devices = vec![(7u64, 42u128)];
    let mut session = RemapSession::start_session(&p, &devices, (0, 0));

    let batches = vec![
        vec![axis(7, StickAxis::LeftStickX, 1_000_000)],
        vec![axis(7, StickAxis::LeftStickX, 30_000)], // back inside the deadzone
    ];
    let os_cursor = vec![(0, 0), (4, 4)];
    let (calls, _, result) = run_cycles(&mut session, &p, &batches, &os_cursor, 2);
    // One move from the first cycle; the second cycle resyncs instead.
    assert_eq!(calls, vec![EmitterCall::MoveCursor(0, 0)]);
    assert_eq!(result, Ok(()));
    assert_eq!(session.cursor_pixels(), (4, 4));
}

// --- loop state machine ---

#[test]
fn loop_states_cycle_running_stopping_idle() {
    let p = one_pad_profile();
    let devices = vec![(7u64, 42u128)];
    let mut session = RemapSession::start_session(&p, &devices, (0, 0));
    assert_eq!(session.state(), LoopState::Running);
    let proceed = session.begin_cycle(false);
    assert!(proceed);
    assert_eq!(session.state(), LoopState::Running);
    let proceed = session.begin_cycle(true);
    assert!(!proceed);
    assert_eq!(session.state(), LoopState::Stopping);
    session.shut_down();
    assert_eq!(session.state(), LoopState::Idle);
}

#[test]
fn every_error_kind_is_distinct() {
    let kinds = [
        EngineError::InitializationFailure,
        EngineError::UnresolvedSessionHandle,
        EngineError::ActionEmissionFailure,
        EngineError::SharedStateCorruption,
        EngineError::PersistenceFailure,
    ];
    for (i, a) in kinds.iter().enumerate() {
        for (j, b) in kinds.iter().enumerate() {
            assert_eq!(i == j, a == b);
        }
    }
}

// --- editing surfaces ---

#[test]
fn surfaces_carry_their_window_type() {
    let p = Profile::new();
    let main = MainWindow::new(p, false);
    assert_eq!(main.window_type(), WindowType::Main);
    assert!(!main.handler_running);
    let err = ErrorWindow::new("backend unavailable".to_string());
    assert_eq!(err.window_type(), WindowType::Error);
    assert_eq!(err.error, "backend unavailable");
    let kp = KeyPressWindow;
    assert_eq!(kp.window_type(), WindowType::KeyPress);
}
