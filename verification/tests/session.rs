use fridge::error::{close_with, CloseCode, FridgeError, TransportError};
use fridge::feed::PgMagnetUpdate;
use fridge::geometry::{Point, Polygon, Shape, Window};
use fridge::session::{
    handle_client_update, handle_websocket_binary, relevant_update, Action, Event, SessionState,
    MAX_IDLE, POLL_TIMEOUT,
};
use fridge::wire::{
    ClientMagnetUpdate, ClientUpdate, Frame, LocationUpdate, Magnet, MagnetUpdate, Readings,
};

const SECOND: u64 = 1_000_000_000;
const MILLI: u64 = 1_000_000;

fn window(x1: i32, y1: i32, x2: i32, y2: i32) -> Window {
    Window { x1, y1, x2, y2 }
}

fn change(id: i32, old: (i32, i32), new: (i32, i32)) -> PgMagnetUpdate {
    PgMagnetUpdate {
        id,
        old_x: old.0,
        old_y: old.1,
        new_x: new.0,
        new_y: new.1,
        rotation: 15,
        z_index: 77,
        word: String::from("owl"),
    }
}

fn window_readings(x1: i32, y1: i32, x2: i32, y2: i32) -> Readings {
    Readings { magnet: None, window: Some((x1, y1, x2, y2)), failure: String::new() }
}

fn magnet_readings(id: i32, x: i32, y: i32, rotation: i32) -> Readings {
    Readings { magnet: Some((true, id, x, y, rotation)), window: None, failure: String::new() }
}

fn no_record(why: &str) -> Readings {
    Readings { magnet: None, window: None, failure: String::from(why) }
}

fn window_frame(x1: i32, y1: i32, x2: i32, y2: i32) -> Frame {
    Frame::Binary(window_readings(x1, y1, x2, y2))
}

fn magnet_frame(id: i32, x: i32, y: i32, rotation: i32) -> Frame {
    Frame::Binary(magnet_readings(id, x, y, rotation))
}

fn inbound(frame: Frame) -> Option<Result<Frame, TransportError>> {
    Some(Ok(frame))
}

/// A session that looks at (0, 0, 100, 100) since time 0.
fn session() -> SessionState {
    let mut state = SessionState::new(7, 0);
    state.client_window = window(0, 0, 100, 100);
    state
}

// ---- scenarios ----

#[test]
fn scenario_snapshot_on_window_set() {
    let mut state = SessionState::new(7, 0);
    let action = state.get_next_action(Event::Inbound(inbound(window_frame(0, 0, 100, 100))), 10);
    assert_eq!(action.unwrap(), Action::Fetch(Shape::Window(window(0, 0, 100, 100))));
    assert_eq!(state.client_window, window(0, 0, 100, 100));
    // What the store finds goes out as one canvas update.
    let found = vec![Magnet { id: 1, x: 3, y: 4, rotation: 0, z_index: 2, word: String::from("a") }];
    let reply = MagnetUpdate::CanvasUpdate(found).encode().unwrap();
    assert_eq!(reply, vec![0x91, 0x96, 0x01, 0x03, 0x04, 0x00, 0x02, 0xa1, b'a']);
}

#[test]
fn scenario_move_inside_window() {
    let mut state = session();
    let action = state.get_next_action(Event::Change(change(7, (10, 10), (20, 20))), 10);
    assert_eq!(
        action.unwrap(),
        Action::Emit(MagnetUpdate::Move(LocationUpdate {
            id: 7,
            x: 20,
            y: 20,
            rotation: 15,
            z_index: 77
        }))
    );
}

#[test]
fn scenario_crossing_in() {
    let mut state = session();
    let action = state.get_next_action(Event::Change(change(8, (-5, -5), (5, 5))), 10);
    assert_eq!(
        action.unwrap(),
        Action::Emit(MagnetUpdate::Create(Magnet {
            id: 8,
            x: 5,
            y: 5,
            rotation: 15,
            z_index: 77,
            word: String::from("owl"),
        }))
    );
}

#[test]
fn scenario_crossing_out() {
    let mut state = session();
    let action = state.get_next_action(Event::Change(change(9, (50, 50), (200, 200))), 10);
    assert_eq!(action.unwrap(), Action::Emit(MagnetUpdate::Remove(9)));
}

#[test]
fn scenario_rate_limit() {
    let mut state = session();
    for i in 0..5u64 {
        let frame = magnet_frame(1, 10, 10, 0);
        let action = state.get_next_action(Event::Inbound(inbound(frame)), i * 50 * MILLI);
        assert!(matches!(action, Ok(Action::Store(_))), "frame {i}");
    }
    let sixth = state.get_next_action(Event::Inbound(inbound(magnet_frame(1, 10, 10, 0))), 300 * MILLI);
    let Err(error) = sixth else {
        panic!("the sixth frame was not dropped");
    };
    assert!(matches!(error, FridgeError::RateLimited));
    let closing = close_with(&error);
    assert_eq!(closing.frame, None);
    assert!(!closing.ends_session);
    // The session goes on: one second after the first frame it accepts again.
    let later = state.get_next_action(Event::Inbound(inbound(magnet_frame(1, 10, 10, 0))), SECOND);
    assert!(matches!(later, Ok(Action::Store(_))));
}

#[test]
fn scenario_shutdown() {
    let mut state = session();
    let Err(error) = state.get_next_action(Event::Shutdown, 10) else {
        panic!("the session went on");
    };
    assert!(matches!(error, FridgeError::Shutdown));
    let closing = close_with(&error);
    assert_eq!(closing.frame, Some(CloseCode::ServiceRestart));
    assert_eq!(closing.frame.unwrap().code(), 1012);
    assert!(closing.ends_session);
}

// ---- a new session ----

#[test]
fn new_session_looks_at_the_default_window() {
    let state = SessionState::new(0xabc, 55);
    assert_eq!(state.session_id, 0xabc);
    assert_eq!(state.client_window, Window::default());
    assert_eq!(state.last_comms, 55);
}

#[test]
fn greeting_is_the_session_id() {
    let state = SessionState::new(0xa1a2a3a4_b1b2_c1c2_d1d2_d3d4d5d6d7d8, 0);
    assert_eq!(
        state.greeting(),
        MagnetUpdate::SessionIdUpdate(String::from("a1a2a3a4-b1b2-c1c2-d1d2-d3d4d5d6d7d8"))
    );
}

// ---- changes from the store ----

#[test]
fn relevant_update_for_each_of_the_four_cases() {
    let w = window(0, 0, 100, 100);
    assert!(matches!(relevant_update(&w, change(1, (1, 1), (2, 2))), Some(MagnetUpdate::Move(_))));
    assert!(matches!(relevant_update(&w, change(1, (-1, 1), (2, 2))), Some(MagnetUpdate::Create(_))));
    assert_eq!(relevant_update(&w, change(1, (1, 1), (2, 200))), Some(MagnetUpdate::Remove(1)));
    assert_eq!(relevant_update(&w, change(1, (-1, 1), (2, 200))), None);
}

#[test]
fn relevant_update_counts_the_sides_of_the_window() {
    let w = window(0, 0, 100, 100);
    assert!(matches!(relevant_update(&w, change(1, (0, 0), (100, 100))), Some(MagnetUpdate::Move(_))));
    assert!(matches!(relevant_update(&w, change(1, (101, 0), (100, 0))), Some(MagnetUpdate::Create(_))));
    assert_eq!(relevant_update(&w, change(1, (0, 100), (0, 101))), Some(MagnetUpdate::Remove(1)));
}

#[test]
fn relevant_update_of_a_turn_on_the_spot_is_a_move() {
    let w = window(0, 0, 100, 100);
    assert_eq!(
        relevant_update(&w, change(4, (5, 5), (5, 5))),
        Some(MagnetUpdate::Move(LocationUpdate { id: 4, x: 5, y: 5, rotation: 15, z_index: 77 }))
    );
    assert_eq!(relevant_update(&w, change(4, (500, 5), (500, 5))), None);
}

#[test]
fn relevant_update_with_the_default_window() {
    let w = Window::default();
    assert_eq!(relevant_update(&w, change(1, (1, 1), (2, 2))), None);
    assert!(matches!(relevant_update(&w, change(1, (1, 1), (0, 0))), Some(MagnetUpdate::Create(_))));
}

#[test]
fn changes_of_one_magnet_are_told_in_turn() {
    let w = window(0, 0, 100, 100);
    let path = [(-50, -50), (-10, -10), (10, 10), (20, 20), (99, 99), (150, 150), (160, 160), (50, 50)];
    let mut told = Vec::new();
    for pair in path.windows(2) {
        told.push(relevant_update(&w, change(3, pair[0], pair[1])));
    }
    assert_eq!(told[0], None);
    assert!(matches!(told[1], Some(MagnetUpdate::Create(_))));
    assert!(matches!(told[2], Some(MagnetUpdate::Move(_))));
    assert!(matches!(told[3], Some(MagnetUpdate::Move(_))));
    assert_eq!(told[4], Some(MagnetUpdate::Remove(3)));
    assert_eq!(told[5], None);
    assert!(matches!(told[6], Some(MagnetUpdate::Create(_))));
}

#[test]
fn change_that_the_client_does_not_see_is_nothing_to_do() {
    let mut state = session();
    let action = state.get_next_action(Event::Change(change(9, (500, 500), (600, 600))), 10);
    assert_eq!(action.unwrap(), Action::Nothing);
}

#[test]
fn change_is_not_rate_limited() {
    let mut state = session();
    for _ in 0..20 {
        let action = state.get_next_action(Event::Change(change(7, (10, 10), (20, 20))), 10);
        assert!(matches!(action, Ok(Action::Emit(_))));
    }
    // And takes no slot of the ring.
    for _ in 0..5 {
        assert!(state.handle_websocket_message(inbound(Frame::Pong(Vec::new())), 10).is_ok());
    }
}

#[test]
fn lost_feed_ends_the_session_with_an_internal_error() {
    let mut state = session();
    let Err(error) = state.get_next_action(Event::FeedLost(String::from("lagged by 3")), 10) else {
        panic!("the session went on");
    };
    let FridgeError::Other(reason) = &error else {
        panic!("unexpected error {error:?}");
    };
    assert_eq!(reason, "lagged by 3");
    assert_eq!(close_with(&error).frame, Some(CloseCode::InternalError));
}

// ---- records of the client ----

#[test]
fn window_update_must_be_valid() {
    let mut w = window(0, 0, 100, 100);
    for bad in [window(0, 0, 0, 0), window(10, 0, 0, 10), window(0, 10, 10, 0), window(5, 5, 5, 50)] {
        let result = handle_client_update(ClientUpdate::Window(bad), &mut w);
        let Err(FridgeError::OutOfBounds(what)) = result else {
            panic!("accepted {bad:?}");
        };
        assert_eq!(what, ClientUpdate::Window(bad));
        assert_eq!(w, window(0, 0, 100, 100));
    }
}

#[test]
fn window_update_must_fit_the_coordinate_range_when_widened() {
    let mut w = window(0, 0, 100, 100);
    let bad = window(i32::MIN, 0, i32::MAX, 10);
    let result = handle_client_update(ClientUpdate::Window(bad), &mut w);
    assert!(matches!(result, Err(FridgeError::OutOfBounds(ClientUpdate::Window(_)))));
    assert_eq!(w, window(0, 0, 100, 100));
}

#[test]
fn window_update_fetches_the_difference_and_keeps_the_widened_window() {
    let mut w = window(0, 0, 100, 100);
    let result = handle_client_update(ClientUpdate::Window(window(50, 50, 150, 150)), &mut w);
    assert_eq!(
        result.unwrap(),
        Action::Fetch(Shape::Polygon(Polygon {
            p1: Point { x: 50, y: 150 },
            p2: Point { x: 150, y: 150 },
            p3: Point { x: 150, y: 50 },
            p4: Point { x: 100, y: 50 },
            p5: Point { x: 100, y: 100 },
            p6: Point { x: 50, y: 100 },
        }))
    );
    assert_eq!(w, window(50, 50, 150, 150));
}

#[test]
fn window_update_takes_the_difference_before_it_widens() {
    let mut w = Window::default();
    let result = handle_client_update(ClientUpdate::Window(window(0, 0, 30000, 100)), &mut w);
    assert_eq!(result.unwrap(), Action::Fetch(Shape::Window(window(0, 0, 30000, 100))));
    assert_eq!(w, window(-3480, 0, 33480, 100));
    // The same window again lies within the widened one: all of it is fetched.
    let result = handle_client_update(ClientUpdate::Window(window(0, 0, 30000, 100)), &mut w);
    assert_eq!(result.unwrap(), Action::Fetch(Shape::Window(window(0, 0, 30000, 100))));
    assert_eq!(w, window(-3480, 0, 33480, 100));
}

#[test]
fn window_update_to_the_same_window_fetches_nothing() {
    let mut w = window(0, 0, 100, 100);
    let result = handle_client_update(ClientUpdate::Window(window(0, 0, 100, 100)), &mut w);
    assert_eq!(result.unwrap(), Action::Nothing);
    assert_eq!(w, window(0, 0, 100, 100));
}

#[test]
fn window_update_to_the_same_window_still_widens_it() {
    let mut w = window(-3480, 0, 33480, 100);
    let result = handle_client_update(ClientUpdate::Window(window(-3480, 0, 33480, 100)), &mut w);
    assert_eq!(result.unwrap(), Action::Nothing);
    assert_eq!(w, window(-10440, 0, 40440, 100));
}

#[test]
fn magnet_update_is_stored_when_allowed() {
    let mut w = window(0, 0, 100, 100);
    let m = ClientMagnetUpdate { is_magnet_update: true, id: 7, x: 150, y: -50, rotation: 90 };
    let result = handle_client_update(ClientUpdate::Magnet(m), &mut w);
    assert_eq!(result.unwrap(), Action::Store(m));
    assert_eq!(w, window(0, 0, 100, 100));
}

#[test]
fn magnet_update_is_out_of_bounds_when_not_allowed() {
    let mut w = window(0, 0, 100, 100);
    for (id, x, y, rotation) in [(20_000_101, 5, 5, 0), (1, 5, 5, 400), (1, 201, 5, 0), (1, 5, -101, 0)] {
        let m = ClientMagnetUpdate { is_magnet_update: true, id, x, y, rotation };
        let result = handle_client_update(ClientUpdate::Magnet(m), &mut w);
        let Err(FridgeError::OutOfBounds(what)) = result else {
            panic!("accepted {m:?}");
        };
        assert_eq!(what, ClientUpdate::Magnet(m));
    }
}

#[test]
fn magnet_update_outside_the_world_is_out_of_bounds() {
    let mut w = window(499_950, 0, 500_050, 100);
    let m = ClientMagnetUpdate { is_magnet_update: true, id: 1, x: 500_001, y: 5, rotation: 0 };
    assert!(matches!(
        handle_client_update(ClientUpdate::Magnet(m), &mut w),
        Err(FridgeError::OutOfBounds(_))
    ));
    let m = ClientMagnetUpdate { is_magnet_update: true, id: 1, x: 500_000, y: 5, rotation: 0 };
    assert_eq!(handle_client_update(ClientUpdate::Magnet(m), &mut w).unwrap(), Action::Store(m));
}

#[test]
fn binary_payload_that_is_no_record_is_an_invalid_message() {
    let mut w = window(0, 0, 100, 100);
    let result = handle_websocket_binary(no_record("neither of the two"), &mut w);
    let Err(error) = result else {
        panic!("accepted what is no record");
    };
    let FridgeError::InvalidMessage(why) = &error else {
        panic!("unexpected error {error:?}");
    };
    assert_eq!(why, "neither of the two");
    assert_eq!(close_with(&error).frame, Some(CloseCode::InvalidPayload));
    assert_eq!(w, window(0, 0, 100, 100));
}

#[test]
fn binary_payload_with_a_window() {
    let mut w = window(0, 0, 100, 100);
    let result = handle_websocket_binary(window_readings(0, 50, 100, 150), &mut w);
    assert_eq!(result.unwrap(), Action::Fetch(Shape::Window(window(0, 100, 100, 150))));
    assert_eq!(w, window(0, 50, 100, 150));
}

#[test]
fn binary_payload_with_a_magnet_update() {
    let mut w = window(0, 0, 100, 100);
    let result = handle_websocket_binary(magnet_readings(7, 10, 20, -90), &mut w);
    assert_eq!(
        result.unwrap(),
        Action::Store(ClientMagnetUpdate { is_magnet_update: true, id: 7, x: 10, y: 20, rotation: -90 })
    );
}

#[test]
fn binary_payload_that_reads_as_both_is_a_magnet_update() {
    let mut w = window(0, 0, 100, 100);
    let both = Readings {
        magnet: Some((true, 7, 10, 20, 0)),
        window: Some((0, 0, 50, 50)),
        failure: String::new(),
    };
    let result = handle_websocket_binary(both, &mut w);
    assert_eq!(
        result.unwrap(),
        Action::Store(ClientMagnetUpdate { is_magnet_update: true, id: 7, x: 10, y: 20, rotation: 0 })
    );
    assert_eq!(w, window(0, 0, 100, 100));
}

// ---- frames ----

#[test]
fn pong_is_ignored() {
    let mut state = session();
    let action = state.handle_websocket_message(inbound(Frame::Pong(vec![1, 2, 3])), 10);
    assert_eq!(action.unwrap(), Action::Nothing);
    assert_eq!(state.last_comms, 0);
}

#[test]
fn ping_is_answered_with_its_payload() {
    let mut state = session();
    let action = state.handle_websocket_message(inbound(Frame::Ping(vec![9, 8, 7])), 10);
    assert_eq!(action.unwrap(), Action::Pong(vec![9, 8, 7]));
    assert_eq!(state.last_comms, 0);
}

#[test]
fn close_frame_ends_the_session_without_a_close() {
    let mut state = session();
    let result = state.handle_websocket_message(
        inbound(Frame::Close(Some((1000, String::from("done"))))),
        10,
    );
    let Err(error) = result else {
        panic!("the session went on");
    };
    let FridgeError::ClientClose(Some((code, reason))) = &error else {
        panic!("unexpected error {error:?}");
    };
    assert_eq!((*code, reason.as_str()), (1000, "done"));
    let closing = close_with(&error);
    assert_eq!(closing.frame, None);
    assert!(closing.ends_session);
}

#[test]
fn end_of_the_stream_is_a_close_by_the_client() {
    let mut state = session();
    let result = state.handle_websocket_message(None, 10);
    assert!(matches!(result, Err(FridgeError::ClientClose(None))));
}

#[test]
fn text_frame_is_not_supported() {
    let mut state = session();
    let result = state.handle_websocket_message(inbound(Frame::Text(String::from("hi"))), 10);
    let Err(error) = result else {
        panic!("the session went on");
    };
    let FridgeError::UnsupportedMessage(frame) = &error else {
        panic!("unexpected error {error:?}");
    };
    assert_eq!(*frame, Frame::Text(String::from("hi")));
    assert_eq!(close_with(&error).frame, Some(CloseCode::UnsupportedData));
}

#[test]
fn socket_failure_is_passed_on() {
    let mut state = session();
    let failure = TransportError::PayloadTooLong { len: 9, max_len: 3 };
    let result = state.handle_websocket_message(Some(Err(failure.clone())), 10);
    let Err(error) = result else {
        panic!("the session went on");
    };
    let FridgeError::Tungstenite(inner) = &error else {
        panic!("unexpected error {error:?}");
    };
    assert_eq!(*inner, failure);
    assert_eq!(close_with(&error).frame, Some(CloseCode::MessageTooBig));
}

#[test]
fn binary_frame_counts_as_a_sign_of_life() {
    let mut state = session();
    let action = state.handle_websocket_message(inbound(magnet_frame(1, 10, 10, 0)), 5 * SECOND);
    assert!(action.is_ok());
    assert_eq!(state.last_comms, 5 * SECOND);
}

#[test]
fn binary_frame_counts_as_a_sign_of_life_even_when_invalid() {
    let mut state = session();
    let result = state.handle_websocket_message(inbound(Frame::Binary(no_record("no record"))), 5 * SECOND);
    assert!(matches!(result, Err(FridgeError::InvalidMessage(_))));
    assert_eq!(state.last_comms, 5 * SECOND);
}

#[test]
fn rate_limit_comes_before_everything_else() {
    let mut state = session();
    for _ in 0..5 {
        assert!(state.handle_websocket_message(inbound(Frame::Pong(Vec::new())), 10).is_ok());
    }
    let before = state.client_window;
    for message in [
        inbound(window_frame(0, 0, 10, 10)),
        inbound(Frame::Text(String::from("hi"))),
        inbound(Frame::Close(None)),
        inbound(Frame::Ping(vec![1])),
        Some(Err(TransportError::Other(String::from("reset")))),
        None,
    ] {
        let result = state.handle_websocket_message(message, 20);
        assert!(matches!(result, Err(FridgeError::RateLimited)));
        assert_eq!(state.client_window, before);
        assert_eq!(state.last_comms, 0);
    }
}

#[test]
fn frames_of_every_kind_take_a_slot_of_the_ring() {
    let mut state = session();
    assert!(state.handle_websocket_message(inbound(Frame::Pong(Vec::new())), 0).is_ok());
    assert!(state.handle_websocket_message(inbound(Frame::Ping(Vec::new())), 0).is_ok());
    assert!(state.handle_websocket_message(inbound(Frame::Binary(no_record("no record"))), 0).is_err());
    assert!(state.handle_websocket_message(inbound(Frame::Text(String::new())), 0).is_err());
    assert!(state.handle_websocket_message(None, 0).is_err());
    let sixth = state.handle_websocket_message(inbound(Frame::Pong(Vec::new())), 0);
    assert!(matches!(sixth, Err(FridgeError::RateLimited)));
}

// ---- the clock ----

#[test]
fn timeouts_are_ten_and_three_hundred_seconds() {
    assert_eq!(POLL_TIMEOUT, 10 * SECOND);
    assert_eq!(MAX_IDLE, 300 * SECOND);
}

#[test]
fn on_timeout_pings_a_client_that_is_not_idle() {
    let state = SessionState::new(7, 1000);
    assert_eq!(state.on_timeout(1000 + 10 * SECOND).unwrap(), Action::Ping);
    assert_eq!(state.on_timeout(1000 + 300 * SECOND).unwrap(), Action::Ping);
    assert_eq!(state.on_timeout(1000).unwrap(), Action::Ping);
    assert_eq!(state.on_timeout(0).unwrap(), Action::Ping);
}

#[test]
fn on_timeout_gives_up_on_an_idle_client() {
    let state = SessionState::new(7, 1000);
    let Err(error) = state.on_timeout(1000 + 300 * SECOND + 1) else {
        panic!("the session went on");
    };
    assert!(matches!(error, FridgeError::IdleTimeout));
    let closing = close_with(&error);
    assert_eq!(closing.frame, Some(CloseCode::GoingAway));
    assert!(closing.ends_session);
}

#[test]
fn on_timeout_counts_from_the_last_binary_frame() {
    let mut state = session();
    assert!(state.on_timeout(301 * SECOND).is_err());
    let _ = state.handle_websocket_message(inbound(Frame::Pong(Vec::new())), 200 * SECOND);
    assert!(state.on_timeout(301 * SECOND).is_err());
    let _ = state.handle_websocket_message(inbound(magnet_frame(1, 10, 10, 0)), 250 * SECOND);
    assert_eq!(state.on_timeout(301 * SECOND).unwrap(), Action::Ping);
    assert!(state.on_timeout(551 * SECOND).is_err());
}
