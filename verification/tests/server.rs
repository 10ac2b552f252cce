use terminal_sessions::keys::Key;
use terminal_sessions::registry::Registry;
use terminal_sessions::server::AppServer;
use terminal_sessions::session::{Area, Session};
use terminal_sessions::teardown::{reset_sequence, Action};

fn torn_down() -> Vec<Action> {
    vec![Action::Send(reset_sequence()), Action::Close]
}

#[test]
fn a_new_server_starts_at_identifier_zero() {
    assert_eq!(AppServer::new().id, 0);
}

#[test]
fn identifiers_are_distinct_and_increase_in_creation_order() {
    let mut server = AppServer::new();
    let mut previous = None;
    for expected in 0usize..50 {
        let handler = server.new_client().unwrap();
        assert_eq!(handler.id, expected);
        if let Some(before) = previous {
            assert!(before < handler.id);
        }
        previous = Some(handler.id);
        assert_eq!(server.id, expected + 1);
    }
}

#[test]
fn no_client_is_admitted_once_the_identifiers_are_used_up() {
    let mut server = AppServer { id: usize::MAX - 1 };
    assert_eq!(server.new_client(), Some(AppServer { id: usize::MAX - 1 }));
    assert_eq!(server.id, usize::MAX);
    assert_eq!(server.new_client(), None);
    assert_eq!(server.new_client(), None);
    assert_eq!(server.id, usize::MAX);
}

#[test]
fn opening_the_channel_registers_a_fresh_session() {
    let mut server = AppServer::new();
    let mut clients = Registry::<&'static str>::new();
    let handler = server.new_client().unwrap();
    assert!(handler.channel_open_session(&mut clients, "first", 77));
    assert_eq!(
        clients.get(handler.id),
        Some(&Session { last_activity: 77, area: Area { width: 0, height: 0 }, resources: "first" })
    );
    assert_eq!(clients.len(), 1);
}

#[test]
fn a_second_channel_on_one_connection_is_refused() {
    let mut server = AppServer::new();
    let mut clients = Registry::<&'static str>::new();
    let handler = server.new_client().unwrap();
    assert!(handler.channel_open_session(&mut clients, "first", 77));
    handler.window_change_request(&mut clients, 80, 24);
    assert!(!handler.channel_open_session(&mut clients, "second", 99));
    let area = Area { width: 80, height: 24 };
    assert_eq!(
        clients.get(handler.id),
        Some(&Session { last_activity: 77, area, resources: "first" })
    );
}

#[test]
fn a_key_updates_the_last_activity_and_is_dispatched() {
    let mut server = AppServer::new();
    let mut clients = Registry::<&'static str>::new();
    let handler = server.new_client().unwrap();
    handler.channel_open_session(&mut clients, "screen", 10);
    assert_eq!(handler.accept_input(&mut clients, b"\x1b[A", 500), Some(Key::Up));
    assert_eq!(clients.get(handler.id).unwrap().last_activity, 500);
    assert_eq!(handler.accept_input(&mut clients, b"q", 600), Some(Key::Char('q')));
    assert_eq!(clients.get(handler.id).unwrap().last_activity, 600);
}

#[test]
fn bytes_without_a_key_leave_the_last_activity_alone() {
    let mut server = AppServer::new();
    let mut clients = Registry::<&'static str>::new();
    let handler = server.new_client().unwrap();
    handler.channel_open_session(&mut clients, "screen", 10);
    assert_eq!(handler.accept_input(&mut clients, b"\x1b", 500), None);
    assert_eq!(handler.accept_input(&mut clients, b"[A", 501), None);
    assert_eq!(handler.accept_input(&mut clients, &[], 502), None);
    assert_eq!(clients.get(handler.id).unwrap().last_activity, 10);
}

#[test]
fn input_without_a_session_is_dropped() {
    let mut server = AppServer::new();
    let mut clients = Registry::<&'static str>::new();
    let handler = server.new_client().unwrap();
    assert_eq!(handler.accept_input(&mut clients, b"q", 500), None);
    assert_eq!(clients.len(), 0);
}

#[test]
fn a_fatal_application_error_ends_the_session_at_once() {
    let mut server = AppServer::new();
    let mut clients = Registry::<&'static str>::new();
    let handler = server.new_client().unwrap();
    let other = server.new_client().unwrap();
    handler.channel_open_session(&mut clients, "screen", 0);
    other.channel_open_session(&mut clients, "screen", 0);

    assert_eq!(handler.accept_input(&mut clients, b"q", 5), Some(Key::Char('q')));
    let actions = handler.key_handled(&mut clients, true);
    assert_eq!(actions, torn_down());
    assert!(!clients.contains(handler.id));
    assert!(clients.contains(other.id));
}

#[test]
fn a_handled_key_changes_nothing() {
    let mut server = AppServer::new();
    let mut clients = Registry::<&'static str>::new();
    let handler = server.new_client().unwrap();
    handler.channel_open_session(&mut clients, "screen", 0);
    assert_eq!(handler.accept_input(&mut clients, b"q", 5), Some(Key::Char('q')));
    assert!(handler.key_handled(&mut clients, false).is_empty());
    assert_eq!(
        clients.get(handler.id),
        Some(&Session { last_activity: 5, area: Area { width: 0, height: 0 }, resources: "screen" })
    );
}

#[test]
fn the_input_rule_dispatches_the_key_and_keeps_the_session() {
    let mut server = AppServer::new();
    let mut clients = Registry::new();
    let handler = server.new_client().unwrap();
    handler.channel_open_session(&mut clients, Vec::<Key>::new(), 10);
    for (bytes, now) in [(&b"\x1b[A"[..], 20u64), (&b"x"[..], 30), (&b"\x1b["[..], 40)] {
        let actions = handler.data(&mut clients, bytes, now, |mut session, key| {
            assert_eq!(session.last_activity, now);
            session.resources.push(key);
            (session, false)
        });
        assert!(actions.is_empty());
    }
    let session = clients.get(handler.id).unwrap();
    assert_eq!(session.resources, vec![Key::Up, Key::Char('x')]);
    assert_eq!(session.last_activity, 30);
}

#[test]
fn the_input_rule_ends_a_session_whose_application_fails() {
    let mut server = AppServer::new();
    let mut clients = Registry::new();
    let handler = server.new_client().unwrap();
    let other = server.new_client().unwrap();
    handler.channel_open_session(&mut clients, "doomed", 0);
    other.channel_open_session(&mut clients, "bystander", 0);

    let actions = handler.data(&mut clients, b"q", 5, |session, key| {
        let failed = key == Key::Char('q');
        (session, failed)
    });
    assert_eq!(actions, torn_down());
    assert!(!clients.contains(handler.id));
    assert_eq!(clients.get(other.id), Some(&Session::new(0, "bystander")));
}

#[test]
fn the_input_rule_dispatches_nothing_without_a_key_or_a_session() {
    let mut server = AppServer::new();
    let mut clients = Registry::new();
    let handler = server.new_client().unwrap();
    let stranger = server.new_client().unwrap();
    handler.channel_open_session(&mut clients, "screen", 10);
    let mut dispatched = false;
    let actions = handler.data(&mut clients, b"\x1b", 50, |session, _| {
        dispatched = true;
        (session, true)
    });
    assert!(actions.is_empty());
    let actions = stranger.data(&mut clients, b"q", 50, |session, _| {
        dispatched = true;
        (session, true)
    });
    assert!(actions.is_empty());
    assert!(!dispatched);
    assert_eq!(clients.len(), 1);
    assert_eq!(clients.get(handler.id), Some(&Session::new(10, "screen")));
}

#[test]
fn a_resize_is_recorded_before_the_next_render_pass() {
    let mut server = AppServer::new();
    let mut clients = Registry::<&'static str>::new();
    let handler = server.new_client().unwrap();
    handler.channel_open_session(&mut clients, "screen", 0);
    assert_eq!(
        handler.window_change_request(&mut clients, 120, 40),
        Some(Area { width: 120, height: 40 })
    );
    assert_eq!(clients.get(handler.id).unwrap().area, Area { width: 120, height: 40 });
    assert_eq!(clients.get(handler.id).unwrap().last_activity, 0);
}

#[test]
fn a_terminal_request_sizes_the_surface() {
    let mut server = AppServer::new();
    let mut clients = Registry::<&'static str>::new();
    let handler = server.new_client().unwrap();
    handler.channel_open_session(&mut clients, "screen", 0);
    assert_eq!(handler.pty_request(&mut clients, 80, 24), Some(Area { width: 80, height: 24 }));
    assert_eq!(clients.get(handler.id).unwrap().area, Area { width: 80, height: 24 });
}

#[test]
fn reported_dimensions_keep_their_low_sixteen_bits() {
    assert_eq!(Area::from_report(80, 24), Area { width: 80, height: 24 });
    assert_eq!(Area::from_report(65_535, 65_536), Area { width: 65_535, height: 0 });
    assert_eq!(Area::from_report(65_536 + 80, 3 * 65_536 + 24), Area { width: 80, height: 24 });
    assert_eq!(Area::from_report(u32::MAX, 0), Area { width: u16::MAX, height: 0 });
}

#[test]
fn a_resize_without_a_session_does_nothing() {
    let mut server = AppServer::new();
    let mut clients = Registry::<&'static str>::new();
    let handler = server.new_client().unwrap();
    assert_eq!(handler.window_change_request(&mut clients, 120, 40), None);
    assert_eq!(handler.pty_request(&mut clients, 120, 40), None);
    assert_eq!(clients.len(), 0);
}

#[test]
fn closing_the_channel_tears_the_session_down() {
    let mut server = AppServer::new();
    let mut clients = Registry::<&'static str>::new();
    let handler = server.new_client().unwrap();
    handler.channel_open_session(&mut clients, "screen", 0);
    assert_eq!(handler.channel_close(&mut clients), torn_down());
    assert!(!clients.contains(handler.id));
    assert_eq!(clients.len(), 0);
}

#[test]
fn a_session_is_torn_down_only_once() {
    let mut server = AppServer::new();
    let mut clients = Registry::<&'static str>::new();
    let handler = server.new_client().unwrap();
    let other = server.new_client().unwrap();
    other.channel_open_session(&mut clients, "bystander", 0);

    handler.channel_open_session(&mut clients, "screen", 0);
    assert_eq!(handler.channel_close(&mut clients), torn_down());
    assert!(handler.channel_close(&mut clients).is_empty());
    assert!(handler.key_handled(&mut clients, true).is_empty());
    assert!(handler.data(&mut clients, b"q", 9, |session, _| (session, true)).is_empty());

    handler.channel_open_session(&mut clients, "screen", 10);
    assert_eq!(handler.key_handled(&mut clients, true), torn_down());
    assert!(handler.key_handled(&mut clients, true).is_empty());
    assert!(handler.channel_close(&mut clients).is_empty());

    handler.channel_open_session(&mut clients, "screen", 20);
    assert_eq!(handler.data(&mut clients, b"q", 21, |session, _| (session, true)), torn_down());
    assert!(handler.channel_close(&mut clients).is_empty());

    handler.channel_open_session(&mut clients, "screen", 30);
    clients.remove(handler.id);
    assert!(handler.channel_close(&mut clients).is_empty());

    assert!(handler.channel_close(&mut Registry::<()>::new()).is_empty());
    assert_eq!(clients.len(), 1);
    assert_eq!(clients.get(other.id), Some(&Session::new(0, "bystander")));
}

#[test]
fn the_input_rule_files_only_the_resources_that_come_back() {
    let mut server = AppServer::new();
    let mut clients = Registry::new();
    let handler = server.new_client().unwrap();
    handler.channel_open_session(&mut clients, 1u8, 10);
    handler.window_change_request(&mut clients, 80, 24);
    let actions = handler.data(&mut clients, b"x", 500, |mut session, _| {
        session.last_activity = 7;
        session.area = Area { width: 1, height: 1 };
        session.resources = 2;
        (session, false)
    });
    assert!(actions.is_empty());
    let area = Area { width: 80, height: 24 };
    let filed = Session { last_activity: 500, area, resources: 2u8 };
    assert_eq!(clients.get(handler.id), Some(&filed));
}

#[test]
fn a_dropped_connection_leaves_no_session_behind() {
    let mut server = AppServer::new();
    let mut clients = Registry::<&'static str>::new();
    let first = server.new_client().unwrap();
    let second = server.new_client().unwrap();
    first.channel_open_session(&mut clients, "screen", 0);
    second.channel_open_session(&mut clients, "screen", 0);
    first.disconnect(&mut clients);
    first.disconnect(&mut clients);
    assert!(!clients.contains(first.id));
    assert!(clients.contains(second.id));
}

#[test]
fn events_of_one_connection_leave_other_sessions_alone() {
    let mut server = AppServer::new();
    let mut clients = Registry::<&'static str>::new();
    let first = server.new_client().unwrap();
    let second = server.new_client().unwrap();
    first.channel_open_session(&mut clients, "screen", 1);
    second.channel_open_session(&mut clients, "screen", 2);
    let untouched = Session::new(2, "screen");
    assert_eq!(clients.get(second.id), Some(&untouched));
    first.window_change_request(&mut clients, 10, 10);
    first.accept_input(&mut clients, b"x", 50);
    first.key_handled(&mut clients, true);
    assert_eq!(clients.get(second.id), Some(&untouched));
    assert_eq!(clients.len(), 1);
}
