use multi_window_output::{Bridge, Screen, ScreenError};

#[test]
fn bridge_creation() {
    let mut screen = Screen::name_screen("My New Screen");
    screen.set_name("Change the name");
    screen.set_window_name(0, "My only window").unwrap();
    let mut bridge = Bridge::new(screen);
    bridge.println(0, "Hello World").unwrap();
}

#[test]
fn bridge_println_reaches_root_buffer() {
    let screen = Screen::new();
    let mut bridge = Bridge::new(screen);
    assert_eq!(bridge.println(0, "Hello World"), Ok(()));
    let window = bridge.screen().get_window(0).unwrap();
    let mut it = window.buffer.iter();
    assert_eq!(it.next(), Some(&Some(String::from("Hello World"))));
    assert_eq!(it.next(), None);
}

#[test]
fn bridge_rejects_identities_outside_snapshot() {
    let mut screen = Screen::new();
    let id = screen.append_left_child(0).unwrap();
    let mut bridge = Bridge::new(screen);
    assert_eq!(bridge.println(id, "ok"), Ok(()));
    assert_eq!(bridge.println(2, "no"), Err(ScreenError::NotFound));
    assert_eq!(bridge.print(9, "no"), Err(ScreenError::NotFound));
    assert_eq!(bridge.flush(2), Err(ScreenError::NotFound));
}

#[test]
fn dropping_every_handle_terminates_the_bridge() {
    let screen = Screen::new();
    let mut bridge = Bridge::new(screen);
    bridge.clone_handle();
    bridge.clone_handle();
    bridge.clone_handle();
    assert_eq!(bridge.handle_count(), 4);
    bridge.drop_handle();
    bridge.drop_handle();
    bridge.drop_handle();
    assert!(bridge.is_running());
    bridge.drop_handle();
    assert_eq!(bridge.handle_count(), 0);
    assert!(!bridge.is_running());
}

#[test]
fn kill_terminates_regardless_of_handles() {
    let screen = Screen::new();
    let mut bridge = Bridge::new(screen);
    bridge.clone_handle();
    assert_eq!(bridge.handle_count(), 2);
    bridge.kill();
    assert!(!bridge.is_running());
    assert_eq!(bridge.handle_count(), 2);
}
