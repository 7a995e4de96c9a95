use xenocore::event::Event;
use xenocore::key;
use xenocore::message::{respond, Reply, WM_CLOSE, WM_DESTROY, WM_KEYDOWN, WM_KEYUP};

#[test]
fn key_down_becomes_press_with_same_code() {
    assert_eq!(respond(WM_KEYDOWN, key::A, true), Reply::Deliver(Event::Press(key::A)));
    assert_eq!(respond(WM_KEYDOWN, 0x41, true), Reply::Deliver(Event::Press(key::A)));
}

#[test]
fn key_up_becomes_release_with_same_code() {
    assert_eq!(respond(WM_KEYUP, key::SPACE, true), Reply::Deliver(Event::Release(key::SPACE)));
}

#[test]
fn press_and_release_carry_one_code() {
    for code in [key::A, key::ESCAPE, key::F24, key::OEM_CLEAR, 0usize, usize::MAX] {
        let press = respond(WM_KEYDOWN, code, true);
        let release = respond(WM_KEYUP, code, true);
        assert_eq!(press, Reply::Deliver(Event::Press(code)));
        assert_eq!(release, Reply::Deliver(Event::Release(code)));
    }
}

#[test]
fn keys_without_callback_are_not_delivered() {
    assert_eq!(respond(WM_KEYDOWN, key::A, false), Reply::Default);
    assert_eq!(respond(WM_KEYUP, key::A, false), Reply::Default);
}

#[test]
fn close_destroys_and_destroy_quits() {
    assert_eq!(respond(WM_CLOSE, 0, true), Reply::Destroy);
    assert_eq!(respond(WM_CLOSE, 0, false), Reply::Destroy);
    assert_eq!(respond(WM_DESTROY, 0, true), Reply::Quit);
    assert_eq!(respond(WM_DESTROY, 0, false), Reply::Quit);
}

#[test]
fn other_messages_go_to_default_handling() {
    assert_eq!(respond(0x0000, 0, true), Reply::Default);
    assert_eq!(respond(0x000F, 7, true), Reply::Default);
    assert_eq!(respond(0x0102, key::A, true), Reply::Default);
}
