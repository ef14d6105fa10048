use flagmesh::input::{respond, KeyName, Press, Response, WindowInput};

#[test]
fn escape_press_closes() {
    let e = WindowInput::Key { key: KeyName::Escape, press: Press::Down };
    assert_eq!(respond(e), Response::Close);
}

#[test]
fn escape_release_is_ignored() {
    let e = WindowInput::Key { key: KeyName::Escape, press: Press::Up };
    assert_eq!(respond(e), Response::Ignore);
}

#[test]
fn r_reloads_on_any_key_event() {
    for press in [Press::Down, Press::Up, Press::Repeat] {
        assert_eq!(respond(WindowInput::Key { key: KeyName::R, press }), Response::ReloadProgram);
    }
    assert_eq!(
        respond(WindowInput::Key { key: KeyName::Other, press: Press::Down }),
        Response::Ignore
    );
}

#[test]
fn primary_button_press_resets_eye() {
    assert_eq!(
        respond(WindowInput::MouseButton { primary: true, press: Press::Down }),
        Response::ResetEye
    );
    assert_eq!(
        respond(WindowInput::MouseButton { primary: true, press: Press::Up }),
        Response::Ignore
    );
    assert_eq!(
        respond(WindowInput::MouseButton { primary: false, press: Press::Down }),
        Response::Ignore
    );
}

#[test]
fn resize_reshapes() {
    assert_eq!(
        respond(WindowInput::Resize { width: 800, height: 600 }),
        Response::Reshape { width: 800, height: 600 }
    );
    assert_eq!(respond(WindowInput::Other), Response::Ignore);
}
