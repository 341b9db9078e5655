use rozsda::keys::{on_key_press, KeyResponse, KEY_F11};

#[test]
fn f11_toggles_fullscreen() {
    let mut fullscreen = false;
    assert_eq!(on_key_press(&mut fullscreen, KEY_F11, false), KeyResponse::EnterFullscreen);
    assert!(fullscreen);
    assert_eq!(on_key_press(&mut fullscreen, KEY_F11, true), KeyResponse::LeaveFullscreen);
    assert!(!fullscreen);
}

#[test]
fn control_shortcuts() {
    let mut fullscreen = true;
    assert_eq!(on_key_press(&mut fullscreen, 's' as u32, true), KeyResponse::Save);
    assert_eq!(on_key_press(&mut fullscreen, 'o' as u32, true), KeyResponse::Open);
    assert_eq!(on_key_press(&mut fullscreen, 'w' as u32, true), KeyResponse::CloseFile);
    assert_eq!(on_key_press(&mut fullscreen, 'q' as u32, true), KeyResponse::CloseFileAndQuit);
    assert!(fullscreen);
}

#[test]
fn letters_without_control_do_nothing() {
    let mut fullscreen = false;
    assert_eq!(on_key_press(&mut fullscreen, 's' as u32, false), KeyResponse::Nothing);
    assert_eq!(on_key_press(&mut fullscreen, 'q' as u32, false), KeyResponse::Nothing);
    assert_eq!(on_key_press(&mut fullscreen, 'S' as u32, true), KeyResponse::Nothing);
    assert_eq!(on_key_press(&mut fullscreen, 'x' as u32, true), KeyResponse::Nothing);
    assert!(!fullscreen);
}

#[test]
fn f11_value_is_the_x_keysym() {
    assert_eq!(KEY_F11, 0xffc8);
}
