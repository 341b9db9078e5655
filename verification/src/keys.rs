//! What a key press in the editor window does.

use vstd::prelude::*;

verus! {

/// The key value GDK reports for the F11 key (its X keysym).
pub const KEY_F11: u32 = 0xffc8;

/// What the window does in answer to a key press.
#[derive(Clone, Copy, Debug, PartialEq, Eq, Structural)]
pub enum KeyResponse {
    /// Go full screen.
    EnterFullscreen,
    /// Leave full screen.
    LeaveFullscreen,
    /// Save the open file (Ctrl+S).
    Save,
    /// Open a file (Ctrl+O).
    Open,
    /// Close the open file (Ctrl+W).
    CloseFile,
    /// Close the open file and quit (Ctrl+Q).
    CloseFileAndQuit,
    /// Nothing.
    Nothing,
}

/// The response to the key `keyval`, pressed with or without Control, when
/// the window is full screen or not. F11 toggles full screen whatever the
/// modifiers; the letters s, o, w and q act only with Control.
pub open spec fn key_response(fullscreen: bool, keyval: u32, control: bool) -> KeyResponse {
    if keyval == KEY_F11 {
        if fullscreen {
            KeyResponse::LeaveFullscreen
        } else {
            KeyResponse::EnterFullscreen
        }
    } else if control && keyval == 's' as u32 {
        KeyResponse::Save
    } else if control && keyval == 'o' as u32 {
        KeyResponse::Open
    } else if control && keyval == 'w' as u32 {
        KeyResponse::CloseFile
    } else if control && keyval == 'q' as u32 {
        KeyResponse::CloseFileAndQuit
    } else {
        KeyResponse::Nothing
    }
}

/// Whether the window is full screen after the key `keyval` is pressed.
pub open spec fn fullscreen_after(fullscreen: bool, keyval: u32) -> bool {
    if keyval == KEY_F11 {
        !fullscreen
    } else {
        fullscreen
    }
}

/// Decides what a key press does, given whether the window is full screen,
/// and records the new full-screen state: F11 flips it, every other key
/// leaves it as it was.
pub fn on_key_press(fullscreen: &mut bool, keyval: u32, control: bool) -> (response: KeyResponse)
    ensures
        response == key_response(*old(fullscreen), keyval, control),
        *final(fullscreen) == fullscreen_after(*old(fullscreen), keyval),
{
    if keyval == KEY_F11 {
        let was_fullscreen = *fullscreen;
        *fullscreen = !was_fullscreen;
        if was_fullscreen {
            KeyResponse::LeaveFullscreen
        } else {
            KeyResponse::EnterFullscreen
        }
    } else if control && keyval == 's' as u32 {
        KeyResponse::Save
    } else if control && keyval == 'o' as u32 {
        KeyResponse::Open
    } else if control && keyval == 'w' as u32 {
        KeyResponse::CloseFile
    } else if control && keyval == 'q' as u32 {
        KeyResponse::CloseFileAndQuit
    } else {
        KeyResponse::Nothing
    }
}

/// Pressing F11 twice brings the window back to the state it started in,
/// the two presses answered one by going full screen and the other by leaving
/// it; any other key leaves the state alone.
pub proof fn law_f11_twice_restores_window(fullscreen: bool, control1: bool, control2: bool, other: u32)
    requires
        other != KEY_F11,
    ensures
        fullscreen_after(fullscreen_after(fullscreen, KEY_F11), KEY_F11) == fullscreen,
        fullscreen_after(fullscreen, other) == fullscreen,
        ({
            let first = key_response(fullscreen, KEY_F11, control1);
            let second = key_response(fullscreen_after(fullscreen, KEY_F11), KEY_F11, control2);
            (first == KeyResponse::EnterFullscreen && second == KeyResponse::LeaveFullscreen)
                || (first == KeyResponse::LeaveFullscreen && second == KeyResponse::EnterFullscreen)
        }),
{
}

/// Without Control, F11 is the only key that does anything: every other key
/// is answered with `Nothing` and leaves the full-screen state alone.
pub proof fn law_plain_keys_do_nothing(fullscreen: bool, keyval: u32)
    requires
        keyval != KEY_F11,
    ensures
        key_response(fullscreen, keyval, false) == KeyResponse::Nothing,
        fullscreen_after(fullscreen, keyval) == fullscreen,
{
}

/// F11 flips the full-screen state with or without Control, and the answer
/// follows the state it leaves: going full screen from a normal window,
/// leaving full screen otherwise.
pub proof fn law_f11_toggles_fullscreen(fullscreen: bool, control: bool)
    ensures
        fullscreen_after(fullscreen, KEY_F11) != fullscreen,
        fullscreen ==> key_response(fullscreen, KEY_F11, control) == KeyResponse::LeaveFullscreen,
        !fullscreen ==> key_response(fullscreen, KEY_F11, control) == KeyResponse::EnterFullscreen,
{
}

/// With Control, s saves, o opens, w closes the file and q closes it and
/// quits; the lower-case letters are the key values 0x73, 0x6f, 0x77, 0x71.
/// Any other key but F11 does nothing, and none of them touches full screen.
pub proof fn law_control_shortcuts(fullscreen: bool, keyval: u32)
    requires
        keyval != KEY_F11,
    ensures
        key_response(fullscreen, 0x73, true) == KeyResponse::Save,
        key_response(fullscreen, 0x6f, true) == KeyResponse::Open,
        key_response(fullscreen, 0x77, true) == KeyResponse::CloseFile,
        key_response(fullscreen, 0x71, true) == KeyResponse::CloseFileAndQuit,
        keyval != 0x73 && keyval != 0x6f && keyval != 0x77 && keyval != 0x71
            ==> key_response(fullscreen, keyval, true) == KeyResponse::Nothing,
        fullscreen_after(fullscreen, keyval) == fullscreen,
{
}

/// Only F11 is ever answered by entering or leaving full screen, and the
/// answer to F11 never depends on Control.
pub proof fn law_fullscreen_answers_only_f11(fullscreen: bool, keyval: u32, control: bool)
    ensures
        (key_response(fullscreen, keyval, control) == KeyResponse::EnterFullscreen
            || key_response(fullscreen, keyval, control) == KeyResponse::LeaveFullscreen)
            <==> keyval == KEY_F11,
        key_response(fullscreen, KEY_F11, control) == key_response(fullscreen, KEY_F11, !control),
{
}

} // verus!
