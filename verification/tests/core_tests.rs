use game::error::{merge_error, Error, ErrorType};
use game::flags::DemoGameFlags;
use game::inputs::{ButtonState, InputState, Key, MouseButton};
use game::text::{chars_match, push_decimal, str_chars, str_eq};

fn chars(s: &str) -> Vec<char> {
    s.chars().collect()
}

#[test]
fn text_helpers() {
    assert_eq!(str_chars("héllo"), vec!['h', 'é', 'l', 'l', 'o']);
    assert!(chars_match(&chars("pawn"), "pawn"));
    assert!(!chars_match(&chars("pawn"), "pawns"));
    assert!(str_eq("abc", "abc"));
    assert!(!str_eq("abc", "abd"));
    let mut s = String::from("n=");
    push_decimal(&mut s, 0);
    push_decimal(&mut s, 4294967295);
    assert_eq!(s, "n=04294967295");
}

#[test]
fn error_type_names() {
    assert_eq!(ErrorType::Undefined.name(), "Undefined");
    assert_eq!(ErrorType::SaveLoad.name(), "Save/Load");
    assert_eq!(ErrorType::Assets.name(), "Assets");
}

#[test]
fn error_text_single() {
    let e = Error::new(ErrorType::Assets, "src/assets.rs", 42, String::from("Missing texture name"));
    assert_eq!(e.to_text(), "[ERROR][src/assets.rs:42] Assets - Missing texture name");
    assert!(e.inner.chained.is_none());
}

#[test]
fn error_merge_appends_newest_last() {
    let mut first = Error::new(ErrorType::Assets, "a.rs", 1, String::from("first"));
    let second = Error::new(ErrorType::SaveLoad, "b.rs", 2, String::from("second"));
    first.merge(second);
    assert_eq!(first.inner.message, "second");
    assert_eq!(first.to_text(), "[ERROR][a.rs:1] Assets - first\n[ERROR][b.rs:2] Save/Load - second");
}

#[test]
fn merge_error_fills_then_chains() {
    let mut slot: Option<Error> = None;
    merge_error(&mut slot, Error::new(ErrorType::Undefined, "x.rs", 7, String::from("one")));
    assert_eq!(slot.as_ref().unwrap().to_text(), "[ERROR][x.rs:7] Undefined - one");
    merge_error(&mut slot, Error::new(ErrorType::Undefined, "x.rs", 8, String::from("two")));
    merge_error(&mut slot, Error::new(ErrorType::Undefined, "x.rs", 9, String::from("three")));
    let text = slot.unwrap().to_text();
    assert_eq!(
        text,
        "[ERROR][x.rs:7] Undefined - one\n[ERROR][x.rs:8] Undefined - two\n[ERROR][x.rs:9] Undefined - three"
    );
}

#[test]
fn key_names() {
    assert!(matches!(Key::from_name("ControlLeft"), Some(Key::CtrlLeft)));
    assert!(Key::from_name("ShiftLeft").is_none());
    assert!(Key::from_name("").is_none());
}

#[test]
fn button_flip_settles() {
    let mut b = ButtonState::JustPressed;
    b.flip();
    assert!(matches!(b, ButtonState::Pressed));
    let mut b = ButtonState::JustReleased;
    b.flip();
    assert!(matches!(b, ButtonState::Released));
    let mut b = ButtonState::Pressed;
    b.flip();
    assert!(matches!(b, ButtonState::Pressed));
    assert!(ButtonState::JustPressed.pressed());
    assert!(ButtonState::Pressed.pressed());
    assert!(!ButtonState::Released.pressed());
    assert!(!ButtonState::JustReleased.pressed());
}

#[test]
fn mouse_button_ids() {
    assert!(matches!(MouseButton::from_u8(0), Ok(MouseButton::Left)));
    assert!(matches!(MouseButton::from_u8(1), Ok(MouseButton::Right)));
    assert!(matches!(MouseButton::from_u8(2), Ok(MouseButton::Center)));
    assert_eq!(MouseButton::Right.index(), 1);
    match MouseButton::from_u8(7) {
        Err(e) => {
            assert_eq!(e.inner.message, "7 is not a valid mouse button identifier");
            assert!(matches!(e.inner.ty, ErrorType::Undefined));
        }
        Ok(_) => panic!("7 is no mouse button"),
    }
}

#[test]
fn input_state_clicks() {
    let mut inputs = InputState::new();
    assert!(!inputs.left_mouse_clicked());
    inputs.update_mouse_buttons(MouseButton::Left, ButtonState::JustPressed);
    assert!(inputs.left_mouse_clicked());
    assert!(!inputs.right_mouse_clicked());
    assert!(matches!(inputs.mouse_button_state(MouseButton::Left), ButtonState::JustPressed));
    inputs.update_mouse_buttons(MouseButton::Right, ButtonState::JustPressed);
    assert!(inputs.right_mouse_clicked());
    inputs.update_keys(Key::CtrlLeft, ButtonState::JustPressed);
    assert!(matches!(inputs.left_ctrl, ButtonState::JustPressed));
}

#[test]
fn flags_are_independent() {
    let mut f = DemoGameFlags::default();
    f.set_update_animations();
    f.set_sync_terrain();
    assert!(f.get_update_animations());
    assert!(!f.get_sync_view());
    assert!(f.get_sync_terrain());
    f.clear_update_animations();
    assert!(!f.get_update_animations());
    assert!(f.get_sync_terrain());
    f.set_sync_view();
    f.clear_sync_terrain();
    assert!(f.get_sync_view());
    assert!(!f.get_sync_terrain());
    assert_eq!(f.inner, 0b0010);
    f.clear_sync_view();
    assert_eq!(f.inner, 0);
}
