use fluster::pointer::{MOUSE_BACK, MOUSE_MIDDLE, MOUSE_PRIMARY, MOUSE_SECONDARY, TOUCH_CONTACT};
use fluster::PointerButtons;

#[test]
fn empty_set_holds_nothing() {
    let b = PointerButtons::empty();
    assert!(b.is_empty());
    assert_eq!(i64::from(b), 0);
}

#[test]
fn press_adds_bits() {
    let mut b = PointerButtons::empty();
    b.press(PointerButtons::from(MOUSE_PRIMARY));
    b.press(PointerButtons::from(MOUSE_MIDDLE));
    assert_eq!(i64::from(b), 5);
    assert!(!b.is_empty());
    b.press(PointerButtons::from(MOUSE_PRIMARY));
    assert_eq!(i64::from(b), 5);
}

#[test]
fn release_clears_only_its_bits() {
    let mut b = PointerButtons::from(MOUSE_PRIMARY | MOUSE_SECONDARY | MOUSE_BACK);
    b.release(PointerButtons::from(MOUSE_SECONDARY));
    assert_eq!(i64::from(b), MOUSE_PRIMARY | MOUSE_BACK);
    b.release(PointerButtons::from(MOUSE_PRIMARY | MOUSE_BACK));
    assert!(b.is_empty());
}

#[test]
fn press_then_release_restores_empty() {
    let mut b = PointerButtons::empty();
    b.press(PointerButtons::from(TOUCH_CONTACT));
    b.release(PointerButtons::from(TOUCH_CONTACT));
    assert!(b.is_empty());
}

#[test]
fn bits_round_trip() {
    for bits in [0i64, 1, 31, -1, i64::MAX, i64::MIN] {
        assert_eq!(i64::from(PointerButtons::from(bits)), bits);
    }
}
