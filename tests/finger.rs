use fprintui::{finger_icon, FingerName};

const TOKENS: [&str; 10] = [
    "left-thumb",
    "left-index-finger",
    "left-middle-finger",
    "left-ring-finger",
    "left-little-finger",
    "right-thumb",
    "right-index-finger",
    "right-middle-finger",
    "right-ring-finger",
    "right-little-finger",
];

#[test]
fn all_fingers_in_selector_order() {
    let all = FingerName::all();
    assert_eq!(all.len(), 10);
    for (f, t) in all.iter().zip(TOKENS.iter()) {
        assert_eq!(f.as_str(), *t);
    }
    assert_eq!(all[0], FingerName::LeftThumb);
    assert_eq!(all[9], FingerName::RightLittleFinger);
}

#[test]
fn every_token_parses_back() {
    for f in FingerName::all() {
        assert_eq!(FingerName::parse(f.as_str()), Some(f));
    }
    assert_eq!(FingerName::parse("right-ring-finger"), Some(FingerName::RightRingFinger));
}

#[test]
fn unknown_tokens_are_rejected() {
    assert_eq!(FingerName::parse(""), None);
    assert_eq!(FingerName::parse("left-toe"), None);
    assert_eq!(FingerName::parse("Left-Thumb"), None);
    assert_eq!(FingerName::parse("left-thumb "), None);
    assert_eq!(FingerName::parse("left"), None);
}

#[test]
fn icons_follow_the_finger() {
    assert_eq!(finger_icon("left-thumb"), "input-touchpad-symbolic");
    assert_eq!(finger_icon("right-thumb"), "input-touchpad-symbolic");
    assert_eq!(finger_icon("left-index-finger"), "input-mouse-symbolic");
    assert_eq!(finger_icon("right-middle-finger"), "input-keyboard-symbolic");
    assert_eq!(finger_icon("left-ring-finger"), "input-tablet-symbolic");
    assert_eq!(finger_icon("right-little-finger"), "input-gaming-symbolic");
}

#[test]
fn unknown_finger_gets_question_icon() {
    assert_eq!(finger_icon("nose"), "dialog-question-symbolic");
    assert_eq!(finger_icon(""), "dialog-question-symbolic");
}
