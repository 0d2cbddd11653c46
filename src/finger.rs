//! The fixed vocabulary of finger names that the device service accepts.

use vstd::prelude::*;
use crate::text::str_eq;

verus! {

/// One of the ten fingers a template can be enrolled under.
#[derive(Clone, Copy, Debug, PartialEq, Eq, Structural)]
pub enum FingerName {
    LeftThumb,
    LeftIndexFinger,
    LeftMiddleFinger,
    LeftRingFinger,
    LeftLittleFinger,
    RightThumb,
    RightIndexFinger,
    RightMiddleFinger,
    RightRingFinger,
    RightLittleFinger,
}

/// The wire token of a finger.
pub open spec fn finger_token(f: FingerName) -> Seq<char> {
    match f {
        FingerName::LeftThumb => "left-thumb"@,
        FingerName::LeftIndexFinger => "left-index-finger"@,
        FingerName::LeftMiddleFinger => "left-middle-finger"@,
        FingerName::LeftRingFinger => "left-ring-finger"@,
        FingerName::LeftLittleFinger => "left-little-finger"@,
        FingerName::RightThumb => "right-thumb"@,
        FingerName::RightIndexFinger => "right-index-finger"@,
        FingerName::RightMiddleFinger => "right-middle-finger"@,
        FingerName::RightRingFinger => "right-ring-finger"@,
        FingerName::RightLittleFinger => "right-little-finger"@,
    }
}

/// The finger whose token is `s`, if any.
pub open spec fn finger_of(s: Seq<char>) -> Option<FingerName> {
    if exists|f: FingerName| finger_token(f) == s {
        Some(choose|f: FingerName| finger_token(f) == s)
    } else {
        None
    }
}

/// All fingers, left hand first, thumb to little finger.
pub open spec fn finger_order() -> Seq<FingerName> {
    seq![
        FingerName::LeftThumb,
        FingerName::LeftIndexFinger,
        FingerName::LeftMiddleFinger,
        FingerName::LeftRingFinger,
        FingerName::LeftLittleFinger,
        FingerName::RightThumb,
        FingerName::RightIndexFinger,
        FingerName::RightMiddleFinger,
        FingerName::RightRingFinger,
        FingerName::RightLittleFinger,
    ]
}

/// The icon shown beside a finger token; tokens outside the vocabulary get a
/// question mark.
pub open spec fn icon_for(s: Seq<char>) -> Seq<char> {
    match finger_of(s) {
        Some(f) => match f {
            FingerName::LeftThumb | FingerName::RightThumb => "input-touchpad-symbolic"@,
            FingerName::LeftIndexFinger | FingerName::RightIndexFinger => "input-mouse-symbolic"@,
            FingerName::LeftMiddleFinger
            | FingerName::RightMiddleFinger => "input-keyboard-symbolic"@,
            FingerName::LeftRingFinger | FingerName::RightRingFinger => "input-tablet-symbolic"@,
            FingerName::LeftLittleFinger
            | FingerName::RightLittleFinger => "input-gaming-symbolic"@,
        },
        None => "dialog-question-symbolic"@,
    }
}

/// No two fingers share a token.
pub proof fn lemma_tokens_distinct(f: FingerName, g: FingerName)
    ensures
        finger_token(f) == finger_token(g) ==> f == g,
{
    reveal_strlit("left-thumb");
    reveal_strlit("left-index-finger");
    reveal_strlit("left-middle-finger");
    reveal_strlit("left-ring-finger");
    reveal_strlit("left-little-finger");
    reveal_strlit("right-thumb");
    reveal_strlit("right-index-finger");
    reveal_strlit("right-middle-finger");
    reveal_strlit("right-ring-finger");
    reveal_strlit("right-little-finger");
    if finger_token(f) == finger_token(g) && f != g {
        let a = finger_token(f);
        let b = finger_token(g);
        assert(a.len() == b.len());
        assert(a[0] == b[0]);
        assert(a[5] == b[5]);
        assert(a[6] == b[6]);
        assert(a[7] == b[7]);
    }
}

/// Reading a finger's token gives the finger back.
pub proof fn lemma_token_round_trip(f: FingerName)
    ensures
        finger_of(finger_token(f)) == Some(f),
{
    assert(exists|g: FingerName| finger_token(g) == finger_token(f));
    let g = choose|g: FingerName| finger_token(g) == finger_token(f);
    lemma_tokens_distinct(f, g);
}

impl FingerName {
    /// The wire token of this finger, as the device service spells it.
    pub fn as_str(&self) -> (r: &'static str)
        ensures
            r@ == finger_token(*self),
    {
        match self {
            FingerName::LeftThumb => "left-thumb",
            FingerName::LeftIndexFinger => "left-index-finger",
            FingerName::LeftMiddleFinger => "left-middle-finger",
            FingerName::LeftRingFinger => "left-ring-finger",
            FingerName::LeftLittleFinger => "left-little-finger",
            FingerName::RightThumb => "right-thumb",
            FingerName::RightIndexFinger => "right-index-finger",
            FingerName::RightMiddleFinger => "right-middle-finger",
            FingerName::RightRingFinger => "right-ring-finger",
            FingerName::RightLittleFinger => "right-little-finger",
        }
    }

    /// The finger named by `s`; `None` for any text outside the vocabulary.
    pub fn parse(s: &str) -> (r: Option<FingerName>)
        ensures
            r == finger_of(s@),
    {
        let all = FingerName::all();
        let mut i: usize = 0;
        while i < all.len()
            invariant
                all@ == finger_order(),
                i <= all@.len(),
                forall|j: int| 0 <= j < i ==> finger_token(#[trigger] all@[j]) != s@,
            decreases all@.len() - i,
        {
            let f = all[i];
            if str_eq(f.as_str(), s) {
                proof {
                    lemma_token_round_trip(f);
                }
                return Some(f);
            }
            i = i + 1;
        }
        assert forall|f: FingerName| finger_token(f) != s@ by {
            assert(finger_order().contains(f)) by {
                match f {
                    FingerName::LeftThumb => assert(finger_order()[0] == f),
                    FingerName::LeftIndexFinger => assert(finger_order()[1] == f),
                    FingerName::LeftMiddleFinger => assert(finger_order()[2] == f),
                    FingerName::LeftRingFinger => assert(finger_order()[3] == f),
                    FingerName::LeftLittleFinger => assert(finger_order()[4] == f),
                    FingerName::RightThumb => assert(finger_order()[5] == f),
                    FingerName::RightIndexFinger => assert(finger_order()[6] == f),
                    FingerName::RightMiddleFinger => assert(finger_order()[7] == f),
                    FingerName::RightRingFinger => assert(finger_order()[8] == f),
                    FingerName::RightLittleFinger => assert(finger_order()[9] == f),
                }
            }
        }
        None
    }

    /// Every finger, in the order a selector lists them.
    pub fn all() -> (r: Vec<FingerName>)
        ensures
            r@ == finger_order(),
    {
        let r = vec![
            FingerName::LeftThumb,
            FingerName::LeftIndexFinger,
            FingerName::LeftMiddleFinger,
            FingerName::LeftRingFinger,
            FingerName::LeftLittleFinger,
            FingerName::RightThumb,
            FingerName::RightIndexFinger,
            FingerName::RightMiddleFinger,
            FingerName::RightRingFinger,
            FingerName::RightLittleFinger,
        ];
        assert(r@ =~= finger_order());
        r
    }
}

/// The icon name for a finger token; `"dialog-question-symbolic"` for text
/// that names no finger.
pub fn finger_icon(finger: &str) -> (r: &'static str)
    ensures
        r@ == icon_for(finger@),
{
    match FingerName::parse(finger) {
        Some(FingerName::LeftThumb) | Some(FingerName::RightThumb) => "input-touchpad-symbolic",
        Some(FingerName::LeftIndexFinger) | Some(FingerName::RightIndexFinger) => "input-mouse-symbolic",
        Some(FingerName::LeftMiddleFinger)
        | Some(FingerName::RightMiddleFinger) => "input-keyboard-symbolic",
        Some(FingerName::LeftRingFinger) | Some(FingerName::RightRingFinger) => "input-tablet-symbolic",
        Some(FingerName::LeftLittleFinger)
        | Some(FingerName::RightLittleFinger) => "input-gaming-symbolic",
        None => "dialog-question-symbolic",
    }
}

} // verus!
