//! The per-operation table of status codes: which code ends an operation in
//! success, which codes only ask the user to scan again, and the pure
//! classification of one status event against it.

use vstd::prelude::*;
use crate::text::str_eq;

verus! {

/// The two operations a session can run.
#[derive(Clone, Copy, Debug, PartialEq, Eq, Structural)]
pub enum OperationKind {
    Enroll,
    Verify,
}

/// What one status event means for the listening loop.
#[derive(Debug, PartialEq, Eq)]
pub enum Verdict {
    /// Keep listening.
    Continue,
    /// The operation succeeded.
    Success,
    /// The operation ended with this result code, kept verbatim.
    Failure(String),
}

/// The code that ends an operation of `kind` in success.
pub open spec fn success_code(kind: OperationKind) -> Seq<char> {
    match kind {
        OperationKind::Enroll => "enroll-completed"@,
        OperationKind::Verify => "verify-match"@,
    }
}

/// The codes that, even when marked done, ask for another scan.
pub open spec fn retry_codes(kind: OperationKind) -> Set<Seq<char>> {
    match kind {
        OperationKind::Enroll => set![
            "enroll-stage-passed"@,
            "enroll-retry-scan"@,
            "enroll-swipe-too-short"@,
            "enroll-finger-not-centered"@,
            "enroll-remove-and-retry"@,
        ],
        OperationKind::Verify => set![
            "verify-retry-scan"@,
            "verify-swipe-too-short"@,
            "verify-finger-not-centered"@,
            "verify-remove-and-retry"@,
        ],
    }
}

/// Whether an event with `code` and `done` ends the listening loop.
pub open spec fn is_terminal(kind: OperationKind, code: Seq<char>, done: bool) -> bool {
    done && !retry_codes(kind).contains(code)
}

/// The meaning of one status event, as a verdict over character sequences.
pub enum VerdictModel {
    Continue,
    Success,
    Failure(Seq<char>),
}

pub open spec fn classify_model(kind: OperationKind, code: Seq<char>, done: bool) -> VerdictModel {
    if !done {
        VerdictModel::Continue
    } else if code == success_code(kind) {
        VerdictModel::Success
    } else if retry_codes(kind).contains(code) {
        VerdictModel::Continue
    } else {
        VerdictModel::Failure(code)
    }
}

impl Verdict {
    pub open spec fn model(&self) -> VerdictModel {
        match self {
            Verdict::Continue => VerdictModel::Continue,
            Verdict::Success => VerdictModel::Success,
            Verdict::Failure(c) => VerdictModel::Failure(c@),
        }
    }
}

/// The success code is never a retry code, so a terminal verdict is exactly
/// a done event outside the retry set.
pub proof fn lemma_success_not_retry(kind: OperationKind)
    ensures
        !retry_codes(kind).contains(success_code(kind)),
{
    reveal_strlit("enroll-completed");
    reveal_strlit("enroll-stage-passed");
    reveal_strlit("enroll-retry-scan");
    reveal_strlit("enroll-swipe-too-short");
    reveal_strlit("enroll-finger-not-centered");
    reveal_strlit("enroll-remove-and-retry");
    reveal_strlit("verify-match");
    reveal_strlit("verify-retry-scan");
    reveal_strlit("verify-swipe-too-short");
    reveal_strlit("verify-finger-not-centered");
    reveal_strlit("verify-remove-and-retry");
    let s = success_code(kind);
    match kind {
        OperationKind::Enroll => {
            assert(s[7] != "enroll-stage-passed"@[7]);
            assert(s[7] != "enroll-retry-scan"@[7]);
            assert(s[7] != "enroll-swipe-too-short"@[7]);
            assert(s[7] != "enroll-finger-not-centered"@[7]);
            assert(s[7] != "enroll-remove-and-retry"@[7]);
        },
        OperationKind::Verify => {
            assert(s[7] != "verify-retry-scan"@[7]);
            assert(s[7] != "verify-swipe-too-short"@[7]);
            assert(s[7] != "verify-finger-not-centered"@[7]);
            assert(s[7] != "verify-remove-and-retry"@[7]);
        },
    }
}

/// The success code of `kind`.
pub fn success_code_of(kind: OperationKind) -> (r: &'static str)
    ensures
        r@ == success_code(kind),
{
    match kind {
        OperationKind::Enroll => "enroll-completed",
        OperationKind::Verify => "verify-match",
    }
}

/// The retry codes of `kind`, each once.
pub fn retry_codes_of(kind: OperationKind) -> (r: Vec<&'static str>)
    ensures
        forall|c: Seq<char>| retry_codes(kind).contains(c) <==> exists|i: int|
            0 <= i < r@.len() && (#[trigger] r@[i])@ == c,
{
    let r = match kind {
        OperationKind::Enroll => vec![
            "enroll-stage-passed",
            "enroll-retry-scan",
            "enroll-swipe-too-short",
            "enroll-finger-not-centered",
            "enroll-remove-and-retry",
        ],
        OperationKind::Verify => vec![
            "verify-retry-scan",
            "verify-swipe-too-short",
            "verify-finger-not-centered",
            "verify-remove-and-retry",
        ],
    };
    assert forall|c: Seq<char>| retry_codes(kind).contains(c) implies exists|i: int|
        0 <= i < r@.len() && (#[trigger] r@[i])@ == c by {
        if c == r@[0]@ {
        } else if c == r@[1]@ {
            assert(r@[1]@ == c);
        } else if c == r@[2]@ {
            assert(r@[2]@ == c);
        } else if c == r@[3]@ {
            assert(r@[3]@ == c);
        } else {
            assert(r@[4]@ == c);
        }
    }
    r
}

/// Whether `code` is one of the retry codes of `kind`.
pub fn is_retry_code(kind: OperationKind, code: &str) -> (r: bool)
    ensures
        r == retry_codes(kind).contains(code@),
{
    let codes = retry_codes_of(kind);
    let mut i: usize = 0;
    while i < codes.len()
        invariant
            forall|c: Seq<char>| retry_codes(kind).contains(c) <==> exists|k: int|
                0 <= k < codes@.len() && (#[trigger] codes@[k])@ == c,
            i <= codes@.len(),
            forall|k: int| 0 <= k < i ==> (#[trigger] codes@[k])@ != code@,
        decreases codes@.len() - i,
    {
        if str_eq(codes[i], code) {
            return true;
        }
        i = i + 1;
    }
    false
}

/// Classifies one status event of an operation of `kind`: progress and retry
/// codes continue, the success code succeeds, and any other done event fails
/// with its code unchanged.
pub fn classify(kind: OperationKind, code: &str, done: bool) -> (r: Verdict)
    ensures
        r.model() == classify_model(kind, code@, done),
{
    if !done {
        Verdict::Continue
    } else if str_eq(code, success_code_of(kind)) {
        Verdict::Success
    } else if is_retry_code(kind, code) {
        Verdict::Continue
    } else {
        Verdict::Failure(code.to_owned())
    }
}

} // verus!
