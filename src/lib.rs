//! Orchestration of fingerprint enroll and verify sessions against a device
//! service: the finger vocabulary, the classification of status codes, and
//! the session state machine that decides every remote call and the single
//! outcome of a session.

pub mod text;
pub mod finger;
pub mod classify;
pub mod session;
pub mod trace;

pub use classify::{classify, is_retry_code, retry_codes_of, success_code_of, OperationKind, Verdict};
pub use finger::{finger_icon, FingerName};
pub use session::{Action, Event, Outcome, Phase, Session};
