//! The session state machine. It decides every remote call of one enroll or
//! verify session and the session's single outcome; whoever runs it performs
//! each returned action and feeds back what came of it as an event.
//!
//! Phases run `Idle → Claiming → Starting → Listening → Stopping → Releasing →
//! Done`. Release is asked for exactly when the claim succeeded, stop exactly
//! when the start succeeded, and the outcome is handed out once, on reaching
//! `Done`.

use vstd::prelude::*;
use crate::classify::{classify, classify_model, OperationKind, Verdict, VerdictModel};
use crate::finger::{finger_of, FingerName};

verus! {

/// The final disposition of a session.
#[derive(Debug, PartialEq, Eq)]
pub enum Outcome {
    Success,
    /// The remote code or error that ended the session, unchanged.
    Failure(String),
    Cancelled,
}

pub enum OutcomeModel {
    Success,
    Failure(Seq<char>),
    Cancelled,
}

impl Outcome {
    pub open spec fn model(&self) -> OutcomeModel {
        match self {
            Outcome::Success => OutcomeModel::Success,
            Outcome::Failure(c) => OutcomeModel::Failure(c@),
            Outcome::Cancelled => OutcomeModel::Cancelled,
        }
    }

    /// A copy of this outcome.
    pub fn duplicate(&self) -> (r: Outcome)
        ensures
            r.model() == self.model(),
    {
        match self {
            Outcome::Success => Outcome::Success,
            Outcome::Failure(c) => Outcome::Failure(c.clone()),
            Outcome::Cancelled => Outcome::Cancelled,
        }
    }
}

/// Where a session stands.
#[derive(Clone, Copy, Debug, PartialEq, Eq, Structural)]
pub enum Phase {
    Idle,
    /// The claim call is in flight.
    Claiming,
    /// The start call is in flight; the status subscription is open.
    Starting,
    /// Status events are being consumed.
    Listening,
    /// The stop call is in flight.
    Stopping,
    /// The release call is in flight.
    Releasing,
    /// The outcome has been handed out.
    Done,
}

/// What the runner of a session reports back.
#[derive(Debug, PartialEq, Eq)]
pub enum Event {
    /// The claim call returned success.
    ClaimOk,
    /// The claim call failed with this error.
    ClaimFailed(String),
    /// The start call returned success.
    StartOk,
    /// Subscribing or the start call failed with this error.
    StartFailed(String),
    /// A status event of the running operation.
    Status { code: String, done: bool },
    /// The stop call returned, with success or not.
    StopFinished,
    /// The release call returned, with success or not.
    ReleaseFinished,
    /// The user asked to cancel.
    Cancel,
}

pub enum EventModel {
    ClaimOk,
    ClaimFailed(Seq<char>),
    StartOk,
    StartFailed(Seq<char>),
    Status(Seq<char>, bool),
    StopFinished,
    ReleaseFinished,
    Cancel,
}

impl Event {
    pub open spec fn model(&self) -> EventModel {
        match self {
            Event::ClaimOk => EventModel::ClaimOk,
            Event::ClaimFailed(e) => EventModel::ClaimFailed(e@),
            Event::StartOk => EventModel::StartOk,
            Event::StartFailed(e) => EventModel::StartFailed(e@),
            Event::Status { code, done } => EventModel::Status(code@, *done),
            Event::StopFinished => EventModel::StopFinished,
            Event::ReleaseFinished => EventModel::ReleaseFinished,
            Event::Cancel => EventModel::Cancel,
        }
    }
}

/// What the runner of a session must do next.
#[derive(Debug, PartialEq, Eq)]
pub enum Action {
    /// Claim the device for the current user.
    Claim,
    /// Subscribe to the status events of the operation, then start it on the
    /// finger.
    Start(OperationKind, FingerName),
    /// Wait for the next status event, or a cancel request.
    Listen,
    /// Stop the operation.
    Stop(OperationKind),
    /// Release the device.
    Release,
    /// Hand this outcome to the caller; the session is over.
    Deliver(Outcome),
    /// Nothing: the event did not apply to the phase.
    Nothing,
}

pub enum ActionModel {
    Claim,
    Start(OperationKind, FingerName),
    Listen,
    Stop(OperationKind),
    Release,
    Deliver(OutcomeModel),
    Nothing,
}

impl Action {
    pub open spec fn model(&self) -> ActionModel {
        match self {
            Action::Claim => ActionModel::Claim,
            Action::Start(k, f) => ActionModel::Start(*k, *f),
            Action::Listen => ActionModel::Listen,
            Action::Stop(k) => ActionModel::Stop(*k),
            Action::Release => ActionModel::Release,
            Action::Deliver(o) => ActionModel::Deliver(o.model()),
            Action::Nothing => ActionModel::Nothing,
        }
    }
}

/// What a session has done so far: whether its claim and its start
/// succeeded, and how often it asked for a stop, a release and a delivery.
pub struct History {
    pub claim_ok: bool,
    pub start_ok: bool,
    pub stops: nat,
    pub releases: nat,
    pub deliveries: nat,
}

/// A session as a mathematical value.
pub struct SessionModel {
    pub kind: OperationKind,
    pub finger: FingerName,
    pub phase: Phase,
    pub claimed: bool,
    pub started: bool,
    pub outcome: Option<OutcomeModel>,
    pub history: History,
}

pub open spec fn counted(b: bool) -> nat {
    if b { 1 } else { 0 }
}

impl SessionModel {
    /// The session before anything has been asked of the device.
    pub open spec fn initial(kind: OperationKind, finger: FingerName) -> SessionModel {
        SessionModel {
            kind,
            finger,
            phase: Phase::Idle,
            claimed: false,
            started: false,
            outcome: None,
            history: History { claim_ok: false, start_ok: false, stops: 0, releases: 0, deliveries: 0 },
        }
    }

    /// The session once its claim has been asked for.
    pub open spec fn claiming(kind: OperationKind, finger: FingerName) -> SessionModel {
        SessionModel { phase: Phase::Claiming, ..SessionModel::initial(kind, finger) }
    }

    pub open spec fn undecided_or_cancelled(self) -> bool {
        self.outcome is None || self.outcome == Some(OutcomeModel::Cancelled)
    }

    /// The relation between phase, flags, outcome and history that every
    /// reachable session keeps.
    pub open spec fn wf(self) -> bool {
        let h = self.history;
        &&& h.start_ok ==> h.claim_ok
        &&& match self.phase {
            Phase::Idle => !self.claimed && !self.started && self.outcome is None && !h.claim_ok
                && h.stops == 0 && h.releases == 0 && h.deliveries == 0,
            Phase::Claiming => !self.claimed && !self.started && self.undecided_or_cancelled()
                && !h.claim_ok && h.stops == 0 && h.releases == 0 && h.deliveries == 0,
            Phase::Starting => self.claimed && !self.started && self.undecided_or_cancelled()
                && h.claim_ok && !h.start_ok && h.stops == 0 && h.releases == 0 && h.deliveries
                == 0,
            Phase::Listening => self.claimed && self.started && self.outcome is None && h.start_ok
                && h.stops == 0 && h.releases == 0 && h.deliveries == 0,
            Phase::Stopping => self.claimed && self.started && self.outcome is Some && h.start_ok
                && h.stops == 1 && h.releases == 0 && h.deliveries == 0,
            Phase::Releasing => self.claimed && !self.started && self.outcome is Some && h.claim_ok
                && h.stops == counted(h.start_ok) && h.releases == 1 && h.deliveries == 0,
            Phase::Done => !self.claimed && !self.started && self.outcome is Some && h.stops
                == counted(h.start_ok) && h.releases == counted(h.claim_ok) && h.deliveries == 1,
        }
    }

    pub open spec fn with_phase(self, phase: Phase) -> SessionModel {
        SessionModel { phase, ..self }
    }

    pub open spec fn with_outcome(self, o: OutcomeModel) -> SessionModel {
        SessionModel { outcome: Some(o), ..self }
    }

    /// Enter `Stopping` and ask for the stop.
    pub open spec fn to_stopping(self) -> (SessionModel, ActionModel) {
        (
            SessionModel {
                phase: Phase::Stopping,
                history: History { stops: self.history.stops + 1, ..self.history },
                ..self
            },
            ActionModel::Stop(self.kind),
        )
    }

    /// Enter `Releasing` and ask for the release.
    pub open spec fn to_releasing(self) -> (SessionModel, ActionModel) {
        (
            SessionModel {
                phase: Phase::Releasing,
                history: History { releases: self.history.releases + 1, ..self.history },
                ..self
            },
            ActionModel::Release,
        )
    }

    /// Enter `Done` and hand out the outcome.
    pub open spec fn to_done(self) -> (SessionModel, ActionModel) {
        (
            SessionModel {
                phase: Phase::Done,
                history: History { deliveries: self.history.deliveries + 1, ..self.history },
                ..self
            },
            ActionModel::Deliver(self.outcome->Some_0),
        )
    }

    /// The session and the action that follow `begin`.
    pub open spec fn begin_step(self) -> (SessionModel, ActionModel) {
        if self.phase == Phase::Idle {
            (self.with_phase(Phase::Claiming), ActionModel::Claim)
        } else {
            (self, ActionModel::Nothing)
        }
    }

    /// The session and the action that follow event `e`.
    pub open spec fn next(self, e: EventModel) -> (SessionModel, ActionModel) {
        let unchanged = (self, ActionModel::Nothing);
        match self.phase {
            Phase::Claiming => match e {
                EventModel::ClaimOk => {
                    let s = SessionModel {
                        claimed: true,
                        history: History { claim_ok: true, ..self.history },
                        ..self
                    };
                    if self.outcome is None {
                        (s.with_phase(Phase::Starting), ActionModel::Start(self.kind, self.finger))
                    } else {
                        s.to_releasing()
                    }
                },
                EventModel::ClaimFailed(c) => if self.outcome is None {
                    self.with_outcome(OutcomeModel::Failure(c)).to_done()
                } else {
                    self.to_done()
                },
                EventModel::Cancel => if self.outcome is None {
                    (self.with_outcome(OutcomeModel::Cancelled), ActionModel::Nothing)
                } else {
                    unchanged
                },
                _ => unchanged,
            },
            Phase::Starting => match e {
                EventModel::StartOk => {
                    let s = SessionModel {
                        started: true,
                        history: History { start_ok: true, ..self.history },
                        ..self
                    };
                    if self.outcome is None {
                        (s.with_phase(Phase::Listening), ActionModel::Listen)
                    } else {
                        s.to_stopping()
                    }
                },
                EventModel::StartFailed(c) => if self.outcome is None {
                    self.with_outcome(OutcomeModel::Failure(c)).to_releasing()
                } else {
                    self.to_releasing()
                },
                EventModel::Cancel => if self.outcome is None {
                    (self.with_outcome(OutcomeModel::Cancelled), ActionModel::Nothing)
                } else {
                    unchanged
                },
                _ => unchanged,
            },
            Phase::Listening => match e {
                EventModel::Status(code, done) => match classify_model(self.kind, code, done) {
                    VerdictModel::Continue => (self, ActionModel::Listen),
                    VerdictModel::Success => self.with_outcome(OutcomeModel::Success).to_stopping(),
                    VerdictModel::Failure(c) => self.with_outcome(
                        OutcomeModel::Failure(c),
                    ).to_stopping(),
                },
                EventModel::Cancel => self.with_outcome(OutcomeModel::Cancelled).to_stopping(),
                _ => unchanged,
            },
            Phase::Stopping => match e {
                EventModel::StopFinished => SessionModel {
                    started: false,
                    ..self
                }.to_releasing(),
                _ => unchanged,
            },
            Phase::Releasing => match e {
                EventModel::ReleaseFinished => SessionModel { claimed: false, ..self }.to_done(),
                _ => unchanged,
            },
            _ => unchanged,
        }
    }
}

/// Every step keeps a session well formed.
pub proof fn lemma_next_wf(m: SessionModel, e: EventModel)
    requires
        m.wf(),
    ensures
        m.next(e).0.wf(),
        m.begin_step().0.wf(),
{
}

/// One enroll or verify session against one device.
pub struct Session {
    kind: OperationKind,
    finger: FingerName,
    phase: Phase,
    claimed: bool,
    started: bool,
    outcome: Option<Outcome>,
    history: Ghost<History>,
}

impl Session {
    pub closed spec fn view(&self) -> SessionModel {
        SessionModel {
            kind: self.kind,
            finger: self.finger,
            phase: self.phase,
            claimed: self.claimed,
            started: self.started,
            outcome: match self.outcome {
                Some(o) => Some(o.model()),
                None => None,
            },
            history: self.history@,
        }
    }

    pub open spec fn wf(&self) -> bool {
        self@.wf()
    }

    /// A session for `kind` on `finger` that has asked nothing yet.
    pub fn new(kind: OperationKind, finger: FingerName) -> (s: Session)
        ensures
            s@ == SessionModel::initial(kind, finger),
            s.wf(),
    {
        Session {
            kind,
            finger,
            phase: Phase::Idle,
            claimed: false,
            started: false,
            outcome: None,
            history: Ghost(
                History { claim_ok: false, start_ok: false, stops: 0, releases: 0, deliveries: 0 },
            ),
        }
    }

    /// A session for `kind` on the finger named by `finger`; `None`, before
    /// any remote call, when the text names no finger.
    pub fn open(kind: OperationKind, finger: &str) -> (r: Option<Session>)
        ensures
            r is Some <==> finger_of(finger@) is Some,
            r is Some ==> r->Some_0.wf() && r->Some_0@ == SessionModel::initial(
                kind,
                finger_of(finger@)->Some_0,
            ),
    {
        match FingerName::parse(finger) {
            Some(f) => Some(Session::new(kind, f)),
            None => None,
        }
    }

    /// The operation this session runs.
    pub fn kind(&self) -> (r: OperationKind)
        ensures
            r == self@.kind,
    {
        self.kind
    }

    /// The finger this session runs on.
    pub fn finger(&self) -> (r: FingerName)
        ensures
            r == self@.finger,
    {
        self.finger
    }

    /// The current phase.
    pub fn phase(&self) -> (r: Phase)
        ensures
            r == self@.phase,
    {
        self.phase
    }

    /// Whether the device is held: the claim succeeded and no release was
    /// asked for since.
    pub fn is_claimed(&self) -> (r: bool)
        ensures
            r == self@.claimed,
    {
        self.claimed
    }

    /// Whether the operation runs: the start succeeded and no stop was asked
    /// for since.
    pub fn is_started(&self) -> (r: bool)
        ensures
            r == self@.started,
    {
        self.started
    }

    /// The outcome, once it is fixed.
    pub fn outcome(&self) -> (r: Option<Outcome>)
        ensures
            r is Some <==> self@.outcome is Some,
            r is Some ==> self@.outcome == Some(r->Some_0.model()),
    {
        match &self.outcome {
            Some(o) => Some(o.duplicate()),
            None => None,
        }
    }

    /// Starts the session: an idle session asks for the claim; any other does
    /// nothing.
    pub fn begin(&mut self) -> (a: Action)
        requires
            old(self).wf(),
        ensures
            final(self).wf(),
            (final(self)@, a.model()) == old(self)@.begin_step(),
    {
        if self.phase == Phase::Idle {
            self.phase = Phase::Claiming;
            Action::Claim
        } else {
            Action::Nothing
        }
    }

    fn enter_stopping(&mut self) -> (a: Action)
        ensures
            (final(self)@, a.model()) == old(self)@.to_stopping(),
    {
        self.phase = Phase::Stopping;
        self.history = Ghost(History { stops: self.history@.stops + 1, ..self.history@ });
        Action::Stop(self.kind)
    }

    fn enter_releasing(&mut self) -> (a: Action)
        ensures
            (final(self)@, a.model()) == old(self)@.to_releasing(),
    {
        self.phase = Phase::Releasing;
        self.history = Ghost(History { releases: self.history@.releases + 1, ..self.history@ });
        Action::Release
    }

    fn enter_done(&mut self) -> (a: Action)
        requires
            old(self).outcome is Some,
        ensures
            (final(self)@, a.model()) == old(self)@.to_done(),
    {
        self.phase = Phase::Done;
        self.history = Ghost(History { deliveries: self.history@.deliveries + 1, ..self.history@ });
        match &self.outcome {
            Some(o) => Action::Deliver(o.duplicate()),
            None => Action::Nothing,
        }
    }

    /// Takes in what came of the last action, or a cancel request, and says
    /// what to do next. Events that do not apply to the current phase change
    /// nothing.
    pub fn handle(&mut self, ev: Event) -> (a: Action)
        requires
            old(self).wf(),
        ensures
            final(self).wf(),
            (final(self)@, a.model()) == old(self)@.next(ev.model()),
    {
        proof {
            lemma_next_wf(self@, ev.model());
        }
        match self.phase {
            Phase::Claiming => match ev {
                Event::ClaimOk => {
                    self.claimed = true;
                    self.history = Ghost(History { claim_ok: true, ..self.history@ });
                    if self.outcome.is_none() {
                        self.phase = Phase::Starting;
                        Action::Start(self.kind, self.finger)
                    } else {
                        self.enter_releasing()
                    }
                },
                Event::ClaimFailed(c) => {
                    if self.outcome.is_none() {
                        self.outcome = Some(Outcome::Failure(c));
                    }
                    self.enter_done()
                },
                Event::Cancel => {
                    if self.outcome.is_none() {
                        self.outcome = Some(Outcome::Cancelled);
                    }
                    Action::Nothing
                },
                _ => Action::Nothing,
            },
            Phase::Starting => match ev {
                Event::StartOk => {
                    self.started = true;
                    self.history = Ghost(History { start_ok: true, ..self.history@ });
                    if self.outcome.is_none() {
                        self.phase = Phase::Listening;
                        Action::Listen
                    } else {
                        self.enter_stopping()
                    }
                },
                Event::StartFailed(c) => {
                    if self.outcome.is_none() {
                        self.outcome = Some(Outcome::Failure(c));
                    }
                    self.enter_releasing()
                },
                Event::Cancel => {
                    if self.outcome.is_none() {
                        self.outcome = Some(Outcome::Cancelled);
                    }
                    Action::Nothing
                },
                _ => Action::Nothing,
            },
            Phase::Listening => match ev {
                Event::Status { code, done } => match classify(self.kind, code.as_str(), done) {
                    Verdict::Continue => Action::Listen,
                    Verdict::Success => {
                        self.outcome = Some(Outcome::Success);
                        self.enter_stopping()
                    },
                    Verdict::Failure(c) => {
                        self.outcome = Some(Outcome::Failure(c));
                        self.enter_stopping()
                    },
                },
                Event::Cancel => {
                    self.outcome = Some(Outcome::Cancelled);
                    self.enter_stopping()
                },
                _ => Action::Nothing,
            },
            Phase::Stopping => match ev {
                Event::StopFinished => {
                    self.started = false;
                    self.enter_releasing()
                },
                _ => Action::Nothing,
            },
            Phase::Releasing => match ev {
                Event::ReleaseFinished => {
                    self.claimed = false;
                    self.enter_done()
                },
                _ => Action::Nothing,
            },
            _ => Action::Nothing,
        }
    }
}

} // verus!
