use vstd::prelude::*;
use vstd::string::StringExecFns;

verus! {

/// The result of validating the configuration at startup.
#[derive(Clone, Copy, PartialEq, Eq, Structural, Debug)]
pub enum OutcomeKind {
    /// The validator accepted the configuration.
    Success,
    /// The validator rejected it without a message.
    BootError,
    /// The validator rejected it with a message.
    StderrError,
    /// The validator process could not run.
    ProcessTerminated,
    /// The configuration file could not be produced.
    Error,
}

/// The notification tag of an outcome.
pub open spec fn outcome_tag(kind: OutcomeKind) -> Seq<char> {
    match kind {
        OutcomeKind::Success => "config_validate::success"@,
        OutcomeKind::BootError => "config_validate::boot_error"@,
        OutcomeKind::StderrError => "config_validate::stderr_error"@,
        OutcomeKind::ProcessTerminated => "config_validate::process_terminated"@,
        OutcomeKind::Error => "config_validate::error"@,
    }
}

impl OutcomeKind {
    /// The notification tag of this outcome.
    pub fn tag(&self) -> (r: &'static str)
        ensures
            r@ == outcome_tag(*self),
    {
        match self {
            OutcomeKind::Success => "config_validate::success",
            OutcomeKind::BootError => "config_validate::boot_error",
            OutcomeKind::StderrError => "config_validate::stderr_error",
            OutcomeKind::ProcessTerminated => "config_validate::process_terminated",
            OutcomeKind::Error => "config_validate::error",
        }
    }
}

/// An outcome with the detail shown to the user.
pub struct Outcome {
    pub kind: OutcomeKind,
    pub detail: String,
}

/// `o` has kind `kind` and detail `detail`.
pub open spec fn outcome_is(o: Outcome, kind: OutcomeKind, detail: Seq<char>) -> bool {
    o.kind == kind && o.detail@ == detail
}

/// What the external validator reported.
pub enum ValidatorResult {
    /// The validator ran: whether the file is valid, and its error output.
    Checked { valid: bool, message: String },
    /// The validator process itself failed to run.
    ProcessFailed,
}

/// The outcome kind that a validator report leads to.
pub open spec fn report_kind(v: ValidatorResult) -> OutcomeKind {
    match v {
        ValidatorResult::Checked { valid, message } => if valid {
            OutcomeKind::Success
        } else if message@.len() == 0 {
            OutcomeKind::BootError
        } else {
            OutcomeKind::StderrError
        },
        ValidatorResult::ProcessFailed => OutcomeKind::ProcessTerminated,
    }
}

/// The detail that a validator report leads to: the validator's message for
/// a rejection with a message, else nothing.
pub open spec fn report_detail(v: ValidatorResult) -> Seq<char> {
    match v {
        ValidatorResult::Checked { valid, message } => if !valid {
            message@
        } else {
            Seq::empty()
        },
        ValidatorResult::ProcessFailed => Seq::empty(),
    }
}

/// Whether an outcome requires the minimal default configuration.
pub open spec fn needs_fallback(kind: OutcomeKind) -> bool {
    kind != OutcomeKind::Success
}

/// The outcome of a validator report.
pub fn validation_outcome(v: ValidatorResult) -> (r: Outcome)
    ensures
        outcome_is(r, report_kind(v), report_detail(v)),
{
    match v {
        ValidatorResult::Checked { valid, message } => {
            if valid {
                Outcome { kind: OutcomeKind::Success, detail: String::new() }
            } else if message.as_str().is_empty() {
                Outcome { kind: OutcomeKind::BootError, detail: message }
            } else {
                Outcome { kind: OutcomeKind::StderrError, detail: message }
            }
        },
        ValidatorResult::ProcessFailed => Outcome {
            kind: OutcomeKind::ProcessTerminated,
            detail: String::new(),
        },
    }
}

/// Where the one-shot startup sequence stands. Once validation has spoken,
/// the state carries its outcome.
pub enum Startup {
    /// The synthetic profile items are to be made present.
    EnsureProfiles,
    /// The runtime configuration is to be generated.
    Generate,
    /// The live runtime file is to be written.
    Persist,
    /// The written file is to be validated.
    Validate,
    /// The minimal default configuration is to be installed.
    Fallback { outcome: Outcome },
    /// The delayed notification is to be scheduled.
    Notify { outcome: Outcome },
    /// The sequence has finished.
    Done { outcome: Outcome },
    /// The default configuration could not be installed: startup fails.
    Failed { outcome: Outcome },
}

/// What happened when the last action was carried out.
pub enum Event {
    /// The synthetic profile items were handled, successfully or not.
    ProfilesEnsured,
    /// Generation finished, successfully or not.
    Generated,
    /// Writing the live runtime file succeeded or failed.
    Persisted { ok: bool },
    /// The validator reported.
    Validated { report: ValidatorResult },
    /// Installing the default configuration succeeded or failed.
    FallbackInstalled { ok: bool },
    /// The notification was handed to its own task.
    NoticeScheduled,
}

/// What the driver of the sequence is to do next.
pub enum Action {
    EnsureProfiles,
    Generate,
    Persist,
    Validate,
    /// Install the minimal default configuration for this outcome.
    InstallDefault { kind: OutcomeKind, detail: String },
    /// Schedule the delayed notification of this outcome.
    ScheduleNotice { kind: OutcomeKind, detail: String },
    /// Nothing is left to do: startup succeeded.
    Finish,
    /// Nothing is left to do: startup failed.
    Abort,
}

/// `t` is the state that `s` moves to on `e`. An event that does not belong
/// to the current step leaves the state as it is.
pub open spec fn transitioned(s: Startup, e: Event, t: Startup) -> bool {
    match s {
        Startup::EnsureProfiles => match e {
            Event::ProfilesEnsured => t is Generate,
            _ => t == s,
        },
        Startup::Generate => match e {
            Event::Generated => t is Persist,
            _ => t == s,
        },
        Startup::Persist => match e {
            Event::Persisted { ok } => if ok {
                t is Validate
            } else {
                t matches Startup::Fallback { outcome } && outcome_is(
                    outcome,
                    OutcomeKind::Error,
                    Seq::empty(),
                )
            },
            _ => t == s,
        },
        Startup::Validate => match e {
            Event::Validated { report } => if needs_fallback(report_kind(report)) {
                t matches Startup::Fallback { outcome } && outcome_is(
                    outcome,
                    report_kind(report),
                    report_detail(report),
                )
            } else {
                t matches Startup::Notify { outcome } && outcome_is(
                    outcome,
                    report_kind(report),
                    report_detail(report),
                )
            },
            _ => t == s,
        },
        Startup::Fallback { outcome } => match e {
            Event::FallbackInstalled { ok } => if ok {
                t == (Startup::Notify { outcome })
            } else {
                t == (Startup::Failed { outcome })
            },
            _ => t == s,
        },
        Startup::Notify { outcome } => match e {
            Event::NoticeScheduled => t == (Startup::Done { outcome }),
            _ => t == s,
        },
        _ => t == s,
    }
}

/// `a` is the action that state `s` calls for.
pub open spec fn action_for(s: Startup, a: Action) -> bool {
    match s {
        Startup::EnsureProfiles => a is EnsureProfiles,
        Startup::Generate => a is Generate,
        Startup::Persist => a is Persist,
        Startup::Validate => a is Validate,
        Startup::Fallback { outcome } => a matches Action::InstallDefault { kind, detail } && kind
            == outcome.kind && detail@ == outcome.detail@,
        Startup::Notify { outcome } => a matches Action::ScheduleNotice { kind, detail } && kind
            == outcome.kind && detail@ == outcome.detail@,
        Startup::Done { .. } => a is Finish,
        Startup::Failed { .. } => a is Abort,
    }
}

impl Startup {
    /// The state before anything was done.
    pub fn new() -> (r: Startup)
        ensures
            r is EnsureProfiles,
    {
        Startup::EnsureProfiles
    }

    /// The action that this state calls for.
    pub fn action(&self) -> (a: Action)
        ensures
            action_for(*self, a),
    {
        match self {
            Startup::EnsureProfiles => Action::EnsureProfiles,
            Startup::Generate => Action::Generate,
            Startup::Persist => Action::Persist,
            Startup::Validate => Action::Validate,
            Startup::Fallback { outcome } => Action::InstallDefault {
                kind: outcome.kind,
                detail: outcome.detail.clone(),
            },
            Startup::Notify { outcome } => Action::ScheduleNotice {
                kind: outcome.kind,
                detail: outcome.detail.clone(),
            },
            Startup::Done { .. } => Action::Finish,
            Startup::Failed { .. } => Action::Abort,
        }
    }

    /// The state that follows this one on `e`.
    pub fn advance(self, e: Event) -> (r: Startup)
        ensures
            transitioned(self, e, r),
    {
        match self {
            Startup::EnsureProfiles => match e {
                Event::ProfilesEnsured => Startup::Generate,
                _ => Startup::EnsureProfiles,
            },
            Startup::Generate => match e {
                Event::Generated => Startup::Persist,
                _ => Startup::Generate,
            },
            Startup::Persist => match e {
                Event::Persisted { ok } => if ok {
                    Startup::Validate
                } else {
                    Startup::Fallback {
                        outcome: Outcome { kind: OutcomeKind::Error, detail: String::new() },
                    }
                },
                _ => Startup::Persist,
            },
            Startup::Validate => match e {
                Event::Validated { report } => {
                    let outcome = validation_outcome(report);
                    if outcome.kind == OutcomeKind::Success {
                        Startup::Notify { outcome }
                    } else {
                        Startup::Fallback { outcome }
                    }
                },
                _ => Startup::Validate,
            },
            Startup::Fallback { outcome } => match e {
                Event::FallbackInstalled { ok } => if ok {
                    Startup::Notify { outcome }
                } else {
                    Startup::Failed { outcome }
                },
                _ => Startup::Fallback { outcome },
            },
            Startup::Notify { outcome } => match e {
                Event::NoticeScheduled => Startup::Done { outcome },
                _ => Startup::Notify { outcome },
            },
            Startup::Done { outcome } => Startup::Done { outcome },
            Startup::Failed { outcome } => Startup::Failed { outcome },
        }
    }
}

/// From validation, a report decides the next request alone: an accepted
/// file, whatever the message, goes straight to the notification of success
/// without the default configuration; a rejection with no message installs
/// the default under the boot error tag with an empty detail; a rejection
/// with a message installs it under the error output tag with that message.
pub proof fn law_report_decides_fallback(e: Event, t: Startup, a: Action)
    requires
        e is Validated,
        transitioned(Startup::Validate, e, t),
        action_for(t, a),
    ensures
        (e->report is Checked && e->report->valid) ==> (a matches Action::ScheduleNotice { kind, .. } && kind == OutcomeKind::Success),
        (e->report is Checked && !e->report->valid && e->report->message@.len() == 0) ==> (a matches Action::InstallDefault { kind, detail } && kind == OutcomeKind::BootError && detail@.len() == 0),
        (e->report is Checked && !e->report->valid && e->report->message@.len() > 0) ==> (a matches Action::InstallDefault { kind, detail } && kind == OutcomeKind::StderrError && detail@ == e->report->message@),
        e->report is ProcessFailed ==> (a matches Action::InstallDefault { kind, detail } && kind == OutcomeKind::ProcessTerminated && detail@.len() == 0),
{
}

/// `states` is a run of the sequence: each state follows the one before it
/// on the event at the same position.
pub open spec fn is_run(states: Seq<Startup>, events: Seq<Event>) -> bool {
    &&& states.len() == events.len() + 1
    &&& forall|i: int|
        0 <= i < events.len() ==> transitioned(
            #[trigger] states[i],
            events[i],
            states[i + 1],
        )
}

/// How many steps of `states` go from the notification step to the end.
pub open spec fn notices_in(states: Seq<Startup>) -> nat
    decreases states.len(),
{
    if states.len() < 2 {
        0
    } else {
        notices_in(states.drop_last()) + if states[states.len() - 2] is Notify
            && states.last() is Done {
            1nat
        } else {
            0nat
        }
    }
}

proof fn lemma_notices_in_run(states: Seq<Startup>, events: Seq<Event>)
    requires
        is_run(states, events),
    ensures
        states[0] is Done ==> states.last() is Done,
        notices_in(states) == if states.last() is Done && !(states[0] is Done) {
            1nat
        } else {
            0nat
        },
    decreases states.len(),
{
    if states.len() >= 2 {
        let p = states.drop_last();
        let pe = events.drop_last();
        assert forall|i: int| 0 <= i < pe.len() implies transitioned(
            #[trigger] p[i],
            pe[i],
            p[i + 1],
        ) by {
            assert(transitioned(states[i], events[i], states[i + 1]));
        }
        lemma_notices_in_run(p, pe);
        let k = events.len() - 1;
        assert(transitioned(states[k], events[k], states[k + 1]));
        assert(p.last() == states[states.len() - 2]);
    }
}

/// Every run from the start that finishes has passed the notification step
/// exactly once, whatever the outcome; a run that ends in failure, because
/// the default configuration could not be installed, never has.
pub proof fn law_one_notice_per_run(states: Seq<Startup>, events: Seq<Event>)
    requires
        is_run(states, events),
        states[0] is EnsureProfiles,
    ensures
        states.last() is Done ==> notices_in(states) == 1,
        states.last() is Failed ==> notices_in(states) == 0,
{
    lemma_notices_in_run(states, events);
}

} // verus!
