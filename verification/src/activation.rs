//! The activation resolver: a state machine that brings the application
//! owning a window to the foreground and, best-effort, raises the
//! specific window. The machine decides; the native calls it commands —
//! re-enumeration, process-level activation, name-based activation, and
//! the accessibility raise — are performed outside, and their outcomes
//! are fed back as events.
//!
//! Resolution consults the snapshot cache and re-enumerates exactly once
//! on a miss; a second miss terminates with a not-found error. An entry
//! with a known owning process is activated by process first, falling
//! back to name-based activation (rejected up front when the name is
//! empty). The fine-grained raise runs only for an entry with a known
//! process id and a real (non-fallback) title, after a fixed settle
//! delay; its failure never changes an activation already achieved.

use vstd::prelude::*;

use crate::model::{ActivationError, ActivationErrorView, WindowEntry, WindowEntryView};
use crate::provider::MacWindowProvider;
use crate::text::{chars_of, contains_chars, spec_contains};

verus! {

/// How long the just-activated application is given to become frontmost
/// before the fine-grained raise, in milliseconds.
pub const SETTLE_DELAY_MS: u64 = 150;

/// Where one activation request stands.
pub enum ActPhase {
    /// Nothing resolved yet.
    Initial,
    /// The id missed the snapshot; one re-enumeration was commanded.
    AwaitingRefetch,
    /// Process-level activation of the resolved entry was commanded.
    AwaitingPid(WindowEntry),
    /// Name-based activation of the resolved entry was commanded.
    AwaitingName(WindowEntry),
    /// The best-effort fine-grained raise was commanded.
    AwaitingRaise(WindowEntry),
    /// A result was returned.
    Finished,
}

/// Mathematical image of a phase.
pub enum ActPhaseView {
    Initial,
    AwaitingRefetch,
    AwaitingPid(WindowEntryView),
    AwaitingName(WindowEntryView),
    AwaitingRaise(WindowEntryView),
    Finished,
}

impl View for ActPhase {
    type V = ActPhaseView;

    open spec fn view(&self) -> ActPhaseView {
        match self {
            ActPhase::Initial => ActPhaseView::Initial,
            ActPhase::AwaitingRefetch => ActPhaseView::AwaitingRefetch,
            ActPhase::AwaitingPid(e) => ActPhaseView::AwaitingPid(e@),
            ActPhase::AwaitingName(e) => ActPhaseView::AwaitingName(e@),
            ActPhase::AwaitingRaise(e) => ActPhaseView::AwaitingRaise(e@),
            ActPhase::Finished => ActPhaseView::Finished,
        }
    }
}

/// What the machine asks its driver to do next.
pub enum ActCommand {
    /// Run one enumeration pass without thumbnails to repopulate the
    /// snapshot, then report back.
    Refetch,
    /// Attempt process-level foreground activation of this pid.
    ActivateViaPid(i64),
    /// Attempt OS-level activation of the application by display name.
    ActivateApp(String),
    /// Wait the settle delay, then search this process's windows for a
    /// title containing the given one and raise it.
    SettleAndRaise(i64, String),
    /// The request is decided; hand this result to the caller.
    Finish(Result<(), ActivationError>),
}

/// Mathematical image of a command.
pub enum ActCommandView {
    Refetch,
    ActivateViaPid(i64),
    ActivateApp(Seq<char>),
    SettleAndRaise(i64, Seq<char>),
    Finish(Result<(), ActivationErrorView>),
}

impl View for ActCommand {
    type V = ActCommandView;

    open spec fn view(&self) -> ActCommandView {
        match self {
            ActCommand::Refetch => ActCommandView::Refetch,
            ActCommand::ActivateViaPid(p) => ActCommandView::ActivateViaPid(*p),
            ActCommand::ActivateApp(n) => ActCommandView::ActivateApp(n@),
            ActCommand::SettleAndRaise(p, t) => ActCommandView::SettleAndRaise(*p, t@),
            ActCommand::Finish(r) => ActCommandView::Finish(
                match r {
                    Result::Ok(u) => Result::Ok(*u),
                    Result::Err(e) => Result::Err(e@),
                },
            ),
        }
    }
}

/// What the driver reports back to the machine.
pub enum ActEvent {
    /// The request starts.
    Start,
    /// The commanded re-enumeration completed (the snapshot now holds
    /// its outcome, whatever that is).
    Refetched,
    /// Whether process-level activation succeeded.
    PidOutcome(bool),
    /// Whether name-based activation succeeded, with the underlying
    /// error text when it did not.
    NameOutcome(Result<(), String>),
    /// Whether the fine-grained raise succeeded (logged only).
    RaiseOutcome(bool),
}

/// Mathematical image of an event.
pub enum ActEventView {
    Start,
    Refetched,
    PidOutcome(bool),
    NameOutcome(Result<(), Seq<char>>),
    RaiseOutcome(bool),
}

impl View for ActEvent {
    type V = ActEventView;

    open spec fn view(&self) -> ActEventView {
        match self {
            ActEvent::Start => ActEventView::Start,
            ActEvent::Refetched => ActEventView::Refetched,
            ActEvent::PidOutcome(b) => ActEventView::PidOutcome(*b),
            ActEvent::NameOutcome(r) => ActEventView::NameOutcome(
                match r {
                    Result::Ok(u) => Result::Ok(*u),
                    Result::Err(m) => Result::Err(m@),
                },
            ),
            ActEvent::RaiseOutcome(b) => ActEventView::RaiseOutcome(*b),
        }
    }
}

/// The error text for an id that stayed unresolved.
pub open spec fn spec_not_found_message(id: Seq<char>) -> Seq<char> {
    "window id "@ + id + " not found"@
}

/// The error text for an entry without an application name.
pub open spec fn spec_missing_app_name_message() -> Seq<char> {
    "missing app name for activation"@
}

/// Falling back to name-based activation: an empty application name is
/// rejected up front; otherwise the name-based attempt is commanded.
pub open spec fn spec_fall_back_to_name(e: WindowEntryView) -> (ActPhaseView, ActCommandView) {
    if e.app_name.len() == 0 {
        (
            ActPhaseView::Finished,
            ActCommandView::Finish(
                Result::Err(ActivationErrorView::ActivationFailure(spec_missing_app_name_message())),
            ),
        )
    } else {
        (ActPhaseView::AwaitingName(e), ActCommandView::ActivateApp(e.app_name))
    }
}

/// Engaging a resolved entry: process-level activation when the owning
/// process is known, otherwise straight to the name-based fallback.
pub open spec fn spec_engage(e: WindowEntryView) -> (ActPhaseView, ActCommandView) {
    match e.owner_pid {
        Option::Some(p) => (ActPhaseView::AwaitingPid(e), ActCommandView::ActivateViaPid(p)),
        Option::None => spec_fall_back_to_name(e),
    }
}

/// After the application is frontmost: the fine-grained raise runs only
/// for an entry with a known process id whose title is not a fallback;
/// otherwise the request finishes activated.
pub open spec fn spec_raise_decision(e: WindowEntryView) -> (ActPhaseView, ActCommandView) {
    match e.owner_pid {
        Option::Some(p) => if !e.is_title_fallback {
            (ActPhaseView::AwaitingRaise(e), ActCommandView::SettleAndRaise(p, e.title))
        } else {
            (ActPhaseView::Finished, ActCommandView::Finish(Result::Ok(())))
        },
        Option::None => (ActPhaseView::Finished, ActCommandView::Finish(Result::Ok(()))),
    }
}

/// Resolving the id against the snapshot: a hit engages the entry; a
/// first miss commands the one re-enumeration; a miss after it returns
/// the not-found error.
pub open spec fn spec_resolve(
    snapshot: Map<Seq<char>, WindowEntryView>,
    id: Seq<char>,
    after_refetch: bool,
) -> (ActPhaseView, ActCommandView) {
    if snapshot.contains_key(id) {
        spec_engage(snapshot[id])
    } else if !after_refetch {
        (ActPhaseView::AwaitingRefetch, ActCommandView::Refetch)
    } else {
        (
            ActPhaseView::Finished,
            ActCommandView::Finish(
                Result::Err(ActivationErrorView::NotFound(spec_not_found_message(id))),
            ),
        )
    }
}

/// Which events answer which phase.
pub open spec fn spec_event_ok(pre: ActPhaseView, ev: ActEventView) -> bool {
    match pre {
        ActPhaseView::Initial => ev is Start,
        ActPhaseView::AwaitingRefetch => ev is Refetched,
        ActPhaseView::AwaitingPid(_) => ev is PidOutcome,
        ActPhaseView::AwaitingName(_) => ev is NameOutcome,
        ActPhaseView::AwaitingRaise(_) => ev is RaiseOutcome,
        ActPhaseView::Finished => false,
    }
}

/// The complete transition table of one activation request.
pub open spec fn spec_transition(
    pre: ActPhaseView,
    snapshot: Map<Seq<char>, WindowEntryView>,
    id: Seq<char>,
    ev: ActEventView,
) -> (ActPhaseView, ActCommandView) {
    match pre {
        ActPhaseView::Initial => spec_resolve(snapshot, id, false),
        ActPhaseView::AwaitingRefetch => spec_resolve(snapshot, id, true),
        ActPhaseView::AwaitingPid(e) => if ev == ActEventView::PidOutcome(true) {
            spec_raise_decision(e)
        } else {
            spec_fall_back_to_name(e)
        },
        ActPhaseView::AwaitingName(e) => match ev {
            ActEventView::NameOutcome(Result::Ok(_)) => spec_raise_decision(e),
            ActEventView::NameOutcome(Result::Err(m)) => (
                ActPhaseView::Finished,
                ActCommandView::Finish(Result::Err(ActivationErrorView::ActivationFailure(m))),
            ),
            _ => (ActPhaseView::Finished, ActCommandView::Finish(Result::Ok(()))),
        },
        ActPhaseView::AwaitingRaise(_) => (
            ActPhaseView::Finished,
            ActCommandView::Finish(Result::Ok(())),
        ),
        ActPhaseView::Finished => (ActPhaseView::Finished, ActCommandView::Finish(Result::Ok(()))),
    }
}

fn fall_back_to_name(e: WindowEntry) -> (r: (ActPhase, ActCommand))
    ensures
        (r.0@, r.1@) == spec_fall_back_to_name(e@),
{
    if e.app_name.as_str().is_empty() {
        (
            ActPhase::Finished,
            ActCommand::Finish(
                Result::Err(
                    ActivationError::ActivationFailure("missing app name for activation".to_owned()),
                ),
            ),
        )
    } else {
        let name = e.app_name.clone();
        (ActPhase::AwaitingName(e), ActCommand::ActivateApp(name))
    }
}

fn engage(e: WindowEntry) -> (r: (ActPhase, ActCommand))
    ensures
        (r.0@, r.1@) == spec_engage(e@),
{
    match e.owner_pid {
        Option::Some(p) => (ActPhase::AwaitingPid(e), ActCommand::ActivateViaPid(p)),
        Option::None => fall_back_to_name(e),
    }
}

fn raise_decision(e: WindowEntry) -> (r: (ActPhase, ActCommand))
    ensures
        (r.0@, r.1@) == spec_raise_decision(e@),
{
    match e.owner_pid {
        Option::Some(p) => {
            if !e.is_title_fallback {
                let title = e.title.clone();
                (ActPhase::AwaitingRaise(e), ActCommand::SettleAndRaise(p, title))
            } else {
                (ActPhase::Finished, ActCommand::Finish(Result::Ok(())))
            }
        },
        Option::None => (ActPhase::Finished, ActCommand::Finish(Result::Ok(()))),
    }
}

/// One activation request in flight: the id it resolves and where it
/// stands.
pub struct ActivationMachine {
    pub id: String,
    pub phase: ActPhase,
}

impl ActivationMachine {
    /// A fresh request for this id: nothing resolved, nothing cached
    /// from any earlier request.
    pub fn new(id: String) -> (r: Self)
        ensures
            r.id == id,
            r.phase@ == ActPhaseView::Initial,
    {
        ActivationMachine { id, phase: ActPhase::Initial }
    }

    fn resolve(&self, provider: &MacWindowProvider, after_refetch: bool) -> (r: (
        ActPhase,
        ActCommand,
    ))
        ensures
            (r.0@, r.1@) == spec_resolve(provider@, self.id@, after_refetch),
    {
        match provider.find_entry(self.id.as_str()) {
            Option::Some(e) => engage(e),
            Option::None => {
                if !after_refetch {
                    (ActPhase::AwaitingRefetch, ActCommand::Refetch)
                } else {
                    let message = "window id ".to_owned().concat(self.id.as_str()).concat(
                        " not found",
                    );
                    (
                        ActPhase::Finished,
                        ActCommand::Finish(Result::Err(ActivationError::NotFound(message))),
                    )
                }
            },
        }
    }

    /// Advances the request by one step: consumes the outcome of the
    /// last commanded action and says what to do next.
    pub fn step(&mut self, provider: &MacWindowProvider, ev: ActEvent) -> (cmd: ActCommand)
        requires
            spec_event_ok(old(self).phase@, ev@),
        ensures
            final(self).id == old(self).id,
            ({
                let (ph, c) = spec_transition(old(self).phase@, provider@, old(self).id@, ev@);
                final(self).phase@ == ph && cmd@ == c
            }),
    {
        let (next, cmd): (ActPhase, ActCommand) = match &self.phase {
            ActPhase::Initial => self.resolve(provider, false),
            ActPhase::AwaitingRefetch => self.resolve(provider, true),
            ActPhase::AwaitingPid(e) => {
                let entry = e.clone();
                match &ev {
                    ActEvent::PidOutcome(true) => raise_decision(entry),
                    _ => fall_back_to_name(entry),
                }
            },
            ActPhase::AwaitingName(e) => {
                let entry = e.clone();
                match ev {
                    ActEvent::NameOutcome(Result::Ok(())) => raise_decision(entry),
                    ActEvent::NameOutcome(Result::Err(m)) => (
                        ActPhase::Finished,
                        ActCommand::Finish(Result::Err(ActivationError::ActivationFailure(m))),
                    ),
                    _ => (ActPhase::Finished, ActCommand::Finish(Result::Ok(()))),
                }
            },
            ActPhase::AwaitingRaise(_) => (
                ActPhase::Finished,
                ActCommand::Finish(Result::Ok(())),
            ),
            ActPhase::Finished => (ActPhase::Finished, ActCommand::Finish(Result::Ok(()))),
        };
        self.phase = next;
        cmd
    }
}

/// The search the fine-grained raise performs over the titles of the
/// owning process's windows: the first window whose title contains the
/// resolved title as a substring is the one to raise.
pub fn find_matching_window(titles: &Vec<String>, target: &str) -> (r: Option<usize>)
    ensures
        match r {
            Option::Some(i) => {
                &&& i < titles@.len()
                &&& spec_contains(titles@[i as int]@, target@)
                &&& forall|k: int| 0 <= k < i ==> !spec_contains(#[trigger] titles@[k]@, target@)
            },
            Option::None => forall|k: int|
                0 <= k < titles@.len() ==> !spec_contains(#[trigger] titles@[k]@, target@),
        },
{
    let needle = chars_of(target);
    let mut i: usize = 0;
    while i < titles.len()
        invariant
            needle@ == target@,
            i <= titles@.len(),
            forall|k: int| 0 <= k < i ==> !spec_contains(#[trigger] titles@[k]@, target@),
        decreases titles@.len() - i,
    {
        let hay = chars_of(titles[i].as_str());
        if contains_chars(&hay, &needle) {
            return Option::Some(i);
        }
        i = i + 1;
    }
    Option::None
}

/// A re-enumeration is commanded only from the initial resolution, and
/// no step leads back to the initial phase: one activation request
/// re-enumerates at most once.
pub proof fn law_refetch_at_most_once(
    pre: ActPhaseView,
    snapshot: Map<Seq<char>, WindowEntryView>,
    id: Seq<char>,
    ev: ActEventView,
)
    requires
        spec_event_ok(pre, ev),
    ensures
        spec_transition(pre, snapshot, id, ev).1 is Refetch ==> pre is Initial,
        !(spec_transition(pre, snapshot, id, ev).0 is Initial),
{
}

/// An unknown id commands exactly one re-enumeration and, still missing
/// from the refreshed snapshot, terminates with the not-found error —
/// and with it alone.
pub proof fn law_one_refetch_then_not_found(
    snapshot_before: Map<Seq<char>, WindowEntryView>,
    snapshot_after: Map<Seq<char>, WindowEntryView>,
    id: Seq<char>,
)
    requires
        !snapshot_before.contains_key(id),
        !snapshot_after.contains_key(id),
    ensures
        spec_transition(ActPhaseView::Initial, snapshot_before, id, ActEventView::Start) == (
            ActPhaseView::AwaitingRefetch,
            ActCommandView::Refetch,
        ),
        spec_transition(ActPhaseView::AwaitingRefetch, snapshot_after, id, ActEventView::Refetched)
            == (
            ActPhaseView::Finished,
            ActCommandView::Finish(
                Result::Err(ActivationErrorView::NotFound(spec_not_found_message(id))),
            ),
        ),
{
}

/// The fine-grained raise is decided exactly by the resolved entry: it
/// is attempted precisely when the owning process is known and the
/// title is not a fallback, and then for that pid and that title.
pub proof fn law_raise_decision(e: WindowEntryView)
    ensures
        spec_raise_decision(e).1 is SettleAndRaise <==> (e.owner_pid is Some
            && !e.is_title_fallback),
        e.is_title_fallback ==> !(spec_raise_decision(e).1 is SettleAndRaise),
        spec_raise_decision(e).1 matches ActCommandView::SettleAndRaise(p, t) ==> e.owner_pid
            == Option::Some(p) && t == e.title,
{
}

/// A raise is only ever commanded after a successful application-level
/// activation of an entry with a known process id and a real title; a
/// fallback title never reaches it, whatever the pid.
pub proof fn law_raise_needs_real_title(
    pre: ActPhaseView,
    snapshot: Map<Seq<char>, WindowEntryView>,
    id: Seq<char>,
    ev: ActEventView,
)
    requires
        spec_event_ok(pre, ev),
    ensures
        spec_transition(pre, snapshot, id, ev).1 is SettleAndRaise ==> ({
            ||| (pre matches ActPhaseView::AwaitingPid(e) && ev == ActEventView::PidOutcome(true)
                && e.owner_pid is Some && !e.is_title_fallback)
            ||| (pre matches ActPhaseView::AwaitingName(e) && ev matches ActEventView::NameOutcome(
                Result::Ok(_),
            ) && e.owner_pid is Some && !e.is_title_fallback)
        }),
{
}

/// Once the application-level activation has succeeded, the raise's own
/// outcome cannot change the result: the step after a raise always
/// finishes activated.
pub proof fn law_raise_failure_is_benign(
    pre: ActPhaseView,
    snapshot: Map<Seq<char>, WindowEntryView>,
    id: Seq<char>,
    outcome: bool,
)
    requires
        pre is AwaitingRaise,
    ensures
        spec_transition(pre, snapshot, id, ActEventView::RaiseOutcome(outcome)) == (
            ActPhaseView::Finished,
            ActCommandView::Finish(Result::<(), ActivationErrorView>::Ok(())),
        ),
{
}

} // verus!
