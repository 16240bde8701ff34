//! The capability traits of a dependency and the ensure/remove decisions
//! built on them. Each decision maps the event that the caller observed
//! (a probe result, a user's answer, the result of installing) to the next
//! action; the caller performs the action and reports back.

use vstd::prelude::*;

use crate::error::{DependencyFailure, Error, ErrorModel};
use crate::plan::{Platform, Probe, ProbeModel, StepModel, Step, probe_model, steps_model};

verus! {

/// Has a stable identifier.
pub trait HasName {
    spec fn spec_name(&self) -> Seq<char>;

    fn name(&self) -> (r: &'static str)
        ensures
            r@ == self.spec_name(),
    ;
}

/// Can report its presence and be installed.
pub trait IsEnsurable {
    /// Whether it can be installed automatically on the host.
    spec fn spec_installs_on(&self, host: Platform) -> bool;

    /// How its presence is checked, or why it cannot be.
    spec fn spec_probe(&self) -> Result<ProbeModel, ErrorModel>;

    fn installs_on(&self, host: Platform) -> (r: bool)
        ensures
            r == self.spec_installs_on(host),
    ;

    fn probe(&self) -> (r: Result<Probe, Error>)
        ensures
            probe_model(r) == self.spec_probe(),
    ;
}

/// Can be removed again.
pub trait IsRemovable {
    spec fn spec_uninstall_plan(&self) -> Seq<StepModel>;

    fn uninstall_plan(&self) -> (r: Vec<Step>)
        ensures
            steps_model(r@) == self.spec_uninstall_plan(),
    ;
}

/// What the caller observed since the last action.
#[derive(Debug, PartialEq, Eq)]
pub enum Event {
    /// The operation starts.
    Begin,
    /// The probe ran: presence, or why it could not tell.
    Probed(Result<bool, Error>),
    /// The user answered the confirmation prompt.
    Answered(bool),
    /// The install (or removal) ran.
    Acted(Result<(), Error>),
}

/// What the caller does next.
#[derive(Debug, PartialEq, Eq)]
pub enum Action {
    /// Run the dependency's probe.
    Probe,
    /// Ask the user for approval.
    Confirm,
    /// Install (or remove) the dependency.
    Act,
    /// The operation is over, with this result.
    Finish(Result<(), DependencyFailure>),
}

pub ghost enum EventModel {
    Begin,
    Probed(Result<bool, ErrorModel>),
    Answered(bool),
    Acted(Result<(), ErrorModel>),
}

pub ghost enum ActionModel {
    Probe,
    Confirm,
    Act,
    Done,
    /// Failed: the dependency's name and the error.
    Fail(Seq<char>, ErrorModel),
}

impl View for Event {
    type V = EventModel;

    open spec fn view(&self) -> EventModel {
        match self {
            Event::Begin => EventModel::Begin,
            Event::Probed(Ok(b)) => EventModel::Probed(Ok(*b)),
            Event::Probed(Err(e)) => EventModel::Probed(Err(e@)),
            Event::Answered(a) => EventModel::Answered(*a),
            Event::Acted(Ok(u)) => EventModel::Acted(Ok(*u)),
            Event::Acted(Err(e)) => EventModel::Acted(Err(e@)),
        }
    }
}

impl View for Action {
    type V = ActionModel;

    open spec fn view(&self) -> ActionModel {
        match self {
            Action::Probe => ActionModel::Probe,
            Action::Confirm => ActionModel::Confirm,
            Action::Act => ActionModel::Act,
            Action::Finish(Ok(_)) => ActionModel::Done,
            Action::Finish(Err(f)) => ActionModel::Fail(f.dependency@, f.error@),
        }
    }
}

/// The ensure decision: probe first; done if present; otherwise ask when
/// confirmation is on, refuse on a host where only a manual install works,
/// and install. Failures carry the dependency's name.
pub open spec fn ensure_next(name: Seq<char>, installs: bool, confirm: bool, ev: EventModel) -> ActionModel {
    match ev {
        EventModel::Begin => ActionModel::Probe,
        EventModel::Probed(Err(e)) => ActionModel::Fail(name, e),
        EventModel::Probed(Ok(true)) => ActionModel::Done,
        EventModel::Probed(Ok(false)) => if confirm {
            ActionModel::Confirm
        } else if !installs {
            ActionModel::Fail(name, ErrorModel::UnsupportedPlatform)
        } else {
            ActionModel::Act
        },
        EventModel::Answered(false) => ActionModel::Fail(name, ErrorModel::UserDeclined),
        EventModel::Answered(true) => if !installs {
            ActionModel::Fail(name, ErrorModel::UnsupportedPlatform)
        } else {
            ActionModel::Act
        },
        EventModel::Acted(Ok(_)) => ActionModel::Done,
        EventModel::Acted(Err(e)) => ActionModel::Fail(name, e),
    }
}

/// The remove decision: probe first; nothing to do if absent; otherwise ask
/// when confirmation is on (a refusal skips the removal), and remove.
pub open spec fn remove_next(name: Seq<char>, confirm: bool, ev: EventModel) -> ActionModel {
    match ev {
        EventModel::Begin => ActionModel::Probe,
        EventModel::Probed(Err(e)) => ActionModel::Fail(name, e),
        EventModel::Probed(Ok(false)) => ActionModel::Done,
        EventModel::Probed(Ok(true)) => if confirm {
            ActionModel::Confirm
        } else {
            ActionModel::Act
        },
        EventModel::Answered(false) => ActionModel::Done,
        EventModel::Answered(true) => ActionModel::Act,
        EventModel::Acted(Ok(_)) => ActionModel::Done,
        EventModel::Acted(Err(e)) => ActionModel::Fail(name, e),
    }
}

fn fail(name: &str, error: Error) -> (r: Action)
    ensures
        r@ == ActionModel::Fail(name@, error@),
{
    Action::Finish(Err(DependencyFailure { dependency: String::from_str(name), error }))
}

/// Gains the ensure operation from a name and presence checks.
pub trait EnsurableEntity {
    spec fn spec_ensure(&self, confirm: bool, host: Platform, ev: EventModel) -> ActionModel;

    /// The next action of `ensure` after `ev`.
    fn ensure(&self, confirm: bool, host: Platform, ev: Event) -> (r: Action)
        ensures
            r@ == self.spec_ensure(confirm, host, ev@),
    ;
}

impl<T: HasName + IsEnsurable> EnsurableEntity for T {
    open spec fn spec_ensure(&self, confirm: bool, host: Platform, ev: EventModel) -> ActionModel {
        ensure_next(self.spec_name(), self.spec_installs_on(host), confirm, ev)
    }

    fn ensure(&self, confirm: bool, host: Platform, ev: Event) -> (r: Action) {
        let name = self.name();
        match ev {
            Event::Begin => Action::Probe,
            Event::Probed(Err(e)) => fail(name, e),
            Event::Probed(Ok(true)) => Action::Finish(Ok(())),
            Event::Probed(Ok(false)) => {
                if confirm {
                    Action::Confirm
                } else if !self.installs_on(host) {
                    fail(name, Error::UnsupportedPlatform)
                } else {
                    Action::Act
                }
            },
            Event::Answered(false) => fail(name, Error::UserDeclined),
            Event::Answered(true) => {
                if !self.installs_on(host) {
                    fail(name, Error::UnsupportedPlatform)
                } else {
                    Action::Act
                }
            },
            Event::Acted(Ok(())) => Action::Finish(Ok(())),
            Event::Acted(Err(e)) => fail(name, e),
        }
    }
}

/// Gains the remove operation from a name, presence checks and removal.
pub trait RemovableEntity {
    spec fn spec_remove(&self, confirm: bool, ev: EventModel) -> ActionModel;

    /// The next action of `remove` after `ev`.
    fn remove(&self, confirm: bool, ev: Event) -> (r: Action)
        ensures
            r@ == self.spec_remove(confirm, ev@),
    ;
}

impl<T: HasName + IsEnsurable + IsRemovable> RemovableEntity for T {
    open spec fn spec_remove(&self, confirm: bool, ev: EventModel) -> ActionModel {
        remove_next(self.spec_name(), confirm, ev)
    }

    fn remove(&self, confirm: bool, ev: Event) -> (r: Action) {
        let name = self.name();
        match ev {
            Event::Begin => Action::Probe,
            Event::Probed(Err(e)) => fail(name, e),
            Event::Probed(Ok(false)) => Action::Finish(Ok(())),
            Event::Probed(Ok(true)) => {
                if confirm {
                    Action::Confirm
                } else {
                    Action::Act
                }
            },
            Event::Answered(false) => Action::Finish(Ok(())),
            Event::Answered(true) => Action::Act,
            Event::Acted(Ok(())) => Action::Finish(Ok(())),
            Event::Acted(Err(e)) => fail(name, e),
        }
    }
}

/// One ensure run after its probe: the probe reports `present`, the user
/// answers `approve` if asked, and an install, if made, ends with
/// `installed`. Yields the final action, the number of confirmations asked
/// and of installs made.
pub open spec fn ensure_run(
    name: Seq<char>,
    installs: bool,
    confirm: bool,
    present: bool,
    approve: bool,
    installed: Result<(), ErrorModel>,
) -> (ActionModel, nat, nat) {
    let install = ensure_next(name, installs, confirm, EventModel::Acted(installed));
    match ensure_next(name, installs, confirm, EventModel::Probed(Ok(present))) {
        ActionModel::Confirm => match ensure_next(name, installs, confirm, EventModel::Answered(approve)) {
            ActionModel::Act => (install, 1, 1),
            other => (other, 1, 0),
        },
        ActionModel::Act => (install, 0, 1),
        other => (other, 0, 0),
    }
}

/// Ensure is idempotent: it always starts with a probe; a probe that
/// reports presence ends it at once; and once a run has succeeded the
/// dependency is present (it was, or an install succeeded), so a second run
/// asks and installs nothing: over both runs at most one confirmation and
/// one install are made.
pub proof fn lemma_ensure_idempotent(
    name: Seq<char>,
    installs: bool,
    confirm: bool,
    present: bool,
    approve: bool,
    installed: Result<(), ErrorModel>,
    approve_again: bool,
    installed_again: Result<(), ErrorModel>,
)
    ensures
        ensure_next(name, installs, confirm, EventModel::Begin) == ActionModel::Probe,
        ensure_next(name, installs, confirm, EventModel::Probed(Ok(true))) == ActionModel::Done,
        ({
            let (first, asked, made) = ensure_run(name, installs, confirm, present, approve, installed);
            let present_after = present || (made > 0 && installed is Ok);
            let (second, asked_again, made_again) = ensure_run(
                name,
                installs,
                confirm,
                present_after,
                approve_again,
                installed_again,
            );
            first == ActionModel::Done ==> present_after && second == ActionModel::Done && asked_again == 0
                && made_again == 0 && asked + asked_again <= 1 && made + made_again <= 1
        }),
{
}

/// Removal is idempotent: on an absent dependency it ends at once, with
/// success.
pub proof fn lemma_remove_absent(name: Seq<char>, confirm: bool)
    ensures
        remove_next(name, confirm, EventModel::Begin) == ActionModel::Probe,
        remove_next(name, confirm, EventModel::Probed(Ok(false))) == ActionModel::Done,
{
}

} // verus!
