//! Switching the active context.

use vstd::prelude::*;

use crate::commands::{Kind, Outcome, OutcomeView, Selection, SelectionView, Step, StepView};
use crate::kubeconfig::{Kubeconfig, KubeconfigView};

verus! {

impl KubeconfigView {
    /// The outcome of making `target` the active context: nothing changes
    /// where it is the active name already; otherwise it becomes the active
    /// name, whether or not a context is called so.
    pub open spec fn switch_context(self, target: Seq<char>) -> OutcomeView {
        if target == self.current_name() {
            OutcomeView::Unchanged { current: self.current_name() }
        } else {
            OutcomeView::Changed { config: self.with_current(target), target }
        }
    }
}

impl Kubeconfig {
    /// Makes `target` the active context, unless it is so already. The name is
    /// not looked up among the contexts.
    pub fn switch_context(self, target: String) -> (outcome: Outcome)
        ensures
            outcome@ == self@.switch_context(target@),
    {
        let current = self.current_context_name();
        if current == target {
            Outcome::Unchanged { current }
        } else {
            let mut config = self;
            config.set_current_context(target.clone());
            Outcome::Changed { config, target }
        }
    }
}

/// Switching to the name that is active already changes nothing.
pub proof fn lemma_switch_to_active_context(config: KubeconfigView)
    ensures
        config.switch_context(config.current_name()) == (OutcomeView::Unchanged {
            current: config.current_name(),
        }),
{
}

/// Switching to a name that is not the active one makes it the active name
/// and leaves every context, and their order, as it was. Switching to it once
/// more changes nothing.
pub proof fn lemma_switch_context_moves_pointer_only(config: KubeconfigView, target: Seq<char>)
    requires
        target != config.current_name(),
    ensures
        config.switch_context(target) matches OutcomeView::Changed { config: after, target: set }
            && {
            &&& set == target
            &&& after.current_context == Some(target)
            &&& after.contexts == config.contexts
            &&& after.switch_context(target) == (OutcomeView::Unchanged { current: target })
        },
{
}

/// The first step of switching the active context of `config`: with a name
/// the run is over at once; without one the operator is to choose among the
/// names of the contexts.
pub open spec fn context_step(config: KubeconfigView, name: Option<Seq<char>>) -> StepView {
    match name {
        Some(target) => StepView::Done(config.switch_context(target)),
        None => StepView::Select(
            SelectionView { kind: Kind::Context, config, candidates: config.names() },
        ),
    }
}

/// Starts switching the active context of `config` to `name`, or to what the
/// operator will choose where no name is given.
pub fn context(config: Kubeconfig, name: &Option<String>) -> (step: Step)
    ensures
        step@ == context_step(config@, name.deep_view()),
        name is Some ==> step is Done,
{
    match name {
        Some(target) => Step::Done(config.switch_context(target.clone())),
        None => {
            let candidates = config.context_names();
            Step::Select(Selection::new(Kind::Context, config, candidates))
        },
    }
}

} // verus!
