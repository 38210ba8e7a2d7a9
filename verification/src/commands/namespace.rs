//! Switching the namespace of the active context.

use vstd::prelude::*;

use crate::commands::{Listing, ListingView, Outcome, OutcomeView, Step, StepView};
use crate::kubeconfig::{EntryView, Kubeconfig, KubeconfigView};

verus! {

/// The names that are there, in the order of `listed`.
pub open spec fn named(listed: Seq<Option<Seq<char>>>) -> Seq<Seq<char>> {
    listed.filter_map(|item: Option<Seq<char>>| item)
}

/// The candidates that a listing of the cluster's namespaces gives: the name
/// of each namespace that has one, in the order of the listing.
pub fn namespace_names(listed: &Vec<Option<String>>) -> (names: Vec<String>)
    ensures
        names.deep_view() == named(listed.deep_view()),
{
    let ghost items = listed.deep_view();
    let mut names: Vec<String> = Vec::new();
    let mut i: usize = 0;
    while i < listed.len()
        invariant
            i <= listed.len(),
            items == listed.deep_view(),
            names.deep_view() == named(items.take(i as int)),
        decreases listed.len() - i,
    {
        let ghost before = names.deep_view();
        match &listed[i] {
            Some(name) => {
                names.push(name.clone());
                assert(names.deep_view() =~= before + seq![name@]);
            },
            None => {},
        }
        proof {
            items.lemma_filter_map_take_succ(|item: Option<Seq<char>>| item, i as int);
        }
        i = i + 1;
    }
    assert(items.take(i as int) =~= items);
    names
}

impl KubeconfigView {
    /// The outcome of making `target` the namespace of the active context:
    /// nothing changes where it is its namespace already; otherwise every
    /// context that carries the active name gets it.
    pub open spec fn switch_namespace(self, target: Seq<char>) -> OutcomeView {
        if target == self.current_namespace() {
            OutcomeView::Unchanged { current: self.current_namespace() }
        } else {
            OutcomeView::Changed { config: self.with_namespace(target), target }
        }
    }
}

impl Kubeconfig {
    /// Makes `target` the namespace of the active context, unless it is so
    /// already. The document must hold a context of the active name.
    pub fn switch_namespace(self, target: String) -> (outcome: Outcome)
        requires
            self@.has_current(),
        ensures
            outcome@ == self@.switch_namespace(target@),
    {
        let current = self.current_namespace();
        if current == target {
            Outcome::Unchanged { current }
        } else {
            let mut config = self;
            config.set_namespace(target.as_str());
            Outcome::Changed { config, target }
        }
    }
}

/// Switching to the namespace that the active context has already changes
/// nothing.
pub proof fn lemma_switch_to_active_namespace(config: KubeconfigView)
    ensures
        config.switch_namespace(config.current_namespace()) == (OutcomeView::Unchanged {
            current: config.current_namespace(),
        }),
{
}

/// Switching to another namespace leaves the active name, the number of
/// contexts, their names and their order as they were. A context that does
/// not carry the active name stays as it was; one that does gets the new
/// namespace. Afterwards the namespace of the active context is the new one,
/// so switching to it once more changes nothing.
pub proof fn lemma_switch_namespace_is_local(config: KubeconfigView, target: Seq<char>)
    requires
        config.has_current(),
        target != config.current_namespace(),
    ensures
        config.switch_namespace(target) matches OutcomeView::Changed { config: after, target: set }
            && {
            &&& set == target
            &&& after.current_context == config.current_context
            &&& after.contexts.len() == config.contexts.len()
            &&& after.names() == config.names()
            &&& forall|i: int|
                0 <= i < config.contexts.len() && !config.is_current(i) ==> after.contexts[i]
                    == config.contexts[i]
            &&& forall|i: int|
                config.is_current(i) ==> after.contexts[i].namespace == Some(target)
            &&& after.has_current()
            &&& after.current_index() == config.current_index()
            &&& after.current_namespace() == target
            &&& after.switch_namespace(target) == (OutcomeView::Unchanged { current: target })
        },
{
    let after = config.with_namespace(target);
    assert(after.names() =~= config.names());
    assert forall|i: int| after.is_current(i) == config.is_current(i) by {}
    config.lemma_current_index();
    let k = config.current_index();
    assert(after.is_current(k));
    assert(after.is_first_current(k));
    after.lemma_current_index();
}

/// In a document whose contexts have different names, switching to another
/// namespace changes the namespace of the active context and nothing else.
pub proof fn lemma_switch_namespace_touches_one(config: KubeconfigView, target: Seq<char>)
    requires
        config.has_current(),
        config.names_unique(),
        target != config.current_namespace(),
    ensures
        config.switch_namespace(target) matches OutcomeView::Changed { config: after, .. } && {
            &&& after.current_context == config.current_context
            &&& after.contexts == config.contexts.update(
                config.current_index(),
                EntryView {
                    name: config.contexts[config.current_index()].name,
                    namespace: Some(target),
                },
            )
        },
{
    config.lemma_current_index();
    let k = config.current_index();
    let after = config.with_namespace(target);
    assert forall|i: int| 0 <= i < config.contexts.len() && i != k implies !config.is_current(
        i,
    ) by {
        if config.is_current(i) {
            if i < k {
                assert(config.contexts[i].name != config.contexts[k].name);
            } else {
                assert(config.contexts[k].name != config.contexts[i].name);
            }
        }
    }
    assert(after.contexts =~= config.contexts.update(
        k,
        EntryView { name: config.contexts[k].name, namespace: Some(target) },
    ));
}

/// The first step of switching the namespace of the active context of
/// `config`: with a name the run is over at once; without one the namespaces of
/// the cluster are to be listed.
pub open spec fn namespace_step(config: KubeconfigView, name: Option<Seq<char>>) -> StepView {
    match name {
        Some(target) => StepView::Done(config.switch_namespace(target)),
        None => StepView::List(ListingView { config }),
    }
}

/// Starts switching the namespace of the active context of `config` to `name`,
/// or to what the operator will choose where no name is given. The document
/// must hold a context of the active name.
pub fn namespace(config: Kubeconfig, name: &Option<String>) -> (step: Step)
    requires
        config@.has_current(),
    ensures
        step@ == namespace_step(config@, name.deep_view()),
        name is Some ==> step is Done,
{
    match name {
        Some(target) => Step::Done(config.switch_namespace(target.clone())),
        None => Step::List(Listing::new(config)),
    }
}

} // verus!
