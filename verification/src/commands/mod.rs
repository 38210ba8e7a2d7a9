//! The two commands and the steps a run of one goes through.
//!
//! A run starts from the loaded document and the name given on the command
//! line, if any. It either finishes at once or asks its driver for outside
//! work: the list of namespaces of the cluster, then a choice of the operator
//! among candidates. Each request is a value of its own type, and the answer is
//! handed to a method of that value, so a run cannot skip or repeat a step. A
//! driver whose outside work fails, or whose operator cancels the choice,
//! drops the value: nothing has been changed by then and nothing is to be
//! written.

use vstd::prelude::*;

use crate::commands::context::{context, context_step};
use crate::commands::namespace::{named, namespace, namespace_names, namespace_step};
use crate::kubeconfig::{Kubeconfig, KubeconfigView};

pub mod context;
pub mod namespace;

verus! {

/// What the operator asked for: the field to switch, and the new value where
/// it was given on the command line.
#[derive(Clone, Debug, PartialEq, Eq)]
pub enum Commands {
    Context {
        /// The new context to switch to.
        name: Option<String>,
    },
    Namespace {
        /// The new namespace to switch to.
        name: Option<String>,
    },
}

/// The field that a command switches.
#[derive(Clone, Copy, Debug, PartialEq, Eq, Structural)]
pub enum Kind {
    Context,
    Namespace,
}

/// How a run ended.
#[derive(Clone, Debug, PartialEq, Eq)]
pub enum Outcome {
    /// The target is the value already set. Nothing is to be written.
    Unchanged { current: String },
    /// The target was set. `config` is the document to write.
    Changed { config: Kubeconfig, target: String },
}

/// Mathematical model of an [`Outcome`].
pub enum OutcomeView {
    Unchanged { current: Seq<char> },
    Changed { config: KubeconfigView, target: Seq<char> },
}

impl View for Outcome {
    type V = OutcomeView;

    open spec fn view(&self) -> OutcomeView {
        match self {
            Outcome::Unchanged { current } => OutcomeView::Unchanged { current: current@ },
            Outcome::Changed { config, target } => OutcomeView::Changed {
                config: config@,
                target: target@,
            },
        }
    }
}

/// A run that waits for the names of the cluster's namespaces. It holds a
/// document with a context of the active name.
#[derive(Debug)]
pub struct Listing {
    config: Kubeconfig,
}

/// Mathematical model of a [`Listing`].
pub struct ListingView {
    pub config: KubeconfigView,
}

/// A run that waits for the operator to choose among candidates. One that
/// switches the namespace holds a document with a context of the active name.
#[derive(Debug)]
pub struct Selection {
    kind: Kind,
    config: Kubeconfig,
    candidates: Vec<String>,
}

/// Mathematical model of a [`Selection`].
pub struct SelectionView {
    pub kind: Kind,
    pub config: KubeconfigView,
    pub candidates: Seq<Seq<char>>,
}

/// What a run needs next, or how it ended.
#[derive(Debug)]
pub enum Step {
    /// Ask the cluster of the active context for its namespaces and hand
    /// their names to [`Listing::listed`].
    List(Listing),
    /// Let the operator choose among the candidates and hand the place of the
    /// choice to [`Selection::selected`].
    Select(Selection),
    /// The run is over.
    Done(Outcome),
}

/// Mathematical model of a [`Step`].
pub enum StepView {
    List(ListingView),
    Select(SelectionView),
    Done(OutcomeView),
}

impl View for Listing {
    type V = ListingView;

    closed spec fn view(&self) -> ListingView {
        ListingView { config: self.config@ }
    }
}

impl View for Selection {
    type V = SelectionView;

    closed spec fn view(&self) -> SelectionView {
        SelectionView {
            kind: self.kind,
            config: self.config@,
            candidates: self.candidates.deep_view(),
        }
    }
}

impl View for Step {
    type V = StepView;

    open spec fn view(&self) -> StepView {
        match self {
            Step::List(listing) => StepView::List(listing@),
            Step::Select(selection) => StepView::Select(selection@),
            Step::Done(outcome) => StepView::Done(outcome@),
        }
    }
}

impl ListingView {
    /// The value that the run would replace: the namespace of the active
    /// context.
    pub open spec fn current(self) -> Seq<char> {
        self.config.current_namespace()
    }

    /// The choice that follows a listing: among the names that are there.
    pub open spec fn listed(self, namespaces: Seq<Option<Seq<char>>>) -> SelectionView {
        SelectionView { kind: Kind::Namespace, config: self.config, candidates: named(namespaces) }
    }
}

impl SelectionView {
    /// The value that the run would replace.
    pub open spec fn current(self) -> Seq<char> {
        match self.kind {
            Kind::Context => self.config.current_name(),
            Kind::Namespace => self.config.current_namespace(),
        }
    }

    /// The outcome of choosing the candidate at `index`.
    pub open spec fn selected(self, index: int) -> OutcomeView {
        match self.kind {
            Kind::Context => self.config.switch_context(chosen(self.candidates, index)),
            Kind::Namespace => self.config.switch_namespace(chosen(self.candidates, index)),
        }
    }
}

impl Listing {
    #[verifier::type_invariant]
    spec fn well_formed(self) -> bool {
        self.config@.has_current()
    }

    pub(crate) fn new(config: Kubeconfig) -> (listing: Listing)
        requires
            config@.has_current(),
        ensures
            listing@ == (ListingView { config: config@ }),
    {
        Listing { config }
    }

    /// The document of the run.
    pub fn config(&self) -> (config: &Kubeconfig)
        ensures
            config@ == self@.config,
            config@.has_current(),
    {
        proof {
            use_type_invariant(self);
        }
        &self.config
    }

    /// The value that the run would replace: the namespace of the active
    /// context.
    pub fn current(&self) -> (current: String)
        ensures
            current@ == self@.current(),
    {
        proof {
            use_type_invariant(self);
        }
        self.config.current_namespace()
    }

    /// Goes on with the names of the cluster's namespaces, `None` standing for
    /// a namespace without a name: the operator is to choose among the names
    /// that are there.
    pub fn listed(self, namespaces: &Vec<Option<String>>) -> (selection: Selection)
        ensures
            selection@ == self@.listed(namespaces.deep_view()),
    {
        proof {
            use_type_invariant(&self);
        }
        Selection::new(Kind::Namespace, self.config, namespace_names(namespaces))
    }
}

impl Selection {
    #[verifier::type_invariant]
    spec fn well_formed(self) -> bool {
        self.kind == Kind::Namespace ==> self.config@.has_current()
    }

    pub(crate) fn new(kind: Kind, config: Kubeconfig, candidates: Vec<String>) -> (selection:
        Selection)
        requires
            kind == Kind::Namespace ==> config@.has_current(),
        ensures
            selection@ == (SelectionView {
                kind,
                config: config@,
                candidates: candidates.deep_view(),
            }),
    {
        Selection { kind, config, candidates }
    }

    /// The field that the run switches.
    pub fn kind(&self) -> (kind: Kind)
        ensures
            kind == self@.kind,
    {
        self.kind
    }

    /// The document of the run.
    pub fn config(&self) -> (config: &Kubeconfig)
        ensures
            config@ == self@.config,
            self@.kind == Kind::Namespace ==> config@.has_current(),
    {
        proof {
            use_type_invariant(self);
        }
        &self.config
    }

    /// The names to choose among, in the order to show them in.
    pub fn candidates(&self) -> (candidates: &Vec<String>)
        ensures
            candidates.deep_view() == self@.candidates,
    {
        &self.candidates
    }

    /// The value that the run would replace, for the operator to see.
    pub fn current(&self) -> (current: String)
        ensures
            current@ == self@.current(),
    {
        proof {
            use_type_invariant(self);
        }
        match self.kind {
            Kind::Context => self.config.current_context_name(),
            Kind::Namespace => self.config.current_namespace(),
        }
    }

    /// The place that the picker starts on: the first.
    pub fn default_index(&self) -> (index: usize)
        ensures
            index == 0,
    {
        0
    }

    /// Goes on with the operator's choice, given as a place among the
    /// candidates. A place outside them stands for the empty name.
    pub fn selected(self, index: usize) -> (outcome: Outcome)
        ensures
            outcome@ == self@.selected(index as int),
    {
        proof {
            use_type_invariant(&self);
        }
        let target = chosen_candidate(&self.candidates, index);
        match self.kind {
            Kind::Context => self.config.switch_context(target),
            Kind::Namespace => self.config.switch_namespace(target),
        }
    }
}

impl Commands {
    /// The name given on the command line, if any.
    pub open spec fn explicit_name(&self) -> Option<String> {
        match self {
            Commands::Context { name } => *name,
            Commands::Namespace { name } => *name,
        }
    }

    /// The field that the command switches.
    pub fn kind(&self) -> (kind: Kind)
        ensures
            kind == Kind::Context <==> self is Context,
            kind == Kind::Namespace <==> self is Namespace,
    {
        match self {
            Commands::Context { .. } => Kind::Context,
            Commands::Namespace { .. } => Kind::Namespace,
        }
    }

    /// The name given on the command line, if any.
    pub fn name(&self) -> (name: &Option<String>)
        ensures
            *name == self.explicit_name(),
    {
        match self {
            Commands::Context { name } => name,
            Commands::Namespace { name } => name,
        }
    }

    /// The first step of a run of this command on `config`. A command that
    /// switches the namespace needs a document with a context of the active
    /// name.
    pub fn start(&self, config: Kubeconfig) -> (step: Step)
        requires
            self is Namespace ==> config@.has_current(),
        ensures
            step@ == match self {
                Commands::Context { name } => context_step(config@, name.deep_view()),
                Commands::Namespace { name } => namespace_step(config@, name.deep_view()),
            },
            self.explicit_name() is Some ==> step is Done,
    {
        match self {
            Commands::Context { name } => context(config, name),
            Commands::Namespace { name } => namespace(config, name),
        }
    }
}

/// The candidate at `index`, or the empty name where `index` is no place of
/// `candidates`.
pub open spec fn chosen(candidates: Seq<Seq<char>>, index: int) -> Seq<char> {
    if 0 <= index < candidates.len() {
        candidates[index]
    } else {
        Seq::empty()
    }
}

/// The name that a choice of the operator stands for: the candidate at
/// `index`, or the empty name where `index` is no place of `candidates`.
pub fn chosen_candidate(candidates: &Vec<String>, index: usize) -> (target: String)
    ensures
        target@ == chosen(candidates.deep_view(), index as int),
{
    if index < candidates.len() {
        candidates[index].clone()
    } else {
        String::new()
    }
}

/// Whatever is chosen from an empty list of candidates is the empty name.
pub proof fn lemma_nothing_to_choose(index: int)
    ensures
        chosen(Seq::empty(), index) == Seq::<char>::empty(),
{
}

} // verus!
