//! The kubeconfig document as far as the commands read and write it.

use vstd::prelude::*;

verus! {

/// The associations of a context. Only the namespace is read or written here.
#[derive(Clone, Debug, PartialEq, Eq)]
pub struct Context {
    /// The namespace used when a request names none; unset means `default`.
    pub namespace: Option<String>,
}

/// A context together with the name it is referred to by.
#[derive(Clone, Debug, PartialEq, Eq)]
pub struct NamedContext {
    pub name: String,
    pub context: Context,
}

/// The document: its contexts, in file order, and the name of the active one.
#[derive(Clone, Debug, PartialEq, Eq)]
pub struct Kubeconfig {
    pub contexts: Vec<NamedContext>,
    pub current_context: Option<String>,
}

/// Mathematical model of a [`NamedContext`].
pub struct EntryView {
    pub name: Seq<char>,
    pub namespace: Option<Seq<char>>,
}

/// Mathematical model of a [`Kubeconfig`].
pub struct KubeconfigView {
    pub contexts: Seq<EntryView>,
    pub current_context: Option<Seq<char>>,
}

impl View for NamedContext {
    type V = EntryView;

    open spec fn view(&self) -> EntryView {
        EntryView { name: self.name@, namespace: self.context.namespace.deep_view() }
    }
}

impl View for Kubeconfig {
    type V = KubeconfigView;

    open spec fn view(&self) -> KubeconfigView {
        KubeconfigView {
            contexts: Seq::new(self.contexts@.len(), |i: int| self.contexts@[i]@),
            current_context: self.current_context.deep_view(),
        }
    }
}

/// The namespace that a context without one of its own stands for.
pub const DEFAULT_NAMESPACE: &'static str = "default";

impl KubeconfigView {
    /// The name of the active context; the empty name when none is set.
    pub open spec fn current_name(self) -> Seq<char> {
        match self.current_context {
            Some(name) => name,
            None => Seq::empty(),
        }
    }

    /// The names of the contexts, in order.
    pub open spec fn names(self) -> Seq<Seq<char>> {
        Seq::new(self.contexts.len(), |i: int| self.contexts[i].name)
    }

    /// Whether `i` is the place of a context that the active name refers to.
    pub open spec fn is_current(self, i: int) -> bool {
        0 <= i < self.contexts.len() && self.contexts[i].name == self.current_name()
    }

    /// Whether some context carries the active name.
    pub open spec fn has_current(self) -> bool {
        exists|i: int| self.is_current(i)
    }

    /// Whether `i` is the first place of a context that carries the active name.
    pub open spec fn is_first_current(self, i: int) -> bool {
        self.is_current(i) && forall|j: int| 0 <= j < i ==> !self.is_current(j)
    }

    /// The first place of a context that carries the active name.
    pub open spec fn current_index(self) -> int {
        choose|i: int| self.is_first_current(i)
    }

    /// The namespace of the active context, `default` when it has none set.
    pub open spec fn current_namespace(self) -> Seq<char> {
        match self.contexts[self.current_index()].namespace {
            Some(namespace) => namespace,
            None => DEFAULT_NAMESPACE@,
        }
    }

    /// The document with `target` as the active name.
    pub open spec fn with_current(self, target: Seq<char>) -> KubeconfigView {
        KubeconfigView { contexts: self.contexts, current_context: Some(target) }
    }

    /// The document with `target` as the namespace of every context that
    /// carries the active name.
    pub open spec fn with_namespace(self, target: Seq<char>) -> KubeconfigView {
        KubeconfigView {
            contexts: Seq::new(
                self.contexts.len(),
                |i: int|
                    if self.is_current(i) {
                        EntryView { name: self.contexts[i].name, namespace: Some(target) }
                    } else {
                        self.contexts[i]
                    },
            ),
            current_context: self.current_context,
        }
    }

    /// Whether no two contexts have the same name.
    pub open spec fn names_unique(self) -> bool {
        forall|i: int, j: int|
            0 <= i < j < self.contexts.len() ==> self.contexts[i].name != self.contexts[j].name
    }

    /// Among the places up to `i` that carry the active name there is a first.
    proof fn lemma_first_current_upto(self, i: int)
        requires
            self.is_current(i),
        ensures
            exists|k: int| self.is_first_current(k),
        decreases i,
    {
        if exists|j: int| 0 <= j < i && self.is_current(j) {
            let j = choose|j: int| 0 <= j < i && self.is_current(j);
            self.lemma_first_current_upto(j);
        } else {
            assert(self.is_first_current(i));
        }
    }

    /// A document with a context of the active name has exactly one first such
    /// context, and `current_index` is its place.
    pub proof fn lemma_current_index(self)
        requires
            self.has_current(),
        ensures
            self.is_first_current(self.current_index()),
            forall|i: int| self.is_first_current(i) ==> i == self.current_index(),
    {
        let w = choose|i: int| self.is_current(i);
        self.lemma_first_current_upto(w);
        let k = self.current_index();
        assert forall|i: int| self.is_first_current(i) implies i == k by {
            if i < k {
                assert(!self.is_current(i));
            } else if k < i {
                assert(!self.is_current(k));
            }
        }
    }
}

impl Kubeconfig {
    /// The name of the active context; the empty name when none is set.
    pub fn current_context_name(&self) -> (name: String)
        ensures
            name@ == self@.current_name(),
    {
        match &self.current_context {
            Some(name) => name.clone(),
            None => String::new(),
        }
    }

    /// The names of the contexts, in order.
    pub fn context_names(&self) -> (names: Vec<String>)
        ensures
            names.deep_view() == self@.names(),
    {
        let mut names: Vec<String> = Vec::new();
        let mut i: usize = 0;
        while i < self.contexts.len()
            invariant
                i <= self.contexts.len(),
                names@.len() == i,
                forall|j: int| 0 <= j < i ==> names@[j]@ == self.contexts@[j].name@,
            decreases self.contexts.len() - i,
        {
            names.push(self.contexts[i].name.clone());
            i = i + 1;
        }
        assert(names.deep_view() =~= self@.names());
        names
    }

    /// The place of the first context that carries the active name, if any.
    pub fn current_entry(&self) -> (found: Option<usize>)
        ensures
            found is Some <==> self@.has_current(),
            found matches Some(i) ==> i == self@.current_index() && self@.is_first_current(
                i as int,
            ),
    {
        let current = self.current_context_name();
        let mut i: usize = 0;
        while i < self.contexts.len()
            invariant
                i <= self.contexts.len(),
                current@ == self@.current_name(),
                forall|j: int| 0 <= j < i ==> !self@.is_current(j),
            decreases self.contexts.len() - i,
        {
            if self.contexts[i].name == current {
                proof {
                    assert(self@.is_current(i as int));
                    assert(self@.is_first_current(i as int));
                    self@.lemma_current_index();
                }
                return Some(i);
            }
            i = i + 1;
        }
        None
    }

    /// The namespace of the active context, `default` when it has none set.
    pub fn current_namespace(&self) -> (namespace: String)
        requires
            self@.has_current(),
        ensures
            namespace@ == self@.current_namespace(),
    {
        let found = self.current_entry();
        let i = found.unwrap();
        match &self.contexts[i].context.namespace {
            Some(namespace) => namespace.clone(),
            None => DEFAULT_NAMESPACE.to_string(),
        }
    }

    /// Makes `target` the active name. No context is looked at.
    pub fn set_current_context(&mut self, target: String)
        ensures
            final(self)@ == old(self)@.with_current(target@),
    {
        self.current_context = Some(target);
        assert(self@.contexts =~= old(self)@.contexts);
    }

    /// Gives every context that carries the active name the namespace `target`.
    /// The other contexts, the order and the active name stay as they are.
    pub fn set_namespace(&mut self, target: &str)
        ensures
            final(self)@ == old(self)@.with_namespace(target@),
    {
        let ghost after = old(self)@.with_namespace(target@);
        let current = self.current_context_name();
        let mut i: usize = 0;
        while i < self.contexts.len()
            invariant
                i <= self.contexts.len(),
                self.contexts@.len() == old(self).contexts@.len(),
                self.current_context == old(self).current_context,
                current@ == old(self)@.current_name(),
                after == old(self)@.with_namespace(target@),
                forall|j: int| 0 <= j < i ==> self.contexts@[j]@ == after.contexts[j],
                forall|j: int|
                    i <= j < self.contexts@.len() ==> self.contexts@[j] == old(self).contexts@[j],
            decreases self.contexts.len() - i,
        {
            if self.contexts[i].name == current {
                self.contexts[i].context.namespace = Some(target.to_string());
            }
            i = i + 1;
        }
        assert(self@.contexts =~= after.contexts);
    }
}

} // verus!
