//! Environments: scopes that hold variables, conformances, the operator
//! registry and the driver's roots, each chained to the scope it was made in.
//!
//! A child is seeded from its parent slot by slot: the variables and the
//! conformances of the parent are carried over, the child's own coming after
//! them; the operator registry, what is done with shown values and the number
//! of the next trait are carried over; the project root and the current file
//! start unset and are looked up through the chain.
//!
//! An environment is a value: a scope holds the scope it was made in as that
//! scope was then. One thing is handed back when a scope is left: the number
//! of the next trait, so that no two traits that a program makes get the same.

use vstd::prelude::*;
use vstd::string::*;
use std::rc::Rc;
use crate::diagnostics::text_option_view;
use crate::model::{Conformance, Derivation, EnvironmentView, ShowFn, ValueView};
use crate::operators::{
    Associativity, Operator, Precedence, PrecedenceGroupComparison, PrecedenceView,
};
use crate::traits::TraitID;
use crate::value::{
    clone_variables, share, variables_entries, Environment, Value, Variable,
    lemma_bindings_map_push, bindings_map,
};

verus! {

impl EnvironmentView {
    /// The environment that holds nothing and has no parent.
    pub open spec fn empty() -> EnvironmentView {
        EnvironmentView {
            parent: None,
            variables: Map::empty(),
            conformances: Seq::empty(),
            operators: PrecedenceView::empty(),
            show: ShowFn::Nothing,
            next_trait: 0,
            project_root: None,
            current_file: None,
        }
    }

    /// A new scope inside `parent`.
    pub open spec fn child_of(parent: EnvironmentView) -> EnvironmentView {
        EnvironmentView {
            parent: Some(Box::new(parent)),
            variables: parent.variables,
            conformances: parent.conformances,
            operators: parent.operators,
            show: parent.show,
            next_trait: parent.next_trait,
            project_root: None,
            current_file: None,
        }
    }

    /// The variable `name` of this scope itself.
    pub open spec fn get_variable(self, name: Seq<char>) -> Option<ValueView> {
        if self.variables.contains_key(name) {
            Some(self.variables[name])
        } else {
            None
        }
    }

    pub open spec fn set_variable(self, name: Seq<char>, value: ValueView) -> EnvironmentView {
        EnvironmentView { variables: self.variables.insert(name, value), ..self }
    }

    /// The variable `name` of the nearest scope of the chain that has one.
    pub open spec fn lookup(self, name: Seq<char>) -> Option<ValueView>
        decreases self,
    {
        if self.variables.contains_key(name) {
            Some(self.variables[name])
        } else {
            match self.parent {
                Some(parent) => parent.lookup(name),
                None => None,
            }
        }
    }

    pub open spec fn add_conformance(
        self,
        derived_trait_id: TraitID,
        derive_trait_value: Derivation,
    ) -> EnvironmentView {
        EnvironmentView {
            conformances: self.conformances.push(
                Conformance { derived_trait_id, derive_trait_value },
            ),
            ..self
        }
    }

    pub open spec fn add_primitive_conformance(self, derivation: Derivation) -> EnvironmentView {
        self.add_conformance(TraitID::Builtin(derivation.target()), derivation)
    }

    pub open spec fn with_operators(self, operators: PrecedenceView) -> EnvironmentView {
        EnvironmentView { operators, ..self }
    }

    pub open spec fn set_show(self, show: ShowFn) -> EnvironmentView {
        EnvironmentView { show, ..self }
    }

    pub open spec fn set_next_trait(self, next_trait: u128) -> EnvironmentView {
        EnvironmentView { next_trait, ..self }
    }

    /// This scope when the scope `inner` is left: the number of the next
    /// trait is taken over from it.
    pub open spec fn after(self, inner: EnvironmentView) -> EnvironmentView {
        self.set_next_trait(inner.next_trait)
    }

    /// The number of the trait after the next: one more, starting over after the last.
    pub open spec fn following_trait(self) -> u128 {
        if self.next_trait == u128::MAX {
            0
        } else {
            (self.next_trait + 1) as u128
        }
    }

    pub open spec fn set_project_root(self, path: Option<Seq<char>>) -> EnvironmentView {
        EnvironmentView { project_root: path, ..self }
    }

    pub open spec fn set_current_file(self, path: Option<Seq<char>>) -> EnvironmentView {
        EnvironmentView { current_file: path, ..self }
    }

    /// The project root of the nearest scope of the chain that has one.
    pub open spec fn find_project_root(self) -> Option<Seq<char>>
        decreases self,
    {
        match self.project_root {
            Some(path) => Some(path),
            None => match self.parent {
                Some(parent) => parent.find_project_root(),
                None => None,
            },
        }
    }

    /// The current file of the nearest scope of the chain that has one.
    pub open spec fn find_current_file(self) -> Option<Seq<char>>
        decreases self,
    {
        match self.current_file {
            Some(path) => Some(path),
            None => match self.parent {
                Some(parent) => parent.find_current_file(),
                None => None,
            },
        }
    }
}

/// The slots of an environment, by which each is known.
#[derive(Clone, Copy, PartialEq, Eq, Structural, Debug)]
pub enum EnvironmentKey {
    Variables,
    Conformances,
    Operators,
    Show,
    NextTrait,
    ProjectRoot,
    CurrentFile,
}

/// How the slot of a new child is made from the parent's and the child's own.
#[derive(Clone, Copy, PartialEq, Eq, Structural, Debug)]
pub enum UseFn {
    /// The parent's contents, then the child's own; the child's win where both hold the same.
    Merge,
    /// The child's own contents only.
    TakeNew,
}

/// What a slot holds.
pub enum SlotView {
    Variables(Map<Seq<char>, ValueView>),
    Conformances(Seq<Conformance>),
    Operators(PrecedenceView),
    Show(ShowFn),
    NextTrait(u128),
    Path(Option<Seq<char>>),
}

impl EnvironmentKey {
    /// How a child's slot of this key is seeded.
    pub open spec fn use_fn(self) -> UseFn {
        match self {
            EnvironmentKey::Variables => UseFn::Merge,
            EnvironmentKey::Conformances => UseFn::Merge,
            EnvironmentKey::Operators => UseFn::Merge,
            EnvironmentKey::Show => UseFn::Merge,
            EnvironmentKey::NextTrait => UseFn::Merge,
            EnvironmentKey::ProjectRoot => UseFn::TakeNew,
            EnvironmentKey::CurrentFile => UseFn::TakeNew,
        }
    }

    /// What the slot of this key holds before anything is put there.
    pub open spec fn initial(self) -> SlotView {
        match self {
            EnvironmentKey::Variables => SlotView::Variables(Map::empty()),
            EnvironmentKey::Conformances => SlotView::Conformances(Seq::empty()),
            EnvironmentKey::Operators => SlotView::Operators(PrecedenceView::empty()),
            EnvironmentKey::Show => SlotView::Show(ShowFn::Nothing),
            EnvironmentKey::NextTrait => SlotView::NextTrait(0),
            EnvironmentKey::ProjectRoot => SlotView::Path(None),
            EnvironmentKey::CurrentFile => SlotView::Path(None),
        }
    }

    /// The slot of a child, made from the parent's slot and the child's own.
    /// The operator registry of a child that has made no group of its own is
    /// the parent's, and so is what is done with shown values where the child
    /// has not said what.
    pub open spec fn merge(self, parent: SlotView, child: SlotView) -> SlotView {
        match self.use_fn() {
            UseFn::TakeNew => child,
            UseFn::Merge => match (parent, child) {
                (SlotView::Variables(parent), SlotView::Variables(child)) => SlotView::Variables(
                    parent.union_prefer_right(child),
                ),
                (
                    SlotView::Conformances(parent),
                    SlotView::Conformances(child),
                ) => SlotView::Conformances(parent + child),
                (SlotView::Operators(parent), SlotView::Operators(child)) => if child
                    == PrecedenceView::empty() {
                    SlotView::Operators(parent)
                } else {
                    SlotView::Operators(child)
                },
                (SlotView::Show(parent), SlotView::Show(child)) => if child == ShowFn::Nothing {
                    SlotView::Show(parent)
                } else {
                    SlotView::Show(child)
                },
                (SlotView::NextTrait(parent), SlotView::NextTrait(child)) => if child == 0 {
                    SlotView::NextTrait(parent)
                } else {
                    SlotView::NextTrait(child)
                },
                _ => child,
            },
        }
    }

    /// Whether the scopes inside an environment see this slot of it. Every
    /// slot that the library knows is seen: through the merge where the slot
    /// is merged, through the lookup along the chain where it is not.
    pub fn used_by_children(&self) -> (r: bool)
        ensures
            r,
    {
        true
    }

    /// How a child's slot of this key is seeded.
    pub fn seeding(&self) -> (r: UseFn)
        ensures
            r == self.use_fn(),
    {
        match self {
            EnvironmentKey::Variables => UseFn::Merge,
            EnvironmentKey::Conformances => UseFn::Merge,
            EnvironmentKey::Operators => UseFn::Merge,
            EnvironmentKey::Show => UseFn::Merge,
            EnvironmentKey::NextTrait => UseFn::Merge,
            EnvironmentKey::ProjectRoot => UseFn::TakeNew,
            EnvironmentKey::CurrentFile => UseFn::TakeNew,
        }
    }
}

impl EnvironmentView {
    /// What the slot `key` of this scope holds.
    pub open spec fn slot(self, key: EnvironmentKey) -> SlotView {
        match key {
            EnvironmentKey::Variables => SlotView::Variables(self.variables),
            EnvironmentKey::Conformances => SlotView::Conformances(self.conformances),
            EnvironmentKey::Operators => SlotView::Operators(self.operators),
            EnvironmentKey::Show => SlotView::Show(self.show),
            EnvironmentKey::NextTrait => SlotView::NextTrait(self.next_trait),
            EnvironmentKey::ProjectRoot => SlotView::Path(self.project_root),
            EnvironmentKey::CurrentFile => SlotView::Path(self.current_file),
        }
    }

    /// This scope with `slot` in place of what the slot `key` held; unchanged
    /// where `slot` is not of the kind of `key`.
    pub open spec fn with_slot(self, key: EnvironmentKey, slot: SlotView) -> EnvironmentView {
        match (key, slot) {
            (EnvironmentKey::Variables, SlotView::Variables(variables)) => EnvironmentView {
                variables,
                ..self
            },
            (
                EnvironmentKey::Conformances,
                SlotView::Conformances(conformances),
            ) => EnvironmentView { conformances, ..self },
            (EnvironmentKey::Operators, SlotView::Operators(operators)) => EnvironmentView {
                operators,
                ..self
            },
            (EnvironmentKey::Show, SlotView::Show(show)) => EnvironmentView { show, ..self },
            (EnvironmentKey::NextTrait, SlotView::NextTrait(next_trait)) => EnvironmentView {
                next_trait,
                ..self
            },
            (EnvironmentKey::ProjectRoot, SlotView::Path(path)) => EnvironmentView {
                project_root: path,
                ..self
            },
            (EnvironmentKey::CurrentFile, SlotView::Path(path)) => EnvironmentView {
                current_file: path,
                ..self
            },
            _ => self,
        }
    }
}

/// Every slot of a new child is its key's merge of the parent's slot and the
/// slot as it is before anything is put there.
pub proof fn lemma_child_slots_are_merged(parent: EnvironmentView, key: EnvironmentKey)
    ensures
        EnvironmentView::child_of(parent).slot(key) == key.merge(parent.slot(key), key.initial()),
{
    assert(parent.variables.union_prefer_right(Map::empty()) =~= parent.variables);
    assert(parent.conformances + Seq::empty() =~= parent.conformances);
}

/// Child-scope isolation, for any key: whatever is put into a slot of a
/// child, the parent that the child holds is the environment it was made
/// from, and each of its slots is as it was.
pub proof fn lemma_child_slot_is_isolated(
    parent: EnvironmentView,
    key: EnvironmentKey,
    slot: SlotView,
    other: EnvironmentKey,
)
    ensures
        EnvironmentView::child_of(parent).with_slot(key, slot).parent == Some(Box::new(parent)),
        (*EnvironmentView::child_of(parent).with_slot(key, slot).parent.unwrap()).slot(other)
            == parent.slot(other),
{
}

/// Child-scope isolation, for each way of changing a slot: the parent that
/// the changed child holds is the environment it was made from, unchanged.
pub proof fn lemma_child_scope_isolation(
    parent: EnvironmentView,
    name: Seq<char>,
    value: ValueView,
    id: TraitID,
    derivation: Derivation,
    operators: PrecedenceView,
    show: ShowFn,
    path: Option<Seq<char>>,
)
    ensures
        EnvironmentView::child_of(parent).parent == Some(Box::new(parent)),
        EnvironmentView::child_of(parent).set_show(show).parent == Some(Box::new(parent)),
        EnvironmentView::child_of(parent).set_variable(name, value).parent == Some(
            Box::new(parent),
        ),
        EnvironmentView::child_of(parent).add_conformance(id, derivation).parent == Some(
            Box::new(parent),
        ),
        EnvironmentView::child_of(parent).with_operators(operators).parent == Some(
            Box::new(parent),
        ),
        EnvironmentView::child_of(parent).set_project_root(path).parent == Some(Box::new(parent)),
        EnvironmentView::child_of(parent).set_current_file(path).parent == Some(Box::new(parent)),
{
}

/// A variable set in a child is found there, and the parent's own lookup is as before.
pub proof fn lemma_child_variable_is_local(
    parent: EnvironmentView,
    name: Seq<char>,
    value: ValueView,
)
    ensures
        EnvironmentView::child_of(parent).set_variable(name, value).lookup(name) == Some(value),
        (*EnvironmentView::child_of(parent).set_variable(name, value).parent.unwrap()).lookup(name)
            == parent.lookup(name),
{
}

fn clone_text_option(text: &Option<String>) -> (r: Option<String>)
    ensures
        text_option_view(r) == text_option_view(*text),
{
    match text {
        Some(t) => Some(t.clone()),
        None => None,
    }
}

fn clone_conformances(conformances: &Vec<Conformance>) -> (r: Vec<Conformance>)
    ensures
        r@ == conformances@,
{
    let mut r: Vec<Conformance> = Vec::new();
    let mut i: usize = 0;
    while i < conformances.len()
        invariant
            i <= conformances.len(),
            r@ == conformances@.subrange(0, i as int),
        decreases conformances.len() - i,
    {
        r.push(conformances[i]);
        assert(r@ =~= conformances@.subrange(0, i as int + 1));
        i += 1;
    }
    assert(r@ =~= conformances@);
    r
}

impl Clone for Environment {
    fn clone(&self) -> (r: Self)
        ensures
            r@ == self@,
    {
        Environment {
            parent: match &self.parent {
                Some(parent) => Some(share(parent)),
                None => None,
            },
            variables: clone_variables(&self.variables),
            conformances: clone_conformances(&self.conformances),
            operators: self.operators.clone(),
            show: self.show,
            next_trait: self.next_trait,
            project_root: clone_text_option(&self.project_root),
            current_file: clone_text_option(&self.current_file),
        }
    }
}

impl Default for Environment {
    fn default() -> (r: Self)
        ensures
            r@ == EnvironmentView::empty(),
    {
        Environment::new()
    }
}

impl Environment {
    /// An environment that holds nothing and has no parent.
    pub fn new() -> (r: Self)
        ensures
            r@ == EnvironmentView::empty(),
    {
        let r = Environment {
            parent: None,
            variables: Vec::new(),
            conformances: Vec::new(),
            operators: Precedence::new(),
            show: ShowFn::Nothing,
            next_trait: 0,
            project_root: None,
            current_file: None,
        };
        assert(variables_entries(r.variables) =~= Seq::empty());
        r
    }

    /// A new scope inside `parent`.
    pub fn child_of(parent: &Rc<Environment>) -> (r: Self)
        ensures
            r@ == EnvironmentView::child_of(parent@),
    {
        Environment {
            parent: Some(share(parent)),
            variables: clone_variables(&parent.variables),
            conformances: clone_conformances(&parent.conformances),
            operators: parent.operators.clone(),
            show: parent.show,
            next_trait: parent.next_trait,
            project_root: None,
            current_file: None,
        }
    }

    /// A new scope inside this one, which is left as it is.
    pub fn child(&self) -> (r: Self)
        ensures
            r@ == EnvironmentView::child_of(self@),
    {
        let parent = Rc::new(self.clone());
        Environment::child_of(&parent)
    }

    /// The variable `name` of this scope itself.
    pub fn get_variable(&self, name: &str) -> (r: Option<Value>)
        ensures
            match r {
                Some(value) => self@.get_variable(name@) == Some(value@),
                None => self@.get_variable(name@) is None,
            },
    {
        let wanted = String::from_str(name);
        let ghost entries = variables_entries(self.variables);
        let mut i: usize = self.variables.len();
        assert(entries.subrange(0, i as int) =~= entries);
        while i > 0
            invariant
                i <= self.variables.len(),
                wanted@ == name@,
                entries == variables_entries(self.variables),
                bindings_map(entries).contains_key(name@) == bindings_map(
                    entries.subrange(0, i as int),
                ).contains_key(name@),
                bindings_map(entries).contains_key(name@) ==> bindings_map(entries)[name@]
                    == bindings_map(entries.subrange(0, i as int))[name@],
            decreases i,
        {
            i -= 1;
            proof {
                let upto = entries.subrange(0, i as int + 1);
                assert(upto.drop_last() =~= entries.subrange(0, i as int));
                assert(upto.last() == entries[i as int]);
            }
            if self.variables[i].name == wanted {
                return Some(self.variables[i].value.clone());
            }
        }
        proof {
            assert(entries.subrange(0, 0) =~= Seq::empty());
        }
        None
    }

    /// Binds `name` to `value` in this scope.
    pub fn set_variable(&mut self, name: &str, value: Value)
        ensures
            final(self)@ == old(self)@.set_variable(name@, value@),
    {
        let ghost before = variables_entries(self.variables);
        self.variables.push(Variable { name: String::from_str(name), value });
        proof {
            assert(variables_entries(self.variables) =~= before.push((name@, value@)));
            lemma_bindings_map_push(before, name@, value@);
        }
    }

    /// The variable `name` of the nearest scope of the chain that has one.
    pub fn lookup(&self, name: &str) -> (r: Option<Value>)
        ensures
            match r {
                Some(value) => self@.lookup(name@) == Some(value@),
                None => self@.lookup(name@) is None,
            },
        decreases self,
    {
        match self.get_variable(name) {
            Some(value) => Some(value),
            None => match &self.parent {
                Some(parent) => parent.lookup(name),
                None => None,
            },
        }
    }

    /// Sets the number of the next trait that a program makes.
    pub fn set_next_trait(&mut self, next_trait: u128)
        ensures
            final(self)@ == old(self)@.set_next_trait(next_trait),
    {
        self.next_trait = next_trait;
    }

    /// Says what is done with the values that a program shows.
    pub fn set_show(&mut self, show: ShowFn)
        ensures
            final(self)@ == old(self)@.set_show(show),
    {
        self.show = show;
    }

    /// Adds a conformance that derives the trait `derived_trait_id` by `derive_trait_value`.
    pub fn add_conformance(&mut self, derived_trait_id: TraitID, derive_trait_value: Derivation)
        ensures
            final(self)@ == old(self)@.add_conformance(derived_trait_id, derive_trait_value),
    {
        self.conformances.push(Conformance { derived_trait_id, derive_trait_value });
    }

    /// Adds the conformance that derives the trait of the derivation's own target.
    pub fn add_primitive_conformance(&mut self, derivation: Derivation)
        ensures
            final(self)@ == old(self)@.add_primitive_conformance(derivation),
    {
        self.add_conformance(TraitID::Builtin(derivation.target_trait()), derivation);
    }

    /// Creates a precedence group; see `Precedence::precedence_group`.
    pub fn precedence_group(
        &mut self,
        variadic: bool,
        associativity: Associativity,
        comparison: PrecedenceGroupComparison,
    ) -> (r: Option<usize>)
        ensures
            final(self)@ == old(self)@.with_operators(
                old(self)@.operators.with_group(variadic, associativity, comparison).0,
            ),
            r == old(self)@.operators.with_group(variadic, associativity, comparison).1,
    {
        self.operators.precedence_group(variadic, associativity, comparison)
    }

    /// Adds `operator` to the group `group` of its arity.
    pub fn add_operator(&mut self, operator: Operator, group: usize)
        ensures
            final(self)@ == old(self)@.with_operators(
                old(self)@.operators.with_operator(operator, group),
            ),
    {
        self.operators.add_operator(operator, group);
    }
}

} // verus!
