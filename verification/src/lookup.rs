//! Trait lookup: the traits that a value holds directly come first; the
//! conformances of the environment derive the others, and two conformances
//! that both derive the trait that is looked up make the lookup ambiguous.

use vstd::prelude::*;
use vstd::string::*;
use crate::diagnostics::{ReturnState, ReturnStateView, Stack, StackView};
use crate::model::{
    Derivation, EnvironmentView, PrimitiveView, TraitConstructor, Validation, ValueView,
};
use crate::traits::{BuiltinTrait, TraitID};
use crate::value::{
    AssignFn, Dynamic, Environment, EvaluateFn, Function, MacroExpandFn, Primitive, Text, Value,
};

verus! {

/// The error of a lookup or an evaluation that is nested deeper than its limit.
pub open spec fn too_deep(stack: StackView) -> ReturnStateView {
    ReturnStateView::error("Evaluation is nested too deeply"@, stack)
}

/// The error of a lookup to which two conformances apply.
pub open spec fn ambiguous(stack: StackView) -> ReturnStateView {
    ReturnStateView::error("ambiguous trait"@, stack)
}

/// What a conformance that derives by `derivation` gives `value`: the value
/// of the derived trait where `value` has the source trait, nothing where it
/// has not. The source trait is itself looked up, one level deeper.
pub open spec fn derive(
    derivation: Derivation,
    value: ValueView,
    env: EnvironmentView,
    stack: StackView,
    depth: nat,
) -> Result<Option<PrimitiveView>, ReturnStateView>
    decreases depth, 0nat, 0nat,
{
    if depth == 0 {
        Err(too_deep(stack))
    } else {
        match find_trait(
            value,
            TraitID::Builtin(derivation.source()),
            env,
            stack,
            (depth - 1) as nat,
        ) {
            Err(state) => Err(state),
            Ok(None) => Ok(None),
            Ok(Some(source)) => Ok(derivation.apply(source)),
        }
    }
}

/// The conformances from `from` on, tried in order. `found` is what an
/// earlier conformance derived; a second one that applies is an ambiguity.
pub open spec fn scan(
    value: ValueView,
    id: TraitID,
    env: EnvironmentView,
    stack: StackView,
    depth: nat,
    from: int,
    found: Option<PrimitiveView>,
) -> Result<Option<PrimitiveView>, ReturnStateView>
    decreases depth, 1nat, env.conformances.len() - from,
{
    if from < 0 || from >= env.conformances.len() {
        Ok(found)
    } else if env.conformances[from].derived_trait_id != id {
        scan(value, id, env, stack, depth, from + 1, found)
    } else {
        match derive(env.conformances[from].derive_trait_value, value, env, stack, depth) {
            Err(state) => Err(state),
            Ok(None) => scan(value, id, env, stack, depth, from + 1, found),
            Ok(Some(derived)) => if found is Some {
                Err(ambiguous(stack))
            } else {
                scan(value, id, env, stack, depth, from + 1, Some(derived))
            },
        }
    }
}

/// What the trait `id` of `value` holds in `env`, if `value` has the trait.
pub open spec fn find_trait(
    value: ValueView,
    id: TraitID,
    env: EnvironmentView,
    stack: StackView,
    depth: nat,
) -> Result<Option<PrimitiveView>, ReturnStateView>
    decreases depth, 2nat, 0nat,
{
    if value.has_direct(id) {
        Ok(Some(value.traits[id]))
    } else {
        scan(value, id, env, stack, depth, 0, None)
    }
}

/// What the trait `id` of `value` holds; an error where `value` has not the trait.
pub open spec fn get_trait(
    value: ValueView,
    id: TraitID,
    env: EnvironmentView,
    stack: StackView,
    depth: nat,
) -> Result<PrimitiveView, ReturnStateView> {
    match find_trait(value, id, env, stack, depth) {
        Err(state) => Err(state),
        Ok(None) => Err(ReturnStateView::error("Cannot find trait"@, stack)),
        Ok(Some(held)) => Ok(held),
    }
}

/// Whether `value` has the trait `id`.
pub open spec fn has_trait(
    value: ValueView,
    id: TraitID,
    env: EnvironmentView,
    stack: StackView,
    depth: nat,
) -> Result<bool, ReturnStateView> {
    match find_trait(value, id, env, stack, depth) {
        Err(state) => Err(state),
        Ok(found) => Ok(found is Some),
    }
}

/// The primitive of the built-in trait `kind` of `value`, if `value` has the
/// trait; an error where the trait holds something of another kind.
pub open spec fn get_primitive_if_present(
    value: ValueView,
    kind: BuiltinTrait,
    env: EnvironmentView,
    stack: StackView,
    depth: nat,
) -> Result<Option<PrimitiveView>, ReturnStateView> {
    match find_trait(value, TraitID::Builtin(kind), env, stack, depth) {
        Err(state) => Err(state),
        Ok(None) => Ok(None),
        Ok(Some(held)) => if held.kind() == Some(kind) {
            Ok(Some(held))
        } else {
            Err(ReturnStateView::error("Trait value is not of this kind"@, stack))
        },
    }
}

/// The primitive of the built-in trait `kind` of `value`; an error where
/// `value` has not the trait.
pub open spec fn get_primitive(
    value: ValueView,
    kind: BuiltinTrait,
    env: EnvironmentView,
    stack: StackView,
    depth: nat,
) -> Result<PrimitiveView, ReturnStateView> {
    match get_primitive_if_present(value, kind, env, stack, depth) {
        Err(state) => Err(state),
        Ok(None) => Err(ReturnStateView::error("Cannot find trait"@, stack)),
        Ok(Some(held)) => Ok(held),
    }
}

/// What represents `value` under `validation`, if `value` is valid: the
/// value itself where every value is, else what the trait asked for holds.
pub open spec fn validate(
    validation: Validation,
    value: ValueView,
    env: EnvironmentView,
    stack: StackView,
    depth: nat,
) -> Result<Option<PrimitiveView>, ReturnStateView> {
    match validation {
        Validation::Any => Ok(Some(PrimitiveView::Value(Box::new(value)))),
        Validation::Trait(id) => find_trait(value, id, env, stack, depth),
    }
}

/// The value made by `constructor` of `value`: what represents `value`
/// under the constructor's validation, with the constructor's trait, which
/// holds that representation.
pub open spec fn new_value(
    constructor: TraitConstructor,
    value: ValueView,
    env: EnvironmentView,
    stack: StackView,
    depth: nat,
) -> Result<ValueView, ReturnStateView> {
    match validate(constructor.validation, value, env, stack, depth) {
        Err(state) => Err(state),
        Ok(None) => Err(
            ReturnStateView::error("Cannot use this value to represent this trait"@, stack),
        ),
        Ok(Some(valid)) => Ok(ValueView::of(valid).add(constructor.id, valid)),
    }
}

/// The text of `value`: what its `Text` trait holds.
pub open spec fn format(
    value: ValueView,
    env: EnvironmentView,
    stack: StackView,
    depth: nat,
) -> Result<Seq<char>, ReturnStateView> {
    match get_primitive(value, BuiltinTrait::Text, env, stack, depth) {
        Err(state) => Err(state),
        Ok(PrimitiveView::Text(text)) => Ok(text.text),
        Ok(_) => Ok(Seq::empty()),
    }
}

/// `has_trait` is true exactly when the lookup succeeds: when `get_trait`
/// returns what the trait holds. Where the lookup is ambiguous, both fail.
pub proof fn lemma_has_trait_iff_lookup_succeeds(
    value: ValueView,
    id: TraitID,
    env: EnvironmentView,
    stack: StackView,
    depth: nat,
)
    ensures
        has_trait(value, id, env, stack, depth) == Ok::<bool, ReturnStateView>(true) <==> get_trait(
            value,
            id,
            env,
            stack,
            depth,
        ) is Ok,
        has_trait(value, id, env, stack, depth) is Err ==> get_trait(value, id, env, stack, depth)
            == Err::<PrimitiveView, ReturnStateView>(
            has_trait(value, id, env, stack, depth)->Err_0,
        ),
{
}

/// Direct-trait priority: a trait that the value holds directly is what the
/// lookup returns, in every environment. No conformance is consulted: those
/// of another environment give the same result.
pub proof fn lemma_direct_trait_priority(
    value: ValueView,
    id: TraitID,
    env: EnvironmentView,
    other: EnvironmentView,
    stack: StackView,
    depth: nat,
)
    requires
        value.has_direct(id),
    ensures
        find_trait(value, id, env, stack, depth) == Ok::<Option<PrimitiveView>, ReturnStateView>(
            Some(value.traits[id]),
        ),
        find_trait(value, id, env, stack, depth) == find_trait(value, id, other, stack, depth),
{
}

/// Whether the conformance at `index` derives the trait `id` and applies to `value`.
pub open spec fn applies(
    value: ValueView,
    id: TraitID,
    env: EnvironmentView,
    stack: StackView,
    depth: nat,
    index: int,
) -> bool {
    &&& 0 <= index < env.conformances.len()
    &&& env.conformances[index].derived_trait_id == id
    &&& derive(env.conformances[index].derive_trait_value, value, env, stack, depth) matches Ok(
        Some(_),
    )
}

/// Whether no conformance from `from` on that derives `id` fails on `value`.
pub open spec fn none_fails(
    value: ValueView,
    id: TraitID,
    env: EnvironmentView,
    stack: StackView,
    depth: nat,
    from: int,
) -> bool {
    forall|k: int|
        from <= k < env.conformances.len() && #[trigger] env.conformances[k].derived_trait_id == id
            ==> derive(env.conformances[k].derive_trait_value, value, env, stack, depth) is Ok
}

proof fn lemma_scan_ambiguous(
    value: ValueView,
    id: TraitID,
    env: EnvironmentView,
    stack: StackView,
    depth: nat,
    from: int,
    found: Option<PrimitiveView>,
    index: int,
)
    requires
        0 <= from <= index,
        found is Some,
        applies(value, id, env, stack, depth, index),
        none_fails(value, id, env, stack, depth, from),
    ensures
        scan(value, id, env, stack, depth, from, found) == Err::<
            Option<PrimitiveView>,
            ReturnStateView,
        >(ambiguous(stack)),
    decreases index - from,
{
    if from < index {
        if env.conformances[from].derived_trait_id == id {
            assert(derive(env.conformances[from].derive_trait_value, value, env, stack, depth)
                is Ok);
        }
        lemma_scan_ambiguous(value, id, env, stack, depth, from + 1, found, index);
    }
}

proof fn lemma_scan_two(
    value: ValueView,
    id: TraitID,
    env: EnvironmentView,
    stack: StackView,
    depth: nat,
    from: int,
    first: int,
    second: int,
)
    requires
        0 <= from <= first < second,
        applies(value, id, env, stack, depth, first),
        applies(value, id, env, stack, depth, second),
        none_fails(value, id, env, stack, depth, from),
    ensures
        scan(value, id, env, stack, depth, from, None) == Err::<
            Option<PrimitiveView>,
            ReturnStateView,
        >(ambiguous(stack)),
    decreases first - from,
{
    let here = derive(env.conformances[from].derive_trait_value, value, env, stack, depth);
    if env.conformances[from].derived_trait_id == id {
        assert(here is Ok);
    }
    if env.conformances[from].derived_trait_id == id && here is Ok && here->Ok_0 is Some {
        lemma_scan_ambiguous(value, id, env, stack, depth, from + 1, here->Ok_0, second);
    } else {
        assert(from < first);
        lemma_scan_two(value, id, env, stack, depth, from + 1, first, second);
    }
}

/// Ambiguity detection: where two conformances of the environment both derive
/// the trait and both apply to the value, which does not hold the trait
/// directly, the lookup raises the ambiguity. (A conformance that fails with
/// an error of its own ends the lookup with that error instead; the law
/// speaks of lookups in which none does.)
pub proof fn lemma_ambiguity_detected(
    value: ValueView,
    id: TraitID,
    env: EnvironmentView,
    stack: StackView,
    depth: nat,
    first: int,
    second: int,
)
    requires
        !value.has_direct(id),
        first != second,
        applies(value, id, env, stack, depth, first),
        applies(value, id, env, stack, depth, second),
        none_fails(value, id, env, stack, depth, 0),
    ensures
        find_trait(value, id, env, stack, depth) == Err::<Option<PrimitiveView>, ReturnStateView>(
            ambiguous(stack),
        ),
        has_trait(value, id, env, stack, depth) is Err,
{
    if first < second {
        lemma_scan_two(value, id, env, stack, depth, 0, first, second);
    } else {
        lemma_scan_two(value, id, env, stack, depth, 0, second, first);
    }
}

/// Where no conformance of the environment derives the trait, the lookup is
/// the direct one.
pub proof fn lemma_underived_is_direct(
    value: ValueView,
    id: TraitID,
    env: EnvironmentView,
    stack: StackView,
    depth: nat,
)
    requires
        forall|k: int|
            0 <= k < env.conformances.len() ==> (#[trigger] env.conformances[k]).derived_trait_id
                != id,
    ensures
        find_trait(value, id, env, stack, depth) == if value.has_direct(id) {
            Ok::<Option<PrimitiveView>, ReturnStateView>(Some(value.traits[id]))
        } else {
            Ok(None)
        },
{
    lemma_scan_underived(value, id, env, stack, depth, 0, None);
}

proof fn lemma_scan_underived(
    value: ValueView,
    id: TraitID,
    env: EnvironmentView,
    stack: StackView,
    depth: nat,
    from: int,
    found: Option<PrimitiveView>,
)
    requires
        0 <= from,
        forall|k: int|
            0 <= k < env.conformances.len() ==> (#[trigger] env.conformances[k]).derived_trait_id
                != id,
    ensures
        scan(value, id, env, stack, depth, from, found) == Ok::<
            Option<PrimitiveView>,
            ReturnStateView,
        >(found),
    decreases env.conformances.len() - from,
{
    if from < env.conformances.len() {
        lemma_scan_underived(value, id, env, stack, depth, from + 1, found);
    }
}

/// Whether the conformance at `index`, if it derives the trait `id`, does not apply to `value`.
pub open spec fn passes_over(
    value: ValueView,
    id: TraitID,
    env: EnvironmentView,
    stack: StackView,
    depth: nat,
    index: int,
) -> bool {
    env.conformances[index].derived_trait_id == id ==> derive(
        env.conformances[index].derive_trait_value,
        value,
        env,
        stack,
        depth,
    ) == Ok::<Option<PrimitiveView>, ReturnStateView>(None)
}

proof fn lemma_scan_passed_over(
    value: ValueView,
    id: TraitID,
    env: EnvironmentView,
    stack: StackView,
    depth: nat,
    from: int,
    found: Option<PrimitiveView>,
)
    requires
        0 <= from,
        forall|j: int|
            from <= j < env.conformances.len() ==> #[trigger] passes_over(
                value,
                id,
                env,
                stack,
                depth,
                j,
            ),
    ensures
        scan(value, id, env, stack, depth, from, found) == Ok::<
            Option<PrimitiveView>,
            ReturnStateView,
        >(found),
    decreases env.conformances.len() - from,
{
    if from < env.conformances.len() {
        assert(passes_over(value, id, env, stack, depth, from));
        lemma_scan_passed_over(value, id, env, stack, depth, from + 1, found);
    }
}

proof fn lemma_scan_single(
    value: ValueView,
    id: TraitID,
    env: EnvironmentView,
    stack: StackView,
    depth: nat,
    from: int,
    index: int,
)
    requires
        0 <= from <= index,
        applies(value, id, env, stack, depth, index),
        forall|j: int|
            from <= j < env.conformances.len() && j != index ==> #[trigger] passes_over(
                value,
                id,
                env,
                stack,
                depth,
                j,
            ),
    ensures
        scan(value, id, env, stack, depth, from, None) == derive(
            env.conformances[index].derive_trait_value,
            value,
            env,
            stack,
            depth,
        ),
    decreases index - from,
{
    if from < index {
        assert(passes_over(value, id, env, stack, depth, from));
        lemma_scan_single(value, id, env, stack, depth, from + 1, index);
    } else {
        let derived = derive(env.conformances[index].derive_trait_value, value, env, stack, depth);
        lemma_scan_passed_over(value, id, env, stack, depth, index + 1, derived->Ok_0);
    }
}

/// Where exactly one conformance of the environment that derives the trait
/// applies to the value, which does not hold the trait directly, the lookup
/// returns what that conformance derives.
pub proof fn lemma_single_conformance(
    value: ValueView,
    id: TraitID,
    env: EnvironmentView,
    stack: StackView,
    depth: nat,
    index: int,
)
    requires
        !value.has_direct(id),
        applies(value, id, env, stack, depth, index),
        forall|j: int|
            0 <= j < env.conformances.len() && j != index ==> #[trigger] passes_over(
                value,
                id,
                env,
                stack,
                depth,
                j,
            ),
    ensures
        find_trait(value, id, env, stack, depth) == derive(
            env.conformances[index].derive_trait_value,
            value,
            env,
            stack,
            depth,
        ),
{
    lemma_scan_single(value, id, env, stack, depth, 0, index);
}

pub open spec fn lookup_view(r: Result<Option<Dynamic>, ReturnState>) -> Result<
    Option<PrimitiveView>,
    ReturnStateView,
> {
    match r {
        Ok(Some(held)) => Ok(Some(held@)),
        Ok(None) => Ok(None),
        Err(state) => Err(state@),
    }
}

pub open spec fn held_view(r: Result<Dynamic, ReturnState>) -> Result<
    PrimitiveView,
    ReturnStateView,
> {
    match r {
        Ok(held) => Ok(held@),
        Err(state) => Err(state@),
    }
}

pub open spec fn value_result_view(r: Result<Value, ReturnState>) -> Result<
    ValueView,
    ReturnStateView,
> {
    match r {
        Ok(value) => Ok(value@),
        Err(state) => Err(state@),
    }
}

pub open spec fn flag_view(r: Result<bool, ReturnState>) -> Result<bool, ReturnStateView> {
    match r {
        Ok(flag) => Ok(flag),
        Err(state) => Err(state@),
    }
}

pub open spec fn text_result_view(r: Result<String, ReturnState>) -> Result<
    Seq<char>,
    ReturnStateView,
> {
    match r {
        Ok(text) => Ok(text@),
        Err(state) => Err(state@),
    }
}

impl Derivation {
    /// The trait that a value must have for the derivation to apply.
    pub fn source_trait(&self) -> (r: BuiltinTrait)
        ensures
            r == self.source(),
    {
        match self {
            Derivation::NameAssign => BuiltinTrait::Name,
            Derivation::NameEvaluate => BuiltinTrait::Name,
            Derivation::NameMacroParameter => BuiltinTrait::Name,
            Derivation::NameMacroExpand => BuiltinTrait::Name,
            Derivation::NameClosureParameter => BuiltinTrait::Name,
            Derivation::NameText => BuiltinTrait::Name,
            Derivation::NumberText => BuiltinTrait::Number,
            Derivation::ListEvaluate => BuiltinTrait::List,
            Derivation::ListMacroExpand => BuiltinTrait::List,
            Derivation::BlockEvaluate => BuiltinTrait::Block,
            Derivation::BlockMacroExpand => BuiltinTrait::Block,
            Derivation::ModuleBlockEvaluate => BuiltinTrait::ModuleBlock,
            Derivation::ModuleBlockMacroExpand => BuiltinTrait::ModuleBlock,
            Derivation::ModuleBlockText => BuiltinTrait::ModuleBlock,
            Derivation::ModuleText => BuiltinTrait::Module,
            Derivation::ModuleFunction => BuiltinTrait::Module,
            Derivation::QuotedEvaluate => BuiltinTrait::Quoted,
        }
    }

    /// The trait whose value the derivation makes.
    pub fn target_trait(&self) -> (r: BuiltinTrait)
        ensures
            r == self.target(),
    {
        match self {
            Derivation::NameAssign => BuiltinTrait::Assign,
            Derivation::NameEvaluate => BuiltinTrait::Evaluate,
            Derivation::NameMacroParameter => BuiltinTrait::MacroParameter,
            Derivation::NameMacroExpand => BuiltinTrait::MacroExpand,
            Derivation::NameClosureParameter => BuiltinTrait::ClosureParameter,
            Derivation::NameText => BuiltinTrait::Text,
            Derivation::NumberText => BuiltinTrait::Text,
            Derivation::ListEvaluate => BuiltinTrait::Evaluate,
            Derivation::ListMacroExpand => BuiltinTrait::MacroExpand,
            Derivation::BlockEvaluate => BuiltinTrait::Evaluate,
            Derivation::BlockMacroExpand => BuiltinTrait::MacroExpand,
            Derivation::ModuleBlockEvaluate => BuiltinTrait::Evaluate,
            Derivation::ModuleBlockMacroExpand => BuiltinTrait::MacroExpand,
            Derivation::ModuleBlockText => BuiltinTrait::Text,
            Derivation::ModuleText => BuiltinTrait::Text,
            Derivation::ModuleFunction => BuiltinTrait::Function,
            Derivation::QuotedEvaluate => BuiltinTrait::Evaluate,
        }
    }
}

impl Derivation {
    /// The value of the derived trait, made from the value of the source trait.
    pub fn derive_from(&self, source: &Primitive) -> (r: Option<Primitive>)
        ensures
            match r {
                Some(derived) => self.apply(source@) == Some(derived@),
                None => self.apply(source@) is None,
            },
    {
        match (self, source) {
            (Derivation::NameAssign, Primitive::Name(name)) => Some(
                Primitive::Assign(AssignFn { name: name.clone() }),
            ),
            (Derivation::NameEvaluate, Primitive::Name(name)) => Some(
                Primitive::Evaluate(EvaluateFn::Name(name.clone())),
            ),
            (Derivation::NameMacroParameter, Primitive::Name(name)) => Some(
                Primitive::MacroParameter(name.clone()),
            ),
            (Derivation::NameMacroExpand, Primitive::Name(name)) => Some(
                Primitive::MacroExpand(MacroExpandFn::Name(name.clone())),
            ),
            (Derivation::NameClosureParameter, Primitive::Name(name)) => Some(
                Primitive::ClosureParameter(name.clone()),
            ),
            (Derivation::NameText, Primitive::Name(name)) => Some(
                Primitive::Text(Text { text: name.name.clone(), location: None }),
            ),
            (Derivation::NumberText, Primitive::Number(number)) => Some(
                Primitive::Text(Text { text: number.number.clone(), location: None }),
            ),
            (Derivation::ListEvaluate, Primitive::List(list)) => Some(
                Primitive::Evaluate(EvaluateFn::List(list.clone())),
            ),
            (Derivation::ListMacroExpand, Primitive::List(list)) => Some(
                Primitive::MacroExpand(MacroExpandFn::List(list.clone())),
            ),
            (Derivation::BlockEvaluate, Primitive::Block(block)) => Some(
                Primitive::Evaluate(EvaluateFn::Block(block.clone())),
            ),
            (Derivation::BlockMacroExpand, Primitive::Block(block)) => Some(
                Primitive::MacroExpand(MacroExpandFn::Block(block.clone())),
            ),
            (Derivation::ModuleBlockEvaluate, Primitive::ModuleBlock(block)) => Some(
                Primitive::Evaluate(EvaluateFn::ModuleBlock(block.clone())),
            ),
            (Derivation::ModuleBlockMacroExpand, Primitive::ModuleBlock(block)) => Some(
                Primitive::MacroExpand(MacroExpandFn::ModuleBlock(block.clone())),
            ),
            (Derivation::ModuleBlockText, Primitive::ModuleBlock(_)) => Some(
                Primitive::Text(Text { text: String::from_str("<module block>"), location: None }),
            ),
            (Derivation::ModuleText, Primitive::Module(_)) => Some(
                Primitive::Text(Text { text: String::from_str("<module>"), location: None }),
            ),
            (Derivation::ModuleFunction, Primitive::Module(module)) => Some(
                Primitive::Function(Function::Module(module.clone())),
            ),
            (Derivation::QuotedEvaluate, Primitive::Quoted(quoted)) => Some(
                Primitive::Evaluate(EvaluateFn::Quoted(quoted.clone())),
            ),
            _ => None,
        }
    }
}

/// What a conformance that derives by `derivation` gives `value`.
pub fn derive_trait_value(
    derivation: Derivation,
    value: &Value,
    env: &Environment,
    stack: &Stack,
    depth: usize,
) -> (r: Result<Option<Dynamic>, ReturnState>)
    ensures
        lookup_view(r) == derive(derivation, value@, env@, stack@, depth as nat),
    decreases depth, 0nat, 0nat,
{
    if depth == 0 {
        return Err(ReturnState::error("Evaluation is nested too deeply", stack));
    }
    match find_trait_within(value, TraitID::Builtin(derivation.source_trait()), env, stack, depth - 1) {
        Err(state) => Err(state),
        Ok(None) => Ok(None),
        Ok(Some(source)) => match derivation.derive_from(source.get()) {
            Some(derived) => Ok(Some(Dynamic::new(derived))),
            None => Ok(None),
        },
    }
}

fn scan_conformances(
    value: &Value,
    id: TraitID,
    env: &Environment,
    stack: &Stack,
    depth: usize,
    from: usize,
    found: Option<Dynamic>,
) -> (r: Result<Option<Dynamic>, ReturnState>)
    ensures
        lookup_view(r) == scan(
            value@,
            id,
            env@,
            stack@,
            depth as nat,
            from as int,
            lookup_view(Ok(found))->Ok_0,
        ),
    decreases depth, 1nat, env.conformances.len() - from,
{
    if from >= env.conformances.len() {
        return Ok(found);
    }
    let conformance = env.conformances[from];
    if conformance.derived_trait_id != id {
        return scan_conformances(value, id, env, stack, depth, from + 1, found);
    }
    match derive_trait_value(conformance.derive_trait_value, value, env, stack, depth) {
        Err(state) => Err(state),
        Ok(None) => scan_conformances(value, id, env, stack, depth, from + 1, found),
        Ok(Some(derived)) => {
            if found.is_some() {
                Err(ReturnState::error("ambiguous trait", stack))
            } else {
                scan_conformances(value, id, env, stack, depth, from + 1, Some(derived))
            }
        },
    }
}

/// What the trait `id` of `value` holds in `env`, if `value` has the trait,
/// with conformances nested at most `depth` deep.
pub fn find_trait_within(
    value: &Value,
    id: TraitID,
    env: &Environment,
    stack: &Stack,
    depth: usize,
) -> (r: Result<Option<Dynamic>, ReturnState>)
    ensures
        lookup_view(r) == find_trait(value@, id, env@, stack@, depth as nat),
    decreases depth, 2nat, 0nat,
{
    match value.find_direct(id) {
        Some(held) => Ok(Some(held)),
        None => scan_conformances(value, id, env, stack, depth, 0, None),
    }
}


/// The primitive of the built-in trait `kind` of `value`, if `value` has the
/// trait, with conformances nested at most `depth` deep.
pub fn get_primitive_if_present_within(
    value: &Value,
    kind: BuiltinTrait,
    env: &Environment,
    stack: &Stack,
    depth: usize,
) -> (r: Result<Option<Dynamic>, ReturnState>)
    ensures
        lookup_view(r) == get_primitive_if_present(value@, kind, env@, stack@, depth as nat),
{
    match find_trait_within(value, TraitID::Builtin(kind), env, stack, depth) {
        Err(state) => Err(state),
        Ok(None) => Ok(None),
        Ok(Some(held)) => {
            if held.kind() == Some(kind) {
                Ok(Some(held))
            } else {
                Err(ReturnState::error("Trait value is not of this kind", stack))
            }
        },
    }
}

/// The primitive of the built-in trait `kind` of `value`, with conformances
/// nested at most `depth` deep; an error where `value` has not the trait.
pub fn get_primitive_within(
    value: &Value,
    kind: BuiltinTrait,
    env: &Environment,
    stack: &Stack,
    depth: usize,
) -> (r: Result<Dynamic, ReturnState>)
    ensures
        held_view(r) == get_primitive(value@, kind, env@, stack@, depth as nat),
{
    match get_primitive_if_present_within(value, kind, env, stack, depth) {
        Err(state) => Err(state),
        Ok(None) => Err(ReturnState::error("Cannot find trait", stack)),
        Ok(Some(held)) => Ok(held),
    }
}

/// Whether `value` has the trait `id`, with conformances nested at most `depth` deep.
pub fn has_trait_within(
    value: &Value,
    id: TraitID,
    env: &Environment,
    stack: &Stack,
    depth: usize,
) -> (r: Result<bool, ReturnState>)
    ensures
        flag_view(r) == has_trait(value@, id, env@, stack@, depth as nat),
{
    match find_trait_within(value, id, env, stack, depth) {
        Err(state) => Err(state),
        Ok(found) => Ok(found.is_some()),
    }
}

/// What represents `value` under `validation`, if `value` is valid.
pub fn validate_within(
    validation: Validation,
    value: &Value,
    env: &Environment,
    stack: &Stack,
    depth: usize,
) -> (r: Result<Option<Dynamic>, ReturnState>)
    ensures
        lookup_view(r) == validate(validation, value@, env@, stack@, depth as nat),
{
    match validation {
        Validation::Any => Ok(Some(Dynamic::new(Primitive::Value(value.clone())))),
        Validation::Trait(id) => find_trait_within(value, id, env, stack, depth),
    }
}

/// The value made by `constructor` of `value`.
pub fn new_value_within(
    constructor: TraitConstructor,
    value: &Value,
    env: &Environment,
    stack: &Stack,
    depth: usize,
) -> (r: Result<Value, ReturnState>)
    ensures
        value_result_view(r) == new_value(constructor, value@, env@, stack@, depth as nat),
{
    match validate_within(constructor.validation, value, env, stack, depth) {
        Err(state) => Err(state),
        Ok(None) => Err(
            ReturnState::error("Cannot use this value to represent this trait", stack),
        ),
        Ok(Some(valid)) => {
            let base = Value::of(valid.get().clone());
            Ok(base.add(constructor.id, valid))
        },
    }
}

} // verus!
