//! Laws of evaluation, proved of the semantics.

use vstd::prelude::*;
use crate::diagnostics::{ReturnStateView, StackView};
use crate::lookup::{
    applies, find_trait, get_primitive_if_present, lemma_single_conformance,
    lemma_underived_is_direct, passes_over,
};
use crate::model::{
    BlockView, Conformance, Derivation, EnvironmentView, EvaluateFnView, ListView, NameView,
    PrimitiveView, QuotedView, ValueView,
};
use crate::semantics::{
    assign, assign_to, evaluate, evaluate_block, evaluate_list, located, run_statements,
};
use crate::traits::{BuiltinTrait, TraitID};

verus! {

/// Assignment is atomic: an assignment that fails, by `:` or `::` or through
/// the `Assign` trait of a name, leaves the environment as it found it.
pub proof fn lemma_failed_assignment_changes_nothing(
    left: Seq<ValueView>,
    right: Seq<ValueView>,
    with_trait: bool,
    name: NameView,
    value: ValueView,
    env: EnvironmentView,
    stack: StackView,
    depth: nat,
)
    ensures
        assign(left, right, with_trait, env, stack, depth).0 is Err ==> assign(
            left,
            right,
            with_trait,
            env,
            stack,
            depth,
        ).1 == env,
        assign_to(name, value, env, stack, depth).0 is Err ==> assign_to(
            name,
            value,
            env,
            stack,
            depth,
        ).1 == env,
{
    lemma_failed_assign_trait_changes_nothing(name, value, env, stack, depth);
}

proof fn lemma_failed_assign_trait_changes_nothing(
    name: NameView,
    value: ValueView,
    env: EnvironmentView,
    stack: StackView,
    depth: nat,
)
    ensures
        assign_to(name, value, env, stack, depth).0 is Err ==> assign_to(
            name,
            value,
            env,
            stack,
            depth,
        ).1 == env,
    decreases depth,
{
    let assign_id = TraitID::Builtin(BuiltinTrait::Assign);
    let bound = crate::semantics::bind(name, value, env, stack, depth);
    assert(bound.0 is Err ==> bound.1 == env);
    match env.lookup(name.name) {
        Some(variable) => {
            let computed = crate::lookup::has_trait(
                variable,
                TraitID::Builtin(BuiltinTrait::Computed),
                env,
                stack,
                depth,
            );
            if computed == Ok::<bool, ReturnStateView>(true) && variable.has_direct(assign_id)
                && depth > 0 {
                match variable.traits[assign_id] {
                    PrimitiveView::Assign(target) => {
                        lemma_failed_assign_trait_changes_nothing(
                            target,
                            value,
                            env,
                            stack,
                            (depth - 1) as nat,
                        );
                    },
                    _ => {},
                }
            } else if computed == Ok::<bool, ReturnStateView>(false) {
                assert(assign_to(name, value, env, stack, depth) == bound);
            }
        },
        None => {
            assert(assign_to(name, value, env, stack, depth) == bound);
        },
    }
}

/// A trait that a program makes is not the one it makes next: the
/// environment moves on to another number.
pub proof fn lemma_new_trait_is_not_the_next(env: EnvironmentView)
    ensures
        crate::semantics::make_trait(env).0 == Ok::<ValueView, ReturnStateView>(
            ValueView::of(
                PrimitiveView::TraitConstructor(
                    crate::model::TraitConstructor {
                        id: TraitID::Runtime(env.next_trait),
                        validation: crate::model::Validation::Any,
                    },
                ),
            ),
        ),
        crate::semantics::make_trait(env).1.next_trait != env.next_trait,
        crate::semantics::make_trait(crate::semantics::make_trait(env).1).0
            != crate::semantics::make_trait(env).0,
{
    let first = crate::model::TraitConstructor {
        id: TraitID::Runtime(env.next_trait),
        validation: crate::model::Validation::Any,
    };
    let after = crate::semantics::make_trait(env).1;
    let second = crate::model::TraitConstructor {
        id: TraitID::Runtime(after.next_trait),
        validation: crate::model::Validation::Any,
    };
    let id = TraitID::Builtin(BuiltinTrait::TraitConstructor);
    let a = ValueView::of(PrimitiveView::TraitConstructor(first));
    let b = ValueView::of(PrimitiveView::TraitConstructor(second));
    assert(a.traits[id] == PrimitiveView::TraitConstructor(first));
    assert(b.traits[id] == PrimitiveView::TraitConstructor(second));
}

/// Whether every conformance of `env` derives the trait of its derivation's own target.
pub open spec fn primitive_conformances_only(env: EnvironmentView) -> bool {
    forall|k: int|
        0 <= k < env.conformances.len() ==> #[trigger] env.conformances[k] == Conformance::primitive(
            env.conformances[k].derive_trait_value,
        )
}

/// Whether exactly one conformance of `env` derives by `derivation`: the one at `index`.
pub open spec fn occurs_once_at(env: EnvironmentView, derivation: Derivation, index: int) -> bool {
    &&& 0 <= index < env.conformances.len()
    &&& forall|k: int|
        0 <= k < env.conformances.len() ==> ((#[trigger] env.conformances[k]).derive_trait_value
            == derivation <==> k == index)
}

/// No derivation makes the value of a trait that is the source of one: the
/// primitives that conformances start from are never derived themselves.
pub proof fn lemma_sources_are_not_derived(from: Derivation, to: Derivation)
    ensures
        from.target() != to.source(),
{
}

/// A quoted value evaluates to what it quotes, unevaluated, and leaves the
/// environment as it is: in every environment whose conformances are
/// conformances of primitives, among them once the one that evaluates quoted
/// values, and with room for two nested evaluations.
pub proof fn lemma_quoted_evaluates_to_inner(
    quoted: QuotedView,
    env: EnvironmentView,
    stack: StackView,
    depth: nat,
    index: int,
)
    requires
        depth >= 2,
        primitive_conformances_only(env),
        occurs_once_at(env, Derivation::QuotedEvaluate, index),
    ensures
        evaluate(ValueView::of(PrimitiveView::Quoted(quoted)), env, stack, depth) == (
            Ok::<ValueView, ReturnStateView>(*quoted.value),
            env,
        ),
{
    let value = ValueView::of(PrimitiveView::Quoted(quoted));
    let id = TraitID::Builtin(BuiltinTrait::Evaluate);
    let held = PrimitiveView::Quoted(quoted);
    assert(value.traits.dom() =~= set![TraitID::Builtin(BuiltinTrait::Quoted)]);
    assert(!value.has_direct(id));
    assert forall|source: BuiltinTrait|
        source != BuiltinTrait::Quoted && (exists|d: Derivation| d.source() == source) implies find_trait(
        value,
        TraitID::Builtin(source),
        env,
        stack,
        (depth - 1) as nat,
    ) == Ok::<Option<PrimitiveView>, ReturnStateView>(None) by {
        let d = choose|d: Derivation| d.source() == source;
        assert forall|k: int| 0 <= k < env.conformances.len() implies (
        #[trigger] env.conformances[k]).derived_trait_id != TraitID::Builtin(source) by {
            lemma_sources_are_not_derived(env.conformances[k].derive_trait_value, d);
        }
        lemma_underived_is_direct(value, TraitID::Builtin(source), env, stack, (depth - 1) as nat);
    }
    assert(find_trait(
        value,
        TraitID::Builtin(BuiltinTrait::Quoted),
        env,
        stack,
        (depth - 1) as nat,
    ) == Ok::<Option<PrimitiveView>, ReturnStateView>(Some(held)));
    assert forall|j: int| 0 <= j < env.conformances.len() && j != index implies #[trigger] passes_over(
        value,
        id,
        env,
        stack,
        depth,
        j,
    ) by {
        let d = env.conformances[j].derive_trait_value;
        assert(env.conformances[j] == Conformance::primitive(d));
        if env.conformances[j].derived_trait_id == id {
            assert(d.target() == BuiltinTrait::Evaluate);
            assert(d != Derivation::QuotedEvaluate);
            assert(d.source() != BuiltinTrait::Quoted);
        }
    }
    assert(env.conformances[index] == Conformance::primitive(Derivation::QuotedEvaluate));
    assert(applies(value, id, env, stack, depth, index));
    lemma_single_conformance(value, id, env, stack, depth, index);
    assert(get_primitive_if_present(value, BuiltinTrait::Evaluate, env, stack, depth) == Ok::<
        Option<PrimitiveView>,
        ReturnStateView,
    >(Some(PrimitiveView::Evaluate(EvaluateFnView::Quoted(quoted)))));
}

/// In an environment with the standard conformances, as every environment
/// made ready from an empty one has them, a quoted value evaluates to what it
/// quotes.
pub proof fn lemma_quoted_in_standard_environment(
    quoted: QuotedView,
    env: EnvironmentView,
    stack: StackView,
    depth: nat,
)
    requires
        depth >= 2,
        env.conformances == crate::setup::standard_conformances(),
    ensures
        evaluate(ValueView::of(PrimitiveView::Quoted(quoted)), env, stack, depth) == (
            Ok::<ValueView, ReturnStateView>(*quoted.value),
            env,
        ),
{
    let derivations = crate::setup::primitive_derivations().push(Derivation::NameClosureParameter);
    assert(derivations.len() == 17);
    assert forall|k: int| 0 <= k < env.conformances.len() implies #[trigger] env.conformances[k]
        == Conformance::primitive(env.conformances[k].derive_trait_value) by {
        assert(env.conformances[k] == Conformance::primitive(derivations[k]));
    }
    assert forall|k: int| 0 <= k < env.conformances.len() implies ((
    #[trigger] env.conformances[k]).derive_trait_value == Derivation::QuotedEvaluate <==> k
        == 15) by {
        assert(env.conformances[k] == Conformance::primitive(derivations[k]));
        assert(derivations[15] == Derivation::QuotedEvaluate);
        if k != 15 {
            assert(derivations[k] != Derivation::QuotedEvaluate);
        }
    }
    lemma_quoted_evaluates_to_inner(quoted, env, stack, depth, 15);
}

/// What statement `index` of `statements` evaluates to, and the environment
/// it leaves, when the statements before it have run from `env` on.
pub open spec fn statement_outcome(
    statements: Seq<ListView>,
    index: int,
    env: EnvironmentView,
    stack: StackView,
    depth: nat,
) -> (Result<ValueView, ReturnStateView>, EnvironmentView)
    decreases index,
{
    if index <= 0 {
        evaluate_list(statements[0], env, located(stack, statements[0].location), depth)
    } else {
        evaluate_list(
            statements[index],
            statement_outcome(statements, index - 1, env, stack, depth).1,
            located(stack, statements[index].location),
            depth,
        )
    }
}

proof fn lemma_run_reaches_last(
    statements: Seq<ListView>,
    from: int,
    last: ValueView,
    catching: bool,
    start: EnvironmentView,
    env: EnvironmentView,
    stack: StackView,
    depth: nat,
)
    requires
        0 <= from < statements.len(),
        forall|i: int|
            0 <= i < statements.len() ==> (#[trigger] statement_outcome(
                statements,
                i,
                start,
                stack,
                depth,
            )).0 is Ok,
        from > 0 ==> env == statement_outcome(statements, from - 1, start, stack, depth).1,
        from == 0 ==> env == start,
    ensures
        run_statements(statements, from, last, catching, env, stack, depth)
            == statement_outcome(statements, statements.len() - 1, start, stack, depth),
    decreases statements.len() - from,
{
    let here = statement_outcome(statements, from, start, stack, depth);
    assert(here.0 is Ok);
    assert(here == evaluate_list(
        statements[from],
        env,
        located(stack, statements[from].location),
        depth,
    ));
    let value = here.0->Ok_0;
    assert(run_statements(statements, from, last, catching, env, stack, depth) == run_statements(
        statements,
        from + 1,
        value,
        catching,
        here.1,
        stack,
        depth,
    ));
    if from + 1 < statements.len() {
        lemma_run_reaches_last(statements, from + 1, value, catching, start, here.1, stack, depth);
    } else {
        assert(here == (Ok::<ValueView, ReturnStateView>(value), here.1));
    }
}

/// The value of a block is the value of its last statement, evaluated in the
/// block's scope after the statements before it, where every statement
/// yields a value: where none raises an error or another state. Of the
/// environment, at most the number of the next trait is other than before.
pub proof fn lemma_block_value_is_last_statement(
    block: BlockView,
    env: EnvironmentView,
    stack: StackView,
    depth: nat,
)
    requires
        block.statements.len() > 0,
        forall|i: int|
            0 <= i < block.statements.len() ==> (#[trigger] statement_outcome(
                block.statements,
                i,
                EnvironmentView::child_of(env),
                located(stack, block.location),
                depth,
            )).0 is Ok,
    ensures
        evaluate_block(block, env, stack, depth).0 == statement_outcome(
            block.statements,
            block.statements.len() - 1,
            EnvironmentView::child_of(env),
            located(stack, block.location),
            depth,
        ).0,
        evaluate_block(block, env, stack, depth).1 == env.set_next_trait(
            evaluate_block(block, env, stack, depth).1.next_trait,
        ),
{
    lemma_run_reaches_last(
        block.statements,
        0,
        ValueView::empty(),
        true,
        EnvironmentView::child_of(env),
        EnvironmentView::child_of(env),
        located(stack, block.location),
        depth,
    );
}

} // verus!
