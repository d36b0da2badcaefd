//! What evaluation means: the value that a value reduces to in an
//! environment, and the environment that is left.
//!
//! Every function here takes the stack under which it runs and a `depth`: the
//! number of evaluations that may still be nested inside one another. The
//! environment that is returned is the one that the evaluation has left, on
//! success and on failure; only an assignment that fails leaves the
//! environment as it found it.

use vstd::prelude::*;
use crate::diagnostics::{ErrorView, LocationView, ReturnStateView, StackView};
use crate::lookup::{get_primitive, get_primitive_if_present, has_trait, new_value, too_deep};
use crate::model::{
    BlockView, ClosureView, EnvironmentView, EvaluateFnView, FunctionView, ListView,
    MacroExpandFnView, MacroView, ModuleBlockView, ModuleView, NameView, NumberView,
    PrimitiveView, ValueView,
};
use crate::number::{arithmetic, Arithmetic};
use crate::operators::{choice, BinaryOperator, Occurrence, Operator, VariadicOperator};
use crate::traits::BuiltinTrait;

verus! {

/// `stack` with a frame `label` at `location` pushed.
pub open spec fn framed(
    stack: StackView,
    label: Seq<char>,
    location: Option<LocationView>,
) -> StackView {
    match location {
        Some(location) => stack.queue_location(location).add(label),
        None => stack.add(label),
    }
}

/// `stack` with `location`, where there is one, queued for the next frame.
pub open spec fn located(stack: StackView, location: Option<LocationView>) -> StackView {
    match location {
        Some(location) => stack.queue_location(location),
        None => stack,
    }
}

/// The one item of `items`, or the list of them where they are not one.
pub open spec fn group(items: Seq<ValueView>) -> ValueView {
    if items.len() == 1 {
        items[0]
    } else {
        ValueView::of(PrimitiveView::List(ListView { items, location: None }))
    }
}

/// The value that holds the number of `numeral`.
pub open spec fn number_value(numeral: Seq<char>) -> ValueView {
    ValueView::of(PrimitiveView::Number(NumberView { number: numeral, location: None }))
}

/// The environment of a module: its variables, and nothing else.
pub open spec fn module_env(module: ModuleView) -> EnvironmentView {
    EnvironmentView { variables: module.values, ..EnvironmentView::empty() }
}

/// What is written out when a program shows `value` in `env`: nothing where
/// the environment shows nothing; else `value` is evaluated and the text of
/// the result is what is written.
pub open spec fn show(value: ValueView, env: EnvironmentView, stack: StackView, depth: nat) -> (
    Result<Option<Seq<char>>, ReturnStateView>,
    EnvironmentView,
) {
    match env.show {
        crate::model::ShowFn::Nothing => (Ok(None), env),
        crate::model::ShowFn::Text => match evaluate(value, env, stack, depth) {
            (Err(state), env) => (Err(state), env),
            (Ok(value), env) => match crate::lookup::format(value, env, stack, depth) {
                Err(state) => (Err(state), env),
                Ok(text) => (Ok(Some(text)), env),
            },
        },
    }
}

// ---------------------------------------------------------------------------
// Macro expansion
// ---------------------------------------------------------------------------
/// `value` with `replacement` in place of the name `parameter`, wherever the
/// value's `Macro-Expand` trait reaches; `value` itself where it has not the trait.
pub open spec fn macro_expand(
    value: ValueView,
    parameter: Seq<char>,
    replacement: ValueView,
    env: EnvironmentView,
    stack: StackView,
    depth: nat,
) -> Result<ValueView, ReturnStateView>
    decreases depth, 0nat, 0nat,
{
    if depth == 0 {
        Err(too_deep(stack))
    } else {
        match get_primitive_if_present(value, BuiltinTrait::MacroExpand, env, stack, depth) {
            Err(state) => Err(state),
            Ok(Some(PrimitiveView::MacroExpand(MacroExpandFnView::Name(name)))) => Ok(
                if name.name == parameter {
                    replacement
                } else {
                    ValueView::of(PrimitiveView::Name(name))
                },
            ),
            Ok(Some(PrimitiveView::MacroExpand(MacroExpandFnView::List(list)))) => match expand_items(
                list.items,
                parameter,
                replacement,
                env,
                stack,
                (depth - 1) as nat,
                0,
                Seq::empty(),
            ) {
                Err(state) => Err(state),
                Ok(items) => Ok(
                    ValueView::of(PrimitiveView::List(ListView { items, location: list.location })),
                ),
            },
            Ok(Some(PrimitiveView::MacroExpand(MacroExpandFnView::Block(block)))) => match expand_statements(
                block.statements,
                parameter,
                replacement,
                env,
                stack,
                (depth - 1) as nat,
                0,
                Seq::empty(),
            ) {
                Err(state) => Err(state),
                Ok(statements) => Ok(
                    ValueView::of(
                        PrimitiveView::Block(BlockView { statements, location: block.location }),
                    ),
                ),
            },
            Ok(Some(PrimitiveView::MacroExpand(MacroExpandFnView::ModuleBlock(block)))) => match expand_statements(
                block.statements,
                parameter,
                replacement,
                env,
                stack,
                (depth - 1) as nat,
                0,
                Seq::empty(),
            ) {
                Err(state) => Err(state),
                Ok(statements) => Ok(
                    ValueView::of(
                        PrimitiveView::ModuleBlock(
                            ModuleBlockView { statements, location: block.location },
                        ),
                    ),
                ),
            },
            Ok(_) => Ok(value),
        }
    }
}

/// `done` followed by the items from `from` on, each expanded.
pub open spec fn expand_items(
    items: Seq<ValueView>,
    parameter: Seq<char>,
    replacement: ValueView,
    env: EnvironmentView,
    stack: StackView,
    depth: nat,
    from: int,
    done: Seq<ValueView>,
) -> Result<Seq<ValueView>, ReturnStateView>
    decreases depth, 1nat, items.len() - from,
{
    if from < 0 || from >= items.len() {
        Ok(done)
    } else {
        match macro_expand(items[from], parameter, replacement, env, stack, depth) {
            Err(state) => Err(state),
            Ok(expanded) => expand_items(
                items,
                parameter,
                replacement,
                env,
                stack,
                depth,
                from + 1,
                done.push(expanded),
            ),
        }
    }
}

/// `done` followed by the statements from `from` on, the items of each expanded.
pub open spec fn expand_statements(
    statements: Seq<ListView>,
    parameter: Seq<char>,
    replacement: ValueView,
    env: EnvironmentView,
    stack: StackView,
    depth: nat,
    from: int,
    done: Seq<ListView>,
) -> Result<Seq<ListView>, ReturnStateView>
    decreases depth, 2nat, statements.len() - from,
{
    if from < 0 || from >= statements.len() {
        Ok(done)
    } else {
        match expand_items(
            statements[from].items,
            parameter,
            replacement,
            env,
            stack,
            depth,
            0,
            Seq::empty(),
        ) {
            Err(state) => Err(state),
            Ok(items) => expand_statements(
                statements,
                parameter,
                replacement,
                env,
                stack,
                depth,
                from + 1,
                done.push(ListView { items, location: statements[from].location }),
            ),
        }
    }
}

// ---------------------------------------------------------------------------
// What an item of a list carries
// ---------------------------------------------------------------------------
/// The primitive of the trait `kind` that `item` carries: that of the
/// variable it names, looked up without computing, where `item` is a name;
/// its own otherwise.
pub open spec fn carried(
    item: ValueView,
    kind: BuiltinTrait,
    env: EnvironmentView,
    stack: StackView,
    depth: nat,
) -> Result<Option<PrimitiveView>, ReturnStateView> {
    match get_primitive_if_present(item, BuiltinTrait::Name, env, stack, depth) {
        Err(state) => Err(state),
        Ok(Some(PrimitiveView::Name(name))) => match env.lookup(name.name) {
            Some(variable) => get_primitive_if_present(variable, kind, env, stack, depth),
            None => Ok(None),
        },
        Ok(_) => get_primitive_if_present(item, kind, env, stack, depth),
    }
}

/// `found` followed by the occurrences of operators among the items from `from` on.
pub open spec fn find_operators(
    items: Seq<ValueView>,
    env: EnvironmentView,
    stack: StackView,
    depth: nat,
    from: int,
    found: Seq<Occurrence>,
) -> Result<Seq<Occurrence>, ReturnStateView>
    decreases items.len() - from,
{
    if from < 0 || from >= items.len() {
        Ok(found)
    } else {
        match carried(items[from], BuiltinTrait::Operator, env, stack, depth) {
            Err(state) => Err(state),
            Ok(Some(PrimitiveView::Operator(operator))) => find_operators(
                items,
                env,
                stack,
                depth,
                from + 1,
                found.push(Occurrence { position: from as usize, operator }),
            ),
            Ok(_) => find_operators(items, env, stack, depth, from + 1, found),
        }
    }
}

/// The first macro at or after `from` that is followed by an argument, with its position.
pub open spec fn first_macro(
    items: Seq<ValueView>,
    env: EnvironmentView,
    stack: StackView,
    depth: nat,
    from: int,
) -> Result<Option<(int, MacroView)>, ReturnStateView>
    decreases items.len() - from,
{
    if from < 0 || from + 1 >= items.len() {
        Ok(None)
    } else {
        match carried(items[from], BuiltinTrait::Macro, env, stack, depth) {
            Err(state) => Err(state),
            Ok(Some(PrimitiveView::Macro(found))) => Ok(Some((from, found))),
            Ok(_) => first_macro(items, env, stack, depth, from + 1),
        }
    }
}

/// The error of an evaluation that ran too deep inside the expansion of a macro.
pub open spec fn relabel(
    result: Result<ValueView, ReturnStateView>,
    expanded: bool,
) -> Result<ValueView, ReturnStateView> {
    match result {
        Err(ReturnStateView::Error(error)) if expanded && error.message
            == "Evaluation is nested too deeply"@ => Err(
            ReturnStateView::Error(
                ErrorView { message: "Macro expands infinitely"@, stack: error.stack },
            ),
        ),
        _ => result,
    }
}

/// What is left of a list when its operators have been applied.
pub enum Reduction {
    /// The operators have made one value of the list.
    Value(ValueView),
    /// No operator is left among these items.
    Items(Seq<ValueView>),
}

/// The result of an arithmetic operator on two numerals.
pub open spec fn arithmetic_value(
    operator: BinaryOperator,
    left: Seq<char>,
    right: Seq<char>,
    stack: StackView,
) -> Result<ValueView, ReturnStateView> {
    match arithmetic(operator, left, right) {
        Arithmetic::Numeral(numeral) => Ok(number_value(numeral)),
        Arithmetic::Invalid => Err(ReturnStateView::error("Invalid number"@, stack)),
        Arithmetic::DivisionByZero => Err(ReturnStateView::error("Division by zero"@, stack)),
    }
}

// ---------------------------------------------------------------------------
// Evaluation
// ---------------------------------------------------------------------------
/// The value that `value` reduces to: what its `Evaluate` trait makes of it,
/// or `value` itself where it has not the trait.
pub open spec fn evaluate(
    value: ValueView,
    env: EnvironmentView,
    stack: StackView,
    depth: nat,
) -> (Result<ValueView, ReturnStateView>, EnvironmentView)
    decreases depth, 0nat, 0nat,
{
    if depth == 0 {
        (Err(too_deep(stack)), env)
    } else {
        match get_primitive_if_present(value, BuiltinTrait::Evaluate, env, stack, depth) {
            Err(state) => (Err(state), env),
            Ok(Some(PrimitiveView::Evaluate(EvaluateFnView::Name(name)))) => resolve_in(
                name,
                env,
                env,
                stack,
                (depth - 1) as nat,
            ),
            Ok(Some(PrimitiveView::Evaluate(EvaluateFnView::List(list)))) => evaluate_list(
                list,
                env,
                stack,
                (depth - 1) as nat,
            ),
            Ok(Some(PrimitiveView::Evaluate(EvaluateFnView::Block(block)))) => evaluate_block(
                block,
                env,
                stack,
                (depth - 1) as nat,
            ),
            Ok(Some(PrimitiveView::Evaluate(EvaluateFnView::ModuleBlock(block)))) => evaluate_module_block(
                block,
                env,
                stack,
                (depth - 1) as nat,
            ),
            Ok(Some(PrimitiveView::Evaluate(EvaluateFnView::Quoted(quoted)))) => (
                Ok(*quoted.value),
                env,
            ),
            Ok(Some(PrimitiveView::Evaluate(EvaluateFnView::Trait))) => make_trait(env),
            Ok(_) => (Ok(value), env),
        }
    }
}

/// The constructor of a trait that was not there before: the trait of the
/// environment's next number, with which every value is valid. The
/// environment moves on to the number after.
pub open spec fn make_trait(env: EnvironmentView) -> (
    Result<ValueView, ReturnStateView>,
    EnvironmentView,
) {
    (
        Ok(
            ValueView::of(
                PrimitiveView::TraitConstructor(
                    crate::model::TraitConstructor {
                        id: crate::traits::TraitID::Runtime(env.next_trait),
                        validation: crate::model::Validation::Any,
                    },
                ),
            ),
        ),
        env.set_next_trait(env.following_trait()),
    )
}

/// The value bound to `trait`: each time the name is resolved, it is
/// evaluated, and evaluates to the constructor of a new trait.
pub open spec fn trait_maker() -> ValueView {
    ValueView::of(PrimitiveView::Evaluate(EvaluateFnView::Trait)).add(
        crate::traits::TraitID::Builtin(BuiltinTrait::Computed),
        PrimitiveView::Computed,
    )
}

/// The variable that `name` refers to in `resolve_env`; where the variable
/// is computed, what it evaluates to in `compute_env`. The environment
/// returned is what is left of `compute_env`.
pub open spec fn resolve_in(
    name: NameView,
    resolve_env: EnvironmentView,
    compute_env: EnvironmentView,
    stack: StackView,
    depth: nat,
) -> (Result<ValueView, ReturnStateView>, EnvironmentView)
    decreases depth, 1nat, 0nat,
{
    match resolve_without_computing(name, resolve_env, stack) {
        Err(state) => (Err(state), compute_env),
        Ok(variable) => match has_trait(
            variable,
            crate::traits::TraitID::Builtin(BuiltinTrait::Computed),
            compute_env,
            stack,
            depth,
        ) {
            Err(state) => (Err(state), compute_env),
            Ok(true) => evaluate(variable, compute_env, stack, depth),
            Ok(false) => (Ok(variable), compute_env),
        },
    }
}

/// The label of the frame under which a name is resolved.
pub open spec fn resolving_label(name: Seq<char>) -> Seq<char> {
    "Resolving variable '"@ + name + "'"@
}

/// The variable that `name` refers to in `env` or in a scope around it.
pub open spec fn resolve_without_computing(
    name: NameView,
    env: EnvironmentView,
    stack: StackView,
) -> Result<ValueView, ReturnStateView> {
    match env.lookup(name.name) {
        Some(variable) => Ok(variable),
        None => Err(
            ReturnStateView::error(
                "Name does not refer to a variable"@,
                stack.add(resolving_label(name.name)),
            ),
        ),
    }
}

/// The value of a list: nothing for the empty list; else macros are
/// expanded, operators applied, and what is left is applied as a function to
/// its arguments.
pub open spec fn evaluate_list(
    list: ListView,
    env: EnvironmentView,
    stack: StackView,
    depth: nat,
) -> (Result<ValueView, ReturnStateView>, EnvironmentView)
    decreases depth, 10nat, 0nat,
{
    let stack = framed(stack, "Evaluating list"@, list.location);
    if list.items.len() == 0 {
        (Ok(ValueView::empty()), env)
    } else {
        match expand_macros(list.items, env, stack, depth, false) {
            (Err(state), env) => (Err(state), env),
            (Ok((items, expanded)), env) => {
                let (result, env) = match reduce_operators(items, env, stack, depth) {
                    (Err(state), env) => (Err(state), env),
                    (Ok(Reduction::Value(value)), env) => (Ok(value), env),
                    (Ok(Reduction::Items(rest)), env) => apply_items(rest, env, stack, depth),
                };
                (relabel(result, expanded), env)
            },
        }
    }
}

/// `items` with every macro that is followed by an argument replaced,
/// together with its argument, by its expansion; and whether any was.
pub open spec fn expand_macros(
    items: Seq<ValueView>,
    env: EnvironmentView,
    stack: StackView,
    depth: nat,
    expanded: bool,
) -> (Result<(Seq<ValueView>, bool), ReturnStateView>, EnvironmentView)
    decreases depth, 9nat, items.len(),
{
    match first_macro(items, env, stack, depth, 0) {
        Err(state) => (Err(state), env),
        Ok(Some((at, found))) if 0 <= at && at + 1 < items.len() => match evaluate(
            items[at + 1],
            env,
            stack,
            depth,
        ) {
            (Err(state), env) => (Err(state), env),
            (Ok(replacement), env) => match macro_expand(
                *found.value_to_expand,
                found.define_parameter.name,
                replacement,
                env,
                stack,
                depth,
            ) {
                Err(state) => (Err(state), env),
                Ok(expansion) => expand_macros(
                    items.subrange(0, at).push(expansion) + items.subrange(
                        at + 2,
                        items.len() as int,
                    ),
                    env,
                    stack,
                    depth,
                    true,
                ),
            },
        },
        Ok(_) => (Ok((items, expanded)), env),
    }
}

/// `items` with its operators applied. Where a variadic operator occurs, the
/// chosen one takes all the items of each side and its result is the value of
/// the list. Else the chosen binary operator takes the item of each side, its
/// result stands in place of the three, and the rest is reduced in turn.
pub open spec fn reduce_operators(
    items: Seq<ValueView>,
    env: EnvironmentView,
    stack: StackView,
    depth: nat,
) -> (Result<Reduction, ReturnStateView>, EnvironmentView)
    decreases depth, 8nat, items.len(),
{
    match find_operators(items, env, stack, depth, 0, Seq::empty()) {
        Err(state) => (Err(state), env),
        Ok(occurrences) => if occurrences.len() == 0 {
            (Ok(Reduction::Items(items)), env)
        } else {
            let chosen = occurrences[choice(occurrences, env.operators)];
            let at = chosen.position as int;
            match chosen.operator {
                Operator::Variadic(operator) => {
                    if 0 <= at < items.len() {
                        match collect_variadic(
                            operator,
                            items.subrange(0, at),
                            items.subrange(at + 1, items.len() as int),
                            env,
                            stack,
                            depth,
                        ) {
                            (Err(state), env) => (Err(state), env),
                            (Ok(value), env) => (Ok(Reduction::Value(value)), env),
                        }
                    } else {
                        (Ok(Reduction::Items(items)), env)
                    }
                },
                Operator::Binary(operator) => {
                    if at <= 0 || at >= items.len() {
                        (
                            Err(
                                ReturnStateView::error(
                                    "Expected a single value on the left of this operator"@,
                                    stack,
                                ),
                            ),
                            env,
                        )
                    } else if at + 1 >= items.len() {
                        (
                            Err(
                                ReturnStateView::error(
                                    "Expected a single value on the right of this operator"@,
                                    stack,
                                ),
                            ),
                            env,
                        )
                    } else {
                        match collect_binary(
                            operator,
                            items[at - 1],
                            items[at + 1],
                            env,
                            stack,
                            depth,
                        ) {
                            (Err(state), env) => (Err(state), env),
                            (Ok(value), env) => if items.len() == 3 {
                                (Ok(Reduction::Value(value)), env)
                            } else {
                                reduce_operators(
                                    items.subrange(0, at - 1).push(value) + items.subrange(
                                        at + 2,
                                        items.len() as int,
                                    ),
                                    env,
                                    stack,
                                    depth,
                                )
                            },
                        }
                    }
                },
            }
        },
    }
}

/// The result of an arithmetic operator: both sides are evaluated, each must
/// be a number.
pub open spec fn collect_binary(
    operator: BinaryOperator,
    left: ValueView,
    right: ValueView,
    env: EnvironmentView,
    stack: StackView,
    depth: nat,
) -> (Result<ValueView, ReturnStateView>, EnvironmentView)
    decreases depth, 5nat, 0nat,
{
    match evaluate(left, env, stack, depth) {
        (Err(state), env) => (Err(state), env),
        (Ok(left), env) => match get_primitive(left, BuiltinTrait::Number, env, stack, depth) {
            Err(state) => (Err(state), env),
            Ok(left) => match evaluate(right, env, stack, depth) {
                (Err(state), env) => (Err(state), env),
                (Ok(right), env) => match get_primitive(
                    right,
                    BuiltinTrait::Number,
                    env,
                    stack,
                    depth,
                ) {
                    Err(state) => (Err(state), env),
                    Ok(right) => (
                        arithmetic_value(
                            operator,
                            left->Number_0.number,
                            right->Number_0.number,
                            stack,
                        ),
                        env,
                    ),
                },
            },
        },
    }
}

/// The result of a variadic operator on the items of its two sides.
pub open spec fn collect_variadic(
    operator: VariadicOperator,
    left: Seq<ValueView>,
    right: Seq<ValueView>,
    env: EnvironmentView,
    stack: StackView,
    depth: nat,
) -> (Result<ValueView, ReturnStateView>, EnvironmentView)
    decreases depth, 7nat, 0nat,
{
    match operator {
        VariadicOperator::Assign => assign(left, right, false, env, stack, depth),
        VariadicOperator::Trait => assign(left, right, true, env, stack, depth),
        VariadicOperator::Macro => match get_primitive_if_present(
            group(left),
            BuiltinTrait::MacroParameter,
            env,
            stack,
            depth,
        ) {
            Err(state) => (Err(state), env),
            Ok(Some(PrimitiveView::MacroParameter(parameter))) => (
                Ok(
                    ValueView::of(
                        PrimitiveView::Macro(
                            MacroView {
                                define_parameter: parameter,
                                value_to_expand: Box::new(group(right)),
                            },
                        ),
                    ),
                ),
                env,
            ),
            Ok(_) => (
                Err(
                    ReturnStateView::error(
                        "Macro parameter must have the Macro-Parameter trait"@,
                        stack,
                    ),
                ),
                env,
            ),
        },
        VariadicOperator::Closure => match get_primitive_if_present(
            group(left),
            BuiltinTrait::ClosureParameter,
            env,
            stack,
            depth,
        ) {
            Err(state) => (Err(state), env),
            Ok(Some(PrimitiveView::ClosureParameter(parameter))) => (
                Ok(
                    ValueView::of(
                        PrimitiveView::Function(
                            FunctionView::Closure(
                                ClosureView {
                                    define_parameter: parameter,
                                    return_value: Box::new(group(right)),
                                    env: Box::new(env),
                                },
                            ),
                        ),
                    ),
                ),
                env,
            ),
            Ok(_) => (
                Err(
                    ReturnStateView::error(
                        "Closure parameter must have the Closure-Parameter trait"@,
                        stack,
                    ),
                ),
                env,
            ),
        },
    }
}

/// The value that the right side of `:` (or, where `with_trait`, of `::`)
/// stands for, before it is evaluated.
pub open spec fn right_side(
    right: Seq<ValueView>,
    with_trait: bool,
    env: EnvironmentView,
    stack: StackView,
    depth: nat,
) -> (Result<ValueView, ReturnStateView>, EnvironmentView)
    decreases depth, 3nat, 0nat,
{
    if !with_trait {
        (Ok(group(right)), env)
    } else if right.len() != 2 {
        (Err(ReturnStateView::error("Expected a trait and a value for the trait"@, stack)), env)
    } else {
        match evaluate(right[0], env, stack, depth) {
            (Err(state), env) => (Err(state), env),
            (Ok(constructor), env) => match get_primitive(
                constructor,
                BuiltinTrait::TraitConstructor,
                env,
                stack,
                depth,
            ) {
                Err(state) => (Err(state), env),
                Ok(constructor) => match evaluate(right[1], env, stack, depth) {
                    (Err(state), env) => (Err(state), env),
                    (Ok(value), env) => (
                        new_value(constructor->TraitConstructor_0, value, env, stack, depth),
                        env,
                    ),
                },
            },
        }
    }
}

/// `value` evaluated, and `name` bound to the result. Where the evaluation
/// fails, the environment is left as it was found.
pub open spec fn bind(
    name: NameView,
    value: ValueView,
    env: EnvironmentView,
    stack: StackView,
    depth: nat,
) -> (Result<(), ReturnStateView>, EnvironmentView)
    decreases depth, 1nat, 2nat,
{
    match evaluate(value, env, stack, depth) {
        (Err(state), _) => (Err(state), env),
        (Ok(value), changed) => (Ok(()), changed.set_variable(name.name, value)),
    }
}

/// What the `Assign` trait of the name `name` does with `value`: `value` is
/// evaluated and the name is bound to the result. A name whose variable is
/// computed is not assigned to: the assignment goes to the `Assign` trait
/// that the variable holds directly, and is an error where it holds none.
/// Where the assignment fails, the environment is left as it was found.
pub open spec fn assign_to(
    name: NameView,
    value: ValueView,
    env: EnvironmentView,
    stack: StackView,
    depth: nat,
) -> (Result<(), ReturnStateView>, EnvironmentView)
    decreases depth, 1nat, 3nat,
{
    let assign_id = crate::traits::TraitID::Builtin(BuiltinTrait::Assign);
    match env.lookup(name.name) {
        None => bind(name, value, env, stack, depth),
        Some(variable) => match has_trait(
            variable,
            crate::traits::TraitID::Builtin(BuiltinTrait::Computed),
            env,
            stack,
            depth,
        ) {
            Err(state) => (Err(state), env),
            Ok(false) => bind(name, value, env, stack, depth),
            Ok(true) => if !variable.has_direct(assign_id) {
                (Err(ReturnStateView::error("Cannot assign to a computed variable"@, stack)), env)
            } else if depth == 0 {
                (Err(too_deep(stack)), env)
            } else {
                match variable.traits[assign_id] {
                    PrimitiveView::Assign(target) => assign_to(
                        target,
                        value,
                        env,
                        stack,
                        (depth - 1) as nat,
                    ),
                    _ => (
                        Err(ReturnStateView::error("Trait value is not of this kind"@, stack)),
                        env,
                    ),
                }
            },
        },
    }
}

/// An assignment by `:` or, where `with_trait`, by `::`. The grouped left
/// side must have the `Assign` trait; the right side is evaluated and handed
/// to the trait. The result is the empty value. Where any step fails, the
/// environment is left as it was found.
pub open spec fn assign(
    left: Seq<ValueView>,
    right: Seq<ValueView>,
    with_trait: bool,
    env: EnvironmentView,
    stack: StackView,
    depth: nat,
) -> (Result<ValueView, ReturnStateView>, EnvironmentView)
    decreases depth, 4nat, 0nat,
{
    match get_primitive_if_present(group(left), BuiltinTrait::Assign, env, stack, depth) {
        Err(state) => (Err(state), env),
        Ok(Some(PrimitiveView::Assign(name))) => match right_side(
            right,
            with_trait,
            env,
            stack,
            depth,
        ) {
            (Err(state), _) => (Err(state), env),
            (Ok(value), changed) => match evaluate(value, changed, stack, depth) {
                (Err(state), _) => (Err(state), env),
                (Ok(value), changed) => match assign_to(name, value, changed, stack, depth) {
                    (Err(state), _) => (Err(state), env),
                    (Ok(_), changed) => (Ok(ValueView::empty()), changed),
                },
            },
        },
        Ok(_) => (
            Err(
                ReturnStateView::error(
                    "Cannot assign to this value because it does not have the Assign trait"@,
                    stack,
                ),
            ),
            env,
        ),
    }
}

/// The items taken as an application: the first is evaluated, and the
/// result is called with each of the others in turn.
pub open spec fn apply_items(
    items: Seq<ValueView>,
    env: EnvironmentView,
    stack: StackView,
    depth: nat,
) -> (Result<ValueView, ReturnStateView>, EnvironmentView)
    decreases depth, 7nat, items.len() + 1,
{
    if items.len() == 0 {
        (Ok(ValueView::empty()), env)
    } else {
        match evaluate(items[0], env, stack, depth) {
            (Err(state), env) => (Err(state), env),
            (Ok(function), env) => call_each(function, items, 1, env, stack, depth),
        }
    }
}

/// `function` called with the items from `from` on, each result being called with the next.
pub open spec fn call_each(
    function: ValueView,
    items: Seq<ValueView>,
    from: int,
    env: EnvironmentView,
    stack: StackView,
    depth: nat,
) -> (Result<ValueView, ReturnStateView>, EnvironmentView)
    decreases depth, 6nat, items.len() - from,
{
    if from < 0 || from >= items.len() {
        (Ok(function), env)
    } else {
        match call_with(function, items[from], env, stack, depth) {
            (Err(state), env) => (Err(state), env),
            (Ok(result), env) => call_each(result, items, from + 1, env, stack, depth),
        }
    }
}

/// `function` called with `argument`, which is handed over as it stands:
/// the function evaluates it where it needs its value.
pub open spec fn call_with(
    function: ValueView,
    argument: ValueView,
    env: EnvironmentView,
    stack: StackView,
    depth: nat,
) -> (Result<ValueView, ReturnStateView>, EnvironmentView)
    decreases depth, 2nat, 0nat,
{
    match get_primitive_if_present(function, BuiltinTrait::Function, env, stack, depth) {
        Err(state) => (Err(state), env),
        Ok(Some(PrimitiveView::Function(function))) => call_function(
            function,
            argument,
            env,
            stack,
            depth,
        ),
        Ok(_) => (
            Err(
                ReturnStateView::error(
                    "Cannot call this value because it does not have the Function trait"@,
                    stack,
                ),
            ),
            env,
        ),
    }
}

/// What each kind of function does with its argument.
pub open spec fn call_function(
    function: FunctionView,
    argument: ValueView,
    env: EnvironmentView,
    stack: StackView,
    depth: nat,
) -> (Result<ValueView, ReturnStateView>, EnvironmentView)
    decreases depth, 1nat, 1nat,
{
    match function {
        FunctionView::New => match evaluate(argument, env, stack, depth) {
            (Err(state), env) => (Err(state), env),
            (Ok(constructor), env) => match get_primitive(
                constructor,
                BuiltinTrait::TraitConstructor,
                env,
                stack,
                depth,
            ) {
                Err(state) => (Err(state), env),
                Ok(constructor) => (
                    Ok(
                        ValueView::of(
                            PrimitiveView::Function(
                                FunctionView::NewWith(constructor->TraitConstructor_0),
                            ),
                        ),
                    ),
                    env,
                ),
            },
        },
        FunctionView::NewWith(constructor) => match evaluate(argument, env, stack, depth) {
            (Err(state), env) => (Err(state), env),
            (Ok(value), env) => (new_value(constructor, value, env, stack, depth), env),
        },
        FunctionView::Do => {
            let (result, inner) = evaluate(argument, EnvironmentView::child_of(env), stack, depth);
            (result, env.after(inner))
        },
        FunctionView::Closure(closure) => match evaluate(argument, env, stack, depth) {
            (Err(state), env) => (Err(state), env),
            (Ok(value), env) => {
                let (result, inner) = evaluate(
                    *closure.return_value,
                    EnvironmentView::child_of(*closure.env).after(env).set_variable(
                        closure.define_parameter.name,
                        value,
                    ),
                    stack,
                    depth,
                );
                (result, env.after(inner))
            },
        },
        FunctionView::Module(module) => match get_primitive_if_present(
            argument,
            BuiltinTrait::Name,
            env,
            stack,
            depth,
        ) {
            Err(state) => (Err(state), env),
            Ok(Some(PrimitiveView::Name(name))) => {
                let (result, inner) = resolve_in(
                    name,
                    module_env(module),
                    module_env(module).after(env),
                    stack,
                    depth,
                );
                (result, env.after(inner))
            },
            Ok(_) => (Err(ReturnStateView::error("Expected a name"@, stack)), env),
        },
    }
}

/// The statements from `from` on, evaluated in order in `env`; `last` is the
/// value of the statement before. Where `catching`, a `ReturnFromBlock` ends
/// the run with the value reached so far.
pub open spec fn run_statements(
    statements: Seq<ListView>,
    from: int,
    last: ValueView,
    catching: bool,
    env: EnvironmentView,
    stack: StackView,
    depth: nat,
) -> (Result<ValueView, ReturnStateView>, EnvironmentView)
    decreases depth, 11nat, statements.len() - from,
{
    if from < 0 || from >= statements.len() {
        (Ok(last), env)
    } else {
        match evaluate_list(
            statements[from],
            env,
            located(stack, statements[from].location),
            depth,
        ) {
            (Ok(value), env) => run_statements(
                statements,
                from + 1,
                value,
                catching,
                env,
                stack,
                depth,
            ),
            (Err(ReturnStateView::ReturnFromBlock), env) if catching => (Ok(last), env),
            (Err(state), env) => (Err(state), env),
        }
    }
}

/// The value of a block: its statements are evaluated in a new child
/// environment, and the value of the last one is the block's; the empty
/// value for the block without statements. Of the child, the environment
/// keeps the number of the next trait only.
pub open spec fn evaluate_block(
    block: BlockView,
    env: EnvironmentView,
    stack: StackView,
    depth: nat,
) -> (Result<ValueView, ReturnStateView>, EnvironmentView)
    decreases depth, 12nat, 0nat,
{
    let (result, inner) = run_statements(
        block.statements,
        0,
        ValueView::empty(),
        true,
        EnvironmentView::child_of(env),
        located(stack, block.location),
        depth,
    );
    (result, env.after(inner))
}

/// The value of a module block: its statements are evaluated in a new child
/// environment, and the module is the snapshot of that environment's
/// variables. Of the child, the environment keeps the number of the next
/// trait only.
pub open spec fn evaluate_module_block(
    block: ModuleBlockView,
    env: EnvironmentView,
    stack: StackView,
    depth: nat,
) -> (Result<ValueView, ReturnStateView>, EnvironmentView)
    decreases depth, 12nat, 0nat,
{
    match run_statements(
        block.statements,
        0,
        ValueView::empty(),
        false,
        EnvironmentView::child_of(env),
        located(stack, block.location),
        depth,
    ) {
        (Err(state), inner) => (Err(state), env.after(inner)),
        (Ok(_), inner) => (
            Ok(ValueView::of(PrimitiveView::Module(ModuleView { values: inner.variables }))),
            env.after(inner),
        ),
    }
}

} // verus!
