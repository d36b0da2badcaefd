//! Evaluation: the executable evaluator, proved to compute what the
//! semantics say.

use vstd::prelude::*;
use vstd::string::*;
use std::rc::Rc;
use crate::diagnostics::{Error, Location, ReturnState, ReturnStateView, Stack};
use crate::lookup::{
    get_primitive_if_present_within, get_primitive_within, has_trait_within, new_value_within,
    value_result_view,
};
use crate::model::{MacroView, ValueView};
use crate::number::{compute, ArithmeticError};
use crate::operators::{choose_operator, BinaryOperator, Occurrence, Operator, VariadicOperator};
use crate::semantics;
use crate::semantics::Reduction;
use crate::traits::{BuiltinTrait, TraitID};
use crate::value::{
    AssignFn, clone_values, lists_view, list_view, values_view, Block, Closure, Environment,
    EvaluateFn, Function, List, Macro, MacroExpandFn, Module, ModuleBlock, Name, Number,
    Primitive, Value, clone_variables,
};

verus! {

/// The greatest number of evaluations nested inside one another.
pub const DEPTH_LIMIT: usize = 100;

pub open spec fn values_result_view(r: Result<Vec<Value>, ReturnState>) -> Result<
    Seq<ValueView>,
    ReturnStateView,
> {
    match r {
        Ok(values) => Ok(values_view(values)),
        Err(state) => Err(state@),
    }
}

pub open spec fn lists_result_view(r: Result<Vec<List>, ReturnState>) -> Result<
    Seq<crate::model::ListView>,
    ReturnStateView,
> {
    match r {
        Ok(lists) => Ok(lists_view(lists)),
        Err(state) => Err(state@),
    }
}

fn no_values() -> (r: Vec<Value>)
    ensures
        values_view(r) == Seq::<ValueView>::empty(),
{
    let r: Vec<Value> = Vec::new();
    assert(values_view(r) =~= Seq::<ValueView>::empty());
    r
}

fn no_lists() -> (r: Vec<List>)
    ensures
        lists_view(r) == Seq::<crate::model::ListView>::empty(),
{
    let r: Vec<List> = Vec::new();
    assert(lists_view(r) =~= Seq::<crate::model::ListView>::empty());
    r
}

fn push_value(values: Vec<Value>, value: Value) -> (r: Vec<Value>)
    ensures
        values_view(r) == values_view(values).push(value@),
{
    let mut r = values;
    r.push(value);
    assert(values_view(r) =~= values_view(values).push(value@));
    r
}

fn push_list(lists: Vec<List>, list: List) -> (r: Vec<List>)
    ensures
        lists_view(r) == lists_view(lists).push(list@),
{
    let mut r = lists;
    r.push(list);
    assert(lists_view(r) =~= lists_view(lists).push(list@));
    r
}

/// The values of `items` from `from` up to `to`.
fn slice_values(items: &Vec<Value>, from: usize, to: usize) -> (r: Vec<Value>)
    requires
        from <= to <= items.len(),
    ensures
        values_view(r) == values_view(*items).subrange(from as int, to as int),
        r@ == items@.subrange(from as int, to as int),
{
    let mut r: Vec<Value> = Vec::new();
    let mut i: usize = from;
    while i < to
        invariant
            from <= i <= to <= items.len(),
            r@ == items@.subrange(from as int, i as int),
        decreases to - i,
    {
        r.push(items[i].clone());
        assert(r@ =~= items@.subrange(from as int, i as int + 1));
        i += 1;
    }
    assert(values_view(r) =~= values_view(*items).subrange(from as int, to as int));
    r
}

/// The values of `items` with `value` in place of those from `from` up to `to`.
fn splice_value(items: &Vec<Value>, from: usize, to: usize, value: Value) -> (r: Vec<Value>)
    requires
        from <= to <= items.len(),
    ensures
        values_view(r) == values_view(*items).subrange(0, from as int).push(value@) + values_view(
            *items,
        ).subrange(to as int, items.len() as int),
        r.len() == from + 1 + (items.len() - to),
{
    let mut r: Vec<Value> = slice_values(items, 0, from);
    let ghost head = r;
    r.push(value);
    let ghost middle = r;
    let mut i: usize = to;
    while i < items.len()
        invariant
            to <= i <= items.len(),
            r@ == middle@ + items@.subrange(to as int, i as int),
        decreases items.len() - i,
    {
        r.push(items[i].clone());
        assert(r@ =~= middle@ + items@.subrange(to as int, i as int + 1));
        i += 1;
    }
    assert(values_view(middle) =~= values_view(head).push(value@));
    assert(values_view(r) =~= values_view(*items).subrange(0, from as int).push(value@)
        + values_view(*items).subrange(to as int, items.len() as int));
    r
}

/// The one item of `items`, or the list of them where they are not one.
pub fn group(items: &Vec<Value>) -> (r: Value)
    ensures
        r@ == semantics::group(values_view(*items)),
{
    if items.len() == 1 {
        items[0].clone()
    } else {
        Value::of(Primitive::List(List { items: clone_values(items), location: None }))
    }
}

fn framed(stack: &Stack, label: &str, location: &Option<Location>) -> (r: Stack)
    ensures
        r@ == semantics::framed(stack@, label@, crate::diagnostics::location_option_view(*location)),
{
    match location {
        Some(location) => {
            let mut queued = stack.clone();
            queued.queue_location(location);
            queued.add(String::from_str(label))
        },
        None => stack.add(String::from_str(label)),
    }
}

fn located(stack: &Stack, location: &Option<Location>) -> (r: Stack)
    ensures
        r@ == semantics::located(stack@, crate::diagnostics::location_option_view(*location)),
{
    let mut r = stack.clone();
    match location {
        Some(location) => {
            r.queue_location(location);
        },
        None => {},
    }
    r
}

// ---------------------------------------------------------------------------
// Macro expansion
// ---------------------------------------------------------------------------
/// `value` with `replacement` in place of the name `parameter`.
pub fn macro_expand_within(
    value: &Value,
    parameter: &String,
    replacement: &Value,
    env: &Environment,
    stack: &Stack,
    depth: usize,
) -> (r: Result<Value, ReturnState>)
    ensures
        value_result_view(r) == semantics::macro_expand(
            value@,
            parameter@,
            replacement@,
            env@,
            stack@,
            depth as nat,
        ),
    decreases depth, 0nat, 0nat,
{
    if depth == 0 {
        return Err(ReturnState::error("Evaluation is nested too deeply", stack));
    }
    match get_primitive_if_present_within(value, BuiltinTrait::MacroExpand, env, stack, depth) {
        Err(state) => Err(state),
        Ok(None) => Ok(value.clone()),
        Ok(Some(held)) => match held.get() {
            Primitive::MacroExpand(MacroExpandFn::Name(name)) => {
                if name.name == *parameter {
                    Ok(replacement.clone())
                } else {
                    Ok(Value::of(Primitive::Name(name.clone())))
                }
            },
            Primitive::MacroExpand(MacroExpandFn::List(list)) => {
                match expand_items(
                    &list.items,
                    parameter,
                    replacement,
                    env,
                    stack,
                    depth - 1,
                    0,
                    no_values(),
                ) {
                    Err(state) => Err(state),
                    Ok(items) => Ok(
                        Value::of(
                            Primitive::List(
                                List {
                                    items,
                                    location: crate::diagnostics::clone_location_option(
                                        &list.location,
                                    ),
                                },
                            ),
                        ),
                    ),
                }
            },
            Primitive::MacroExpand(MacroExpandFn::Block(block)) => {
                match expand_statements(
                    &block.statements,
                    parameter,
                    replacement,
                    env,
                    stack,
                    depth - 1,
                    0,
                    no_lists(),
                ) {
                    Err(state) => Err(state),
                    Ok(statements) => Ok(
                        Value::of(
                            Primitive::Block(
                                Block {
                                    statements,
                                    location: crate::diagnostics::clone_location_option(
                                        &block.location,
                                    ),
                                },
                            ),
                        ),
                    ),
                }
            },
            Primitive::MacroExpand(MacroExpandFn::ModuleBlock(block)) => {
                match expand_statements(
                    &block.statements,
                    parameter,
                    replacement,
                    env,
                    stack,
                    depth - 1,
                    0,
                    no_lists(),
                ) {
                    Err(state) => Err(state),
                    Ok(statements) => Ok(
                        Value::of(
                            Primitive::ModuleBlock(
                                ModuleBlock {
                                    statements,
                                    location: crate::diagnostics::clone_location_option(
                                        &block.location,
                                    ),
                                },
                            ),
                        ),
                    ),
                }
            },
            _ => Ok(value.clone()),
        },
    }
}

fn expand_items(
    items: &Vec<Value>,
    parameter: &String,
    replacement: &Value,
    env: &Environment,
    stack: &Stack,
    depth: usize,
    from: usize,
    done: Vec<Value>,
) -> (r: Result<Vec<Value>, ReturnState>)
    ensures
        values_result_view(r) == semantics::expand_items(
            values_view(*items),
            parameter@,
            replacement@,
            env@,
            stack@,
            depth as nat,
            from as int,
            values_view(done),
        ),
    decreases depth, 1nat, items.len() - from,
{
    if from >= items.len() {
        return Ok(done);
    }
    match macro_expand_within(&items[from], parameter, replacement, env, stack, depth) {
        Err(state) => Err(state),
        Ok(expanded) => expand_items(
            items,
            parameter,
            replacement,
            env,
            stack,
            depth,
            from + 1,
            push_value(done, expanded),
        ),
    }
}

fn expand_statements(
    statements: &Vec<List>,
    parameter: &String,
    replacement: &Value,
    env: &Environment,
    stack: &Stack,
    depth: usize,
    from: usize,
    done: Vec<List>,
) -> (r: Result<Vec<List>, ReturnState>)
    ensures
        lists_result_view(r) == semantics::expand_statements(
            lists_view(*statements),
            parameter@,
            replacement@,
            env@,
            stack@,
            depth as nat,
            from as int,
            lists_view(done),
        ),
    decreases depth, 2nat, statements.len() - from,
{
    if from >= statements.len() {
        return Ok(done);
    }
    assert(lists_view(*statements)[from as int] == list_view(statements[from as int]));
    match expand_items(
        &statements[from].items,
        parameter,
        replacement,
        env,
        stack,
        depth,
        0,
        no_values(),
    ) {
        Err(state) => Err(state),
        Ok(items) => {
            let list = List {
                items,
                location: crate::diagnostics::clone_location_option(&statements[from].location),
            };
            expand_statements(
                statements,
                parameter,
                replacement,
                env,
                stack,
                depth,
                from + 1,
                push_list(done, list),
            )
        },
    }
}


// ---------------------------------------------------------------------------
// What an item of a list carries
// ---------------------------------------------------------------------------
/// The primitive of the trait `kind` that `item` carries.
pub fn carried(
    item: &Value,
    kind: BuiltinTrait,
    env: &Environment,
    stack: &Stack,
    depth: usize,
) -> (r: Result<Option<crate::value::Dynamic>, ReturnState>)
    ensures
        crate::lookup::lookup_view(r) == semantics::carried(
            item@,
            kind,
            env@,
            stack@,
            depth as nat,
        ),
{
    match get_primitive_if_present_within(item, BuiltinTrait::Name, env, stack, depth) {
        Err(state) => Err(state),
        Ok(None) => get_primitive_if_present_within(item, kind, env, stack, depth),
        Ok(Some(held)) => match held.get() {
            Primitive::Name(name) => match env.lookup(name.name.as_str()) {
                Some(variable) => get_primitive_if_present_within(
                    &variable,
                    kind,
                    env,
                    stack,
                    depth,
                ),
                None => Ok(None),
            },
            _ => get_primitive_if_present_within(item, kind, env, stack, depth),
        },
    }
}

pub open spec fn occurrences_view(r: Result<Vec<Occurrence>, ReturnState>) -> Result<
    Seq<Occurrence>,
    ReturnStateView,
> {
    match r {
        Ok(found) => Ok(found@),
        Err(state) => Err(state@),
    }
}

/// `found` followed by the occurrences of operators among the items from `from` on.
fn find_operators(
    items: &Vec<Value>,
    env: &Environment,
    stack: &Stack,
    depth: usize,
    from: usize,
    found: Vec<Occurrence>,
) -> (r: Result<Vec<Occurrence>, ReturnState>)
    requires
        from <= items.len(),
        forall|i: int| 0 <= i < found.len() ==> (#[trigger] found[i]).position < from,
    ensures
        occurrences_view(r) == semantics::find_operators(
            values_view(*items),
            env@,
            stack@,
            depth as nat,
            from as int,
            found@,
        ),
        r matches Ok(all) ==> forall|i: int|
            0 <= i < all.len() ==> (#[trigger] all[i]).position < items.len(),
    decreases items.len() - from,
{
    if from >= items.len() {
        return Ok(found);
    }
    match carried(&items[from], BuiltinTrait::Operator, env, stack, depth) {
        Err(state) => Err(state),
        Ok(None) => find_operators(items, env, stack, depth, from + 1, found),
        Ok(Some(held)) => match held.get() {
            Primitive::Operator(operator) => {
                let mut found = found;
                found.push(Occurrence { position: from, operator: *operator });
                find_operators(items, env, stack, depth, from + 1, found)
            },
            _ => find_operators(items, env, stack, depth, from + 1, found),
        },
    }
}

pub open spec fn macro_found_view(r: Result<Option<(usize, Macro)>, ReturnState>) -> Result<
    Option<(int, MacroView)>,
    ReturnStateView,
> {
    match r {
        Ok(Some((at, found))) => Ok(Some((at as int, found@))),
        Ok(None) => Ok(None),
        Err(state) => Err(state@),
    }
}

/// The first macro at or after `from` that is followed by an argument, with its position.
fn first_macro(
    items: &Vec<Value>,
    env: &Environment,
    stack: &Stack,
    depth: usize,
    from: usize,
) -> (r: Result<Option<(usize, Macro)>, ReturnState>)
    ensures
        macro_found_view(r) == semantics::first_macro(
            values_view(*items),
            env@,
            stack@,
            depth as nat,
            from as int,
        ),
        r matches Ok(Some((at, _))) ==> at + 1 < items.len(),
    decreases items.len() - from,
{
    if items.len() < 2 || from >= items.len() - 1 {
        return Ok(None);
    }
    match carried(&items[from], BuiltinTrait::Macro, env, stack, depth) {
        Err(state) => Err(state),
        Ok(None) => first_macro(items, env, stack, depth, from + 1),
        Ok(Some(held)) => match held.get() {
            Primitive::Macro(found) => Ok(Some((from, found.clone()))),
            _ => first_macro(items, env, stack, depth, from + 1),
        },
    }
}

fn relabel(result: Result<Value, ReturnState>, expanded: bool) -> (r: Result<Value, ReturnState>)
    ensures
        value_result_view(r) == semantics::relabel(value_result_view(result), expanded),
{
    match result {
        Err(ReturnState::Error(error)) => {
            if expanded && error.message == String::from_str("Evaluation is nested too deeply") {
                Err(
                    ReturnState::Error(
                        Error {
                            message: String::from_str("Macro expands infinitely"),
                            stack: error.stack,
                        },
                    ),
                )
            } else {
                Err(ReturnState::Error(error))
            }
        },
        other => other,
    }
}

/// The value that holds the number of `numeral`.
pub fn number_value(numeral: String) -> (r: Value)
    ensures
        r@ == semantics::number_value(numeral@),
{
    Value::of(Primitive::Number(Number { number: numeral, location: None }))
}

fn arithmetic_value(operator: BinaryOperator, left: &str, right: &str, stack: &Stack) -> (r: Result<
    Value,
    ReturnState,
>)
    ensures
        value_result_view(r) == semantics::arithmetic_value(operator, left@, right@, stack@),
{
    match compute(operator, left, right) {
        Ok(numeral) => Ok(number_value(numeral)),
        Err(ArithmeticError::Invalid) => Err(ReturnState::error("Invalid number", stack)),
        Err(ArithmeticError::DivisionByZero) => Err(ReturnState::error("Division by zero", stack)),
    }
}


// ---------------------------------------------------------------------------
// Evaluation
// ---------------------------------------------------------------------------
/// What is left of a list when its operators have been applied.
pub enum Reduced {
    Value(Value),
    Items(Vec<Value>),
}

pub open spec fn reduced_view(r: Result<Reduced, ReturnState>) -> Result<
    Reduction,
    ReturnStateView,
> {
    match r {
        Ok(Reduced::Value(value)) => Ok(Reduction::Value(value@)),
        Ok(Reduced::Items(items)) => Ok(Reduction::Items(values_view(items))),
        Err(state) => Err(state@),
    }
}

pub open spec fn expansion_view(r: Result<(Vec<Value>, bool), ReturnState>) -> Result<
    (Seq<ValueView>, bool),
    ReturnStateView,
> {
    match r {
        Ok((items, expanded)) => Ok((values_view(items), expanded)),
        Err(state) => Err(state@),
    }
}

/// The value that `value` reduces to in `env`, with at most `depth`
/// evaluations nested inside one another.
pub fn evaluate_within(value: &Value, env: &mut Environment, stack: &Stack, depth: usize) -> (r:
    Result<Value, ReturnState>)
    ensures
        (value_result_view(r), final(env)@) == semantics::evaluate(
            value@,
            old(env)@,
            stack@,
            depth as nat,
        ),
    decreases depth, 0nat, 0nat,
{
    if depth == 0 {
        return Err(ReturnState::error("Evaluation is nested too deeply", stack));
    }
    match get_primitive_if_present_within(value, BuiltinTrait::Evaluate, env, stack, depth) {
        Err(state) => Err(state),
        Ok(None) => Ok(value.clone()),
        Ok(Some(held)) => match held.get() {
            Primitive::Evaluate(EvaluateFn::Name(name)) => {
                let resolve_env = env.clone();
                resolve_name_in(name, &resolve_env, env, stack, depth - 1)
            },
            Primitive::Evaluate(EvaluateFn::List(list)) => evaluate_list(
                list,
                env,
                stack,
                depth - 1,
            ),
            Primitive::Evaluate(EvaluateFn::Block(block)) => evaluate_block(
                block,
                env,
                stack,
                depth - 1,
            ),
            Primitive::Evaluate(EvaluateFn::ModuleBlock(block)) => evaluate_module_block(
                block,
                env,
                stack,
                depth - 1,
            ),
            Primitive::Evaluate(EvaluateFn::Quoted(quoted)) => Ok(quoted.value.clone()),
            Primitive::Evaluate(EvaluateFn::Trait) => make_trait(env),
            _ => Ok(value.clone()),
        },
    }
}

/// The constructor of a trait that was not there before.
pub fn make_trait(env: &mut Environment) -> (r: Result<Value, ReturnState>)
    ensures
        (value_result_view(r), final(env)@) == semantics::make_trait(old(env)@),
{
    let id = TraitID::Runtime(env.next_trait);
    env.next_trait = if env.next_trait == u128::MAX {
        0
    } else {
        env.next_trait + 1
    };
    Ok(
        Value::of(
            Primitive::TraitConstructor(
                crate::model::TraitConstructor { id, validation: crate::model::Validation::Any },
            ),
        ),
    )
}

/// The value bound to `trait`.
pub fn trait_maker() -> (r: Value)
    ensures
        r@ == semantics::trait_maker(),
{
    Value::of(Primitive::Evaluate(EvaluateFn::Trait)).add(
        TraitID::Builtin(BuiltinTrait::Computed),
        crate::value::Dynamic::new(Primitive::Computed(crate::value::Computed)),
    )
}

/// The label of the frame under which `name` is resolved.
pub fn resolving_label(name: &str) -> (r: String)
    ensures
        r@ == semantics::resolving_label(name@),
{
    let mut r = String::from_str("Resolving variable '");
    r.append(name);
    r.append("'");
    r
}

/// The variable that `name` refers to in `env` or in a scope around it.
pub fn resolve_name_without_computing(name: &Name, env: &Environment, stack: &Stack) -> (r: Result<
    Value,
    ReturnState,
>)
    ensures
        value_result_view(r) == semantics::resolve_without_computing(name@, env@, stack@),
{
    match env.lookup(name.name.as_str()) {
        Some(variable) => Ok(variable),
        None => {
            let stack = stack.add(resolving_label(name.name.as_str()));
            Err(ReturnState::error("Name does not refer to a variable", &stack))
        },
    }
}

/// The variable that `name` refers to in `resolve_env`, evaluated in
/// `compute_env` where it is computed.
pub fn resolve_name_in(
    name: &Name,
    resolve_env: &Environment,
    compute_env: &mut Environment,
    stack: &Stack,
    depth: usize,
) -> (r: Result<Value, ReturnState>)
    ensures
        (value_result_view(r), final(compute_env)@) == semantics::resolve_in(
            name@,
            resolve_env@,
            old(compute_env)@,
            stack@,
            depth as nat,
        ),
    decreases depth, 1nat, 0nat,
{
    match resolve_name_without_computing(name, resolve_env, stack) {
        Err(state) => Err(state),
        Ok(variable) => match has_trait_within(
            &variable,
            TraitID::Builtin(BuiltinTrait::Computed),
            compute_env,
            stack,
            depth,
        ) {
            Err(state) => Err(state),
            Ok(true) => evaluate_within(&variable, compute_env, stack, depth),
            Ok(false) => Ok(variable),
        },
    }
}

/// The value of `list` in `env`.
pub fn evaluate_list(list: &List, env: &mut Environment, stack: &Stack, depth: usize) -> (r: Result<
    Value,
    ReturnState,
>)
    ensures
        (value_result_view(r), final(env)@) == semantics::evaluate_list(
            list@,
            old(env)@,
            stack@,
            depth as nat,
        ),
    decreases depth, 10nat, 0nat,
{
    let stack = framed(stack, "Evaluating list", &list.location);
    if list.items.len() == 0 {
        return Ok(Value::empty());
    }
    match expand_macros(clone_values(&list.items), env, &stack, depth, false) {
        Err(state) => Err(state),
        Ok((items, expanded)) => {
            let result = match reduce_operators(items, env, &stack, depth) {
                Err(state) => Err(state),
                Ok(Reduced::Value(value)) => Ok(value),
                Ok(Reduced::Items(rest)) => apply_items(&rest, env, &stack, depth),
            };
            relabel(result, expanded)
        },
    }
}

fn expand_macros(
    items: Vec<Value>,
    env: &mut Environment,
    stack: &Stack,
    depth: usize,
    expanded: bool,
) -> (r: Result<(Vec<Value>, bool), ReturnState>)
    ensures
        (expansion_view(r), final(env)@) == semantics::expand_macros(
            values_view(items),
            old(env)@,
            stack@,
            depth as nat,
            expanded,
        ),
    decreases depth, 9nat, items.len(),
{
    match first_macro(&items, env, stack, depth, 0) {
        Err(state) => Err(state),
        Ok(None) => Ok((items, expanded)),
        Ok(Some((at, found))) => {
            match evaluate_within(&items[at + 1], env, stack, depth) {
                Err(state) => Err(state),
                Ok(replacement) => match macro_expand_within(
                    &found.value_to_expand,
                    &found.define_parameter.name,
                    &replacement,
                    env,
                    stack,
                    depth,
                ) {
                    Err(state) => Err(state),
                    Ok(expansion) => {
                        let rest = splice_value(&items, at, at + 2, expansion);
                        expand_macros(rest, env, stack, depth, true)
                    },
                },
            }
        },
    }
}

fn reduce_operators(items: Vec<Value>, env: &mut Environment, stack: &Stack, depth: usize) -> (r:
    Result<Reduced, ReturnState>)
    ensures
        (reduced_view(r), final(env)@) == semantics::reduce_operators(
            values_view(items),
            old(env)@,
            stack@,
            depth as nat,
        ),
    decreases depth, 8nat, items.len(),
{
    match find_operators(&items, env, stack, depth, 0, Vec::new()) {
        Err(state) => Err(state),
        Ok(occurrences) => match choose_operator(&occurrences, &env.operators) {
            None => Ok(Reduced::Items(items)),
            Some(k) => {
                let chosen = occurrences[k];
                let at: usize = chosen.position;
                match chosen.operator {
                    Operator::Variadic(operator) => {
                        let left = slice_values(&items, 0, at);
                        let right = slice_values(&items, at + 1, items.len());
                        match collect_variadic(operator, &left, &right, env, stack, depth) {
                            Err(state) => Err(state),
                            Ok(value) => Ok(Reduced::Value(value)),
                        }
                    },
                    Operator::Binary(operator) => {
                        if at == 0 {
                            Err(
                                ReturnState::error(
                                    "Expected a single value on the left of this operator",
                                    stack,
                                ),
                            )
                        } else if at + 1 >= items.len() {
                            Err(
                                ReturnState::error(
                                    "Expected a single value on the right of this operator",
                                    stack,
                                ),
                            )
                        } else {
                            match collect_binary(
                                operator,
                                &items[at - 1],
                                &items[at + 1],
                                env,
                                stack,
                                depth,
                            ) {
                                Err(state) => Err(state),
                                Ok(value) => {
                                    if items.len() == 3 {
                                        Ok(Reduced::Value(value))
                                    } else {
                                        let rest = splice_value(&items, at - 1, at + 2, value);
                                        reduce_operators(rest, env, stack, depth)
                                    }
                                },
                            }
                        }
                    },
                }
            },
        },
    }
}

fn collect_binary(
    operator: BinaryOperator,
    left: &Value,
    right: &Value,
    env: &mut Environment,
    stack: &Stack,
    depth: usize,
) -> (r: Result<Value, ReturnState>)
    ensures
        (value_result_view(r), final(env)@) == semantics::collect_binary(
            operator,
            left@,
            right@,
            old(env)@,
            stack@,
            depth as nat,
        ),
    decreases depth, 5nat, 0nat,
{
    match evaluate_within(left, env, stack, depth) {
        Err(state) => Err(state),
        Ok(left) => match get_primitive_within(&left, BuiltinTrait::Number, env, stack, depth) {
            Err(state) => Err(state),
            Ok(left) => match evaluate_within(right, env, stack, depth) {
                Err(state) => Err(state),
                Ok(right) => match get_primitive_within(
                    &right,
                    BuiltinTrait::Number,
                    env,
                    stack,
                    depth,
                ) {
                    Err(state) => Err(state),
                    Ok(right) => match (left.get(), right.get()) {
                        (Primitive::Number(left), Primitive::Number(right)) => arithmetic_value(
                            operator,
                            left.number.as_str(),
                            right.number.as_str(),
                            stack,
                        ),
                        _ => Err(ReturnState::error("Invalid number", stack)),
                    },
                },
            },
        },
    }
}

fn collect_variadic(
    operator: VariadicOperator,
    left: &Vec<Value>,
    right: &Vec<Value>,
    env: &mut Environment,
    stack: &Stack,
    depth: usize,
) -> (r: Result<Value, ReturnState>)
    ensures
        (value_result_view(r), final(env)@) == semantics::collect_variadic(
            operator,
            values_view(*left),
            values_view(*right),
            old(env)@,
            stack@,
            depth as nat,
        ),
    decreases depth, 7nat, 0nat,
{
    match operator {
        VariadicOperator::Assign => assign(left, right, false, env, stack, depth),
        VariadicOperator::Trait => assign(left, right, true, env, stack, depth),
        VariadicOperator::Macro => {
            let target = group(left);
            match get_primitive_if_present_within(
                &target,
                BuiltinTrait::MacroParameter,
                env,
                stack,
                depth,
            ) {
                Err(state) => Err(state),
                Ok(None) => Err(
                    ReturnState::error("Macro parameter must have the Macro-Parameter trait", stack),
                ),
                Ok(Some(held)) => match held.get() {
                    Primitive::MacroParameter(parameter) => Ok(
                        Value::of(
                            Primitive::Macro(
                                Macro {
                                    define_parameter: parameter.clone(),
                                    value_to_expand: group(right),
                                },
                            ),
                        ),
                    ),
                    _ => Err(
                        ReturnState::error(
                            "Macro parameter must have the Macro-Parameter trait",
                            stack,
                        ),
                    ),
                },
            }
        },
        VariadicOperator::Closure => {
            let target = group(left);
            match get_primitive_if_present_within(
                &target,
                BuiltinTrait::ClosureParameter,
                env,
                stack,
                depth,
            ) {
                Err(state) => Err(state),
                Ok(None) => Err(
                    ReturnState::error(
                        "Closure parameter must have the Closure-Parameter trait",
                        stack,
                    ),
                ),
                Ok(Some(held)) => match held.get() {
                    Primitive::ClosureParameter(parameter) => Ok(
                        Value::of(
                            Primitive::Function(
                                Function::Closure(
                                    Closure {
                                        define_parameter: parameter.clone(),
                                        return_value: group(right),
                                        env: Rc::new(env.clone()),
                                    },
                                ),
                            ),
                        ),
                    ),
                    _ => Err(
                        ReturnState::error(
                            "Closure parameter must have the Closure-Parameter trait",
                            stack,
                        ),
                    ),
                },
            }
        },
    }
}

fn right_side(
    right: &Vec<Value>,
    with_trait: bool,
    env: &mut Environment,
    stack: &Stack,
    depth: usize,
) -> (r: Result<Value, ReturnState>)
    ensures
        (value_result_view(r), final(env)@) == semantics::right_side(
            values_view(*right),
            with_trait,
            old(env)@,
            stack@,
            depth as nat,
        ),
    decreases depth, 3nat, 0nat,
{
    if !with_trait {
        return Ok(group(right));
    }
    if right.len() != 2 {
        return Err(ReturnState::error("Expected a trait and a value for the trait", stack));
    }
    match evaluate_within(&right[0], env, stack, depth) {
        Err(state) => Err(state),
        Ok(constructor) => match get_primitive_within(
            &constructor,
            BuiltinTrait::TraitConstructor,
            env,
            stack,
            depth,
        ) {
            Err(state) => Err(state),
            Ok(constructor) => match evaluate_within(&right[1], env, stack, depth) {
                Err(state) => Err(state),
                Ok(value) => match constructor.get() {
                    Primitive::TraitConstructor(constructor) => new_value_within(
                        *constructor,
                        &value,
                        env,
                        stack,
                        depth,
                    ),
                    _ => Err(ReturnState::error("Cannot find trait", stack)),
                },
            },
        },
    }
}

pub open spec fn unit_view(r: Result<(), ReturnState>) -> Result<(), ReturnStateView> {
    match r {
        Ok(_) => Ok(()),
        Err(state) => Err(state@),
    }
}

impl AssignFn {
    /// What assigns to the variable `name`.
    pub fn new(name: Name) -> (r: Self)
        ensures
            r.name == name,
    {
        AssignFn { name }
    }

    fn bind(&self, value: &Value, env: &mut Environment, stack: &Stack, depth: usize) -> (r: Result<
        (),
        ReturnState,
    >)
        ensures
            (unit_view(r), final(env)@) == semantics::bind(
                self.name@,
                value@,
                old(env)@,
                stack@,
                depth as nat,
            ),
            r is Err ==> final(env)@ == old(env)@,
        decreases depth, 1nat, 2nat,
    {
        let mut changed = env.clone();
        match evaluate_within(value, &mut changed, stack, depth) {
            Err(state) => Err(state),
            Ok(value) => {
                changed.set_variable(self.name.name.as_str(), value);
                *env = changed;
                Ok(())
            },
        }
    }

    /// Evaluates `value` in `env` and binds the name to the result, with at
    /// most `depth` evaluations nested. A name whose variable is computed is
    /// not assigned to: the assignment goes to the `Assign` trait that the
    /// variable holds directly, and is an error where it holds none. Where
    /// the assignment fails, `env` is left as it was found.
    pub fn assign_within(&self, value: &Value, env: &mut Environment, stack: &Stack, depth: usize) -> (r:
        Result<(), ReturnState>)
        ensures
            (unit_view(r), final(env)@) == semantics::assign_to(
                self.name@,
                value@,
                old(env)@,
                stack@,
                depth as nat,
            ),
            r is Err ==> final(env)@ == old(env)@,
        decreases depth, 1nat, 3nat,
    {
        match env.lookup(self.name.name.as_str()) {
            None => self.bind(value, env, stack, depth),
            Some(variable) => match has_trait_within(
                &variable,
                TraitID::Builtin(BuiltinTrait::Computed),
                env,
                stack,
                depth,
            ) {
                Err(state) => Err(state),
                Ok(false) => self.bind(value, env, stack, depth),
                Ok(true) => match variable.find_direct(TraitID::Builtin(BuiltinTrait::Assign)) {
                    None => Err(ReturnState::error("Cannot assign to a computed variable", stack)),
                    Some(held) => {
                        if depth == 0 {
                            return Err(
                                ReturnState::error("Evaluation is nested too deeply", stack),
                            );
                        }
                        match held.get() {
                            Primitive::Assign(target) => target.assign_within(
                                value,
                                env,
                                stack,
                                depth - 1,
                            ),
                            _ => Err(ReturnState::error("Trait value is not of this kind", stack)),
                        }
                    },
                },
            },
        }
    }
}

/// An assignment by `:` or, where `with_trait`, by `::`. Where it fails,
/// `env` is left as it was found.
pub fn assign(
    left: &Vec<Value>,
    right: &Vec<Value>,
    with_trait: bool,
    env: &mut Environment,
    stack: &Stack,
    depth: usize,
) -> (r: Result<Value, ReturnState>)
    ensures
        (value_result_view(r), final(env)@) == semantics::assign(
            values_view(*left),
            values_view(*right),
            with_trait,
            old(env)@,
            stack@,
            depth as nat,
        ),
        r is Err ==> final(env)@ == old(env)@,
    decreases depth, 4nat, 0nat,
{
    let target = group(left);
    match get_primitive_if_present_within(&target, BuiltinTrait::Assign, env, stack, depth) {
        Err(state) => Err(state),
        Ok(None) => Err(
            ReturnState::error(
                "Cannot assign to this value because it does not have the Assign trait",
                stack,
            ),
        ),
        Ok(Some(held)) => match held.get() {
            Primitive::Assign(assignment) => {
                let mut changed = env.clone();
                match right_side(right, with_trait, &mut changed, stack, depth) {
                    Err(state) => Err(state),
                    Ok(value) => match evaluate_within(&value, &mut changed, stack, depth) {
                        Err(state) => Err(state),
                        Ok(value) => match assignment.assign_within(
                            &value,
                            &mut changed,
                            stack,
                            depth,
                        ) {
                            Err(state) => Err(state),
                            Ok(()) => {
                                *env = changed;
                                Ok(Value::empty())
                            },
                        },
                    },
                }
            },
            _ => Err(
                ReturnState::error(
                    "Cannot assign to this value because it does not have the Assign trait",
                    stack,
                ),
            ),
        },
    }
}

fn apply_items(items: &Vec<Value>, env: &mut Environment, stack: &Stack, depth: usize) -> (r:
    Result<Value, ReturnState>)
    ensures
        (value_result_view(r), final(env)@) == semantics::apply_items(
            values_view(*items),
            old(env)@,
            stack@,
            depth as nat,
        ),
    decreases depth, 7nat, items.len() + 1,
{
    if items.len() == 0 {
        return Ok(Value::empty());
    }
    match evaluate_within(&items[0], env, stack, depth) {
        Err(state) => Err(state),
        Ok(function) => call_each(function, items, 1, env, stack, depth),
    }
}

fn call_each(
    function: Value,
    items: &Vec<Value>,
    from: usize,
    env: &mut Environment,
    stack: &Stack,
    depth: usize,
) -> (r: Result<Value, ReturnState>)
    ensures
        (value_result_view(r), final(env)@) == semantics::call_each(
            function@,
            values_view(*items),
            from as int,
            old(env)@,
            stack@,
            depth as nat,
        ),
    decreases depth, 6nat, items.len() - from,
{
    if from >= items.len() {
        return Ok(function);
    }
    match call_with_within(&function, &items[from], env, stack, depth) {
        Err(state) => Err(state),
        Ok(result) => call_each(result, items, from + 1, env, stack, depth),
    }
}

/// `function` called with `argument`.
pub fn call_with_within(
    function: &Value,
    argument: &Value,
    env: &mut Environment,
    stack: &Stack,
    depth: usize,
) -> (r: Result<Value, ReturnState>)
    ensures
        (value_result_view(r), final(env)@) == semantics::call_with(
            function@,
            argument@,
            old(env)@,
            stack@,
            depth as nat,
        ),
    decreases depth, 2nat, 0nat,
{
    match get_primitive_if_present_within(function, BuiltinTrait::Function, env, stack, depth) {
        Err(state) => Err(state),
        Ok(None) => Err(
            ReturnState::error(
                "Cannot call this value because it does not have the Function trait",
                stack,
            ),
        ),
        Ok(Some(held)) => match held.get() {
            Primitive::Function(function) => call_function(function, argument, env, stack, depth),
            _ => Err(
                ReturnState::error(
                    "Cannot call this value because it does not have the Function trait",
                    stack,
                ),
            ),
        },
    }
}

fn call_function(
    function: &Function,
    argument: &Value,
    env: &mut Environment,
    stack: &Stack,
    depth: usize,
) -> (r: Result<Value, ReturnState>)
    ensures
        (value_result_view(r), final(env)@) == semantics::call_function(
            function@,
            argument@,
            old(env)@,
            stack@,
            depth as nat,
        ),
    decreases depth, 1nat, 1nat,
{
    match function {
        Function::New => match evaluate_within(argument, env, stack, depth) {
            Err(state) => Err(state),
            Ok(constructor) => match get_primitive_within(
                &constructor,
                BuiltinTrait::TraitConstructor,
                env,
                stack,
                depth,
            ) {
                Err(state) => Err(state),
                Ok(constructor) => match constructor.get() {
                    Primitive::TraitConstructor(constructor) => Ok(
                        Value::of(Primitive::Function(Function::NewWith(*constructor))),
                    ),
                    _ => Err(ReturnState::error("Cannot find trait", stack)),
                },
            },
        },
        Function::NewWith(constructor) => match evaluate_within(argument, env, stack, depth) {
            Err(state) => Err(state),
            Ok(value) => new_value_within(*constructor, &value, env, stack, depth),
        },
        Function::Do => {
            let mut inner = env.child();
            let result = evaluate_within(argument, &mut inner, stack, depth);
            env.set_next_trait(inner.next_trait);
            result
        },
        Function::Closure(closure) => match evaluate_within(argument, env, stack, depth) {
            Err(state) => Err(state),
            Ok(value) => {
                let mut inner = Environment::child_of(&closure.env);
                inner.set_next_trait(env.next_trait);
                inner.set_variable(closure.define_parameter.name.as_str(), value);
                let result = evaluate_within(&closure.return_value, &mut inner, stack, depth);
                env.set_next_trait(inner.next_trait);
                result
            },
        },
        Function::Module(module) => match get_primitive_if_present_within(
            argument,
            BuiltinTrait::Name,
            env,
            stack,
            depth,
        ) {
            Err(state) => Err(state),
            Ok(None) => Err(ReturnState::error("Expected a name", stack)),
            Ok(Some(held)) => match held.get() {
                Primitive::Name(name) => {
                    let resolve_env = module.env();
                    let mut compute_env = module.env();
                    compute_env.set_next_trait(env.next_trait);
                    let result = resolve_name_in(
                        name,
                        &resolve_env,
                        &mut compute_env,
                        stack,
                        depth,
                    );
                    env.set_next_trait(compute_env.next_trait);
                    result
                },
                _ => Err(ReturnState::error("Expected a name", stack)),
            },
        },
    }
}

fn run_statements(
    statements: &Vec<List>,
    from: usize,
    last: Value,
    catching: bool,
    env: &mut Environment,
    stack: &Stack,
    depth: usize,
) -> (r: Result<Value, ReturnState>)
    ensures
        (value_result_view(r), final(env)@) == semantics::run_statements(
            lists_view(*statements),
            from as int,
            last@,
            catching,
            old(env)@,
            stack@,
            depth as nat,
        ),
    decreases depth, 11nat, statements.len() - from,
{
    if from >= statements.len() {
        return Ok(last);
    }
    assert(lists_view(*statements)[from as int] == list_view(statements[from as int]));
    let statement_stack = located(stack, &statements[from].location);
    match evaluate_list(&statements[from], env, &statement_stack, depth) {
        Ok(value) => run_statements(statements, from + 1, value, catching, env, stack, depth),
        Err(ReturnState::ReturnFromBlock) => {
            if catching {
                Ok(last)
            } else {
                Err(ReturnState::ReturnFromBlock)
            }
        },
        Err(state) => Err(state),
    }
}

/// The value of `block`, evaluated in a new child of `env`.
pub fn evaluate_block(block: &Block, env: &mut Environment, stack: &Stack, depth: usize) -> (r:
    Result<Value, ReturnState>)
    ensures
        (value_result_view(r), final(env)@) == semantics::evaluate_block(
            block@,
            old(env)@,
            stack@,
            depth as nat,
        ),
    decreases depth, 12nat, 0nat,
{
    let mut inner = env.child();
    let stack = located(stack, &block.location);
    let result = run_statements(
        &block.statements,
        0,
        Value::empty(),
        true,
        &mut inner,
        &stack,
        depth,
    );
    env.set_next_trait(inner.next_trait);
    result
}

/// The module of `block`, evaluated in a new child of `env`.
pub fn evaluate_module_block(
    block: &ModuleBlock,
    env: &mut Environment,
    stack: &Stack,
    depth: usize,
) -> (r: Result<Value, ReturnState>)
    ensures
        (value_result_view(r), final(env)@) == semantics::evaluate_module_block(
            block@,
            old(env)@,
            stack@,
            depth as nat,
        ),
    decreases depth, 12nat, 0nat,
{
    let mut inner = env.child();
    let stack = located(stack, &block.location);
    let result = run_statements(
        &block.statements,
        0,
        Value::empty(),
        false,
        &mut inner,
        &stack,
        depth,
    );
    env.set_next_trait(inner.next_trait);
    match result {
        Err(state) => Err(state),
        Ok(_) => Ok(Value::of(Primitive::Module(Module::from(&inner)))),
    }
}

impl Module {
    /// A module of these variables.
    pub fn new(values: Vec<crate::value::Variable>) -> (r: Self)
        ensures
            r@.values == crate::value::variables_view(values),
    {
        Module { values }
    }

    /// The snapshot of the variables of `env`.
    pub fn from(env: &Environment) -> (r: Self)
        ensures
            r@.values == env@.variables,
    {
        Module { values: clone_variables(&env.variables) }
    }

    /// The environment of the module: its variables, and nothing else.
    pub fn env(&self) -> (r: Environment)
        ensures
            r@ == semantics::module_env(self@),
    {
        let mut r = Environment::new();
        r.variables = clone_variables(&self.values);
        r
    }
}


impl Value {
    /// What the trait `id` of the value holds in `env`, if the value has the trait.
    pub fn get_trait_if_present(&self, id: TraitID, env: &Environment, stack: &Stack) -> (r: Result<
        Option<crate::value::Dynamic>,
        ReturnState,
    >)
        ensures
            crate::lookup::lookup_view(r) == crate::lookup::find_trait(
                self@,
                id,
                env@,
                stack@,
                DEPTH_LIMIT as nat,
            ),
    {
        crate::lookup::find_trait_within(self, id, env, stack, DEPTH_LIMIT)
    }

    /// What the trait `id` of the value holds in `env`; an error where the
    /// value has not the trait.
    pub fn get_trait(&self, id: TraitID, env: &Environment, stack: &Stack) -> (r: Result<
        crate::value::Dynamic,
        ReturnState,
    >)
        ensures
            crate::lookup::held_view(r) == crate::lookup::get_trait(
                self@,
                id,
                env@,
                stack@,
                DEPTH_LIMIT as nat,
            ),
    {
        match self.get_trait_if_present(id, env, stack) {
            Err(state) => Err(state),
            Ok(None) => Err(ReturnState::error("Cannot find trait", stack)),
            Ok(Some(held)) => Ok(held),
        }
    }

    /// Whether the value has the trait `id` in `env`.
    pub fn has_trait(&self, id: TraitID, env: &Environment, stack: &Stack) -> (r: Result<
        bool,
        ReturnState,
    >)
        ensures
            crate::lookup::flag_view(r) == crate::lookup::has_trait(
                self@,
                id,
                env@,
                stack@,
                DEPTH_LIMIT as nat,
            ),
    {
        has_trait_within(self, id, env, stack, DEPTH_LIMIT)
    }

    /// The primitive of the built-in trait `kind` of the value, if the value has the trait.
    pub fn get_primitive_if_present(&self, kind: BuiltinTrait, env: &Environment, stack: &Stack) -> (r:
        Result<Option<crate::value::Dynamic>, ReturnState>)
        ensures
            crate::lookup::lookup_view(r) == crate::lookup::get_primitive_if_present(
                self@,
                kind,
                env@,
                stack@,
                DEPTH_LIMIT as nat,
            ),
    {
        get_primitive_if_present_within(self, kind, env, stack, DEPTH_LIMIT)
    }

    /// The primitive of the built-in trait `kind` of the value; an error
    /// where the value has not the trait.
    pub fn get_primitive(&self, kind: BuiltinTrait, env: &Environment, stack: &Stack) -> (r: Result<
        crate::value::Dynamic,
        ReturnState,
    >)
        ensures
            crate::lookup::held_view(r) == crate::lookup::get_primitive(
                self@,
                kind,
                env@,
                stack@,
                DEPTH_LIMIT as nat,
            ),
    {
        get_primitive_within(self, kind, env, stack, DEPTH_LIMIT)
    }

    /// The value that this one reduces to in `env`.
    pub fn evaluate(&self, env: &mut Environment, stack: &Stack) -> (r: Result<Value, ReturnState>)
        ensures
            (value_result_view(r), final(env)@) == semantics::evaluate(
                self@,
                old(env)@,
                stack@,
                DEPTH_LIMIT as nat,
            ),
    {
        evaluate_within(self, env, stack, DEPTH_LIMIT)
    }

    /// The result of calling this value with `parameter`.
    pub fn call_with(&self, parameter: &Value, env: &mut Environment, stack: &Stack) -> (r: Result<
        Value,
        ReturnState,
    >)
        ensures
            (value_result_view(r), final(env)@) == semantics::call_with(
                self@,
                parameter@,
                old(env)@,
                stack@,
                DEPTH_LIMIT as nat,
            ),
    {
        call_with_within(self, parameter, env, stack, DEPTH_LIMIT)
    }

    /// This value with `replacement` in place of the name `parameter`.
    pub fn macro_expand(
        &self,
        parameter: &str,
        replacement: &Value,
        env: &Environment,
        stack: &Stack,
    ) -> (r: Result<Value, ReturnState>)
        ensures
            value_result_view(r) == semantics::macro_expand(
                self@,
                parameter@,
                replacement@,
                env@,
                stack@,
                DEPTH_LIMIT as nat,
            ),
    {
        let parameter = String::from_str(parameter);
        macro_expand_within(self, &parameter, replacement, env, stack, DEPTH_LIMIT)
    }

    /// The text of the value: what its `Text` trait holds.
    pub fn format(&self, env: &Environment, stack: &Stack) -> (r: Result<String, ReturnState>)
        ensures
            crate::lookup::text_result_view(r) == crate::lookup::format(
                self@,
                env@,
                stack@,
                DEPTH_LIMIT as nat,
            ),
    {
        match self.get_primitive(BuiltinTrait::Text, env, stack) {
            Err(state) => Err(state),
            Ok(held) => match held.get() {
                Primitive::Text(text) => Ok(text.text.clone()),
                _ => Ok(String::new()),
            },
        }
    }
}

pub open spec fn shown_view(r: Result<Option<String>, ReturnState>) -> Result<
    Option<Seq<char>>,
    ReturnStateView,
> {
    match r {
        Ok(Some(text)) => Ok(Some(text@)),
        Ok(None) => Ok(None),
        Err(state) => Err(state@),
    }
}

/// What is to be written out when a program shows `value` in `env`, if
/// anything is. Writing it is left to the caller.
pub fn show(value: &Value, env: &mut Environment, stack: &Stack) -> (r: Result<
    Option<String>,
    ReturnState,
>)
    ensures
        (shown_view(r), final(env)@) == semantics::show(
            value@,
            old(env)@,
            stack@,
            DEPTH_LIMIT as nat,
        ),
{
    match env.show {
        crate::model::ShowFn::Nothing => Ok(None),
        crate::model::ShowFn::Text => match value.evaluate(env, stack) {
            Err(state) => Err(state),
            Ok(value) => match value.format(env, stack) {
                Err(state) => Err(state),
                Ok(text) => Ok(Some(text)),
            },
        },
    }
}

impl Name {
    /// The variable that the name refers to in `env`; where the variable is
    /// computed, what it evaluates to.
    pub fn resolve(&self, env: &mut Environment, stack: &Stack) -> (r: Result<Value, ReturnState>)
        ensures
            (value_result_view(r), final(env)@) == semantics::resolve_in(
                self@,
                old(env)@,
                old(env)@,
                stack@,
                DEPTH_LIMIT as nat,
            ),
    {
        let resolve_env = env.clone();
        resolve_name_in(self, &resolve_env, env, stack, DEPTH_LIMIT)
    }

    /// The variable that the name refers to in `resolve_env`; where the
    /// variable is computed, what it evaluates to in `compute_env`.
    pub fn resolve_in(&self, resolve_env: &Environment, compute_env: &mut Environment, stack: &Stack) -> (r:
        Result<Value, ReturnState>)
        ensures
            (value_result_view(r), final(compute_env)@) == semantics::resolve_in(
                self@,
                resolve_env@,
                old(compute_env)@,
                stack@,
                DEPTH_LIMIT as nat,
            ),
    {
        resolve_name_in(self, resolve_env, compute_env, stack, DEPTH_LIMIT)
    }

    /// The variable that the name refers to in `env` or in a scope around
    /// it, as it is bound; an error where there is none.
    pub fn resolve_without_computing(&self, env: &Environment, stack: &Stack) -> (r: Result<
        Value,
        ReturnState,
    >)
        ensures
            value_result_view(r) == semantics::resolve_without_computing(self@, env@, stack@),
    {
        resolve_name_without_computing(self, env, stack)
    }

    /// The variable that the name refers to in `env` or in a scope around
    /// it, as it is bound, if there is one.
    pub fn resolve_without_computing_if_present(&self, env: &Environment) -> (r: Option<Value>)
        ensures
            match r {
                Some(value) => env@.lookup(self@.name) == Some(value@),
                None => env@.lookup(self@.name) is None,
            },
    {
        env.lookup(self.name.as_str())
    }
}

impl Function {
    /// The function that binds `define_parameter` to its argument in a child
    /// of `env` and evaluates `return_value` there.
    pub fn new(define_parameter: Name, return_value: Value, env: &Environment) -> (r: Self)
        ensures
            r@ == crate::model::FunctionView::Closure(
                crate::model::ClosureView {
                    define_parameter: define_parameter@,
                    return_value: Box::new(return_value@),
                    env: Box::new(env@),
                },
            ),
    {
        Function::Closure(Closure { define_parameter, return_value, env: Rc::new(env.clone()) })
    }
}

} // verus!
