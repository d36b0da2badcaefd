use wipple::diagnostics::{Location, ReturnState, Stack};
use wipple::evaluate::{assign, carried, evaluate_within, group, make_trait, show, trait_maker, DEPTH_LIMIT};
use wipple::model::{Derivation, ShowFn, TraitConstructor, Validation};
use wipple::operators::{BinaryOperator, Operator};
use wipple::setup::{init, setup};
use wipple::traits::{BuiltinTrait, TraitID};
use wipple::value::{
    AssignFn, Block, Computed, Dynamic, Environment, Function, List, Module, ModuleBlock, Name,
    Number, Primitive, Quoted, Text, Value,
};

fn word(text: &str) -> Value {
    Value::of(Primitive::Name(Name { name: text.to_string(), location: None }))
}

fn num(numeral: &str) -> Value {
    Value::of(Primitive::Number(Number { number: numeral.to_string(), location: None }))
}

fn string(text: &str) -> Value {
    Value::of(Primitive::Text(Text { text: text.to_string(), location: None }))
}

fn items(items: Vec<Value>) -> List {
    List { items, location: None }
}

fn list(values: Vec<Value>) -> Value {
    Value::of(Primitive::List(items(values)))
}

fn braces(statements: Vec<List>) -> Value {
    Value::of(Primitive::Block(Block { statements, location: None }))
}

fn quote(value: Value) -> Value {
    Value::of(Primitive::Quoted(Quoted { value, location: None }))
}

fn failure(state: ReturnState) -> String {
    state.into_error(&Stack::new()).message
}

fn run(value: &Value, env: &mut Environment) -> Result<Value, String> {
    value.evaluate(env, &Stack::new()).map_err(failure)
}

fn shown(value: &Value, env: &Environment) -> Result<String, String> {
    value.format(env, &Stack::new()).map_err(failure)
}

fn name_of(value: &Value, env: &Environment) -> Option<String> {
    let held = value.get_primitive_if_present(BuiltinTrait::Name, env, &Stack::new()).map_err(failure).unwrap()?;
    match held.get() {
        Primitive::Name(name) => Some(name.name.clone()),
        _ => None,
    }
}

fn is_empty(value: &Value) -> bool {
    value.traits.is_empty()
}

#[test]
fn test_env() {
    let mut env = Environment::default();
    init(&mut env);
    let block = braces(Vec::new());
    let result = run(&block, &mut env).unwrap();
    assert!(is_empty(&result));
    let text = result.get_trait(TraitID::Builtin(BuiltinTrait::Text), &env, &Stack::new());
    assert_eq!(text.map(|_| ()).map_err(failure), Err("Cannot find trait".to_string()));
}

#[test]
fn empty_list_evaluates_to_the_empty_value() {
    let mut env = Environment::global();
    assert!(is_empty(&run(&list(vec![]), &mut env).unwrap()));
}

#[test]
fn value_without_evaluate_trait_evaluates_to_itself() {
    let mut env = Environment::global();
    assert_eq!(shown(&run(&num("12"), &mut env).unwrap(), &env), Ok("12".to_string()));
    assert_eq!(shown(&run(&string("twelve"), &mut env).unwrap(), &env), Ok("twelve".to_string()));
    assert!(is_empty(&run(&Value::empty(), &mut env).unwrap()));
}

#[test]
fn unbound_name_is_an_error() {
    let mut env = Environment::global();
    assert_eq!(run(&word("nowhere"), &mut env).map(|_| ()), Err("Name does not refer to a variable".to_string()));
}

#[test]
fn unbound_name_error_carries_the_resolving_frame() {
    let mut env = Environment::global();
    let state = word("nowhere").evaluate(&mut env, &Stack::new()).map(|_| ()).unwrap_err();
    let error = state.into_error(&Stack::new());
    assert_eq!(error.stack.items.len(), 1);
    assert_eq!(error.stack.items[0].label, "Resolving variable 'nowhere'");
    assert_eq!(error.to_string(), "Name does not refer to a variable\n    Resolving variable 'nowhere'");
}

#[test]
fn error_in_a_list_carries_the_list_frame_with_its_location() {
    let mut env = Environment::global();
    let located = Value::of(Primitive::List(List {
        items: vec![num("1"), num("2")],
        location: Some(Location::Source { file: Some("main.wpl".to_string()), line: 3, column: 7 }),
    }));
    let state = located.evaluate(&mut env, &Stack::new()).map(|_| ()).unwrap_err();
    let error = state.into_error(&Stack::new());
    assert_eq!(error.message, "Cannot call this value because it does not have the Function trait");
    assert_eq!(error.stack.items.len(), 1);
    assert_eq!(error.stack.items[0].to_string(), "Evaluating list (main.wpl:3:7)");
}

#[test]
fn division_by_zero_raises() {
    let mut env = Environment::global();
    let program = list(vec![num("1"), word("/"), num("0")]);
    assert_eq!(run(&program, &mut env).map(|_| ()), Err("Division by zero".to_string()));
}

#[test]
fn assigning_to_a_number_raises() {
    let mut env = Environment::global();
    let program = list(vec![num("5"), word(":"), num("1")]);
    assert_eq!(
        run(&program, &mut env).map(|_| ()),
        Err("Cannot assign to this value because it does not have the Assign trait".to_string())
    );
}

#[test]
fn calling_what_is_no_function_raises() {
    let mut env = Environment::global();
    let program = list(vec![num("1"), num("2")]);
    assert_eq!(
        run(&program, &mut env).map(|_| ()),
        Err("Cannot call this value because it does not have the Function trait".to_string())
    );
    assert_eq!(
        num("1").call_with(&num("2"), &mut env, &Stack::new()).map(|_| ()).map_err(failure),
        Err("Cannot call this value because it does not have the Function trait".to_string())
    );
}

#[test]
fn binary_operator_needs_a_value_on_each_side() {
    let mut env = Environment::global();
    assert_eq!(
        run(&list(vec![word("+"), num("1")]), &mut env).map(|_| ()),
        Err("Expected a single value on the left of this operator".to_string())
    );
    assert_eq!(
        run(&list(vec![num("1"), word("+")]), &mut env).map(|_| ()),
        Err("Expected a single value on the right of this operator".to_string())
    );
}

#[test]
fn arithmetic_needs_numbers() {
    let mut env = Environment::global();
    assert_eq!(
        run(&list(vec![num("1"), word("+"), string("2")]), &mut env).map(|_| ()),
        Err("Cannot find trait".to_string())
    );
    assert_eq!(
        run(&list(vec![num("1"), word("+"), num("two")]), &mut env).map(|_| ()),
        Err("Invalid number".to_string())
    );
}

#[test]
fn arithmetic_operators_compute() {
    let mut env = Environment::global();
    let sum = run(&list(vec![num("1"), word("+"), num("2")]), &mut env).unwrap();
    assert_eq!(shown(&sum, &env), Ok("3".to_string()));
    let difference = run(&list(vec![num("10"), word("-"), num("4"), word("-"), num("3")]), &mut env).unwrap();
    assert_eq!(shown(&difference, &env), Ok("3".to_string()));
    let quotient = run(&list(vec![num("8"), word("/"), num("4"), word("/"), num("2")]), &mut env).unwrap();
    assert_eq!(shown(&quotient, &env), Ok("1".to_string()));
    let mixed = run(
        &list(vec![num("2"), word("*"), num("3"), word("+"), num("4"), word("*"), num("5")]),
        &mut env,
    )
    .unwrap();
    assert_eq!(shown(&mixed, &env), Ok("26".to_string()));
}

#[test]
fn nested_list_is_evaluated_where_its_value_is_needed() {
    let mut env = Environment::global();
    let program = list(vec![list(vec![num("1"), word("+"), num("2")]), word("*"), num("3")]);
    assert_eq!(shown(&run(&program, &mut env).unwrap(), &env), Ok("9".to_string()));
}

#[test]
fn assignment_yields_the_empty_value_and_binds_the_name() {
    let mut env = Environment::global();
    let result = run(&list(vec![word("x"), word(":"), num("1"), word("+"), num("1")]), &mut env).unwrap();
    assert!(is_empty(&result));
    assert_eq!(shown(&env.lookup("x").unwrap(), &env), Ok("2".to_string()));
    assert_eq!(shown(&run(&word("x"), &mut env).unwrap(), &env), Ok("2".to_string()));
}

#[test]
fn assignment_nests_to_the_right() {
    let mut env = Environment::global();
    let program = list(vec![word("x"), word(":"), word("y"), word(":"), num("5")]);
    let result = run(&program, &mut env).unwrap();
    assert!(is_empty(&result));
    assert_eq!(shown(&env.lookup("y").unwrap(), &env), Ok("5".to_string()));
    assert!(is_empty(&env.lookup("x").unwrap()));
}

#[test]
fn failing_assignment_leaves_the_environment_unchanged() {
    let mut env = Environment::global();
    let before = env.variables.len();
    let program = list(vec![
        word("x"),
        word(":"),
        list(vec![word("y"), word(":"), num("1")]),
        num("2"),
    ]);
    assert_eq!(
        run(&program, &mut env).map(|_| ()),
        Err("Cannot call this value because it does not have the Function trait".to_string())
    );
    assert_eq!(env.variables.len(), before);
    assert!(env.lookup("x").is_none());
    assert!(env.lookup("y").is_none());
    let left = vec![word("z")];
    let right = vec![word("nowhere")];
    let failed = assign(&left, &right, false, &mut env, &Stack::new(), DEPTH_LIMIT);
    assert_eq!(failed.map(|_| ()).map_err(failure), Err("Name does not refer to a variable".to_string()));
    assert_eq!(env.variables.len(), before);
}

#[test]
fn assign_trait_of_a_name_evaluates_and_binds() {
    let mut env = Environment::global();
    let target = AssignFn::new(Name { name: "total".to_string(), location: None });
    let value = list(vec![num("2"), word("*"), num("21")]);
    assert!(target.assign_within(&value, &mut env, &Stack::new(), DEPTH_LIMIT).is_ok());
    assert_eq!(shown(&env.lookup("total").unwrap(), &env), Ok("42".to_string()));
    let before = env.variables.len();
    let failed = target.assign_within(&word("nowhere"), &mut env, &Stack::new(), DEPTH_LIMIT);
    assert_eq!(failed.map_err(failure), Err("Name does not refer to a variable".to_string()));
    assert_eq!(env.variables.len(), before);
    assert_eq!(shown(&env.lookup("total").unwrap(), &env), Ok("42".to_string()));
}

#[test]
fn quoted_value_evaluates_to_what_it_quotes() {
    let mut env = Environment::global();
    let before = env.variables.len();
    let result = run(&quote(word("nowhere")), &mut env).unwrap();
    assert_eq!(name_of(&result, &env), Some("nowhere".to_string()));
    assert_eq!(env.variables.len(), before);
    let inner = list(vec![num("1"), word("+"), num("2")]);
    let result = run(&quote(inner), &mut env).unwrap();
    assert_eq!(result.has_trait(TraitID::Builtin(BuiltinTrait::List), &env, &Stack::new()).map_err(failure), Ok(true));
    assert_eq!(result.has_trait(TraitID::Builtin(BuiltinTrait::Number), &env, &Stack::new()).map_err(failure), Ok(false));
}

#[test]
fn block_value_is_the_value_of_its_last_statement() {
    let mut env = Environment::global();
    let program = braces(vec![
        items(vec![num("1")]),
        items(vec![word("x"), word(":"), num("2")]),
        items(vec![word("x"), word("+"), num("40")]),
    ]);
    assert_eq!(shown(&run(&program, &mut env).unwrap(), &env), Ok("42".to_string()));
    let last_is_assignment = braces(vec![items(vec![num("1")]), items(vec![word("y"), word(":"), num("2")])]);
    assert!(is_empty(&run(&last_is_assignment, &mut env).unwrap()));
}

#[test]
fn block_scope_does_not_leak() {
    let mut env = Environment::global();
    env.set_variable("x", num("1"));
    let before = env.variables.len();
    let program = braces(vec![items(vec![word("x"), word(":"), num("2")]), items(vec![word("x")])]);
    assert_eq!(shown(&run(&program, &mut env).unwrap(), &env), Ok("2".to_string()));
    assert_eq!(env.variables.len(), before);
    assert_eq!(shown(&run(&word("x"), &mut env).unwrap(), &env), Ok("1".to_string()));
}

#[test]
fn failing_statement_ends_the_block_with_its_error() {
    let mut env = Environment::global();
    let program = braces(vec![items(vec![word("nowhere")]), items(vec![num("1")])]);
    assert_eq!(run(&program, &mut env).map(|_| ()), Err("Name does not refer to a variable".to_string()));
}

#[test]
fn do_evaluates_in_a_child_scope() {
    let mut env = Environment::global();
    env.set_variable("x", num("1"));
    let program = list(vec![word("do"), list(vec![word("x"), word(":"), num("2")])]);
    assert!(is_empty(&run(&program, &mut env).unwrap()));
    assert_eq!(shown(&env.lookup("x").unwrap(), &env), Ok("1".to_string()));
}

#[test]
fn closure_sees_the_scope_it_was_made_in() {
    let mut env = Environment::global();
    let program = braces(vec![
        items(vec![word("base"), word(":"), num("10")]),
        items(vec![word("raise"), word(":"), word("n"), word("->"), word("n"), word("+"), word("base")]),
        items(vec![word("base"), word(":"), num("1000")]),
        items(vec![word("raise"), num("5")]),
    ]);
    assert_eq!(shown(&run(&program, &mut env).unwrap(), &env), Ok("15".to_string()));
}

#[test]
fn closure_argument_is_evaluated_where_the_call_stands() {
    let mut env = Environment::global();
    let program = braces(vec![
        items(vec![word("twice"), word(":"), word("n"), word("->"), word("n"), word("*"), num("2")]),
        items(vec![word("n"), word(":"), num("7")]),
        items(vec![word("twice"), list(vec![word("n"), word("+"), num("1")])]),
    ]);
    assert_eq!(shown(&run(&program, &mut env).unwrap(), &env), Ok("16".to_string()));
}

#[test]
fn closure_parameter_must_be_a_name() {
    let mut env = Environment::global();
    let program = list(vec![num("5"), word("->"), num("1")]);
    assert_eq!(
        run(&program, &mut env).map(|_| ()),
        Err("Closure parameter must have the Closure-Parameter trait".to_string())
    );
}

#[test]
fn function_made_by_hand_is_called() {
    let mut env = Environment::global();
    let function = Function::new(
        Name { name: "n".to_string(), location: None },
        list(vec![word("n"), word("*"), word("n")]),
        &env,
    );
    let value = Value::of(Primitive::Function(function));
    let result = value.call_with(&num("9"), &mut env, &Stack::new()).map_err(failure).unwrap();
    assert_eq!(shown(&result, &env), Ok("81".to_string()));
}

#[test]
fn macro_parameter_must_be_a_name() {
    let mut env = Environment::global();
    let program = list(vec![num("5"), word("=>"), num("1")]);
    assert_eq!(
        run(&program, &mut env).map(|_| ()),
        Err("Macro parameter must have the Macro-Parameter trait".to_string())
    );
}

#[test]
fn macro_substitutes_inside_nested_lists_and_blocks() {
    let mut env = Environment::global();
    let program = braces(vec![
        items(vec![
            word("cube"),
            word(":"),
            word("x"),
            word("=>"),
            word("x"),
            word("*"),
            list(vec![word("x"), word("*"), word("x")]),
        ]),
        items(vec![word("cube"), num("3"), word("+"), num("1")]),
    ]);
    assert_eq!(shown(&run(&program, &mut env).unwrap(), &env), Ok("28".to_string()));
}

#[test]
fn macro_expand_replaces_the_parameter_only() {
    let env = Environment::global();
    let stack = Stack::new();
    let template = list(vec![word("x"), word("y"), num("1"), quote(word("x"))]);
    let expanded = template.macro_expand("x", &num("7"), &env, &stack).map_err(failure).unwrap();
    let held = expanded.get_primitive(BuiltinTrait::List, &env, &stack).map_err(failure).unwrap();
    match held.get() {
        Primitive::List(list) => {
            assert_eq!(list.items.len(), 4);
            assert_eq!(shown(&list.items[0], &env), Ok("7".to_string()));
            assert_eq!(name_of(&list.items[1], &env), Some("y".to_string()));
            assert_eq!(shown(&list.items[2], &env), Ok("1".to_string()));
            assert_eq!(
                list.items[3].has_trait(TraitID::Builtin(BuiltinTrait::Quoted), &env, &stack).map_err(failure),
                Ok(true)
            );
        }
        _ => panic!("not a list"),
    }
    let untouched = num("3").macro_expand("x", &num("7"), &env, &stack).map_err(failure).unwrap();
    assert_eq!(shown(&untouched, &env), Ok("3".to_string()));
}

#[test]
fn macro_that_expands_to_itself_is_reported() {
    let mut env = Environment::global();
    let program = braces(vec![
        items(vec![word("again"), word(":"), word("x"), word("=>"), word("again"), word("x")]),
        items(vec![word("again"), num("1")]),
    ]);
    assert_eq!(run(&program, &mut env).map(|_| ()), Err("Macro expands infinitely".to_string()));
}

#[test]
fn evaluation_nested_too_deeply_is_reported() {
    let mut env = Environment::global();
    let program = braces(vec![
        items(vec![word("w"), word(":"), word("x"), word("->"), word("x"), word("x")]),
        items(vec![word("w"), word("w")]),
    ]);
    assert_eq!(run(&program, &mut env).map(|_| ()), Err("Evaluation is nested too deeply".to_string()));
    let shallow = evaluate_within(&num("1"), &mut env, &Stack::new(), 0);
    assert_eq!(shallow.map(|_| ()).map_err(failure), Err("Evaluation is nested too deeply".to_string()));
    let enough = evaluate_within(&list(vec![num("1"), word("+"), num("1")]), &mut env, &Stack::new(), 3);
    assert_eq!(shown(&enough.map_err(failure).unwrap(), &env), Ok("2".to_string()));
}

#[test]
fn new_makes_a_value_of_a_trait() {
    let mut env = Environment::global();
    let stack = Stack::new();
    let id = TraitID::runtime(7);
    env.set_variable(
        "Seven",
        Value::of(Primitive::TraitConstructor(TraitConstructor { id, validation: Validation::Any })),
    );
    let made = run(&list(vec![word("new"), word("Seven"), string("seven")]), &mut env).unwrap();
    assert_eq!(made.has_trait(id, &env, &stack).map_err(failure), Ok(true));
    assert_eq!(made.has_trait(TraitID::runtime(8), &env, &stack).map_err(failure), Ok(false));
    assert_eq!(shown(&made, &env), Ok("seven".to_string()));
    assert_eq!(
        run(&list(vec![word("new"), num("1")]), &mut env).map(|_| ()),
        Err("Cannot find trait".to_string())
    );
}

#[test]
fn new_validates_the_value() {
    let mut env = Environment::global();
    let stack = Stack::new();
    let named = run(&list(vec![word("new"), word("Name"), quote(word("n"))]), &mut env).unwrap();
    assert_eq!(name_of(&named, &env), Some("n".to_string()));
    assert_eq!(
        run(&list(vec![word("new"), word("Name"), num("5")]), &mut env).map(|_| ()),
        Err("Cannot use this value to represent this trait".to_string())
    );
    let _ = stack;
}

#[test]
fn trait_operator_needs_a_trait_and_a_value() {
    let mut env = Environment::global();
    let program = list(vec![word("hi"), word("::"), word("Name")]);
    assert_eq!(
        run(&program, &mut env).map(|_| ()),
        Err("Expected a trait and a value for the trait".to_string())
    );
    assert!(env.lookup("hi").is_none());
}

#[test]
fn module_block_evaluates_to_a_module_that_is_called_with_a_name() {
    let mut env = Environment::global();
    let stack = Stack::new();
    let block = Value::of(Primitive::ModuleBlock(ModuleBlock {
        statements: vec![
            items(vec![word("a"), word(":"), num("1")]),
            items(vec![word("b"), word(":"), word("a"), word("+"), num("1")]),
        ],
        location: None,
    }));
    assert_eq!(shown(&block, &env), Ok("<module block>".to_string()));
    let module = run(&block, &mut env).unwrap();
    assert_eq!(shown(&module, &env), Ok("<module>".to_string()));
    assert!(env.lookup("a").is_none());
    let b = module.call_with(&word("b"), &mut env, &stack).map_err(failure).unwrap();
    assert_eq!(shown(&b, &env), Ok("2".to_string()));
    assert_eq!(
        module.call_with(&word("c"), &mut env, &stack).map(|_| ()).map_err(failure),
        Err("Name does not refer to a variable".to_string())
    );
    assert_eq!(
        module.call_with(&num("1"), &mut env, &stack).map(|_| ()).map_err(failure),
        Err("Expected a name".to_string())
    );
}

#[test]
fn module_is_a_snapshot_of_variables() {
    let mut env = Environment::new();
    env.set_variable("a", num("1"));
    let module = Module::from(&env);
    env.set_variable("a", num("2"));
    env.set_variable("b", num("3"));
    let inside = module.env();
    assert!(inside.parent.is_none());
    assert_eq!(shown(&inside.lookup("a").unwrap(), &inside), Err("Cannot find trait".to_string()));
    let ready = Environment::global();
    assert_eq!(shown(&inside.lookup("a").unwrap(), &ready), Ok("1".to_string()));
    assert!(inside.lookup("b").is_none());
    let fresh = Module::new(Vec::new());
    assert!(fresh.env().variables.is_empty());
}

#[test]
fn computed_variable_is_evaluated_on_every_access() {
    let mut env = Environment::global();
    let computed = list(vec![word("n"), word("+"), num("1")])
        .add(TraitID::Builtin(BuiltinTrait::Computed), Dynamic::new(Primitive::Computed(Computed)));
    env.set_variable("next", computed);
    env.set_variable("n", num("1"));
    assert_eq!(shown(&run(&word("next"), &mut env).unwrap(), &env), Ok("2".to_string()));
    env.set_variable("n", num("41"));
    assert_eq!(shown(&run(&word("next"), &mut env).unwrap(), &env), Ok("42".to_string()));
    let name = Name { name: "next".to_string(), location: None };
    let stack = Stack::new();
    let bound = name.resolve_without_computing(&env, &stack).map_err(failure).unwrap();
    assert_eq!(bound.has_trait(TraitID::Builtin(BuiltinTrait::List), &env, &stack).map_err(failure), Ok(true));
    assert!(name.resolve_without_computing_if_present(&env).is_some());
    assert_eq!(shown(&name.resolve(&mut env, &stack).map_err(failure).unwrap(), &env), Ok("42".to_string()));
}

#[test]
fn name_is_resolved_in_one_scope_and_computed_in_another() {
    let mut compute_env = Environment::global();
    compute_env.set_variable("n", num("5"));
    let mut resolve_env = Environment::new();
    let computed = word("n")
        .add(TraitID::Builtin(BuiltinTrait::Computed), Dynamic::new(Primitive::Computed(Computed)));
    resolve_env.set_variable("lazy", computed);
    let name = Name { name: "lazy".to_string(), location: None };
    let stack = Stack::new();
    let value = name.resolve_in(&resolve_env, &mut compute_env, &stack).map_err(failure).unwrap();
    assert_eq!(shown(&value, &compute_env), Ok("5".to_string()));
    let missing = Name { name: "n".to_string(), location: None };
    assert_eq!(
        missing.resolve_in(&resolve_env, &mut compute_env, &stack).map(|_| ()).map_err(failure),
        Err("Name does not refer to a variable".to_string())
    );
    assert!(missing.resolve_without_computing_if_present(&resolve_env).is_none());
}

#[test]
fn item_carries_the_trait_of_the_variable_it_names() {
    let env = Environment::global();
    let stack = Stack::new();
    let plus = carried(&word("+"), BuiltinTrait::Operator, &env, &stack, DEPTH_LIMIT).map_err(failure).unwrap().unwrap();
    match plus.get() {
        Primitive::Operator(operator) => assert_eq!(*operator, Operator::Binary(BinaryOperator::Add)),
        _ => panic!("not an operator"),
    }
    assert!(carried(&word("nowhere"), BuiltinTrait::Operator, &env, &stack, DEPTH_LIMIT).map_err(failure).unwrap().is_none());
    assert!(carried(&num("1"), BuiltinTrait::Operator, &env, &stack, DEPTH_LIMIT).map_err(failure).unwrap().is_none());
    assert!(carried(&word("do"), BuiltinTrait::Operator, &env, &stack, DEPTH_LIMIT).map_err(failure).unwrap().is_none());
    assert!(carried(&word("do"), BuiltinTrait::Function, &env, &stack, DEPTH_LIMIT).map_err(failure).unwrap().is_some());
}

#[test]
fn group_of_one_item_is_the_item() {
    let env = Environment::global();
    assert_eq!(shown(&group(&vec![num("1")]), &env), Ok("1".to_string()));
    let two = group(&vec![num("1"), num("2")]);
    assert_eq!(two.has_trait(TraitID::Builtin(BuiltinTrait::List), &env, &Stack::new()).map_err(failure), Ok(true));
    let none = group(&vec![]);
    assert_eq!(none.has_trait(TraitID::Builtin(BuiltinTrait::List), &env, &Stack::new()).map_err(failure), Ok(true));
}

#[test]
fn setup_alone_gives_no_operators() {
    let mut env = Environment::new();
    setup(&mut env);
    assert_eq!(env.conformances.len(), 16);
    assert!(env.operators.binary.is_empty());
    assert!(env.lookup("Name").is_some());
    assert!(env.lookup("new").is_none());
    assert_eq!(shown(&num("5"), &env), Ok("5".to_string()));
    assert_eq!(shown(&word("five"), &env), Ok("five".to_string()));
    assert_eq!(env.conformances[4].derive_trait_value, Derivation::NameText);
}

#[test]
fn global_environment_has_the_standard_names() {
    let env = Environment::global();
    for name in ["Name", "trait", "new", "do", ":", "::", "=>", "->", "+", "-", "*", "/"] {
        assert!(env.lookup(name).is_some(), "{} is missing", name);
    }
    assert!(env.parent.is_none());
    assert_eq!(env.conformances.len(), 17);
    assert_eq!(env.operators.variadic.len(), 2);
    assert_eq!(env.operators.binary.len(), 2);
    assert_eq!(env.operators.next_id, 4);
}

#[test]
fn shown_value_is_evaluated_and_handed_over_as_text() {
    let mut env = Environment::global();
    let stack = Stack::new();
    let sum = list(vec![num("20"), word("+"), num("22")]);
    assert_eq!(show(&sum, &mut env, &stack).map_err(failure), Ok(None));
    assert_eq!(show(&word("nowhere"), &mut env, &stack).map_err(failure), Ok(None));
    env.set_show(ShowFn::Text);
    assert_eq!(show(&sum, &mut env, &stack).map_err(failure), Ok(Some("42".to_string())));
    assert_eq!(
        show(&word("nowhere"), &mut env, &stack).map_err(failure),
        Err("Name does not refer to a variable".to_string())
    );
    assert_eq!(show(&Value::empty(), &mut env, &stack).map_err(failure), Err("Cannot find trait".to_string()));
    let mut child = env.child();
    assert_eq!(show(&string("hello"), &mut child, &stack).map_err(failure), Ok(Some("hello".to_string())));
}

fn constructed(value: &Value, env: &Environment) -> TraitID {
    let held = value.get_primitive(BuiltinTrait::TraitConstructor, env, &Stack::new()).map_err(failure).unwrap();
    match held.get() {
        Primitive::TraitConstructor(constructor) => {
            assert_eq!(constructor.validation, Validation::Any);
            constructor.id
        }
        _ => panic!("not a trait constructor"),
    }
}

#[test]
fn every_trait_made_is_another() {
    let mut env = Environment::new();
    init(&mut env);
    assert_eq!(env.next_trait, 0);
    let first = run(&word("trait"), &mut env).unwrap();
    let second = run(&word("trait"), &mut env).unwrap();
    assert_eq!(constructed(&first, &env), TraitID::Runtime(0));
    assert_eq!(constructed(&second, &env), TraitID::Runtime(1));
    assert_eq!(env.next_trait, 2);
    let made = make_trait(&mut env).map_err(failure).unwrap();
    assert_eq!(constructed(&made, &env), TraitID::Runtime(2));
    env.set_next_trait(u128::MAX);
    let last = make_trait(&mut env).map_err(failure).unwrap();
    assert_eq!(constructed(&last, &env), TraitID::Runtime(u128::MAX));
    assert_eq!(env.next_trait, 0);
    let maker = trait_maker();
    assert_eq!(maker.has_trait(TraitID::Builtin(BuiltinTrait::Computed), &env, &Stack::new()).map_err(failure), Ok(true));
    assert_eq!(constructed(&run(&maker, &mut env).unwrap(), &env), TraitID::Runtime(0));
}

#[test]
fn traits_made_in_scopes_inside_are_counted_outside() {
    let mut env = Environment::new();
    init(&mut env);
    let in_block = run(&braces(vec![items(vec![word("trait")])]), &mut env).unwrap();
    assert_eq!(constructed(&in_block, &env), TraitID::Runtime(0));
    let in_do = run(&list(vec![word("do"), word("trait")]), &mut env).unwrap();
    assert_eq!(constructed(&in_do, &env), TraitID::Runtime(1));
    let program = braces(vec![
        items(vec![word("make"), word(":"), word("x"), word("->"), word("trait")]),
        items(vec![word("A"), word(":"), word("trait")]),
        items(vec![word("make"), num("0")]),
    ]);
    let from_closure = run(&program, &mut env).unwrap();
    assert_eq!(constructed(&from_closure, &env), TraitID::Runtime(3));
    assert_eq!(env.next_trait, 4);
    let module = run(
        &Value::of(Primitive::ModuleBlock(ModuleBlock {
            statements: vec![items(vec![word("T"), word(":"), word("trait")])],
            location: None,
        })),
        &mut env,
    )
    .unwrap();
    assert_eq!(env.next_trait, 5);
    let t = module.call_with(&word("T"), &mut env, &Stack::new()).map_err(failure).unwrap();
    assert_eq!(constructed(&t, &env), TraitID::Runtime(4));
    let again = module.call_with(&word("trait"), &mut env, &Stack::new()).map_err(failure).unwrap();
    assert_eq!(constructed(&again, &env), TraitID::Runtime(5));
    assert_eq!(env.next_trait, 6);
}

#[test]
fn two_traits_of_a_program_are_told_apart() {
    let mut env = Environment::global();
    let stack = Stack::new();
    let program = braces(vec![
        items(vec![word("Greeting"), word(":"), word("trait")]),
        items(vec![word("Parting"), word(":"), word("trait")]),
        items(vec![word("hi"), word("::"), word("Greeting"), string("hello")]),
        items(vec![word("Parting")]),
    ]);
    let parting = constructed(&run(&program, &mut env).unwrap(), &env);
    let program = braces(vec![
        items(vec![word("Greeting"), word(":"), word("trait")]),
        items(vec![word("hi"), word("::"), word("Greeting"), string("hello")]),
        items(vec![word("hi")]),
    ]);
    let hi = run(&program, &mut env).unwrap();
    assert_eq!(hi.has_trait(parting, &env, &stack).map_err(failure), Ok(false));
    assert_eq!(hi.traits.len(), 2);
}

#[test]
fn environments_that_programs_start_from_number_their_traits_apart() {
    let one = Environment::global();
    let other = Environment::global();
    assert_ne!(one.next_trait, other.next_trait);
    assert_eq!(one.variables.len(), other.variables.len());
}

#[test]
fn computed_variable_is_not_assigned_to() {
    let mut env = Environment::global();
    let before = env.variables.len();
    let program = list(vec![word("trait"), word(":"), num("5")]);
    assert_eq!(run(&program, &mut env).map(|_| ()), Err("Cannot assign to a computed variable".to_string()));
    assert_eq!(env.variables.len(), before);
    let still = run(&word("trait"), &mut env).unwrap();
    assert_eq!(still.has_trait(TraitID::Builtin(BuiltinTrait::TraitConstructor), &env, &Stack::new()).map_err(failure), Ok(true));
}

#[test]
fn computed_variable_with_its_own_assign_trait_hands_the_assignment_on() {
    let mut env = Environment::global();
    let stack = Stack::new();
    let cell = word("store")
        .add(TraitID::Builtin(BuiltinTrait::Computed), Dynamic::new(Primitive::Computed(Computed)))
        .add(
            TraitID::Builtin(BuiltinTrait::Assign),
            Dynamic::new(Primitive::Assign(AssignFn::new(Name { name: "store".to_string(), location: None }))),
        );
    env.set_variable("cell", cell);
    env.set_variable("store", num("1"));
    assert_eq!(shown(&run(&word("cell"), &mut env).unwrap(), &env), Ok("1".to_string()));
    let program = list(vec![word("cell"), word(":"), num("2"), word("+"), num("3")]);
    assert!(is_empty(&run(&program, &mut env).unwrap()));
    assert_eq!(shown(&env.lookup("store").unwrap(), &env), Ok("5".to_string()));
    assert_eq!(shown(&run(&word("cell"), &mut env).unwrap(), &env), Ok("5".to_string()));
    let odd = word("store")
        .add(TraitID::Builtin(BuiltinTrait::Computed), Dynamic::new(Primitive::Computed(Computed)))
        .add(TraitID::Builtin(BuiltinTrait::Assign), Dynamic::new(Primitive::Computed(Computed)));
    env.set_variable("odd", odd);
    let target = AssignFn::new(Name { name: "odd".to_string(), location: None });
    assert_eq!(
        target.assign_within(&num("1"), &mut env, &stack, DEPTH_LIMIT).map_err(failure),
        Err("Trait value is not of this kind".to_string())
    );
    let looping = word("store")
        .add(TraitID::Builtin(BuiltinTrait::Computed), Dynamic::new(Primitive::Computed(Computed)))
        .add(
            TraitID::Builtin(BuiltinTrait::Assign),
            Dynamic::new(Primitive::Assign(AssignFn::new(Name { name: "looping".to_string(), location: None }))),
        );
    env.set_variable("looping", looping);
    let target = AssignFn::new(Name { name: "looping".to_string(), location: None });
    assert_eq!(
        target.assign_within(&num("1"), &mut env, &stack, DEPTH_LIMIT).map_err(failure),
        Err("Evaluation is nested too deeply".to_string())
    );
}
