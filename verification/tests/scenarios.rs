use wipple::diagnostics::{ReturnState, Stack};
use wipple::traits::{BuiltinTrait, TraitID};
use wipple::value::{Block, Environment, List, Name, Number, Primitive, Text, Value};

fn name(text: &str) -> Value {
    Value::of(Primitive::Name(Name { name: text.to_string(), location: None }))
}

fn number(numeral: &str) -> Value {
    Value::of(Primitive::Number(Number { number: numeral.to_string(), location: None }))
}

fn text(text: &str) -> Value {
    Value::of(Primitive::Text(Text { text: text.to_string(), location: None }))
}

fn statement(items: Vec<Value>) -> List {
    List { items, location: None }
}

fn block(statements: Vec<List>) -> Value {
    Value::of(Primitive::Block(Block { statements, location: None }))
}

fn message(state: ReturnState) -> String {
    state.into_error(&Stack::new()).message
}

fn numeral_of(value: &Value, env: &Environment) -> String {
    let held = value.get_primitive(BuiltinTrait::Number, env, &Stack::new()).map_err(message).unwrap();
    match held.get() {
        Primitive::Number(number) => number.number.clone(),
        _ => panic!("not a number"),
    }
}

#[test]
fn assigned_variable_evaluates_to_its_value() {
    let mut env = Environment::global();
    let program = block(vec![
        statement(vec![name("x"), name(":"), number("5")]),
        statement(vec![name("x")]),
    ]);
    let result = program.evaluate(&mut env, &Stack::new()).map_err(message).unwrap();
    assert_eq!(numeral_of(&result, &env), "5");
}

#[test]
fn closure_of_two_parameters_adds() {
    let mut env = Environment::global();
    let program = block(vec![
        statement(vec![
            name("add"),
            name(":"),
            name("a"),
            name("->"),
            name("b"),
            name("->"),
            name("a"),
            name("+"),
            name("b"),
        ]),
        statement(vec![name("add"), number("2"), number("3")]),
    ]);
    let result = program.evaluate(&mut env, &Stack::new()).map_err(message).unwrap();
    assert_eq!(numeral_of(&result, &env), "5");
}

#[test]
fn binding_inside_do_does_not_leak() {
    let mut env = Environment::global();
    let inner = block(vec![
        statement(vec![name("x"), name(":"), number("1")]),
        statement(vec![name("x")]),
    ]);
    let stack = Stack::new();
    let first = Value::of(Primitive::List(statement(vec![name("do"), inner])));
    let result = first.evaluate(&mut env, &stack).map_err(message).unwrap();
    assert_eq!(numeral_of(&result, &env), "1");
    assert!(env.lookup("x").is_none());
    let outer = name("x").evaluate(&mut env, &stack);
    assert_eq!(outer.map(|_| ()).map_err(message), Err("Name does not refer to a variable".to_string()));
}

#[test]
fn value_with_a_new_trait_keeps_its_text() {
    let mut env = Environment::global();
    let stack = Stack::new();
    let first = TraitID::Runtime(env.next_trait);
    let program = block(vec![
        statement(vec![name("Greeting"), name(":"), name("trait")]),
        statement(vec![name("hi"), name("::"), name("Greeting"), text("hello")]),
        statement(vec![name("hi")]),
    ]);
    let result = program.evaluate(&mut env, &stack).map_err(message).unwrap();
    assert_eq!(result.format(&env, &stack).map_err(message), Ok("hello".to_string()));
    assert_eq!(result.has_trait(first, &env, &stack).map_err(message), Ok(true));
    let held = result.get_trait(first, &env, &stack).map_err(message).unwrap();
    match held.get() {
        Primitive::Value(inner) => {
            assert_eq!(inner.format(&env, &stack).map_err(message), Ok("hello".to_string()))
        }
        _ => panic!("the trait does not hold a value"),
    }
    assert_ne!(TraitID::Runtime(env.next_trait), first);
}

#[test]
fn multiplication_binds_tighter_than_addition() {
    let mut env = Environment::global();
    let program = Value::of(Primitive::List(statement(vec![
        number("1"),
        name("+"),
        number("2"),
        name("*"),
        number("3"),
    ])));
    let result = program.evaluate(&mut env, &Stack::new()).map_err(message).unwrap();
    assert_eq!(numeral_of(&result, &env), "7");
}

#[test]
fn macro_squares_its_argument() {
    let mut env = Environment::global();
    let program = block(vec![
        statement(vec![
            name("square"),
            name(":"),
            name("x"),
            name("=>"),
            name("x"),
            name("*"),
            name("x"),
        ]),
        statement(vec![name("square"), number("4")]),
    ]);
    let result = program.evaluate(&mut env, &Stack::new()).map_err(message).unwrap();
    assert_eq!(numeral_of(&result, &env), "16");
}
