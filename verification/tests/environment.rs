use std::rc::Rc;
use wipple::convert::{convert, Ast, AstNode, SourceLocation, Statement};
use wipple::diagnostics::{Location, ReturnState, Stack};
use wipple::environment::{EnvironmentKey, UseFn};
use wipple::model::{Derivation, ShowFn};
use wipple::operators::{Associativity, BinaryOperator, Operator, PrecedenceGroupComparison};
use wipple::projects::{get_current_file, get_project_root, resolve, set_current_file, set_project_root};
use wipple::traits::{BuiltinTrait, TraitID};
use wipple::value::{Environment, Number, Primitive, Value};

fn numeral(text: &str) -> Value {
    Value::of(Primitive::Number(Number { number: text.to_string(), location: None }))
}

fn reason(state: ReturnState) -> String {
    state.into_error(&Stack::new()).message
}

fn read(value: &Value) -> String {
    match value.find_direct(TraitID::Builtin(BuiltinTrait::Number)).unwrap().get() {
        Primitive::Number(number) => number.number.clone(),
        _ => panic!("not a number"),
    }
}

fn node(node: AstNode, line: usize, column: usize) -> Ast {
    Ast { node, location: SourceLocation { line, column } }
}

#[test]
fn new_environment_is_empty() {
    let env = Environment::new();
    assert!(env.parent.is_none());
    assert!(env.variables.is_empty());
    assert!(env.conformances.is_empty());
    assert!(env.operators.binary.is_empty());
    assert!(env.operators.variadic.is_empty());
    assert!(env.project_root.is_none());
    assert!(env.current_file.is_none());
    assert_eq!(env.next_trait, 0);
    assert_eq!(env.show, ShowFn::Nothing);
    assert!(env.get_variable("x").is_none());
    assert!(env.lookup("x").is_none());
}

#[test]
fn variable_set_is_variable_got() {
    let mut env = Environment::new();
    env.set_variable("x", numeral("1"));
    env.set_variable("y", numeral("2"));
    env.set_variable("x", numeral("3"));
    assert_eq!(read(&env.get_variable("x").unwrap()), "3");
    assert_eq!(read(&env.get_variable("y").unwrap()), "2");
    assert!(env.get_variable("z").is_none());
    assert!(env.get_variable("").is_none());
}

#[test]
fn child_sees_what_the_parent_held_when_it_was_made() {
    let mut parent = Environment::new();
    parent.set_variable("x", numeral("1"));
    parent.add_primitive_conformance(Derivation::NumberText);
    let group = parent.precedence_group(false, Associativity::Left, PrecedenceGroupComparison::Highest).unwrap();
    parent.add_operator(Operator::Binary(BinaryOperator::Add), group);
    set_project_root(&mut parent, Some("/project".to_string()));
    let child = parent.child();
    assert_eq!(read(&child.get_variable("x").unwrap()), "1");
    assert_eq!(child.conformances.len(), 1);
    assert_eq!(child.operators.binary.len(), 1);
    assert_eq!(child.operators.rank(Operator::Binary(BinaryOperator::Add)), 0);
    assert!(child.project_root.is_none());
    assert!(child.parent.is_some());
}

#[test]
fn changing_a_child_does_not_change_the_parent() {
    let mut parent = Environment::new();
    parent.set_variable("x", numeral("1"));
    let shared = Rc::new(parent);
    let mut child = Environment::child_of(&shared);
    child.set_variable("x", numeral("2"));
    child.set_variable("y", numeral("3"));
    child.add_primitive_conformance(Derivation::NameText);
    let group = child.precedence_group(true, Associativity::Right, PrecedenceGroupComparison::Highest);
    assert_eq!(group, Some(0));
    set_project_root(&mut child, Some("/child".to_string()));
    set_current_file(&mut child, Some("/child/main.wpl".to_string()));
    assert_eq!(read(&child.lookup("x").unwrap()), "2");
    assert_eq!(read(&shared.lookup("x").unwrap()), "1");
    assert!(shared.lookup("y").is_none());
    assert!(shared.conformances.is_empty());
    assert!(shared.operators.variadic.is_empty());
    assert_eq!(shared.operators.next_id, 0);
    assert!(shared.project_root.is_none());
    assert!(shared.current_file.is_none());
    let held = child.parent.as_ref().unwrap();
    assert!(Rc::ptr_eq(held, &shared));
    assert_eq!(read(&held.lookup("x").unwrap()), "1");
}

#[test]
fn lookup_goes_up_the_chain() {
    let mut root = Environment::new();
    root.set_variable("x", numeral("1"));
    let mut middle = root.child();
    middle.variables.clear();
    middle.set_variable("y", numeral("2"));
    let mut leaf = middle.child();
    leaf.variables.clear();
    assert!(leaf.get_variable("x").is_none());
    assert_eq!(read(&leaf.lookup("x").unwrap()), "1");
    assert_eq!(read(&leaf.lookup("y").unwrap()), "2");
    assert!(leaf.lookup("z").is_none());
}

#[test]
fn copy_of_an_environment_is_independent() {
    let mut env = Environment::global();
    let copy = env.clone();
    env.set_variable("x", numeral("1"));
    assert!(copy.lookup("x").is_none());
    assert_eq!(copy.variables.len() + 1, env.variables.len());
    assert_eq!(copy.conformances.len(), env.conformances.len());
}

#[test]
fn roots_are_looked_up_through_the_chain() {
    let stack = Stack::new();
    let mut root = Environment::new();
    assert_eq!(get_project_root(&root, &stack).map_err(reason), Err("Project root is not set".to_string()));
    assert_eq!(get_current_file(&root, &stack).map_err(reason), Err("Current file is not set".to_string()));
    set_project_root(&mut root, Some("/project".to_string()));
    set_current_file(&mut root, Some("/project/src/main.wpl".to_string()));
    let mut child = root.child();
    assert_eq!(get_project_root(&child, &stack).map_err(reason), Ok("/project".to_string()));
    assert_eq!(get_current_file(&child, &stack).map_err(reason), Ok("/project/src/main.wpl".to_string()));
    set_current_file(&mut child, Some("/project/src/other.wpl".to_string()));
    assert_eq!(get_current_file(&child, &stack).map_err(reason), Ok("/project/src/other.wpl".to_string()));
    assert_eq!(get_current_file(&root, &stack).map_err(reason), Ok("/project/src/main.wpl".to_string()));
    set_current_file(&mut child, None);
    assert_eq!(get_current_file(&child, &stack).map_err(reason), Ok("/project/src/main.wpl".to_string()));
}

#[test]
fn relative_module_name_is_resolved_against_the_current_file() {
    let stack = Stack::new();
    let mut env = Environment::new();
    set_project_root(&mut env, Some("/project".to_string()));
    set_current_file(&mut env, Some("/project/src/main.wpl".to_string()));
    assert_eq!(resolve("./helpers", &env, &stack).map_err(reason), Ok("/project/src/main.wpl".to_string()));
    assert_eq!(resolve("../shared", &env, &stack).map_err(reason), Ok("/project/src/main.wpl".to_string()));
    assert_eq!(resolve("library", &env, &stack).map_err(reason), Ok("/project".to_string()));
    assert_eq!(resolve(".hidden", &env, &stack).map_err(reason), Ok("/project".to_string()));
    assert_eq!(resolve("..", &env, &stack).map_err(reason), Ok("/project".to_string()));
    assert_eq!(resolve("", &env, &stack).map_err(reason), Ok("/project".to_string()));
}

#[test]
fn module_name_without_its_root_is_an_error() {
    let stack = Stack::new().add("Importing".to_string());
    let env = Environment::new();
    assert_eq!(resolve("./helpers", &env, &stack).map_err(reason), Err("Current file is not set".to_string()));
    assert_eq!(resolve("library", &env, &stack).map_err(reason), Err("Project root is not set".to_string()));
    let state = resolve("library", &env, &stack).unwrap_err();
    assert_eq!(state.into_error(&Stack::new()).stack.items.len(), 1);
}

#[test]
fn syntax_tree_becomes_a_value_with_locations() {
    let tree = node(
        AstNode::Block(vec![Statement {
            items: vec![
                node(AstNode::Number("1".to_string()), 1, 1),
                node(AstNode::Name("+".to_string()), 1, 3),
                node(
                    AstNode::List(vec![
                        node(AstNode::Number("2".to_string()), 1, 6),
                        node(AstNode::Name("*".to_string()), 1, 8),
                        node(AstNode::Number("3".to_string()), 1, 10),
                    ]),
                    1,
                    5,
                ),
            ],
            location: SourceLocation { line: 1, column: 1 },
        }]),
        1,
        1,
    );
    let value = convert(&tree, Some("main.wpl"));
    let held = value.find_direct(TraitID::Builtin(BuiltinTrait::Block)).unwrap();
    match held.get() {
        Primitive::Block(block) => {
            assert_eq!(block.statements.len(), 1);
            assert_eq!(block.statements[0].items.len(), 3);
            match &block.statements[0].items[2].find_direct(TraitID::Builtin(BuiltinTrait::List)).unwrap().get() {
                Primitive::List(list) => {
                    assert_eq!(list.items.len(), 3);
                    match &list.location {
                        Some(Location::Source { file, line, column }) => {
                            assert_eq!(file.as_deref(), Some("main.wpl"));
                            assert_eq!((*line, *column), (1, 5));
                        }
                        _ => panic!("no location"),
                    }
                }
                _ => panic!("not a list"),
            }
        }
        _ => panic!("not a block"),
    }
    let mut env = Environment::global();
    let result = value.evaluate(&mut env, &Stack::new()).map_err(reason).unwrap();
    assert_eq!(read(&result), "7");
}

#[test]
fn every_kind_of_node_is_converted() {
    let quoted = convert(&node(AstNode::Quoted(Box::new(node(AstNode::Name("n".to_string()), 2, 2))), 2, 1), None);
    match quoted.find_direct(TraitID::Builtin(BuiltinTrait::Quoted)).unwrap().get() {
        Primitive::Quoted(quoted) => {
            assert!(quoted.value.find_direct(TraitID::Builtin(BuiltinTrait::Name)).is_some());
            match &quoted.location {
                Some(Location::Source { file, line, column }) => {
                    assert!(file.is_none());
                    assert_eq!((*line, *column), (2, 1));
                }
                _ => panic!("no location"),
            }
        }
        _ => panic!("not quoted"),
    }
    let text = convert(&node(AstNode::Text("hello".to_string()), 1, 1), None);
    match text.find_direct(TraitID::Builtin(BuiltinTrait::Text)).unwrap().get() {
        Primitive::Text(text) => assert_eq!(text.text, "hello"),
        _ => panic!("not a text"),
    }
    let module = convert(&node(AstNode::Module(vec![]), 1, 1), None);
    assert!(module.find_direct(TraitID::Builtin(BuiltinTrait::ModuleBlock)).is_some());
    let empty = convert(&node(AstNode::List(vec![]), 1, 1), None);
    match empty.find_direct(TraitID::Builtin(BuiltinTrait::List)).unwrap().get() {
        Primitive::List(list) => assert!(list.items.is_empty()),
        _ => panic!("not a list"),
    }
}

#[test]
fn keys_say_how_a_child_is_seeded() {
    assert_eq!(EnvironmentKey::Variables.seeding(), UseFn::Merge);
    assert_eq!(EnvironmentKey::Conformances.seeding(), UseFn::Merge);
    assert_eq!(EnvironmentKey::Operators.seeding(), UseFn::Merge);
    assert_eq!(EnvironmentKey::Show.seeding(), UseFn::Merge);
    assert_eq!(EnvironmentKey::NextTrait.seeding(), UseFn::Merge);
    assert_eq!(EnvironmentKey::ProjectRoot.seeding(), UseFn::TakeNew);
    assert_eq!(EnvironmentKey::CurrentFile.seeding(), UseFn::TakeNew);
    assert!(EnvironmentKey::CurrentFile.used_by_children());
    let mut parent = Environment::new();
    parent.set_show(ShowFn::Text);
    let mut child = parent.child();
    assert_eq!(child.show, ShowFn::Text);
    child.set_show(ShowFn::Nothing);
    assert_eq!(parent.show, ShowFn::Text);
}
