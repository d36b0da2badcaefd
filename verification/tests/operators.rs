use wipple::operators::{
    choose_operator, Associativity, BinaryOperator, Occurrence, Operator, Precedence,
    PrecedenceGroupComparison, VariadicOperator,
};

const PLUS: Operator = Operator::Binary(BinaryOperator::Add);
const MINUS: Operator = Operator::Binary(BinaryOperator::Subtract);
const TIMES: Operator = Operator::Binary(BinaryOperator::Multiply);
const OVER: Operator = Operator::Binary(BinaryOperator::Divide);
const ASSIGN: Operator = Operator::Variadic(VariadicOperator::Assign);
const ARROW: Operator = Operator::Variadic(VariadicOperator::Closure);

fn arithmetic_registry() -> Precedence {
    let mut precedence = Precedence::new();
    let addition = precedence
        .precedence_group(false, Associativity::Left, PrecedenceGroupComparison::Lowest)
        .unwrap();
    precedence.add_operator(PLUS, addition);
    precedence.add_operator(MINUS, addition);
    let multiplication = precedence
        .precedence_group(false, Associativity::Left, PrecedenceGroupComparison::HigherThan(addition))
        .unwrap();
    precedence.add_operator(TIMES, multiplication);
    precedence.add_operator(OVER, multiplication);
    let assignment = precedence
        .precedence_group(true, Associativity::Right, PrecedenceGroupComparison::Highest)
        .unwrap();
    precedence.add_operator(ASSIGN, assignment);
    let function = precedence
        .precedence_group(true, Associativity::Right, PrecedenceGroupComparison::LowerThan(assignment))
        .unwrap();
    precedence.add_operator(ARROW, function);
    precedence
}

fn at(position: usize, operator: Operator) -> Occurrence {
    Occurrence { position, operator }
}

#[test]
fn groups_stand_in_order_of_precedence() {
    let precedence = arithmetic_registry();
    assert_eq!(precedence.binary.len(), 2);
    assert_eq!(precedence.binary[0].operators, vec![TIMES, OVER]);
    assert_eq!(precedence.binary[1].operators, vec![PLUS, MINUS]);
    assert_eq!(precedence.variadic.len(), 2);
    assert_eq!(precedence.variadic[0].operators, vec![ASSIGN]);
    assert_eq!(precedence.variadic[1].operators, vec![ARROW]);
    assert_eq!(precedence.rank(TIMES), 0);
    assert_eq!(precedence.rank(PLUS), 1);
    assert_eq!(precedence.rank(ASSIGN), 0);
    assert_eq!(precedence.rank(ARROW), 1);
    assert_eq!(precedence.associativity(PLUS), Associativity::Left);
    assert_eq!(precedence.associativity(ARROW), Associativity::Right);
}

#[test]
fn group_compared_with_unknown_group_is_not_made() {
    let mut precedence = Precedence::new();
    assert_eq!(
        precedence.precedence_group(false, Associativity::Left, PrecedenceGroupComparison::HigherThan(7)),
        None
    );
    assert_eq!(
        precedence.precedence_group(true, Associativity::Left, PrecedenceGroupComparison::LowerThan(0)),
        None
    );
    assert!(precedence.binary.is_empty());
    assert!(precedence.variadic.is_empty());
    assert_eq!(precedence.next_id, 0);
}

#[test]
fn groups_of_the_two_arities_do_not_mix() {
    let mut precedence = Precedence::new();
    let binary = precedence
        .precedence_group(false, Associativity::Left, PrecedenceGroupComparison::Highest)
        .unwrap();
    assert_eq!(
        precedence.precedence_group(true, Associativity::Right, PrecedenceGroupComparison::LowerThan(binary)),
        None
    );
    precedence.add_operator(ASSIGN, binary);
    assert!(precedence.binary[0].operators.is_empty());
}

#[test]
fn unregistered_operator_ranks_below_every_group() {
    let mut precedence = Precedence::new();
    let group = precedence
        .precedence_group(false, Associativity::Right, PrecedenceGroupComparison::Highest)
        .unwrap();
    precedence.add_operator(PLUS, group);
    assert_eq!(precedence.rank(PLUS), 0);
    assert_eq!(precedence.rank(TIMES), 1);
    assert_eq!(precedence.associativity(TIMES), Associativity::Left);
    precedence.add_operator(TIMES, 99);
    assert_eq!(precedence.rank(TIMES), 1);
}

#[test]
fn no_operator_no_choice() {
    assert_eq!(choose_operator(&vec![], &arithmetic_registry()), None);
}

#[test]
fn higher_precedence_is_chosen_first() {
    let precedence = arithmetic_registry();
    let occurrences = vec![at(1, PLUS), at(3, TIMES)];
    assert_eq!(choose_operator(&occurrences, &precedence), Some(1));
    let occurrences = vec![at(1, TIMES), at(3, PLUS)];
    assert_eq!(choose_operator(&occurrences, &precedence), Some(0));
}

#[test]
fn left_associative_binary_operator_is_chosen_from_the_left() {
    let precedence = arithmetic_registry();
    let occurrences = vec![at(1, MINUS), at(3, PLUS), at(5, MINUS)];
    assert_eq!(choose_operator(&occurrences, &precedence), Some(0));
}

#[test]
fn right_associative_binary_operator_is_chosen_from_the_right() {
    let mut precedence = Precedence::new();
    let group = precedence
        .precedence_group(false, Associativity::Right, PrecedenceGroupComparison::Highest)
        .unwrap();
    precedence.add_operator(PLUS, group);
    let occurrences = vec![at(1, PLUS), at(3, PLUS), at(5, PLUS)];
    assert_eq!(choose_operator(&occurrences, &precedence), Some(2));
}

#[test]
fn variadic_operator_goes_before_any_binary_one() {
    let precedence = arithmetic_registry();
    let occurrences = vec![at(1, TIMES), at(3, ARROW), at(5, PLUS)];
    assert_eq!(choose_operator(&occurrences, &precedence), Some(1));
}

#[test]
fn right_associative_variadic_operator_nests_to_the_right() {
    let precedence = arithmetic_registry();
    let occurrences = vec![at(1, ARROW), at(3, ARROW), at(5, PLUS)];
    assert_eq!(choose_operator(&occurrences, &precedence), Some(0));
    let occurrences = vec![at(3, ARROW), at(1, ASSIGN), at(5, ARROW)];
    assert_eq!(choose_operator(&occurrences, &precedence), Some(1));
}

#[test]
fn left_associative_variadic_operator_nests_to_the_left() {
    let mut precedence = Precedence::new();
    let group = precedence
        .precedence_group(true, Associativity::Left, PrecedenceGroupComparison::Highest)
        .unwrap();
    precedence.add_operator(ARROW, group);
    let occurrences = vec![at(1, ARROW), at(3, ARROW)];
    assert_eq!(choose_operator(&occurrences, &precedence), Some(1));
}

#[test]
fn choice_is_the_same_every_time() {
    let precedence = arithmetic_registry();
    let occurrences = vec![at(1, PLUS), at(3, TIMES), at(5, OVER), at(7, MINUS)];
    let first = choose_operator(&occurrences, &precedence);
    assert_eq!(first, Some(1));
    assert_eq!(choose_operator(&occurrences, &precedence), first);
    assert_eq!(choose_operator(&occurrences, &precedence.clone()), first);
}
