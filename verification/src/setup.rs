//! What an environment is given before a program runs: the conformances of
//! the primitives, and the standard names `new`, `do`, `:`, `::`, `=>`, `->`
//! and the arithmetic operators with their precedence.

use vstd::prelude::*;
use vstd::string::*;
use crate::model::{
    Conformance, Derivation, EnvironmentView, FunctionView, PrimitiveView, TraitConstructor,
    Validation, ValueView,
};
use crate::operators::{
    Associativity, BinaryOperator, Operator, PrecedenceGroupComparison, PrecedenceGroupView,
    PrecedenceView, VariadicOperator,
};
use crate::traits::{BuiltinTrait, TraitID};
use crate::value::{Environment, Function, Primitive, Value};

verus! {

/// The conformances of the primitives, in the order in which they are added.
pub open spec fn primitive_derivations() -> Seq<Derivation> {
    seq![
        Derivation::NameAssign,
        Derivation::NameEvaluate,
        Derivation::NameMacroParameter,
        Derivation::NameMacroExpand,
        Derivation::NameText,
        Derivation::NumberText,
        Derivation::ListEvaluate,
        Derivation::ListMacroExpand,
        Derivation::BlockEvaluate,
        Derivation::BlockMacroExpand,
        Derivation::ModuleText,
        Derivation::ModuleFunction,
        Derivation::ModuleBlockText,
        Derivation::ModuleBlockEvaluate,
        Derivation::ModuleBlockMacroExpand,
        Derivation::QuotedEvaluate,
    ]
}

/// `env` with the primitive conformances of `derivations` from `from` on added.
pub open spec fn with_derivations(
    env: EnvironmentView,
    derivations: Seq<Derivation>,
    from: int,
) -> EnvironmentView
    decreases derivations.len() - from,
{
    if from < 0 || from >= derivations.len() {
        env
    } else {
        with_derivations(env.add_primitive_conformance(derivations[from]), derivations, from + 1)
    }
}

/// The trait constructor bound to `Name`: a value represents the trait if it is a name.
pub open spec fn name_constructor() -> TraitConstructor {
    TraitConstructor {
        id: TraitID::Builtin(BuiltinTrait::Name),
        validation: Validation::Trait(TraitID::Builtin(BuiltinTrait::Name)),
    }
}

/// `env` with the conformances of the primitives and the variable `Name`.
pub open spec fn setup_view(env: EnvironmentView) -> EnvironmentView {
    with_derivations(
        env.set_variable(
            "Name"@,
            ValueView::of(PrimitiveView::TraitConstructor(name_constructor())),
        ),
        primitive_derivations(),
        0,
    )
}

/// `env` with `name` bound to `operator`, which joins the group `group` where there is one.
pub open spec fn with_operator_named(
    env: EnvironmentView,
    name: Seq<char>,
    operator: Operator,
    group: Option<usize>,
) -> EnvironmentView {
    let env = match group {
        Some(group) => env.with_operators(env.operators.with_operator(operator, group)),
        None => env,
    };
    env.set_variable(name, ValueView::of(PrimitiveView::Operator(operator)))
}

/// `env` with a new precedence group, and the group's identifier.
pub open spec fn with_group(
    env: EnvironmentView,
    variadic: bool,
    associativity: Associativity,
    comparison: Option<PrecedenceGroupComparison>,
) -> (EnvironmentView, Option<usize>) {
    match comparison {
        Some(comparison) => (
            env.with_operators(env.operators.with_group(variadic, associativity, comparison).0),
            env.operators.with_group(variadic, associativity, comparison).1,
        ),
        None => (env, None),
    }
}

pub open spec fn lower_than(group: Option<usize>) -> Option<PrecedenceGroupComparison> {
    match group {
        Some(group) => Some(PrecedenceGroupComparison::LowerThan(group)),
        None => None,
    }
}

pub open spec fn higher_than(group: Option<usize>) -> Option<PrecedenceGroupComparison> {
    match group {
        Some(group) => Some(PrecedenceGroupComparison::HigherThan(group)),
        None => None,
    }
}

/// `env` made ready for a program: the primitives' conformances; `trait`,
/// `new` and `do`; `:` and `::` in the right-associative variadic group of highest
/// precedence; `=>` and `->` in a right-associative variadic group below it;
/// `+` and `-` in the left-associative binary group of lowest precedence;
/// `*` and `/` in a left-associative binary group above it.
pub open spec fn init_view(env: EnvironmentView) -> EnvironmentView {
    let env = setup_view(env);
    let env = env.set_variable("trait"@, crate::semantics::trait_maker());
    let env = env.set_variable("new"@, ValueView::of(PrimitiveView::Function(FunctionView::New)));
    let env = env.set_variable("do"@, ValueView::of(PrimitiveView::Function(FunctionView::Do)));
    let (env, assignment) = with_group(
        env,
        true,
        Associativity::Right,
        Some(PrecedenceGroupComparison::Highest),
    );
    let env = with_operator_named(
        env,
        ":"@,
        Operator::Variadic(VariadicOperator::Assign),
        assignment,
    );
    let env = with_operator_named(
        env,
        "::"@,
        Operator::Variadic(VariadicOperator::Trait),
        assignment,
    );
    let (env, function) = with_group(env, true, Associativity::Right, lower_than(assignment));
    let env = with_operator_named(
        env,
        "=>"@,
        Operator::Variadic(VariadicOperator::Macro),
        function,
    );
    let env = env.add_primitive_conformance(Derivation::NameClosureParameter);
    let env = with_operator_named(
        env,
        "->"@,
        Operator::Variadic(VariadicOperator::Closure),
        function,
    );
    let (env, addition) = with_group(
        env,
        false,
        Associativity::Left,
        Some(PrecedenceGroupComparison::Lowest),
    );
    let env = with_operator_named(env, "+"@, Operator::Binary(BinaryOperator::Add), addition);
    let env = with_operator_named(env, "-"@, Operator::Binary(BinaryOperator::Subtract), addition);
    let (env, multiplication) = with_group(
        env,
        false,
        Associativity::Left,
        higher_than(addition),
    );
    let env = with_operator_named(
        env,
        "*"@,
        Operator::Binary(BinaryOperator::Multiply),
        multiplication,
    );
    with_operator_named(env, "/"@, Operator::Binary(BinaryOperator::Divide), multiplication)
}

/// The conformances of an environment that was made ready from an empty one.
pub open spec fn standard_conformances() -> Seq<Conformance> {
    primitive_derivations().push(Derivation::NameClosureParameter).map_values(
        |derivation: Derivation| Conformance::primitive(derivation),
    )
}

/// The operator registry of an environment that was made ready from an empty one.
pub open spec fn standard_operators() -> PrecedenceView {
    PrecedenceView {
        variadic: seq![
            PrecedenceGroupView {
                id: 0,
                associativity: Associativity::Right,
                operators: seq![
                    Operator::Variadic(VariadicOperator::Assign),
                    Operator::Variadic(VariadicOperator::Trait),
                ],
            },
            PrecedenceGroupView {
                id: 1,
                associativity: Associativity::Right,
                operators: seq![
                    Operator::Variadic(VariadicOperator::Macro),
                    Operator::Variadic(VariadicOperator::Closure),
                ],
            },
        ],
        binary: seq![
            PrecedenceGroupView {
                id: 3,
                associativity: Associativity::Left,
                operators: seq![
                    Operator::Binary(BinaryOperator::Multiply),
                    Operator::Binary(BinaryOperator::Divide),
                ],
            },
            PrecedenceGroupView {
                id: 2,
                associativity: Associativity::Left,
                operators: seq![
                    Operator::Binary(BinaryOperator::Add),
                    Operator::Binary(BinaryOperator::Subtract),
                ],
            },
        ],
        next_id: 4,
    }
}

/// The environment that programs start from: an empty one, made ready.
pub open spec fn global_view() -> EnvironmentView {
    init_view(EnvironmentView::empty())
}

proof fn lemma_with_derivations_conformances(
    env: EnvironmentView,
    derivations: Seq<Derivation>,
    from: int,
)
    requires
        0 <= from <= derivations.len(),
    ensures
        with_derivations(env, derivations, from).conformances == env.conformances
            + derivations.subrange(from, derivations.len() as int).map_values(
            |derivation: Derivation| Conformance::primitive(derivation),
        ),
        with_derivations(env, derivations, from).variables == env.variables,
        with_derivations(env, derivations, from).operators == env.operators,
        with_derivations(env, derivations, from).parent == env.parent,
        with_derivations(env, derivations, from).show == env.show,
        with_derivations(env, derivations, from).next_trait == env.next_trait,
        with_derivations(env, derivations, from).project_root == env.project_root,
        with_derivations(env, derivations, from).current_file == env.current_file,
    decreases derivations.len() - from,
{
    let rest = derivations.subrange(from, derivations.len() as int).map_values(
        |derivation: Derivation| Conformance::primitive(derivation),
    );
    if from < derivations.len() {
        let next = env.add_primitive_conformance(derivations[from]);
        lemma_with_derivations_conformances(next, derivations, from + 1);
        let tail = derivations.subrange(from + 1, derivations.len() as int).map_values(
            |derivation: Derivation| Conformance::primitive(derivation),
        );
        assert(next.conformances + tail =~= env.conformances + rest);
    } else {
        assert(env.conformances + rest =~= env.conformances);
    }
}

/// The environment that programs start from has the standard conformances and
/// the standard operator registry: among the variadic operators `:` and `::`
/// come before `=>` and `->`, among the binary ones `*` and `/` before `+` and `-`.
pub proof fn lemma_global_environment()
    ensures
        global_view().conformances == standard_conformances(),
        global_view().operators == standard_operators(),
        global_view().parent is None,
{
    let empty = EnvironmentView::empty();
    let named = empty.set_variable(
        "Name"@,
        ValueView::of(PrimitiveView::TraitConstructor(name_constructor())),
    );
    lemma_with_derivations_conformances(named, primitive_derivations(), 0);
    let ready = setup_view(empty);
    let all = primitive_derivations();
    assert(all.subrange(0, all.len() as int) =~= all);
    assert(ready.operators == PrecedenceView::empty());
    let assign = Operator::Variadic(VariadicOperator::Assign);
    let with_trait = Operator::Variadic(VariadicOperator::Trait);
    let define_macro = Operator::Variadic(VariadicOperator::Macro);
    let closure = Operator::Variadic(VariadicOperator::Closure);
    let plus = Operator::Binary(BinaryOperator::Add);
    let minus = Operator::Binary(BinaryOperator::Subtract);
    let times = Operator::Binary(BinaryOperator::Multiply);
    let over = Operator::Binary(BinaryOperator::Divide);
    let right = Associativity::Right;
    let left = Associativity::Left;
    let group = |id: usize, associativity: Associativity, operators: Seq<Operator>|
        PrecedenceGroupView { id, associativity, operators };
    let registry_a = PrecedenceView::empty();
    let registry_b = registry_a.with_group(true, right, PrecedenceGroupComparison::Highest).0;
    assert(registry_a.with_group(true, right, PrecedenceGroupComparison::Highest).1 == Some(0usize));
    assert(registry_b.variadic =~~= seq![group(0, right, seq![])]);
    let registry_c = registry_b.with_operator(assign, 0);
    assert(registry_c.variadic =~~= seq![group(0, right, seq![assign])]);
    let registry_d = registry_c.with_operator(with_trait, 0);
    assert(seq![assign].push(with_trait) =~= seq![assign, with_trait]);
    assert(registry_d.variadic[0].operators =~= seq![assign, with_trait]);
    assert(registry_d.variadic =~~= seq![group(0, right, seq![assign, with_trait])]);
    let registry_e = registry_d.with_group(true, right, PrecedenceGroupComparison::LowerThan(0)).0;
    assert(registry_d.with_group(true, right, PrecedenceGroupComparison::LowerThan(0)).1 == Some(
        1usize,
    ));
    assert(registry_e.variadic =~~= seq![
        group(0, right, seq![assign, with_trait]),
        group(1, right, seq![]),
    ]);
    reveal_with_fuel(crate::operators::position_from, 3);
    let registry_f = registry_e.with_operator(define_macro, 1);
    assert(registry_f.variadic =~~= seq![
        group(0, right, seq![assign, with_trait]),
        group(1, right, seq![define_macro]),
    ]);
    let registry_g = registry_f.with_operator(closure, 1);
    assert(seq![define_macro].push(closure) =~= seq![define_macro, closure]);
    assert(registry_g.variadic[1].operators =~= seq![define_macro, closure]);
    assert(registry_g.variadic =~~= seq![
        group(0, right, seq![assign, with_trait]),
        group(1, right, seq![define_macro, closure]),
    ]);
    let registry_h = registry_g.with_group(false, left, PrecedenceGroupComparison::Lowest).0;
    assert(registry_g.with_group(false, left, PrecedenceGroupComparison::Lowest).1 == Some(2usize));
    assert(registry_h.binary =~~= seq![group(2, left, seq![])]);
    let registry_i = registry_h.with_operator(plus, 2);
    assert(registry_i.binary =~~= seq![group(2, left, seq![plus])]);
    let registry_j = registry_i.with_operator(minus, 2);
    assert(seq![plus].push(minus) =~= seq![plus, minus]);
    assert(registry_j.binary[0].operators =~= seq![plus, minus]);
    assert(registry_j.binary =~~= seq![group(2, left, seq![plus, minus])]);
    let registry_k = registry_j.with_group(false, left, PrecedenceGroupComparison::HigherThan(2)).0;
    assert(registry_j.with_group(false, left, PrecedenceGroupComparison::HigherThan(2)).1 == Some(
        3usize,
    ));
    assert(registry_k.binary =~~= seq![group(3, left, seq![]), group(2, left, seq![plus, minus])]);
    let registry_l = registry_k.with_operator(times, 3);
    assert(registry_l.binary =~~= seq![group(3, left, seq![times]), group(2, left, seq![plus, minus])]);
    let registry_m = registry_l.with_operator(over, 3);
    assert(seq![times].push(over) =~= seq![times, over]);
    assert(registry_m.binary[0].operators =~= seq![times, over]);
    assert(registry_m.binary =~~= seq![
        group(3, left, seq![times, over]),
        group(2, left, seq![plus, minus]),
    ]);
    assert(registry_m.variadic == registry_g.variadic);
    let global = global_view();
    assert(global.conformances =~~= standard_conformances());
    assert(global.operators == registry_m);
    assert(registry_m.variadic =~~= standard_operators().variadic);
    assert(registry_m.binary =~~= standard_operators().binary);
}

fn define_operator(env: &mut Environment, name: &str, operator: Operator, group: Option<usize>)
    ensures
        final(env)@ == with_operator_named(old(env)@, name@, operator, group),
{
    match group {
        Some(group) => {
            env.add_operator(operator, group);
        },
        None => {},
    }
    env.set_variable(name, Value::of(Primitive::Operator(operator)));
}

fn define_group(
    env: &mut Environment,
    variadic: bool,
    associativity: Associativity,
    comparison: Option<PrecedenceGroupComparison>,
) -> (r: Option<usize>)
    ensures
        (final(env)@, r) == with_group(old(env)@, variadic, associativity, comparison),
{
    match comparison {
        Some(comparison) => env.precedence_group(variadic, associativity, comparison),
        None => None,
    }
}

fn add_derivations(env: &mut Environment, derivations: &Vec<Derivation>, from: usize)
    ensures
        final(env)@ == with_derivations(old(env)@, derivations@, from as int),
    decreases derivations.len() - from,
{
    if from < derivations.len() {
        env.add_primitive_conformance(derivations[from]);
        add_derivations(env, derivations, from + 1);
    }
}

/// Adds the conformances of the primitives and the variable `Name` to `env`.
pub fn setup(env: &mut Environment)
    ensures
        final(env)@ == setup_view(old(env)@),
{
    env.set_variable(
        "Name",
        Value::of(
            Primitive::TraitConstructor(
                TraitConstructor {
                    id: TraitID::Builtin(BuiltinTrait::Name),
                    validation: Validation::Trait(TraitID::Builtin(BuiltinTrait::Name)),
                },
            ),
        ),
    );
    let mut derivations: Vec<Derivation> = Vec::new();
    derivations.push(Derivation::NameAssign);
    derivations.push(Derivation::NameEvaluate);
    derivations.push(Derivation::NameMacroParameter);
    derivations.push(Derivation::NameMacroExpand);
    derivations.push(Derivation::NameText);
    derivations.push(Derivation::NumberText);
    derivations.push(Derivation::ListEvaluate);
    derivations.push(Derivation::ListMacroExpand);
    derivations.push(Derivation::BlockEvaluate);
    derivations.push(Derivation::BlockMacroExpand);
    derivations.push(Derivation::ModuleText);
    derivations.push(Derivation::ModuleFunction);
    derivations.push(Derivation::ModuleBlockText);
    derivations.push(Derivation::ModuleBlockEvaluate);
    derivations.push(Derivation::ModuleBlockMacroExpand);
    derivations.push(Derivation::QuotedEvaluate);
    assert(derivations@ =~= primitive_derivations());
    add_derivations(env, &derivations, 0);
}

/// Makes `env` ready for a program: see `init_view`.
pub fn init(env: &mut Environment)
    ensures
        final(env)@ == init_view(old(env)@),
{
    setup(env);
    env.set_variable("trait", crate::evaluate::trait_maker());
    env.set_variable("new", Value::of(Primitive::Function(Function::New)));
    env.set_variable("do", Value::of(Primitive::Function(Function::Do)));
    let assignment = define_group(
        env,
        true,
        Associativity::Right,
        Some(PrecedenceGroupComparison::Highest),
    );
    define_operator(env, ":", Operator::Variadic(VariadicOperator::Assign), assignment);
    define_operator(env, "::", Operator::Variadic(VariadicOperator::Trait), assignment);
    let below = match assignment {
        Some(group) => Some(PrecedenceGroupComparison::LowerThan(group)),
        None => None,
    };
    let function = define_group(env, true, Associativity::Right, below);
    define_operator(env, "=>", Operator::Variadic(VariadicOperator::Macro), function);
    env.add_primitive_conformance(Derivation::NameClosureParameter);
    define_operator(env, "->", Operator::Variadic(VariadicOperator::Closure), function);
    let addition = define_group(
        env,
        false,
        Associativity::Left,
        Some(PrecedenceGroupComparison::Lowest),
    );
    define_operator(env, "+", Operator::Binary(BinaryOperator::Add), addition);
    define_operator(env, "-", Operator::Binary(BinaryOperator::Subtract), addition);
    let above = match addition {
        Some(group) => Some(PrecedenceGroupComparison::HigherThan(group)),
        None => None,
    };
    let multiplication = define_group(env, false, Associativity::Left, above);
    define_operator(env, "*", Operator::Binary(BinaryOperator::Multiply), multiplication);
    define_operator(env, "/", Operator::Binary(BinaryOperator::Divide), multiplication);
}

impl Environment {
    /// The environment that programs start from: an empty one, made ready,
    /// whose traits are numbered from a number drawn at random.
    pub fn global() -> (r: Self)
        ensures
            r@ == global_view().set_next_trait(r@.next_trait),
            r@.conformances == standard_conformances(),
            r@.operators == standard_operators(),
    {
        let mut env = Environment::new();
        init(&mut env);
        match TraitID::new() {
            TraitID::Runtime(number) => {
                env.set_next_trait(number);
            },
            TraitID::Builtin(_) => {},
        }
        proof {
            lemma_global_environment();
        }
        env
    }
}

} // verus!
