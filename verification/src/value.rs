//! Values, the primitives they hold, and environments, as executable data.
//! Each type has a view in the model; sharing goes through `Rc`, so that a
//! value or an environment is copied by copying a pointer.

use vstd::prelude::*;
use std::rc::Rc;
use crate::diagnostics::{Location, location_option_view, text_option_view, clone_location_option};
use crate::model::{
    BlockView, ClosureView, Conformance, EnvironmentView, EvaluateFnView, FunctionView, ListView,
    MacroExpandFnView, MacroView, ModuleBlockView, ModuleView, NameView, NumberView, PrimitiveView,
    QuotedView, ShowFn, TextView, TraitConstructor, ValueView,
};
use crate::operators::{Operator, Precedence};
use crate::traits::{BuiltinTrait, TraitID};

verus! {

/// `Rc::clone`: another pointer to the same allocation, so that what the
/// result points to is what `this` points to.
#[verifier::external_body]
pub(crate) fn share<T>(this: &Rc<T>) -> (r: Rc<T>)
    ensures
        r == *this,
{
    Rc::clone(this)
}

pub struct Name {
    pub name: String,
    pub location: Option<Location>,
}

/// An arbitrary-precision decimal number, held as its decimal numeral.
pub struct Number {
    pub number: String,
    pub location: Option<Location>,
}

pub struct Text {
    pub text: String,
    pub location: Option<Location>,
}

pub struct List {
    pub items: Vec<Value>,
    pub location: Option<Location>,
}

pub struct Block {
    pub statements: Vec<List>,
    pub location: Option<Location>,
}

pub struct ModuleBlock {
    pub statements: Vec<List>,
    pub location: Option<Location>,
}

/// A variable of an environment: a name bound to a value.
pub struct Variable {
    pub name: String,
    pub value: Value,
}

/// A snapshot of the variables of an environment.
pub struct Module {
    pub values: Vec<Variable>,
}

pub struct Quoted {
    pub value: Value,
    pub location: Option<Location>,
}

/// A function made by `->`: the parameter, the body, and the environment in
/// which it was made.
pub struct Closure {
    pub define_parameter: Name,
    pub return_value: Value,
    pub env: Rc<Environment>,
}

pub enum Function {
    /// `new`: takes a trait constructor and returns `NewWith`.
    New,
    /// Takes a value and returns it with the constructor's trait.
    NewWith(TraitConstructor),
    /// `do`: evaluates its argument in a new child environment.
    Do,
    Closure(Closure),
    /// Takes a name and returns what the module binds it to.
    Module(Module),
}

/// A value that, met in a list, is replaced before evaluation by its template
/// with the parameter substituted.
pub struct Macro {
    pub define_parameter: Name,
    pub value_to_expand: Value,
}

/// Assigns to the variable of a name: the value handed over is evaluated,
/// and the name is bound to the result.
pub struct AssignFn {
    pub name: Name,
}

/// Marks a variable whose value is evaluated each time its name is resolved.
#[derive(Clone, Copy, PartialEq, Eq, Structural, Debug)]
pub struct Computed;

/// How a value is evaluated: by what it was derived from.
pub enum EvaluateFn {
    Name(Name),
    List(List),
    Block(Block),
    ModuleBlock(ModuleBlock),
    Quoted(Quoted),
    /// Evaluates to the constructor of a trait that was not there before.
    Trait,
}

/// How a macro's parameter is substituted in a value: by what it was derived from.
pub enum MacroExpandFn {
    Name(Name),
    List(List),
    Block(Block),
    ModuleBlock(ModuleBlock),
}

/// What a trait of a value holds.
pub enum Primitive {
    Name(Name),
    Number(Number),
    Text(Text),
    List(List),
    Block(Block),
    ModuleBlock(ModuleBlock),
    Module(Module),
    Quoted(Quoted),
    Function(Function),
    TraitConstructor(TraitConstructor),
    Macro(Macro),
    Operator(Operator),
    Computed(Computed),
    Assign(AssignFn),
    Evaluate(EvaluateFn),
    /// Defines the macro parameter of this name.
    MacroParameter(Name),
    MacroExpand(MacroExpandFn),
    /// Defines the closure parameter of this name.
    ClosureParameter(Name),
    /// The value of a trait made at run time.
    Value(Value),
}

/// A shared holder of a primitive of any kind.
pub struct Dynamic {
    pub value: Rc<Primitive>,
}

/// A trait attached to a value: the identifier and what the trait holds.
pub struct Trait {
    pub id: TraitID,
    pub value: Dynamic,
}

/// A value: a set of traits. Where one identifier occurs twice in `traits`,
/// the later entry counts.
pub struct Value {
    pub traits: Rc<Vec<Trait>>,
}

/// A scope. Where one name occurs twice in `variables`, the later entry counts.
pub struct Environment {
    pub parent: Option<Rc<Environment>>,
    pub variables: Vec<Variable>,
    pub conformances: Vec<Conformance>,
    pub operators: Precedence,
    pub show: ShowFn,
    /// The number of the next trait that a program makes.
    pub next_trait: u128,
    pub project_root: Option<String>,
    pub current_file: Option<String>,
}

/// The map that a sequence of trait entries stands for: later entries win.
pub open spec fn traits_map(entries: Seq<(TraitID, PrimitiveView)>) -> Map<TraitID, PrimitiveView>
    decreases entries.len(),
{
    if entries.len() == 0 {
        Map::empty()
    } else {
        traits_map(entries.drop_last()).insert(entries.last().0, entries.last().1)
    }
}

/// The map that a sequence of bindings stands for: later entries win.
pub open spec fn bindings_map(entries: Seq<(Seq<char>, ValueView)>) -> Map<Seq<char>, ValueView>
    decreases entries.len(),
{
    if entries.len() == 0 {
        Map::empty()
    } else {
        bindings_map(entries.drop_last()).insert(entries.last().0, entries.last().1)
    }
}

impl View for Name {
    type V = NameView;

    open spec fn view(&self) -> NameView {
        NameView { name: self.name@, location: location_option_view(self.location) }
    }
}

impl View for Number {
    type V = NumberView;

    open spec fn view(&self) -> NumberView {
        NumberView { number: self.number@, location: location_option_view(self.location) }
    }
}

impl View for Text {
    type V = TextView;

    open spec fn view(&self) -> TextView {
        TextView { text: self.text@, location: location_option_view(self.location) }
    }
}

pub open spec fn values_view(items: Vec<Value>) -> Seq<ValueView>
    decreases items,
{
    Seq::new(
        items.len() as nat,
        |i: int|
            if 0 <= i < items.len() {
                value_view(items[i])
            } else {
                arbitrary()
            },
    )
}

pub open spec fn lists_view(lists: Vec<List>) -> Seq<ListView>
    decreases lists,
{
    Seq::new(
        lists.len() as nat,
        |i: int|
            if 0 <= i < lists.len() {
                list_view(lists[i])
            } else {
                arbitrary()
            },
    )
}

pub open spec fn variables_entries(variables: Vec<Variable>) -> Seq<(Seq<char>, ValueView)>
    decreases variables,
{
    Seq::new(
        variables.len() as nat,
        |i: int|
            if 0 <= i < variables.len() {
                (variables[i].name@, value_view(variables[i].value))
            } else {
                arbitrary()
            },
    )
}

pub open spec fn variables_view(variables: Vec<Variable>) -> Map<Seq<char>, ValueView> {
    bindings_map(variables_entries(variables))
}

pub open spec fn list_view(list: List) -> ListView
    decreases list,
{
    ListView { items: values_view(list.items), location: location_option_view(list.location) }
}

pub open spec fn block_view(block: Block) -> BlockView
    decreases block,
{
    BlockView {
        statements: lists_view(block.statements),
        location: location_option_view(block.location),
    }
}

pub open spec fn module_block_view(block: ModuleBlock) -> ModuleBlockView
    decreases block,
{
    ModuleBlockView {
        statements: lists_view(block.statements),
        location: location_option_view(block.location),
    }
}

pub open spec fn module_view(module: Module) -> ModuleView
    decreases module,
{
    ModuleView { values: bindings_map(variables_entries(module.values)) }
}

pub open spec fn quoted_view(quoted: Quoted) -> QuotedView
    decreases quoted,
{
    QuotedView {
        value: Box::new(value_view(quoted.value)),
        location: location_option_view(quoted.location),
    }
}

pub open spec fn function_view(function: Function) -> FunctionView
    decreases function,
{
    match function {
        Function::New => FunctionView::New,
        Function::NewWith(constructor) => FunctionView::NewWith(constructor),
        Function::Do => FunctionView::Do,
        Function::Closure(closure) => FunctionView::Closure(
            ClosureView {
                define_parameter: closure.define_parameter@,
                return_value: Box::new(value_view(closure.return_value)),
                env: Box::new(environment_view(*closure.env)),
            },
        ),
        Function::Module(module) => FunctionView::Module(module_view(module)),
    }
}

pub open spec fn macro_view(m: Macro) -> MacroView
    decreases m,
{
    MacroView {
        define_parameter: m.define_parameter@,
        value_to_expand: Box::new(value_view(m.value_to_expand)),
    }
}

pub open spec fn evaluate_fn_view(f: EvaluateFn) -> EvaluateFnView
    decreases f,
{
    match f {
        EvaluateFn::Name(name) => EvaluateFnView::Name(name@),
        EvaluateFn::List(list) => EvaluateFnView::List(list_view(list)),
        EvaluateFn::Block(block) => EvaluateFnView::Block(block_view(block)),
        EvaluateFn::ModuleBlock(block) => EvaluateFnView::ModuleBlock(module_block_view(block)),
        EvaluateFn::Quoted(quoted) => EvaluateFnView::Quoted(quoted_view(quoted)),
        EvaluateFn::Trait => EvaluateFnView::Trait,
    }
}

pub open spec fn macro_expand_fn_view(f: MacroExpandFn) -> MacroExpandFnView
    decreases f,
{
    match f {
        MacroExpandFn::Name(name) => MacroExpandFnView::Name(name@),
        MacroExpandFn::List(list) => MacroExpandFnView::List(list_view(list)),
        MacroExpandFn::Block(block) => MacroExpandFnView::Block(block_view(block)),
        MacroExpandFn::ModuleBlock(block) => MacroExpandFnView::ModuleBlock(
            module_block_view(block),
        ),
    }
}

pub open spec fn primitive_view(primitive: Primitive) -> PrimitiveView
    decreases primitive,
{
    match primitive {
        Primitive::Name(name) => PrimitiveView::Name(name@),
        Primitive::Number(number) => PrimitiveView::Number(number@),
        Primitive::Text(text) => PrimitiveView::Text(text@),
        Primitive::List(list) => PrimitiveView::List(list_view(list)),
        Primitive::Block(block) => PrimitiveView::Block(block_view(block)),
        Primitive::ModuleBlock(block) => PrimitiveView::ModuleBlock(module_block_view(block)),
        Primitive::Module(module) => PrimitiveView::Module(module_view(module)),
        Primitive::Quoted(quoted) => PrimitiveView::Quoted(quoted_view(quoted)),
        Primitive::Function(function) => PrimitiveView::Function(function_view(function)),
        Primitive::TraitConstructor(constructor) => PrimitiveView::TraitConstructor(constructor),
        Primitive::Macro(m) => PrimitiveView::Macro(macro_view(m)),
        Primitive::Operator(operator) => PrimitiveView::Operator(operator),
        Primitive::Computed(_) => PrimitiveView::Computed,
        Primitive::Assign(f) => PrimitiveView::Assign(f.name@),
        Primitive::Evaluate(f) => PrimitiveView::Evaluate(evaluate_fn_view(f)),
        Primitive::MacroParameter(name) => PrimitiveView::MacroParameter(name@),
        Primitive::MacroExpand(f) => PrimitiveView::MacroExpand(macro_expand_fn_view(f)),
        Primitive::ClosureParameter(name) => PrimitiveView::ClosureParameter(name@),
        Primitive::Value(value) => PrimitiveView::Value(Box::new(value_view(value))),
    }
}

pub open spec fn traits_entries(traits: Vec<Trait>) -> Seq<(TraitID, PrimitiveView)>
    decreases traits,
{
    Seq::new(
        traits.len() as nat,
        |i: int|
            if 0 <= i < traits.len() {
                (traits[i].id, primitive_view(*traits[i].value.value))
            } else {
                arbitrary()
            },
    )
}

pub open spec fn value_view(value: Value) -> ValueView
    decreases value,
{
    ValueView { traits: traits_map(traits_entries(*value.traits)) }
}

pub open spec fn environment_view(env: Environment) -> EnvironmentView
    decreases env,
{
    EnvironmentView {
        parent: match env.parent {
            Some(parent) => Some(Box::new(environment_view(*parent))),
            None => None,
        },
        variables: bindings_map(variables_entries(env.variables)),
        conformances: env.conformances@,
        operators: env.operators@,
        show: env.show,
        next_trait: env.next_trait,
        project_root: text_option_view(env.project_root),
        current_file: text_option_view(env.current_file),
    }
}

impl View for List {
    type V = ListView;

    open spec fn view(&self) -> ListView {
        list_view(*self)
    }
}

impl View for Block {
    type V = BlockView;

    open spec fn view(&self) -> BlockView {
        block_view(*self)
    }
}

impl View for ModuleBlock {
    type V = ModuleBlockView;

    open spec fn view(&self) -> ModuleBlockView {
        module_block_view(*self)
    }
}

impl View for Module {
    type V = ModuleView;

    open spec fn view(&self) -> ModuleView {
        module_view(*self)
    }
}

impl View for Quoted {
    type V = QuotedView;

    open spec fn view(&self) -> QuotedView {
        quoted_view(*self)
    }
}

impl View for Function {
    type V = FunctionView;

    open spec fn view(&self) -> FunctionView {
        function_view(*self)
    }
}

impl View for Macro {
    type V = MacroView;

    open spec fn view(&self) -> MacroView {
        macro_view(*self)
    }
}

impl View for EvaluateFn {
    type V = EvaluateFnView;

    open spec fn view(&self) -> EvaluateFnView {
        evaluate_fn_view(*self)
    }
}

impl View for MacroExpandFn {
    type V = MacroExpandFnView;

    open spec fn view(&self) -> MacroExpandFnView {
        macro_expand_fn_view(*self)
    }
}

impl View for Primitive {
    type V = PrimitiveView;

    open spec fn view(&self) -> PrimitiveView {
        primitive_view(*self)
    }
}

impl View for Dynamic {
    type V = PrimitiveView;

    open spec fn view(&self) -> PrimitiveView {
        primitive_view(*self.value)
    }
}

impl View for Value {
    type V = ValueView;

    open spec fn view(&self) -> ValueView {
        value_view(*self)
    }
}

impl View for Environment {
    type V = EnvironmentView;

    open spec fn view(&self) -> EnvironmentView {
        environment_view(*self)
    }
}


/// The view of a pushed entry is the view with the entry inserted.
pub proof fn lemma_traits_map_push(entries: Seq<(TraitID, PrimitiveView)>, id: TraitID, value: PrimitiveView)
    ensures
        traits_map(entries.push((id, value))) == traits_map(entries).insert(id, value),
{
    assert(entries.push((id, value)).drop_last() =~= entries);
}

/// The view of a pushed binding is the view with the binding inserted.
pub proof fn lemma_bindings_map_push(entries: Seq<(Seq<char>, ValueView)>, name: Seq<char>, value: ValueView)
    ensures
        bindings_map(entries.push((name, value))) == bindings_map(entries).insert(name, value),
{
    assert(entries.push((name, value)).drop_last() =~= entries);
}

/// Vectors with the same elements have the same view.
pub proof fn lemma_values_view_of_equal(a: Vec<Value>, b: Vec<Value>)
    requires
        a@ == b@,
    ensures
        values_view(a) == values_view(b),
{
    assert(values_view(a) =~= values_view(b));
}

pub proof fn lemma_lists_view_of_equal(a: Vec<List>, b: Vec<List>)
    requires
        a.len() == b.len(),
        forall|i: int| 0 <= i < a.len() ==> list_view(a[i]) == list_view(b[i]),
    ensures
        lists_view(a) == lists_view(b),
{
    assert(lists_view(a) =~= lists_view(b));
}

pub proof fn lemma_variables_view_of_equal(a: Vec<Variable>, b: Vec<Variable>)
    requires
        a.len() == b.len(),
        forall|i: int|
            0 <= i < a.len() ==> a[i].name@ == b[i].name@ && value_view(a[i].value) == value_view(
                b[i].value,
            ),
    ensures
        variables_view(a) == variables_view(b),
{
    assert(variables_entries(a) =~= variables_entries(b));
}

impl Clone for Name {
    fn clone(&self) -> (r: Self)
        ensures
            r@ == self@,
    {
        Name { name: self.name.clone(), location: clone_location_option(&self.location) }
    }
}

impl Clone for Number {
    fn clone(&self) -> (r: Self)
        ensures
            r@ == self@,
    {
        Number { number: self.number.clone(), location: clone_location_option(&self.location) }
    }
}

impl Clone for Text {
    fn clone(&self) -> (r: Self)
        ensures
            r@ == self@,
    {
        Text { text: self.text.clone(), location: clone_location_option(&self.location) }
    }
}

impl Clone for Value {
    fn clone(&self) -> (r: Self)
        ensures
            r == *self,
    {
        Value { traits: share(&self.traits) }
    }
}

impl Clone for Dynamic {
    fn clone(&self) -> (r: Self)
        ensures
            r == *self,
    {
        Dynamic { value: share(&self.value) }
    }
}

impl Clone for Trait {
    fn clone(&self) -> (r: Self)
        ensures
            r == *self,
    {
        Trait { id: self.id, value: self.value.clone() }
    }
}

/// A vector with the same values.
pub fn clone_values(values: &Vec<Value>) -> (r: Vec<Value>)
    ensures
        r@ == values@,
        values_view(r) == values_view(*values),
{
    let mut r: Vec<Value> = Vec::new();
    let mut i: usize = 0;
    while i < values.len()
        invariant
            i <= values.len(),
            r@ == values@.subrange(0, i as int),
        decreases values.len() - i,
    {
        r.push(values[i].clone());
        assert(r@ =~= values@.subrange(0, i as int + 1));
        i += 1;
    }
    assert(r@ =~= values@);
    proof {
        lemma_values_view_of_equal(r, *values);
    }
    r
}

impl Clone for List {
    fn clone(&self) -> (r: Self)
        ensures
            r@ == self@,
    {
        List { items: clone_values(&self.items), location: clone_location_option(&self.location) }
    }
}

/// A vector with the same lists.
pub fn clone_lists(lists: &Vec<List>) -> (r: Vec<List>)
    ensures
        lists_view(r) == lists_view(*lists),
{
    let mut r: Vec<List> = Vec::new();
    let mut i: usize = 0;
    while i < lists.len()
        invariant
            i <= lists.len(),
            r.len() == i,
            forall|j: int| 0 <= j < i ==> list_view(r[j]) == list_view(lists[j]),
        decreases lists.len() - i,
    {
        r.push(lists[i].clone());
        i += 1;
    }
    proof {
        lemma_lists_view_of_equal(r, *lists);
    }
    r
}

impl Clone for Block {
    fn clone(&self) -> (r: Self)
        ensures
            r@ == self@,
    {
        Block {
            statements: clone_lists(&self.statements),
            location: clone_location_option(&self.location),
        }
    }
}

impl Clone for ModuleBlock {
    fn clone(&self) -> (r: Self)
        ensures
            r@ == self@,
    {
        ModuleBlock {
            statements: clone_lists(&self.statements),
            location: clone_location_option(&self.location),
        }
    }
}

impl Clone for Variable {
    fn clone(&self) -> (r: Self)
        ensures
            r.name@ == self.name@,
            r.value == self.value,
    {
        Variable { name: self.name.clone(), value: self.value.clone() }
    }
}

/// A vector with the same variables.
pub fn clone_variables(variables: &Vec<Variable>) -> (r: Vec<Variable>)
    ensures
        variables_entries(r) == variables_entries(*variables),
        variables_view(r) == variables_view(*variables),
{
    let mut r: Vec<Variable> = Vec::new();
    let mut i: usize = 0;
    while i < variables.len()
        invariant
            i <= variables.len(),
            r.len() == i,
            forall|j: int|
                0 <= j < i ==> r[j].name@ == variables[j].name@ && r[j].value == variables[j].value,
        decreases variables.len() - i,
    {
        r.push(variables[i].clone());
        i += 1;
    }
    proof {
        lemma_variables_view_of_equal(r, *variables);
        assert(variables_entries(r) =~= variables_entries(*variables));
    }
    r
}

impl Clone for Module {
    fn clone(&self) -> (r: Self)
        ensures
            r@ == self@,
    {
        Module { values: clone_variables(&self.values) }
    }
}

impl Clone for Quoted {
    fn clone(&self) -> (r: Self)
        ensures
            r@ == self@,
    {
        Quoted { value: self.value.clone(), location: clone_location_option(&self.location) }
    }
}

impl Clone for Closure {
    fn clone(&self) -> (r: Self)
        ensures
            r.define_parameter@ == self.define_parameter@,
            r.return_value == self.return_value,
            r.env == self.env,
    {
        Closure {
            define_parameter: self.define_parameter.clone(),
            return_value: self.return_value.clone(),
            env: share(&self.env),
        }
    }
}

impl Clone for Function {
    fn clone(&self) -> (r: Self)
        ensures
            r@ == self@,
    {
        match self {
            Function::New => Function::New,
            Function::NewWith(constructor) => Function::NewWith(*constructor),
            Function::Do => Function::Do,
            Function::Closure(closure) => Function::Closure(closure.clone()),
            Function::Module(module) => Function::Module(module.clone()),
        }
    }
}

impl Clone for Macro {
    fn clone(&self) -> (r: Self)
        ensures
            r@ == self@,
    {
        Macro {
            define_parameter: self.define_parameter.clone(),
            value_to_expand: self.value_to_expand.clone(),
        }
    }
}

impl Clone for EvaluateFn {
    fn clone(&self) -> (r: Self)
        ensures
            r@ == self@,
    {
        match self {
            EvaluateFn::Name(name) => EvaluateFn::Name(name.clone()),
            EvaluateFn::List(list) => EvaluateFn::List(list.clone()),
            EvaluateFn::Block(block) => EvaluateFn::Block(block.clone()),
            EvaluateFn::ModuleBlock(block) => EvaluateFn::ModuleBlock(block.clone()),
            EvaluateFn::Quoted(quoted) => EvaluateFn::Quoted(quoted.clone()),
            EvaluateFn::Trait => EvaluateFn::Trait,
        }
    }
}

impl Clone for MacroExpandFn {
    fn clone(&self) -> (r: Self)
        ensures
            r@ == self@,
    {
        match self {
            MacroExpandFn::Name(name) => MacroExpandFn::Name(name.clone()),
            MacroExpandFn::List(list) => MacroExpandFn::List(list.clone()),
            MacroExpandFn::Block(block) => MacroExpandFn::Block(block.clone()),
            MacroExpandFn::ModuleBlock(block) => MacroExpandFn::ModuleBlock(block.clone()),
        }
    }
}

impl Clone for Primitive {
    fn clone(&self) -> (r: Self)
        ensures
            r@ == self@,
    {
        match self {
            Primitive::Name(name) => Primitive::Name(name.clone()),
            Primitive::Number(number) => Primitive::Number(number.clone()),
            Primitive::Text(text) => Primitive::Text(text.clone()),
            Primitive::List(list) => Primitive::List(list.clone()),
            Primitive::Block(block) => Primitive::Block(block.clone()),
            Primitive::ModuleBlock(block) => Primitive::ModuleBlock(block.clone()),
            Primitive::Module(module) => Primitive::Module(module.clone()),
            Primitive::Quoted(quoted) => Primitive::Quoted(quoted.clone()),
            Primitive::Function(function) => Primitive::Function(function.clone()),
            Primitive::TraitConstructor(constructor) => Primitive::TraitConstructor(*constructor),
            Primitive::Macro(m) => Primitive::Macro(m.clone()),
            Primitive::Operator(operator) => Primitive::Operator(*operator),
            Primitive::Computed(_) => Primitive::Computed(Computed),
            Primitive::Assign(f) => Primitive::Assign(AssignFn { name: f.name.clone() }),
            Primitive::Evaluate(f) => Primitive::Evaluate(f.clone()),
            Primitive::MacroParameter(name) => Primitive::MacroParameter(name.clone()),
            Primitive::MacroExpand(f) => Primitive::MacroExpand(f.clone()),
            Primitive::ClosureParameter(name) => Primitive::ClosureParameter(name.clone()),
            Primitive::Value(value) => Primitive::Value(value.clone()),
        }
    }
}

impl Primitive {
    /// The trait of which a value that holds this primitive is made: the
    /// trait of the primitive's kind, none for the value of a run-time trait.
    pub fn kind(&self) -> (r: Option<BuiltinTrait>)
        ensures
            r == self@.kind(),
    {
        match self {
            Primitive::Name(_) => Some(BuiltinTrait::Name),
            Primitive::Number(_) => Some(BuiltinTrait::Number),
            Primitive::Text(_) => Some(BuiltinTrait::Text),
            Primitive::List(_) => Some(BuiltinTrait::List),
            Primitive::Block(_) => Some(BuiltinTrait::Block),
            Primitive::ModuleBlock(_) => Some(BuiltinTrait::ModuleBlock),
            Primitive::Module(_) => Some(BuiltinTrait::Module),
            Primitive::Quoted(_) => Some(BuiltinTrait::Quoted),
            Primitive::Function(_) => Some(BuiltinTrait::Function),
            Primitive::TraitConstructor(_) => Some(BuiltinTrait::TraitConstructor),
            Primitive::Macro(_) => Some(BuiltinTrait::Macro),
            Primitive::Operator(_) => Some(BuiltinTrait::Operator),
            Primitive::Computed(_) => Some(BuiltinTrait::Computed),
            Primitive::Assign(_) => Some(BuiltinTrait::Assign),
            Primitive::Evaluate(_) => Some(BuiltinTrait::Evaluate),
            Primitive::MacroParameter(_) => Some(BuiltinTrait::MacroParameter),
            Primitive::MacroExpand(_) => Some(BuiltinTrait::MacroExpand),
            Primitive::ClosureParameter(_) => Some(BuiltinTrait::ClosureParameter),
            Primitive::Value(_) => None,
        }
    }
}

impl Dynamic {
    /// Holds `value`.
    pub fn new(value: Primitive) -> (r: Self)
        ensures
            r@ == value@,
    {
        Dynamic { value: Rc::new(value) }
    }

    /// What is held.
    pub fn get(&self) -> (r: &Primitive)
        ensures
            r@ == self@,
    {
        &*self.value
    }

    /// The trait of the kind of what is held; see `Primitive::kind`.
    pub fn kind(&self) -> (r: Option<BuiltinTrait>)
        ensures
            r == self@.kind(),
    {
        self.get().kind()
    }
}

impl Value {
    /// The entries of the value, as the model sees them.
    pub open spec fn entries(&self) -> Seq<(TraitID, PrimitiveView)> {
        traits_entries(*self.traits)
    }

    /// The value without traits.
    pub fn empty() -> (r: Self)
        ensures
            r@ == ValueView::empty(),
    {
        let traits: Vec<Trait> = Vec::new();
        assert(traits_entries(traits) =~= Seq::empty());
        Value { traits: Rc::new(traits) }
    }

    /// The value with the one trait `id`, which holds `value`.
    pub fn new(id: TraitID, value: Dynamic) -> (r: Self)
        ensures
            r@ == ValueView::new(id, value@),
    {
        Value::empty().add(id, value)
    }

    /// This value with the trait `id` set to `value`.
    pub fn add(self, id: TraitID, value: Dynamic) -> (r: Self)
        ensures
            r@ == self@.add(id, value@),
    {
        let mut traits: Vec<Trait> = Vec::new();
        let mut i: usize = 0;
        while i < self.traits.len()
            invariant
                i <= self.traits.len(),
                traits@ == self.traits@.subrange(0, i as int),
            decreases self.traits.len() - i,
        {
            traits.push(self.traits[i].clone());
            assert(traits@ =~= self.traits@.subrange(0, i as int + 1));
            i += 1;
        }
        assert(traits@ =~= self.traits@);
        let ghost before = traits;
        traits.push(Trait { id, value });
        proof {
            assert(traits_entries(before) =~= traits_entries(*self.traits));
            assert(traits_entries(traits) =~= traits_entries(before).push((id, value@)));
            lemma_traits_map_push(traits_entries(before), id, value@);
        }
        Value { traits: Rc::new(traits) }
    }

    /// The value that holds `primitive` under the trait of its kind; the
    /// value of a run-time trait stands for itself.
    pub fn of(primitive: Primitive) -> (r: Self)
        ensures
            r@ == ValueView::of(primitive@),
    {
        match primitive.kind() {
            Some(kind) => Value::new(TraitID::Builtin(kind), Dynamic::new(primitive)),
            None => match primitive {
                Primitive::Value(value) => value,
                _ => Value::empty(),
            },
        }
    }

    /// What the trait `id` holds, where it is attached to the value directly.
    pub fn find_direct(&self, id: TraitID) -> (r: Option<Dynamic>)
        ensures
            match r {
                Some(value) => self@.has_direct(id) && self@.traits[id] == value@,
                None => !self@.has_direct(id),
            },
    {
        let mut i: usize = self.traits.len();
        let ghost entries = self.entries();
        assert(entries.subrange(0, i as int) =~= entries);
        while i > 0
            invariant
                i <= self.traits.len(),
                entries == self.entries(),
                traits_map(entries).contains_key(id) == traits_map(
                    entries.subrange(0, i as int),
                ).contains_key(id),
                traits_map(entries).contains_key(id) ==> traits_map(entries)[id] == traits_map(
                    entries.subrange(0, i as int),
                )[id],
            decreases i,
        {
            i -= 1;
            proof {
                let upto = entries.subrange(0, i as int + 1);
                assert(upto.drop_last() =~= entries.subrange(0, i as int));
                assert(upto.last() == entries[i as int]);
            }
            if self.traits[i].id == id {
                return Some(self.traits[i].value.clone());
            }
        }
        proof {
            assert(entries.subrange(0, 0) =~= Seq::empty());
        }
        None
    }
}


impl Number {
    /// The number of `number`, from nowhere in particular.
    pub fn new(number: String) -> (r: Self)
        ensures
            r@ == (NumberView { number: number@, location: None }),
    {
        Number::new_located(number, None)
    }

    /// The number of `number`, found at `location`.
    pub fn new_located(number: String, location: Option<Location>) -> (r: Self)
        ensures
            r@ == (NumberView { number: number@, location: location_option_view(location) }),
    {
        Number { number, location }
    }
}

impl Trait {
    /// The trait `id`, holding `value`.
    pub fn new(id: TraitID, value: Dynamic) -> (r: Self)
        ensures
            r.id == id,
            r.value == value,
    {
        Trait { id, value }
    }

    /// What the trait holds.
    pub fn value(&self) -> (r: Dynamic)
        ensures
            r == self.value,
    {
        self.value.clone()
    }
}

impl Conformance {
    /// The conformance that derives the trait `derived_trait_id` by `derive_trait_value`.
    pub fn new(derived_trait_id: TraitID, derive_trait_value: crate::model::Derivation) -> (r: Self)
        ensures
            r == (Conformance { derived_trait_id, derive_trait_value }),
    {
        Conformance { derived_trait_id, derive_trait_value }
    }
}

impl TraitID {
    /// The validation that a value passes if it has this trait.
    pub fn validation(self) -> (r: crate::model::Validation)
        ensures
            r == crate::model::Validation::Trait(self),
    {
        crate::model::Validation::Trait(self)
    }
}

impl Dynamic {
    /// What is held, if it is of the kind of the built-in trait `kind`.
    pub fn downcast(&self, kind: BuiltinTrait) -> (r: Option<&Primitive>)
        ensures
            match r {
                Some(held) => held@ == self@ && self@.kind() == Some(kind),
                None => self@.kind() != Some(kind),
            },
    {
        if self.kind() == Some(kind) {
            Some(self.get())
        } else {
            None
        }
    }
}

} // verus!
