//! The mathematical model of values and environments: what the contracts of
//! the library speak of.

use vstd::prelude::*;
use crate::diagnostics::LocationView;
use crate::operators::{Operator, PrecedenceView};
use crate::traits::{BuiltinTrait, TraitID};

verus! {

pub struct NameView {
    pub name: Seq<char>,
    pub location: Option<LocationView>,
}

pub struct NumberView {
    pub number: Seq<char>,
    pub location: Option<LocationView>,
}

pub struct TextView {
    pub text: Seq<char>,
    pub location: Option<LocationView>,
}

pub struct ListView {
    pub items: Seq<ValueView>,
    pub location: Option<LocationView>,
}

pub struct BlockView {
    pub statements: Seq<ListView>,
    pub location: Option<LocationView>,
}

pub struct ModuleBlockView {
    pub statements: Seq<ListView>,
    pub location: Option<LocationView>,
}

pub struct ModuleView {
    pub values: Map<Seq<char>, ValueView>,
}

pub struct QuotedView {
    pub value: Box<ValueView>,
    pub location: Option<LocationView>,
}

/// How a value is checked before it may represent a trait.
#[derive(Clone, Copy, PartialEq, Eq, Structural, Debug)]
pub enum Validation {
    /// Every value is valid, as it is.
    Any,
    /// A value is valid if it has this trait, and is represented by the trait's value.
    Trait(TraitID),
}

#[derive(Clone, Copy, PartialEq, Eq, Structural, Debug)]
pub struct TraitConstructor {
    pub id: TraitID,
    pub validation: Validation,
}

pub struct ClosureView {
    pub define_parameter: NameView,
    pub return_value: Box<ValueView>,
    pub env: Box<EnvironmentView>,
}

pub enum FunctionView {
    New,
    NewWith(TraitConstructor),
    Do,
    Closure(ClosureView),
    Module(ModuleView),
}

pub struct MacroView {
    pub define_parameter: NameView,
    pub value_to_expand: Box<ValueView>,
}

pub enum EvaluateFnView {
    Name(NameView),
    List(ListView),
    Block(BlockView),
    ModuleBlock(ModuleBlockView),
    Quoted(QuotedView),
    Trait,
}

pub enum MacroExpandFnView {
    Name(NameView),
    List(ListView),
    Block(BlockView),
    ModuleBlock(ModuleBlockView),
}

/// What a trait of a value holds.
pub enum PrimitiveView {
    Name(NameView),
    Number(NumberView),
    Text(TextView),
    List(ListView),
    Block(BlockView),
    ModuleBlock(ModuleBlockView),
    Module(ModuleView),
    Quoted(QuotedView),
    Function(FunctionView),
    TraitConstructor(TraitConstructor),
    Macro(MacroView),
    Operator(Operator),
    Computed,
    Assign(NameView),
    Evaluate(EvaluateFnView),
    MacroParameter(NameView),
    MacroExpand(MacroExpandFnView),
    ClosureParameter(NameView),
    Value(Box<ValueView>),
}

/// A value: the traits attached to it directly, at most one for each identifier.
pub struct ValueView {
    pub traits: Map<TraitID, PrimitiveView>,
}

/// A rule that gives values a trait they do not hold directly: from a value
/// that has the trait `source()`, `derive_trait_value` makes the value of the
/// trait `derived_trait_id`.
#[derive(Clone, Copy, PartialEq, Eq, Structural, Debug)]
pub struct Conformance {
    pub derived_trait_id: TraitID,
    pub derive_trait_value: Derivation,
}

/// The ways in which a trait's value is made from a primitive.
#[derive(Clone, Copy, PartialEq, Eq, Structural, Debug)]
pub enum Derivation {
    NameAssign,
    NameEvaluate,
    NameMacroParameter,
    NameMacroExpand,
    NameClosureParameter,
    NameText,
    NumberText,
    ListEvaluate,
    ListMacroExpand,
    BlockEvaluate,
    BlockMacroExpand,
    ModuleBlockEvaluate,
    ModuleBlockMacroExpand,
    ModuleBlockText,
    ModuleText,
    ModuleFunction,
    QuotedEvaluate,
}

/// What is done with a value that a program shows.
#[derive(Clone, Copy, PartialEq, Eq, Structural, Debug)]
pub enum ShowFn {
    /// Nothing: the value is dropped.
    Nothing,
    /// The value is evaluated, and its text is handed to whoever writes it out.
    Text,
}

pub struct EnvironmentView {
    pub parent: Option<Box<EnvironmentView>>,
    pub variables: Map<Seq<char>, ValueView>,
    pub conformances: Seq<Conformance>,
    pub operators: PrecedenceView,
    pub show: ShowFn,
    pub next_trait: u128,
    pub project_root: Option<Seq<char>>,
    pub current_file: Option<Seq<char>>,
}

impl PrimitiveView {
    /// The built-in trait whose value a primitive of this kind is; none for
    /// the value of a trait made at run time.
    pub open spec fn kind(self) -> Option<BuiltinTrait> {
        match self {
            PrimitiveView::Name(_) => Some(BuiltinTrait::Name),
            PrimitiveView::Number(_) => Some(BuiltinTrait::Number),
            PrimitiveView::Text(_) => Some(BuiltinTrait::Text),
            PrimitiveView::List(_) => Some(BuiltinTrait::List),
            PrimitiveView::Block(_) => Some(BuiltinTrait::Block),
            PrimitiveView::ModuleBlock(_) => Some(BuiltinTrait::ModuleBlock),
            PrimitiveView::Module(_) => Some(BuiltinTrait::Module),
            PrimitiveView::Quoted(_) => Some(BuiltinTrait::Quoted),
            PrimitiveView::Function(_) => Some(BuiltinTrait::Function),
            PrimitiveView::TraitConstructor(_) => Some(BuiltinTrait::TraitConstructor),
            PrimitiveView::Macro(_) => Some(BuiltinTrait::Macro),
            PrimitiveView::Operator(_) => Some(BuiltinTrait::Operator),
            PrimitiveView::Computed => Some(BuiltinTrait::Computed),
            PrimitiveView::Assign(_) => Some(BuiltinTrait::Assign),
            PrimitiveView::Evaluate(_) => Some(BuiltinTrait::Evaluate),
            PrimitiveView::MacroParameter(_) => Some(BuiltinTrait::MacroParameter),
            PrimitiveView::MacroExpand(_) => Some(BuiltinTrait::MacroExpand),
            PrimitiveView::ClosureParameter(_) => Some(BuiltinTrait::ClosureParameter),
            PrimitiveView::Value(_) => None,
        }
    }
}

impl ValueView {
    /// The value without traits.
    pub open spec fn empty() -> ValueView {
        ValueView { traits: Map::empty() }
    }

    /// The value with the one trait `id`, whose value is `value`.
    pub open spec fn new(id: TraitID, value: PrimitiveView) -> ValueView {
        ValueView::empty().add(id, value)
    }

    /// This value with the trait `id` set to `value`.
    pub open spec fn add(self, id: TraitID, value: PrimitiveView) -> ValueView {
        ValueView { traits: self.traits.insert(id, value) }
    }

    /// The value that holds `primitive` under the trait of its kind. The value
    /// of a run-time trait is a value already, and stands for itself.
    pub open spec fn of(primitive: PrimitiveView) -> ValueView {
        match primitive {
            PrimitiveView::Value(value) => *value,
            _ => ValueView::new(TraitID::Builtin(primitive.kind().unwrap()), primitive),
        }
    }

    /// Whether the trait `id` is attached to the value directly.
    pub open spec fn has_direct(self, id: TraitID) -> bool {
        self.traits.contains_key(id)
    }
}

impl Derivation {
    /// The trait that a value must have for the derivation to apply.
    pub open spec fn source(self) -> BuiltinTrait {
        match self {
            Derivation::NameAssign => BuiltinTrait::Name,
            Derivation::NameEvaluate => BuiltinTrait::Name,
            Derivation::NameMacroParameter => BuiltinTrait::Name,
            Derivation::NameMacroExpand => BuiltinTrait::Name,
            Derivation::NameClosureParameter => BuiltinTrait::Name,
            Derivation::NameText => BuiltinTrait::Name,
            Derivation::NumberText => BuiltinTrait::Number,
            Derivation::ListEvaluate => BuiltinTrait::List,
            Derivation::ListMacroExpand => BuiltinTrait::List,
            Derivation::BlockEvaluate => BuiltinTrait::Block,
            Derivation::BlockMacroExpand => BuiltinTrait::Block,
            Derivation::ModuleBlockEvaluate => BuiltinTrait::ModuleBlock,
            Derivation::ModuleBlockMacroExpand => BuiltinTrait::ModuleBlock,
            Derivation::ModuleBlockText => BuiltinTrait::ModuleBlock,
            Derivation::ModuleText => BuiltinTrait::Module,
            Derivation::ModuleFunction => BuiltinTrait::Module,
            Derivation::QuotedEvaluate => BuiltinTrait::Quoted,
        }
    }

    /// The trait whose value the derivation makes.
    pub open spec fn target(self) -> BuiltinTrait {
        match self {
            Derivation::NameAssign => BuiltinTrait::Assign,
            Derivation::NameEvaluate => BuiltinTrait::Evaluate,
            Derivation::NameMacroParameter => BuiltinTrait::MacroParameter,
            Derivation::NameMacroExpand => BuiltinTrait::MacroExpand,
            Derivation::NameClosureParameter => BuiltinTrait::ClosureParameter,
            Derivation::NameText => BuiltinTrait::Text,
            Derivation::NumberText => BuiltinTrait::Text,
            Derivation::ListEvaluate => BuiltinTrait::Evaluate,
            Derivation::ListMacroExpand => BuiltinTrait::MacroExpand,
            Derivation::BlockEvaluate => BuiltinTrait::Evaluate,
            Derivation::BlockMacroExpand => BuiltinTrait::MacroExpand,
            Derivation::ModuleBlockEvaluate => BuiltinTrait::Evaluate,
            Derivation::ModuleBlockMacroExpand => BuiltinTrait::MacroExpand,
            Derivation::ModuleBlockText => BuiltinTrait::Text,
            Derivation::ModuleText => BuiltinTrait::Text,
            Derivation::ModuleFunction => BuiltinTrait::Function,
            Derivation::QuotedEvaluate => BuiltinTrait::Evaluate,
        }
    }

    /// The value of the derived trait, made from the value of the source
    /// trait; `None` where that value is not of the source's kind.
    pub open spec fn apply(self, source: PrimitiveView) -> Option<PrimitiveView> {
        match (self, source) {
            (Derivation::NameAssign, PrimitiveView::Name(name)) => Some(PrimitiveView::Assign(name)),
            (Derivation::NameEvaluate, PrimitiveView::Name(name)) => Some(
                PrimitiveView::Evaluate(EvaluateFnView::Name(name)),
            ),
            (Derivation::NameMacroParameter, PrimitiveView::Name(name)) => Some(
                PrimitiveView::MacroParameter(name),
            ),
            (Derivation::NameMacroExpand, PrimitiveView::Name(name)) => Some(
                PrimitiveView::MacroExpand(MacroExpandFnView::Name(name)),
            ),
            (Derivation::NameClosureParameter, PrimitiveView::Name(name)) => Some(
                PrimitiveView::ClosureParameter(name),
            ),
            (Derivation::NameText, PrimitiveView::Name(name)) => Some(
                PrimitiveView::Text(TextView { text: name.name, location: None }),
            ),
            (Derivation::NumberText, PrimitiveView::Number(number)) => Some(
                PrimitiveView::Text(TextView { text: number.number, location: None }),
            ),
            (Derivation::ListEvaluate, PrimitiveView::List(list)) => Some(
                PrimitiveView::Evaluate(EvaluateFnView::List(list)),
            ),
            (Derivation::ListMacroExpand, PrimitiveView::List(list)) => Some(
                PrimitiveView::MacroExpand(MacroExpandFnView::List(list)),
            ),
            (Derivation::BlockEvaluate, PrimitiveView::Block(block)) => Some(
                PrimitiveView::Evaluate(EvaluateFnView::Block(block)),
            ),
            (Derivation::BlockMacroExpand, PrimitiveView::Block(block)) => Some(
                PrimitiveView::MacroExpand(MacroExpandFnView::Block(block)),
            ),
            (Derivation::ModuleBlockEvaluate, PrimitiveView::ModuleBlock(block)) => Some(
                PrimitiveView::Evaluate(EvaluateFnView::ModuleBlock(block)),
            ),
            (Derivation::ModuleBlockMacroExpand, PrimitiveView::ModuleBlock(block)) => Some(
                PrimitiveView::MacroExpand(MacroExpandFnView::ModuleBlock(block)),
            ),
            (Derivation::ModuleBlockText, PrimitiveView::ModuleBlock(_)) => Some(
                PrimitiveView::Text(TextView { text: "<module block>"@, location: None }),
            ),
            (Derivation::ModuleText, PrimitiveView::Module(_)) => Some(
                PrimitiveView::Text(TextView { text: "<module>"@, location: None }),
            ),
            (Derivation::ModuleFunction, PrimitiveView::Module(module)) => Some(
                PrimitiveView::Function(FunctionView::Module(module)),
            ),
            (Derivation::QuotedEvaluate, PrimitiveView::Quoted(quoted)) => Some(
                PrimitiveView::Evaluate(EvaluateFnView::Quoted(quoted)),
            ),
            _ => None,
        }
    }
}

impl Conformance {
    /// The conformance that derives the trait of the derivation's own target.
    pub open spec fn primitive(derivation: Derivation) -> Conformance {
        Conformance {
            derived_trait_id: TraitID::Builtin(derivation.target()),
            derive_trait_value: derivation,
        }
    }
}

} // verus!
