//! Trait identifiers: what names a capability of a value.

use vstd::prelude::*;
use vstd::string::*;

verus! {

/// The traits that the language itself knows, each with a stable label.
#[derive(Clone, Copy, PartialEq, Eq, Structural, Debug)]
pub enum BuiltinTrait {
    Name,
    Number,
    Text,
    List,
    Block,
    ModuleBlock,
    Module,
    Quoted,
    Function,
    TraitConstructor,
    Macro,
    Operator,
    Computed,
    Assign,
    Evaluate,
    MacroParameter,
    MacroExpand,
    ClosureParameter,
}

impl BuiltinTrait {
    /// The label under which the trait is known.
    pub open spec fn label_view(self) -> Seq<char> {
        match self {
            BuiltinTrait::Name => "Name"@,
            BuiltinTrait::Number => "Number"@,
            BuiltinTrait::Text => "Text"@,
            BuiltinTrait::List => "List"@,
            BuiltinTrait::Block => "Block"@,
            BuiltinTrait::ModuleBlock => "Module-Block"@,
            BuiltinTrait::Module => "Module"@,
            BuiltinTrait::Quoted => "Quoted"@,
            BuiltinTrait::Function => "Function"@,
            BuiltinTrait::TraitConstructor => "Trait"@,
            BuiltinTrait::Macro => "Macro"@,
            BuiltinTrait::Operator => "Operator"@,
            BuiltinTrait::Computed => "Computed"@,
            BuiltinTrait::Assign => "Assign"@,
            BuiltinTrait::Evaluate => "Evaluate"@,
            BuiltinTrait::MacroParameter => "Macro-Parameter"@,
            BuiltinTrait::MacroExpand => "Macro-Expand"@,
            BuiltinTrait::ClosureParameter => "Closure-Parameter"@,
        }
    }

    /// The label under which the trait is known.
    pub fn label(&self) -> (r: &'static str)
        ensures
            r@ == self.label_view(),
    {
        match self {
            BuiltinTrait::Name => "Name",
            BuiltinTrait::Number => "Number",
            BuiltinTrait::Text => "Text",
            BuiltinTrait::List => "List",
            BuiltinTrait::Block => "Block",
            BuiltinTrait::ModuleBlock => "Module-Block",
            BuiltinTrait::Module => "Module",
            BuiltinTrait::Quoted => "Quoted",
            BuiltinTrait::Function => "Function",
            BuiltinTrait::TraitConstructor => "Trait",
            BuiltinTrait::Macro => "Macro",
            BuiltinTrait::Operator => "Operator",
            BuiltinTrait::Computed => "Computed",
            BuiltinTrait::Assign => "Assign",
            BuiltinTrait::Evaluate => "Evaluate",
            BuiltinTrait::MacroParameter => "Macro-Parameter",
            BuiltinTrait::MacroExpand => "Macro-Expand",
            BuiltinTrait::ClosureParameter => "Closure-Parameter",
        }
    }
}

/// The identity of a trait: built in, or made while a program runs.
/// Two identifiers are the same trait exactly when they are equal.
#[derive(Clone, Copy, PartialEq, Eq, Structural, Debug)]
pub enum TraitID {
    Builtin(BuiltinTrait),
    Runtime(u128),
}

/// `Uuid::new_v4().as_u128()`: the 128 bits of a random version-4 UUID.
/// Nothing is claimed of the number. (`new_v4` panics where the operating
/// system has no random bytes to give.)
#[verifier::external_body]
fn random_identifier() -> (r: u128) {
    uuid::Uuid::new_v4().as_u128()
}

impl TraitID {
    /// The identifier of a built-in trait.
    pub fn builtin(label: BuiltinTrait) -> (r: TraitID)
        ensures
            r == TraitID::Builtin(label),
    {
        TraitID::Builtin(label)
    }

    /// The identifier of a trait made at run time, carrying `number`.
    pub fn runtime(number: u128) -> (r: TraitID)
        ensures
            r == TraitID::Runtime(number),
    {
        TraitID::Runtime(number)
    }

    /// A new run-time identifier, drawn at random.
    pub fn new() -> (r: TraitID)
        ensures
            r is Runtime,
    {
        TraitID::runtime(random_identifier())
    }
}

} // verus!
