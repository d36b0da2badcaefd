//! From the syntax tree that a parser hands over to the value that is evaluated.

use vstd::prelude::*;
use vstd::string::*;
use crate::diagnostics::{Location, LocationView};
use crate::model::{
    BlockView, ListView, ModuleBlockView, NameView, NumberView, PrimitiveView, QuotedView,
    TextView, ValueView,
};
use crate::value::{
    lists_view, values_view, Block, List, ModuleBlock, Name, Number, Primitive, Quoted, Text,
    Value,
};

verus! {

/// A place in a source text.
#[derive(Clone, Copy, PartialEq, Eq, Structural, Debug)]
pub struct SourceLocation {
    pub line: usize,
    pub column: usize,
}

/// A statement of a block: the items of one list.
pub struct Statement {
    pub items: Vec<Ast>,
    pub location: SourceLocation,
}

pub enum AstNode {
    Block(Vec<Statement>),
    Module(Vec<Statement>),
    List(Vec<Ast>),
    Quoted(Box<Ast>),
    Name(String),
    Number(String),
    Text(String),
}

/// A node of the syntax tree, with its place in the source.
pub struct Ast {
    pub node: AstNode,
    pub location: SourceLocation,
}

/// The location of a node at `location` of the file `file`.
pub open spec fn located_at(location: SourceLocation, file: Option<Seq<char>>) -> Option<
    LocationView,
> {
    Some(
        LocationView::Source { file, line: location.line as nat, column: location.column as nat },
    )
}

/// The values that `items` stand for.
pub open spec fn converted_items(items: Vec<Ast>, file: Option<Seq<char>>) -> Seq<ValueView>
    decreases items,
{
    Seq::new(
        items.len() as nat,
        |i: int|
            if 0 <= i < items.len() {
                converted(items[i], file)
            } else {
                arbitrary()
            },
    )
}

/// The lists that `statements` stand for.
pub open spec fn converted_statements(statements: Vec<Statement>, file: Option<Seq<char>>) -> Seq<
    ListView,
>
    decreases statements,
{
    Seq::new(
        statements.len() as nat,
        |i: int|
            if 0 <= i < statements.len() {
                ListView {
                    items: converted_items(statements[i].items, file),
                    location: located_at(statements[i].location, file),
                }
            } else {
                arbitrary()
            },
    )
}

/// The value that `ast` stands for: each node becomes the primitive of its
/// kind, located where the node stands in `file`.
pub open spec fn converted(ast: Ast, file: Option<Seq<char>>) -> ValueView
    decreases ast,
{
    let location = located_at(ast.location, file);
    match ast.node {
        AstNode::Block(statements) => ValueView::of(
            PrimitiveView::Block(
                BlockView { statements: converted_statements(statements, file), location },
            ),
        ),
        AstNode::Module(statements) => ValueView::of(
            PrimitiveView::ModuleBlock(
                ModuleBlockView { statements: converted_statements(statements, file), location },
            ),
        ),
        AstNode::List(items) => ValueView::of(
            PrimitiveView::List(ListView { items: converted_items(items, file), location }),
        ),
        AstNode::Quoted(inner) => ValueView::of(
            PrimitiveView::Quoted(QuotedView { value: Box::new(converted(*inner, file)), location }),
        ),
        AstNode::Name(name) => ValueView::of(PrimitiveView::Name(NameView { name: name@, location })),
        AstNode::Number(number) => ValueView::of(
            PrimitiveView::Number(NumberView { number: number@, location }),
        ),
        AstNode::Text(text) => ValueView::of(PrimitiveView::Text(TextView { text: text@, location })),
    }
}

pub open spec fn file_view(file: Option<&str>) -> Option<Seq<char>> {
    match file {
        Some(file) => Some(file@),
        None => None,
    }
}

fn location(at: &SourceLocation, file: Option<&str>) -> (r: Option<Location>)
    ensures
        crate::diagnostics::location_option_view(r) == located_at(*at, file_view(file)),
{
    let file = match file {
        Some(file) => Some(String::from_str(file)),
        None => None,
    };
    Some(Location::Source { file, line: at.line, column: at.column })
}

fn convert_items(items: &Vec<Ast>, file: Option<&str>, from: usize, done: Vec<Value>) -> (r: Vec<
    Value,
>)
    requires
        from <= items.len(),
        done.len() == from,
        forall|i: int| 0 <= i < from ==> (#[trigger] done[i])@ == converted(items[i], file_view(file)),
    ensures
        values_view(r) == converted_items(*items, file_view(file)),
    decreases items, items.len() - from,
{
    if from >= items.len() {
        assert(values_view(done) =~= converted_items(*items, file_view(file)));
        return done;
    }
    let mut done = done;
    done.push(convert(&items[from], file));
    convert_items(items, file, from + 1, done)
}

fn convert_statements(
    statements: &Vec<Statement>,
    file: Option<&str>,
    from: usize,
    done: Vec<List>,
) -> (r: Vec<List>)
    requires
        from <= statements.len(),
        done.len() == from,
        forall|i: int|
            0 <= i < from ==> (#[trigger] done[i])@ == converted_statements(
                *statements,
                file_view(file),
            )[i],
    ensures
        lists_view(r) == converted_statements(*statements, file_view(file)),
    decreases statements, statements.len() - from,
{
    if from >= statements.len() {
        assert(lists_view(done) =~= converted_statements(*statements, file_view(file)));
        return done;
    }
    let mut done = done;
    let items = convert_items(&statements[from].items, file, 0, Vec::new());
    done.push(List { items, location: location(&statements[from].location, file) });
    convert_statements(statements, file, from + 1, done)
}

/// The value that `ast`, parsed from `file`, stands for.
pub fn convert(ast: &Ast, file: Option<&str>) -> (r: Value)
    ensures
        r@ == converted(*ast, file_view(file)),
    decreases ast, 0nat,
{
    let at = location(&ast.location, file);
    match &ast.node {
        AstNode::Block(statements) => Value::of(
            Primitive::Block(
                Block {
                    statements: convert_statements(statements, file, 0, Vec::new()),
                    location: at,
                },
            ),
        ),
        AstNode::Module(statements) => Value::of(
            Primitive::ModuleBlock(
                ModuleBlock {
                    statements: convert_statements(statements, file, 0, Vec::new()),
                    location: at,
                },
            ),
        ),
        AstNode::List(items) => Value::of(
            Primitive::List(List { items: convert_items(items, file, 0, Vec::new()), location: at }),
        ),
        AstNode::Quoted(inner) => Value::of(
            Primitive::Quoted(Quoted { value: convert(inner, file), location: at }),
        ),
        AstNode::Name(name) => Value::of(Primitive::Name(Name { name: name.clone(), location: at })),
        AstNode::Number(number) => Value::of(
            Primitive::Number(Number { number: number.clone(), location: at }),
        ),
        AstNode::Text(text) => Value::of(Primitive::Text(Text { text: text.clone(), location: at })),
    }
}

} // verus!
