//! Diagnostics: source locations, stacks of frames, errors and the
//! non-ordinary outcomes of an evaluation.

use vstd::prelude::*;
use vstd::string::*;
use crate::text::{decimal, decimal_string};

verus! {

/// Where a value came from: a place in source text, or a label for something built in.
pub enum Location {
    Source { file: Option<String>, line: usize, column: usize },
    Builtin(String),
}

pub enum LocationView {
    Source { file: Option<Seq<char>>, line: nat, column: nat },
    Builtin(Seq<char>),
}

pub open spec fn text_option_view(text: Option<String>) -> Option<Seq<char>> {
    match text {
        Some(t) => Some(t@),
        None => None,
    }
}

impl View for Location {
    type V = LocationView;

    open spec fn view(&self) -> LocationView {
        match self {
            Location::Source { file, line, column } => LocationView::Source {
                file: text_option_view(*file),
                line: *line as nat,
                column: *column as nat,
            },
            Location::Builtin(label) => LocationView::Builtin(label@),
        }
    }
}

pub open spec fn location_option_view(location: Option<Location>) -> Option<LocationView> {
    match location {
        Some(l) => Some(l@),
        None => None,
    }
}

impl LocationView {
    /// `file:line:column`, `line:column` without a file, or the built-in label.
    pub open spec fn text(self) -> Seq<char> {
        match self {
            LocationView::Source { file: Some(file), line, column } => file + seq![':'] + decimal(
                line,
            ) + seq![':'] + decimal(column),
            LocationView::Source { file: None, line, column } => decimal(line) + seq![':']
                + decimal(column),
            LocationView::Builtin(label) => label,
        }
    }
}

impl Clone for Location {
    fn clone(&self) -> (r: Self)
        ensures
            r@ == self@,
    {
        match self {
            Location::Source { file, line, column } => {
                let file = match file {
                    Some(f) => Some(f.clone()),
                    None => None,
                };
                Location::Source { file, line: *line, column: *column }
            },
            Location::Builtin(label) => Location::Builtin(label.clone()),
        }
    }
}

pub fn clone_location_option(location: &Option<Location>) -> (r: Option<Location>)
    ensures
        location_option_view(r) == location_option_view(*location),
{
    match location {
        Some(l) => Some(l.clone()),
        None => None,
    }
}

impl Location {
    /// The location as text.
    pub fn to_string(&self) -> (r: String)
        ensures
            r@ == self@.text(),
    {
        proof {
            reveal_strlit(":");
        }
        match self {
            Location::Source { file, line, column } => {
                let mut r = match file {
                    Some(file) => {
                        let mut r = file.clone();
                        r.append(":");
                        r
                    },
                    None => String::new(),
                };
                let line_text = decimal_string(*line);
                r.append(line_text.as_str());
                r.append(":");
                let column_text = decimal_string(*column);
                r.append(column_text.as_str());
                assert(r@ =~= self@.text());
                r
            },
            Location::Builtin(label) => label.clone(),
        }
    }
}

/// One frame of a stack: what was being done, and where.
pub struct StackItem {
    pub label: String,
    pub location: Option<Location>,
}

pub struct StackItemView {
    pub label: Seq<char>,
    pub location: Option<LocationView>,
}

impl View for StackItem {
    type V = StackItemView;

    open spec fn view(&self) -> StackItemView {
        StackItemView { label: self.label@, location: location_option_view(self.location) }
    }
}

impl StackItemView {
    /// `label (location)`, or the label alone where no location is known.
    pub open spec fn text(self) -> Seq<char> {
        match self.location {
            Some(location) => self.label + seq![' ', '('] + location.text() + seq![')'],
            None => self.label,
        }
    }
}

impl Clone for StackItem {
    fn clone(&self) -> (r: Self)
        ensures
            r@ == self@,
    {
        StackItem { label: self.label.clone(), location: clone_location_option(&self.location) }
    }
}

impl StackItem {
    /// The frame as text.
    pub fn to_string(&self) -> (r: String)
        ensures
            r@ == self@.text(),
    {
        proof {
            reveal_strlit(" (");
            reveal_strlit(")");
        }
        match &self.location {
            Some(location) => {
                let mut r = self.label.clone();
                r.append(" (");
                let location_text = location.to_string();
                r.append(location_text.as_str());
                r.append(")");
                assert(r@ =~= self@.text());
                r
            },
            None => self.label.clone(),
        }
    }
}

/// A chain of frames, outermost first, with the location waiting for the next
/// frame and the switch that turns recording off.
pub struct Stack {
    pub items: Vec<StackItem>,
    queued_location: Option<Location>,
    recording_enabled: bool,
}

pub struct StackView {
    pub items: Seq<StackItemView>,
    pub queued_location: Option<LocationView>,
    pub recording_enabled: bool,
}

pub open spec fn stack_items_view(items: Seq<StackItem>) -> Seq<StackItemView> {
    Seq::new(items.len(), |i: int| items[i]@)
}

impl View for Stack {
    type V = StackView;

    closed spec fn view(&self) -> StackView {
        StackView {
            items: stack_items_view(self.items@),
            queued_location: location_option_view(self.queued_location),
            recording_enabled: self.recording_enabled,
        }
    }
}

impl StackView {
    /// The empty stack: no frame, no queued location, recording on.
    pub open spec fn empty() -> StackView {
        StackView { items: Seq::empty(), queued_location: None, recording_enabled: true }
    }

    pub open spec fn queue_location(self, location: LocationView) -> StackView {
        StackView { queued_location: Some(location), ..self }
    }

    pub open spec fn disable_recording(self) -> StackView {
        StackView { recording_enabled: false, ..self }
    }

    /// Pushes `item`. Nothing happens while recording is off. A frame without a
    /// location takes the queued one, and the queue is cleared by every push.
    pub open spec fn add_item(self, item: StackItemView) -> StackView {
        if !self.recording_enabled {
            self
        } else {
            let location = match item.location {
                Some(location) => Some(location),
                None => self.queued_location,
            };
            StackView {
                items: self.items.push(StackItemView { label: item.label, location }),
                queued_location: None,
                recording_enabled: true,
            }
        }
    }

    pub open spec fn add(self, label: Seq<char>) -> StackView {
        self.add_item(StackItemView { label, location: None })
    }

    pub open spec fn add_location(self, label: Seq<char>, location: LocationView) -> StackView {
        self.add_item(StackItemView { label, location: Some(location) })
    }

    /// The frames from innermost to outermost, one per line, each line after `indent`.
    pub open spec fn trace(self, indent: Seq<char>) -> Seq<char> {
        trace_of(self.items, indent)
    }
}

/// The frames of `items` from last to first, each after `indent`, lines joined by `'\n'`.
pub open spec fn trace_of(items: Seq<StackItemView>, indent: Seq<char>) -> Seq<char>
    decreases items.len(),
{
    if items.len() == 0 {
        Seq::empty()
    } else if items.len() == 1 {
        indent + items[0].text()
    } else {
        indent + items.last().text() + seq!['\n'] + trace_of(items.drop_last(), indent)
    }
}

impl Clone for Stack {
    fn clone(&self) -> (r: Self)
        ensures
            r@ == self@,
    {
        let mut items: Vec<StackItem> = Vec::new();
        let mut i: usize = 0;
        while i < self.items.len()
            invariant
                i <= self.items.len(),
                items.len() == i,
                forall|j: int| 0 <= j < i ==> items[j]@ == self.items[j]@,
            decreases self.items.len() - i,
        {
            items.push(self.items[i].clone());
            i += 1;
        }
        let r = Stack {
            items,
            queued_location: clone_location_option(&self.queued_location),
            recording_enabled: self.recording_enabled,
        };
        assert(r@.items =~= self@.items);
        r
    }
}

impl Stack {
    /// The number of frames.
    pub fn len(&self) -> (r: usize)
        ensures
            r == self@.items.len(),
    {
        self.items.len()
    }

    /// An empty stack that records.
    pub fn new() -> (r: Self)
        ensures
            r@ == StackView::empty(),
    {
        let r = Stack { items: Vec::new(), queued_location: None, recording_enabled: true };
        assert(r@.items =~= Seq::empty());
        r
    }

    /// Queues `location` for the next frame that has none of its own.
    pub fn queue_location(&mut self, location: &Location)
        ensures
            final(self)@ == old(self)@.queue_location(location@),
    {
        self.queued_location = Some(location.clone());
    }

    /// Turns recording off: frames added from now on are dropped.
    pub fn disable_recording(&mut self)
        ensures
            final(self)@ == old(self)@.disable_recording(),
    {
        self.recording_enabled = false;
    }

    /// A stack with `item` pushed; `self` is left as it is.
    pub fn add_item(&self, item: StackItem) -> (r: Self)
        ensures
            r@ == self@.add_item(item@),
    {
        if !self.recording_enabled {
            return self.clone();
        }
        let location = match item.location {
            Some(location) => Some(location),
            None => clone_location_option(&self.queued_location),
        };
        let mut stack = self.clone();
        stack.items.push(StackItem { label: item.label, location });
        stack.queued_location = None;
        stack.recording_enabled = true;
        assert(stack@.items =~= self@.add_item(item@).items);
        stack
    }

    /// A stack with a frame labelled `label` pushed.
    pub fn add(&self, label: String) -> (r: Self)
        ensures
            r@ == self@.add(label@),
    {
        self.add_item(StackItem { label, location: None })
    }

    /// A stack with a frame labelled `label` at `location` pushed.
    pub fn add_location(&self, label: String, location: &Location) -> (r: Self)
        ensures
            r@ == self@.add_location(label@, location@),
    {
        self.add_item(StackItem { label, location: Some(location.clone()) })
    }

    pub fn recording_enabled(&self) -> (r: bool)
        ensures
            r == self@.recording_enabled,
    {
        self.recording_enabled
    }

    pub fn queued_location(&self) -> (r: &Option<Location>)
        ensures
            location_option_view(*r) == self@.queued_location,
    {
        &self.queued_location
    }

    /// The frames as text, innermost first, one per line, each line after `indent`.
    pub fn trace(&self, indent: &str) -> (r: String)
        ensures
            r@ == self@.trace(indent@),
    {
        proof {
            reveal_strlit("\n");
        }
        let mut r = String::new();
        let mut i: usize = 0;
        let n = self.items.len();
        while i < n
            invariant
                i <= n,
                n == self.items.len(),
                "\n"@ == seq!['\n'],
                r@ == trace_of(self@.items.subrange(0, i as int), indent@),
            decreases n - i,
        {
            let item_text = self.items[i].to_string();
            let mut line = String::from_str(indent);
            line.append(item_text.as_str());
            if i > 0 {
                line.append("\n");
                line.append(r.as_str());
            }
            proof {
                let next = self@.items.subrange(0, i as int + 1);
                assert(next.drop_last() =~= self@.items.subrange(0, i as int));
                assert(next.last() == self.items[i as int]@);
                assert(line@ =~= trace_of(next, indent@));
            }
            r = line;
            i += 1;
        }
        assert(self@.items.subrange(0, n as int) =~= self@.items);
        r
    }
}

impl Default for Stack {
    fn default() -> (r: Self)
        ensures
            r@ == StackView::empty(),
    {
        Stack::new()
    }
}

/// What the user sees when evaluation fails: a message and the stack at that moment.
pub struct Error {
    pub message: String,
    pub stack: Stack,
}

pub struct ErrorView {
    pub message: Seq<char>,
    pub stack: StackView,
}

impl View for Error {
    type V = ErrorView;

    open spec fn view(&self) -> ErrorView {
        ErrorView { message: self.message@, stack: self.stack@ }
    }
}

impl ErrorView {
    pub open spec fn new(message: Seq<char>, stack: StackView) -> ErrorView {
        ErrorView { message, stack }
    }

    /// The message, then the frames from innermost to outermost, indented by four spaces.
    pub open spec fn text(self) -> Seq<char> {
        self.message + seq!['\n'] + self.stack.trace(seq![' ', ' ', ' ', ' '])
    }
}

impl Clone for Error {
    fn clone(&self) -> (r: Self)
        ensures
            r@ == self@,
    {
        Error { message: self.message.clone(), stack: self.stack.clone() }
    }
}

impl Error {
    /// An error with `message` and a snapshot of `stack`.
    pub fn new(message: &str, stack: &Stack) -> (r: Self)
        ensures
            r@ == ErrorView::new(message@, stack@),
    {
        Error { message: String::from_str(message), stack: stack.clone() }
    }

    /// The error as the user reads it.
    pub fn to_string(&self) -> (r: String)
        ensures
            r@ == self@.text(),
    {
        proof {
            reveal_strlit("\n");
            reveal_strlit("    ");
        }
        let mut r = self.message.clone();
        r.append("\n");
        let trace = self.stack.trace("    ");
        r.append(trace.as_str());
        assert("    "@ =~= seq![' ', ' ', ' ', ' ']);
        assert(r@ =~= self@.text());
        r
    }
}

/// How an evaluation ends when it does not end in a value.
pub enum ReturnState {
    ReturnFromBlock,
    BreakOutOfLoop,
    Error(Error),
}

pub enum ReturnStateView {
    ReturnFromBlock,
    BreakOutOfLoop,
    Error(ErrorView),
}

impl View for ReturnState {
    type V = ReturnStateView;

    open spec fn view(&self) -> ReturnStateView {
        match self {
            ReturnState::ReturnFromBlock => ReturnStateView::ReturnFromBlock,
            ReturnState::BreakOutOfLoop => ReturnStateView::BreakOutOfLoop,
            ReturnState::Error(error) => ReturnStateView::Error(error@),
        }
    }
}

impl ReturnStateView {
    /// The error that a state becomes when it reaches the top level.
    pub open spec fn into_error(self, stack: StackView) -> ErrorView {
        match self {
            ReturnStateView::ReturnFromBlock => ErrorView::new("'return' outside block"@, stack),
            ReturnStateView::BreakOutOfLoop => ErrorView::new("'break' outside loop"@, stack),
            ReturnStateView::Error(error) => error,
        }
    }

    /// The state of an error with `message` raised under `stack`.
    pub open spec fn error(message: Seq<char>, stack: StackView) -> ReturnStateView {
        ReturnStateView::Error(ErrorView::new(message, stack))
    }
}

impl Clone for ReturnState {
    fn clone(&self) -> (r: Self)
        ensures
            r@ == self@,
    {
        match self {
            ReturnState::ReturnFromBlock => ReturnState::ReturnFromBlock,
            ReturnState::BreakOutOfLoop => ReturnState::BreakOutOfLoop,
            ReturnState::Error(error) => ReturnState::Error(error.clone()),
        }
    }
}

impl ReturnState {
    /// Call when a state has made it to the top level: a stray `return` or
    /// `break` becomes an error raised under `stack`, an error stays itself.
    pub fn into_error(self, stack: &Stack) -> (r: Error)
        ensures
            r@ == self@.into_error(stack@),
    {
        match self {
            ReturnState::ReturnFromBlock => Error::new("'return' outside block", stack),
            ReturnState::BreakOutOfLoop => Error::new("'break' outside loop", stack),
            ReturnState::Error(error) => error,
        }
    }

    /// The state of an error with `message` raised under `stack`.
    pub fn error(message: &str, stack: &Stack) -> (r: Self)
        ensures
            r@ == ReturnStateView::error(message@, stack@),
    {
        ReturnState::Error(Error::new(message, stack))
    }
}

} // verus!
