//! The roots against which the names of modules are resolved: the project
//! root and the current file, each a slot of the environment that is looked
//! up through the chain of scopes.

use vstd::prelude::*;
use vstd::string::*;
use crate::diagnostics::{ReturnState, ReturnStateView, Stack, StackView, text_option_view};
use crate::lookup::text_result_view;
use crate::model::EnvironmentView;
use crate::value::Environment;

verus! {

/// Whether `name` is relative to the current file: whether it begins with `./` or `../`.
pub open spec fn is_relative(name: Seq<char>) -> bool {
    ||| name.len() >= 2 && name[0] == '.' && name[1] == '/'
    ||| name.len() >= 3 && name[0] == '.' && name[1] == '.' && name[2] == '/'
}

/// The project root in force in `env`.
pub open spec fn project_root(env: EnvironmentView, stack: StackView) -> Result<
    Seq<char>,
    ReturnStateView,
> {
    match env.find_project_root() {
        Some(path) => Ok(path),
        None => Err(ReturnStateView::error("Project root is not set"@, stack)),
    }
}

/// The current file in force in `env`.
pub open spec fn current_file(env: EnvironmentView, stack: StackView) -> Result<
    Seq<char>,
    ReturnStateView,
> {
    match env.find_current_file() {
        Some(path) => Ok(path),
        None => Err(ReturnStateView::error("Current file is not set"@, stack)),
    }
}

/// The path against which the module `name` is resolved: the current file
/// for a relative name, the project root for any other.
pub open spec fn resolution_base(name: Seq<char>, env: EnvironmentView, stack: StackView) -> Result<
    Seq<char>,
    ReturnStateView,
> {
    if is_relative(name) {
        current_file(env, stack)
    } else {
        project_root(env, stack)
    }
}

fn find_project_root(env: &Environment) -> (r: Option<String>)
    ensures
        text_option_view(r) == env@.find_project_root(),
    decreases env,
{
    match &env.project_root {
        Some(path) => Some(path.clone()),
        None => match &env.parent {
            Some(parent) => find_project_root(parent),
            None => None,
        },
    }
}

fn find_current_file(env: &Environment) -> (r: Option<String>)
    ensures
        text_option_view(r) == env@.find_current_file(),
    decreases env,
{
    match &env.current_file {
        Some(path) => Some(path.clone()),
        None => match &env.parent {
            Some(parent) => find_current_file(parent),
            None => None,
        },
    }
}

/// The project root of the nearest scope that has one.
pub fn get_project_root(env: &Environment, stack: &Stack) -> (r: Result<String, ReturnState>)
    ensures
        text_result_view(r) == project_root(env@, stack@),
{
    match find_project_root(env) {
        Some(path) => Ok(path),
        None => Err(ReturnState::error("Project root is not set", stack)),
    }
}

/// Sets or clears the project root of `env` itself.
pub fn set_project_root(env: &mut Environment, path: Option<String>)
    ensures
        final(env)@ == old(env)@.set_project_root(text_option_view(path)),
{
    env.project_root = path;
}

/// The current file of the nearest scope that has one.
pub fn get_current_file(env: &Environment, stack: &Stack) -> (r: Result<String, ReturnState>)
    ensures
        text_result_view(r) == current_file(env@, stack@),
{
    match find_current_file(env) {
        Some(path) => Ok(path),
        None => Err(ReturnState::error("Current file is not set", stack)),
    }
}

/// Sets or clears the current file of `env` itself.
pub fn set_current_file(env: &mut Environment, path: Option<String>)
    ensures
        final(env)@ == old(env)@.set_current_file(text_option_view(path)),
{
    env.current_file = path;
}

fn relative(name: &str) -> (r: bool)
    ensures
        r == is_relative(name@),
{
    let length: usize = name.unicode_len();
    if length >= 2 && name.get_char(0) == '.' && name.get_char(1) == '/' {
        return true;
    }
    length >= 3 && name.get_char(0) == '.' && name.get_char(1) == '.' && name.get_char(2) == '/'
}

/// The path against which the module `module_name` is resolved. Joining the
/// name to it and asking the file system for the canonical path is left to
/// the caller.
pub fn resolve(module_name: &str, env: &Environment, stack: &Stack) -> (r: Result<
    String,
    ReturnState,
>)
    ensures
        text_result_view(r) == resolution_base(module_name@, env@, stack@),
{
    if relative(module_name) {
        get_current_file(env, stack)
    } else {
        get_project_root(env, stack)
    }
}

} // verus!
