//! The context: the keys and values that placeholders draw on.

use vstd::prelude::*;
use vstd::string::StringExecFns;
use crate::error::ContextError;
use crate::outside::{
    context_entries, context_of_object, empty_context, json_object_entries, no_entries,
    parse_object,
};

verus! {

/// The path read where a context file is asked for without a path.
pub open spec fn default_context_path() -> Seq<char> {
    "./context.json"@
}

/// The file to read for a context-file argument: none where the argument is
/// absent, the default path where it is given without a value, else its
/// value.
pub open spec fn context_path_of(context_file: Option<Option<Seq<char>>>) -> Option<Seq<char>> {
    match context_file {
        None => None,
        Some(None) => Some(default_context_path()),
        Some(Some(path)) => Some(path),
    }
}

/// Decides which file holds the context, if any.
pub fn context_path(context_file: Option<Option<String>>) -> (path: Option<String>)
    ensures
        path.deep_view() == context_path_of(context_file.deep_view()),
{
    match context_file {
        None => None,
        Some(None) => Some(String::from_str("./context.json")),
        Some(Some(path)) => Some(path),
    }
}

/// Where a context comes from, once the caller has tried to read it.
#[derive(Debug, Clone)]
pub enum ContextSource {
    /// No context was asked for.
    NotRequested,
    /// A context file was asked for and could not be read.
    Unreadable,
    /// The bytes of the context file.
    Document(Vec<u8>),
}

/// The keys and values handed to the template engine. Its view maps each
/// key to its value in JSON notation.
#[derive(Debug)]
pub struct TemplateContext {
    data: tera::Context,
}

impl View for TemplateContext {
    type V = Map<Seq<char>, Seq<char>>;

    closed spec fn view(&self) -> Map<Seq<char>, Seq<char>> {
        context_entries(self.data)
    }
}

/// The entries of the context that `source` gives, or the reason why it
/// gives none.
pub open spec fn loaded(source: ContextSource) -> Result<Map<Seq<char>, Seq<char>>, ContextError> {
    match source {
        ContextSource::NotRequested => Ok(no_entries()),
        ContextSource::Unreadable => Err(ContextError::NotFound),
        ContextSource::Document(document) => match json_object_entries(document@) {
            Some(entries) => Ok(entries),
            None => Err(ContextError::Invalid),
        },
    }
}

impl TemplateContext {
    /// A context without entries.
    pub fn empty() -> (context: TemplateContext)
        ensures
            context@ == no_entries(),
    {
        TemplateContext { data: empty_context() }
    }

    /// The context that a JSON document describes. The document must be an
    /// object; its members become the entries.
    pub fn from_json(document: &[u8]) -> (r: Result<TemplateContext, ContextError>)
        ensures
            match r {
                Ok(context) => json_object_entries(document@) == Some(context@),
                Err(error) => error == ContextError::Invalid && json_object_entries(document@)
                    is None,
            },
    {
        match parse_object(document) {
            Ok(object) => match context_of_object(object) {
                Ok(data) => Ok(TemplateContext { data }),
                Err(_) => Err(ContextError::Invalid),
            },
            Err(_) => Err(ContextError::Invalid),
        }
    }

    /// The context as the engine takes it.
    pub fn data(&self) -> (data: &tera::Context)
        ensures
            context_entries(*data) == self@,
    {
        &self.data
    }
}

/// Builds the context for one run from what the caller found.
pub fn load_context(source: &ContextSource) -> (r: Result<TemplateContext, ContextError>)
    ensures
        match r {
            Ok(context) => loaded(*source) == Ok::<Map<Seq<char>, Seq<char>>, ContextError>(
                context@,
            ),
            Err(error) => loaded(*source) == Err::<Map<Seq<char>, Seq<char>>, ContextError>(error),
        },
{
    match source {
        ContextSource::NotRequested => Ok(TemplateContext::empty()),
        ContextSource::Unreadable => Err(ContextError::NotFound),
        ContextSource::Document(document) => TemplateContext::from_json(document.as_slice()),
    }
}

} // verus!
