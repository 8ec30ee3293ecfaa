//! The ways in which materialising or capturing a template fails.

use vstd::prelude::*;
use vstd::string::StringExecFns;

verus! {

/// A context document that cannot be used.
#[derive(Debug, Clone, Copy, PartialEq, Eq, Structural)]
pub enum ContextError {
    /// The context file could not be read.
    NotFound,
    /// The document is no JSON object.
    Invalid,
}

/// A template that cannot be rendered.
#[derive(Debug, Clone)]
pub enum TemplateError {
    /// The template directory could not be listed.
    NotFound,
    /// The engine refused a template. `file` names the template that failed
    /// to render, and is `None` where the engine refused the set of
    /// templates before rendering any; `reason` is the engine's own account.
    RenderFailed { file: Option<String>, reason: String },
}

/// A `TemplateError` as the contracts see it.
pub enum TemplateErrorModel {
    NotFound,
    RenderFailed { file: Option<Seq<char>>, reason: Seq<char> },
}

impl DeepView for TemplateError {
    type V = TemplateErrorModel;

    open spec fn deep_view(&self) -> TemplateErrorModel {
        match self {
            TemplateError::NotFound => TemplateErrorModel::NotFound,
            TemplateError::RenderFailed { file, reason } => TemplateErrorModel::RenderFailed {
                file: file.deep_view(),
                reason: reason@,
            },
        }
    }
}

/// A step of a plan that the file system refused.
#[derive(Debug, Clone)]
pub enum IOError {
    /// The directory `path` could not be created.
    CreateFailed { path: String },
    /// The file `source` could not be copied.
    CopyFailed { source: String },
    /// The file `path` could not be written.
    WriteFailed { path: String },
}

/// An `IOError` as the contracts see it.
pub enum IOErrorModel {
    CreateFailed { path: Seq<char> },
    CopyFailed { source: Seq<char> },
    WriteFailed { path: Seq<char> },
}

impl DeepView for IOError {
    type V = IOErrorModel;

    open spec fn deep_view(&self) -> IOErrorModel {
        match self {
            IOError::CreateFailed { path } => IOErrorModel::CreateFailed { path: path@ },
            IOError::CopyFailed { source } => IOErrorModel::CopyFailed { source: source@ },
            IOError::WriteFailed { path } => IOErrorModel::WriteFailed { path: path@ },
        }
    }
}

/// The text shown for a `ContextError`.
pub open spec fn context_error_text(error: ContextError) -> Seq<char> {
    match error {
        ContextError::NotFound => "context file not found"@,
        ContextError::Invalid => "context file is not a JSON object"@,
    }
}

/// The text shown for a `TemplateError`: it names the template that failed
/// and gives the engine's reason.
pub open spec fn template_error_text(error: TemplateErrorModel) -> Seq<char> {
    match error {
        TemplateErrorModel::NotFound => "template directory not found"@,
        TemplateErrorModel::RenderFailed { file: Some(name), reason } => "failed to render "@
            + name + ": "@ + reason,
        TemplateErrorModel::RenderFailed { file: None, reason } => "failed to load templates: "@
            + reason,
    }
}

/// The text shown for an `IOError`: it names the path that failed.
pub open spec fn io_error_text(error: IOErrorModel) -> Seq<char> {
    match error {
        IOErrorModel::CreateFailed { path } => "failed to create directory "@ + path,
        IOErrorModel::CopyFailed { source } => "failed to copy "@ + source,
        IOErrorModel::WriteFailed { path } => "failed to write "@ + path,
    }
}

impl ContextError {
    /// A message for the user.
    pub fn message(&self) -> (text: String)
        ensures
            text@ == context_error_text(*self),
    {
        match self {
            ContextError::NotFound => String::from_str("context file not found"),
            ContextError::Invalid => String::from_str("context file is not a JSON object"),
        }
    }
}

impl TemplateError {
    /// A message for the user.
    pub fn message(&self) -> (text: String)
        ensures
            text@ == template_error_text(self.deep_view()),
    {
        match self {
            TemplateError::NotFound => String::from_str("template directory not found"),
            TemplateError::RenderFailed { file: Some(name), reason } => {
                let mut text = String::from_str("failed to render ");
                text.append(name.as_str());
                text.append(": ");
                text.append(reason.as_str());
                text
            },
            TemplateError::RenderFailed { file: None, reason } => {
                let mut text = String::from_str("failed to load templates: ");
                text.append(reason.as_str());
                text
            },
        }
    }
}

impl IOError {
    /// A message for the user.
    pub fn message(&self) -> (text: String)
        ensures
            text@ == io_error_text(self.deep_view()),
    {
        match self {
            IOError::CreateFailed { path } => {
                let mut text = String::from_str("failed to create directory ");
                text.append(path.as_str());
                text
            },
            IOError::CopyFailed { source } => {
                let mut text = String::from_str("failed to copy ");
                text.append(source.as_str());
                text
            },
            IOError::WriteFailed { path } => {
                let mut text = String::from_str("failed to write ");
                text.append(path.as_str());
                text
            },
        }
    }
}

} // verus!
