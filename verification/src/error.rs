//! The ways in which an import can fail.

use vstd::prelude::*;
use vstd::string::StringExecFns;

verus! {

/// Why a module could not be imported.
#[derive(Debug, PartialEq, Eq)]
pub enum ImportError {
    /// No search directory holds a file for the module.
    ModuleNotFound { name: String },
    /// The file was found but its contents could not be read.
    ModuleReadError { name: String, cause: String },
    /// The file was read but is not valid source text.
    ModuleParseError { name: String, cause: String },
}

/// The mathematical value of an [`ImportError`].
pub enum ImportErrorView {
    ModuleNotFound { name: Seq<char> },
    ModuleReadError { name: Seq<char>, cause: Seq<char> },
    ModuleParseError { name: Seq<char>, cause: Seq<char> },
}

impl View for ImportError {
    type V = ImportErrorView;

    open spec fn view(&self) -> ImportErrorView {
        match self {
            ImportError::ModuleNotFound { name } => ImportErrorView::ModuleNotFound { name: name@ },
            ImportError::ModuleReadError { name, cause } => ImportErrorView::ModuleReadError {
                name: name@,
                cause: cause@,
            },
            ImportError::ModuleParseError { name, cause } => ImportErrorView::ModuleParseError {
                name: name@,
                cause: cause@,
            },
        }
    }
}

impl Clone for ImportError {
    fn clone(&self) -> (copy: ImportError)
        ensures
            copy@ == self@,
    {
        match self {
            ImportError::ModuleNotFound { name } => ImportError::ModuleNotFound {
                name: name.clone(),
            },
            ImportError::ModuleReadError { name, cause } => ImportError::ModuleReadError {
                name: name.clone(),
                cause: cause.clone(),
            },
            ImportError::ModuleParseError { name, cause } => ImportError::ModuleParseError {
                name: name.clone(),
                cause: cause.clone(),
            },
        }
    }
}

impl ImportErrorView {
    /// The name of the module whose import failed.
    pub open spec fn name(self) -> Seq<char> {
        match self {
            ImportErrorView::ModuleNotFound { name } => name,
            ImportErrorView::ModuleReadError { name, .. } => name,
            ImportErrorView::ModuleParseError { name, .. } => name,
        }
    }

    /// The text that describes the failure to a person.
    pub open spec fn message(self) -> Seq<char> {
        match self {
            ImportErrorView::ModuleNotFound { name } => "Module '"@ + name + "' not found"@,
            ImportErrorView::ModuleReadError { name, cause } => "Failed to read module '"@ + name
                + "': "@ + cause,
            ImportErrorView::ModuleParseError { name, cause } => "Failed to parse module '"@ + name
                + "': "@ + cause,
        }
    }
}

impl ImportError {
    /// The name of the module whose import failed.
    pub fn name(&self) -> (name: &String)
        ensures
            name@ == self@.name(),
    {
        match self {
            ImportError::ModuleNotFound { name } => name,
            ImportError::ModuleReadError { name, .. } => name,
            ImportError::ModuleParseError { name, .. } => name,
        }
    }

    /// Describes the failure in one line.
    pub fn message(&self) -> (text: String)
        ensures
            text@ == self@.message(),
    {
        match self {
            ImportError::ModuleNotFound { name } => {
                String::from_str("Module '").concat(name.as_str()).concat("' not found")
            },
            ImportError::ModuleReadError { name, cause } => {
                String::from_str("Failed to read module '").concat(name.as_str()).concat(
                    "': ",
                ).concat(cause.as_str())
            },
            ImportError::ModuleParseError { name, cause } => {
                String::from_str("Failed to parse module '").concat(name.as_str()).concat(
                    "': ",
                ).concat(cause.as_str())
            },
        }
    }
}

} // verus!
