//! The steps of an import.
//!
//! The registry never touches the file system. An import is a dialogue
//! with the caller, who owns it: each step says what the caller is to look
//! up next, and the caller hands the answer back. The paths are made by
//! the registry: an answer names the search directory by its place, never
//! by a path.

use crate::error::{ImportError, ImportErrorView};
use crate::locator::candidate;
use vstd::prelude::*;

verus! {

/// What an import asks of the caller next, or how it ended.
#[derive(Debug, PartialEq, Eq)]
pub enum ImportStep {
    /// The module is in the registry.
    Done,
    /// The caller is to say whether `path` names an existing file. `index`
    /// is the place of the search directory that `path` lies in.
    Probe { index: usize, path: String },
    /// The caller is to hand over the contents of the file at `path`, which
    /// lies in search directory `index`.
    Read { index: usize, path: String },
    /// The import has failed.
    Failed(ImportError),
}

/// The mathematical value of an [`ImportStep`].
pub enum ImportStepView {
    Done,
    Probe { index: nat, path: Seq<char> },
    Read { index: nat, path: Seq<char> },
    Failed(ImportErrorView),
}

impl View for ImportStep {
    type V = ImportStepView;

    open spec fn view(&self) -> ImportStepView {
        match self {
            ImportStep::Done => ImportStepView::Done,
            ImportStep::Probe { index, path } => ImportStepView::Probe {
                index: *index as nat,
                path: path@,
            },
            ImportStep::Read { index, path } => ImportStepView::Read {
                index: *index as nat,
                path: path@,
            },
            ImportStep::Failed(error) => ImportStepView::Failed(error@),
        }
    }
}

/// The value of what a read gives: the contents of the file, or why it
/// could not be read.
pub open spec fn contents_view(contents: Result<String, String>) -> Result<Seq<char>, Seq<char>> {
    match contents {
        Ok(source) => Ok(source@),
        Err(cause) => Err(cause@),
    }
}

/// The step that has search directory `index` probed for a module, or
/// gives the module up as not found when the directories are used up.
pub open spec fn probe_from(
    search_paths: Seq<Seq<char>>,
    module_name: Seq<char>,
    index: nat,
) -> ImportStepView {
    if index < search_paths.len() {
        ImportStepView::Probe {
            index,
            path: candidate(search_paths, module_name, index as int),
        }
    } else {
        ImportStepView::Failed(ImportErrorView::ModuleNotFound { name: module_name })
    }
}

/// The step that has the module read from search directory `index`, or
/// gives the module up as not found where there is no such directory.
pub open spec fn read_from(
    search_paths: Seq<Seq<char>>,
    module_name: Seq<char>,
    index: nat,
) -> ImportStepView {
    if index < search_paths.len() {
        ImportStepView::Read { index, path: candidate(search_paths, module_name, index as int) }
    } else {
        ImportStepView::Failed(ImportErrorView::ModuleNotFound { name: module_name })
    }
}

} // verus!
