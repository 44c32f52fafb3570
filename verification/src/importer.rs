//! The registry of imported modules.
//!
//! The registry owns the search directories and the modules that were
//! imported so far. A module that is in the registry stays there, as it
//! is, for as long as the registry lives; a failed import leaves nothing
//! behind.
//!
//! [`Importer::import`] opens an import, and each step says what the
//! caller is to look up next:
//!
//! * [`ImportStep::Probe`]: whether a path names an existing file. The
//!   answer goes to [`Importer::probed`].
//! * [`ImportStep::Read`]: what a file holds. The answer goes to
//!   [`Importer::loaded`], which has the contents parsed and hands the
//!   outcome to [`Importer::parsed`].
//!
//! The caller answers for a search directory by its place in the list. No
//! path comes back from the caller: the path of a module is always the one
//! that the registry made for the directory in which the file was found.
//! * [`ImportStep::Done`]: the module is in the registry.
//! * [`ImportStep::Failed`]: the import has failed, and why.

use crate::error::{ImportError, ImportErrorView};
use crate::locator::candidate_path;
use crate::module::{Module, ModuleView};
use crate::locator::candidate;
use crate::step::{contents_view, probe_from, read_from, ImportStep, ImportStepView};
use crate::syntax::{outcome_view, parse, parse_outcome, well_read};
use vstd::hash_map::StringHashMap;
use vstd::prelude::*;
use vstd::string::StringExecFns;

verus! {

/// The mathematical value of an [`Importer`].
pub struct ImporterView {
    /// The imported modules, by name.
    pub modules: Map<Seq<char>, ModuleView>,
    /// The search directories, in the order in which they are tried.
    pub search_paths: Seq<Seq<char>>,
}

impl ImporterView {
    /// What holds of every registry: the working directory is the first
    /// search directory, and each module is kept under its own name, with
    /// the path at which one of the search directories holds it and with
    /// the symbols of its own declarations.
    pub open spec fn wf(self) -> bool {
        &&& self.search_paths.len() > 0
        &&& self.search_paths[0] == "."@
        &&& forall|name: Seq<char>| #[trigger]
            self.modules.contains_key(name) ==> self.modules[name].is_import_of(
                self.search_paths,
                name,
            )
    }

    /// Whether every item in the syntax trees of the modules is
    /// well-formed. The registry reads each tree when it takes the module
    /// in, and that shows it.
    pub open spec fn well_read(self) -> bool {
        forall|name: Seq<char>| #[trigger]
            self.modules.contains_key(name) ==> well_read(self.modules[name].ast)
    }

    /// The registry with one more search directory, tried after all
    /// others.
    pub open spec fn with_search_path(self, path: Seq<char>) -> ImporterView {
        ImporterView { search_paths: self.search_paths.push(path), ..self }
    }

    /// The tokens of a symbol of an imported module.
    pub open spec fn symbol(self, module_name: Seq<char>, symbol_name: Seq<char>) -> Option<
        Seq<char>,
    > {
        match self.modules.get(module_name) {
            Some(module) => module.symbols.get(symbol_name),
            None => None,
        }
    }

    /// The first step of an import: nothing is to be looked up for a
    /// module that is in the registry; for any other the first search
    /// directory is probed.
    pub open spec fn begin(self, module_name: Seq<char>) -> ImportStepView {
        if self.modules.contains_key(module_name) {
            ImportStepView::Done
        } else {
            probe_from(self.search_paths, module_name, 0)
        }
    }

    /// The step after a probe of search directory `index`: a file that
    /// exists is read; after one that does not, the next search directory
    /// is probed.
    pub open spec fn after_probe(
        self,
        module_name: Seq<char>,
        index: nat,
        found: bool,
    ) -> ImportStepView {
        if found {
            read_from(self.search_paths, module_name, index)
        } else {
            probe_from(self.search_paths, module_name, index + 1)
        }
    }

    /// The registry and the step after a read from search directory
    /// `index`.
    ///
    /// A module that has come into the registry in the meantime stays as
    /// it is, and there is nothing to go on with where there is no such
    /// directory. Otherwise a failed read ends the import and leaves the
    /// registry as it was, and contents that were read are parsed.
    pub open spec fn after_read(
        self,
        module_name: Seq<char>,
        index: nat,
        contents: Result<Seq<char>, Seq<char>>,
    ) -> (ImporterView, ImportStepView) {
        if self.modules.contains_key(module_name) {
            (self, ImportStepView::Done)
        } else if index >= self.search_paths.len() {
            (self, ImportStepView::Failed(ImportErrorView::ModuleNotFound { name: module_name }))
        } else {
            match contents {
                Err(cause) => (
                    self,
                    ImportStepView::Failed(
                        ImportErrorView::ModuleReadError { name: module_name, cause },
                    ),
                ),
                Ok(source) => self.after_parse(module_name, index, parse_outcome(source)),
            }
        }
    }

    /// The registry and the step after parsing what was read from search
    /// directory `index`.
    ///
    /// A module that has come into the registry in the meantime stays as
    /// it is, and there is nothing to go on with where there is no such
    /// directory. Otherwise a syntax error ends the import and leaves the
    /// registry as it was, and a syntax tree is indexed and enters the
    /// registry under the module's name, with the path at which that
    /// directory holds the module.
    pub open spec fn after_parse(
        self,
        module_name: Seq<char>,
        index: nat,
        outcome: Result<syn::File, Seq<char>>,
    ) -> (ImporterView, ImportStepView) {
        if self.modules.contains_key(module_name) {
            (self, ImportStepView::Done)
        } else if index >= self.search_paths.len() {
            (self, ImportStepView::Failed(ImportErrorView::ModuleNotFound { name: module_name }))
        } else {
            match outcome {
                Err(cause) => (
                    self,
                    ImportStepView::Failed(
                        ImportErrorView::ModuleParseError { name: module_name, cause },
                    ),
                ),
                Ok(ast) => (
                    ImporterView {
                        modules: self.modules.insert(
                            module_name,
                            ModuleView::from_ast(
                                module_name,
                                candidate(self.search_paths, module_name, index as int),
                                ast,
                            ),
                        ),
                        ..self
                    },
                    ImportStepView::Done,
                ),
            }
        }
    }
}

/// The registry: the search directories and the modules imported so far.
pub struct Importer {
    modules: StringHashMap<Module>,
    search_paths: Vec<String>,
}

impl View for Importer {
    type V = ImporterView;

    closed spec fn view(&self) -> ImporterView {
        ImporterView {
            modules: self.modules@.map_values(|module: Module| module@),
            search_paths: self.search_paths.deep_view(),
        }
    }
}

impl Importer {
    /// A registry without modules that searches the working directory.
    pub fn new() -> (importer: Importer)
        ensures
            importer@.modules == Map::<Seq<char>, ModuleView>::empty(),
            importer@.search_paths == seq!["."@],
            importer@.wf(),
            importer@.well_read(),
    {
        let mut search_paths: Vec<String> = Vec::new();
        search_paths.push(String::from_str("."));
        let importer = Importer { modules: StringHashMap::new(), search_paths };
        assert(importer@.modules =~= Map::<Seq<char>, ModuleView>::empty());
        assert(importer@.search_paths =~= seq!["."@]);
        importer
    }

    /// Adds a search directory. It is tried after all those added before.
    pub fn add_search_path(&mut self, path: String)
        ensures
            final(self)@ == old(self)@.with_search_path(path@),
            old(self)@.wf() ==> final(self)@.wf(),
            old(self)@.well_read() ==> final(self)@.well_read(),
    {
        self.search_paths.push(path);
        assert(self@.search_paths =~= old(self)@.search_paths.push(path@));
        proof {
            if old(self)@.wf() {
                crate::laws::lemma_search_path_keeps_wf(old(self)@, path@);
            }
        }
    }

    /// Gives a module up as not found.
    fn not_found(module_name: &str) -> (step: ImportStep)
        ensures
            step@ == ImportStepView::Failed(
                ImportErrorView::ModuleNotFound { name: module_name@ },
            ),
    {
        ImportStep::Failed(ImportError::ModuleNotFound { name: String::from_str(module_name) })
    }

    /// Has search directory `index` probed, or gives the module up.
    fn probe(&self, module_name: &str, index: usize) -> (step: ImportStep)
        ensures
            step@ == probe_from(self@.search_paths, module_name@, index as nat),
    {
        match candidate_path(&self.search_paths, module_name, index) {
            Some(path) => ImportStep::Probe { index, path },
            None => Importer::not_found(module_name),
        }
    }

    /// Opens the import of a module.
    pub fn import(&self, module_name: &str) -> (step: ImportStep)
        ensures
            step@ == self@.begin(module_name@),
    {
        if self.modules.contains_key(module_name) {
            ImportStep::Done
        } else {
            self.probe(module_name, 0)
        }
    }

    /// Goes on after a probe: `found` says whether the path at which
    /// search directory `index` would hold the module names an existing
    /// file.
    pub fn probed(&self, module_name: &str, index: usize, found: bool) -> (step: ImportStep)
        ensures
            step@ == self@.after_probe(module_name@, index as nat, found),
    {
        if found {
            match candidate_path(&self.search_paths, module_name, index) {
                Some(path) => ImportStep::Read { index, path },
                None => Importer::not_found(module_name),
            }
        } else if index < usize::MAX {
            self.probe(module_name, index + 1)
        } else {
            assert(self@.search_paths.len() == self.search_paths.len());
            Importer::not_found(module_name)
        }
    }

    /// Goes on after a read: `contents` is what the file holds that search
    /// directory `index` has for the module, or why it could not be read.
    pub fn loaded(
        &mut self,
        module_name: &str,
        index: usize,
        contents: Result<String, String>,
    ) -> (step: ImportStep)
        ensures
            (final(self)@, step@) == old(self)@.after_read(
                module_name@,
                index as nat,
                contents_view(contents),
            ),
            old(self)@.wf() ==> final(self)@.wf(),
            old(self)@.well_read() ==> final(self)@.well_read(),
    {
        if self.modules.contains_key(module_name) {
            return ImportStep::Done;
        }
        if index >= self.search_paths.len() {
            return Importer::not_found(module_name);
        }
        match contents {
            Ok(source) => self.parsed(module_name, index, parse(source.as_str())),
            Err(cause) => ImportStep::Failed(
                ImportError::ModuleReadError { name: String::from_str(module_name), cause },
            ),
        }
    }

    /// Goes on after parsing: `outcome` is the syntax tree of the file
    /// that search directory `index` has for the module, or the message
    /// of the syntax error.
    pub fn parsed(
        &mut self,
        module_name: &str,
        index: usize,
        outcome: Result<syn::File, String>,
    ) -> (step: ImportStep)
        ensures
            (final(self)@, step@) == old(self)@.after_parse(
                module_name@,
                index as nat,
                outcome_view(outcome),
            ),
            old(self)@.wf() ==> final(self)@.wf(),
            old(self)@.well_read() ==> final(self)@.well_read(),
    {
        if self.modules.contains_key(module_name) {
            return ImportStep::Done;
        }
        let path = match candidate_path(&self.search_paths, module_name, index) {
            Some(path) => path,
            None => {
                return Importer::not_found(module_name);
            },
        };
        match outcome {
            Ok(ast) => {
                let module = Module::new(String::from_str(module_name), path, ast);
                self.modules.insert(String::from_str(module_name), module);
                assert(self@.modules =~= old(self)@.modules.insert(module_name@, module@));
                ImportStep::Done
            },
            Err(cause) => ImportStep::Failed(
                ImportError::ModuleParseError { name: String::from_str(module_name), cause },
            ),
        }
    }

    /// The module of the given name, if it has been imported. Nothing is
    /// looked up for it: a module that was never imported is absent,
    /// whatever the file system holds.
    ///
    /// In a well-formed registry the module goes by the name it was asked
    /// for, and its path is the path at which one of the search directories
    /// holds it.
    pub fn get_module(&self, module_name: &str) -> (module: Option<&Module>)
        ensures
            module.deep_view() == self@.modules.get(module_name@),
            self@.wf() && module is Some ==> module.unwrap()@.is_import_of(
                self@.search_paths,
                module_name@,
            ),
    {
        self.modules.get(module_name)
    }

    /// The tokens of a symbol of an imported module. There are none where
    /// the module has not been imported, and none where it has no such
    /// symbol.
    pub fn get_symbol(&self, module_name: &str, symbol_name: &str) -> (tokens: Option<&String>)
        ensures
            tokens.deep_view() == self@.symbol(module_name@, symbol_name@),
    {
        match self.modules.get(module_name) {
            Some(module) => module.symbols.get(symbol_name),
            None => None,
        }
    }
}

} // verus!
