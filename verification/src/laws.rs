//! What holds of whole imports.
//!
//! An import is run here against a file system given as a mathematical
//! value: every probe and every read is answered from it. The statements
//! below are about such runs, and so about every caller that answers the
//! steps faithfully.

use crate::error::ImportErrorView;
use crate::importer::ImporterView;
use crate::locator::{candidate, is_candidate, is_first_hit, is_nowhere};
use crate::module::ModuleView;
use crate::step::{probe_from, ImportStepView};
use crate::symbols::{declares, lemma_last_declaration_wins, lemma_symbol_table_domain};
use crate::syntax::{file_items, lemma_named_item_is_indexed, parse_outcome};
use vstd::prelude::*;

verus! {

/// A file system, as far as an import looks at it.
pub struct Files {
    /// The paths that name an existing file.
    pub present: Set<Seq<char>>,
    /// What reading each path gives: the contents, or why it failed.
    pub contents: spec_fn(Seq<char>) -> Result<Seq<char>, Seq<char>>,
}

impl ImporterView {
    /// How many probes a step can still be followed by.
    pub open spec fn probes_left(self, step: ImportStepView) -> nat {
        match step {
            ImportStepView::Probe { index, .. } => if index < self.search_paths.len() {
                (self.search_paths.len() - index + 1) as nat
            } else {
                1
            },
            _ => 0,
        }
    }

    /// The step at which probing ends when every probe is answered from
    /// `present`, the paths that exist.
    pub open spec fn locate(
        self,
        module_name: Seq<char>,
        present: Set<Seq<char>>,
        step: ImportStepView,
    ) -> ImportStepView
        decreases self.probes_left(step),
    {
        match step {
            ImportStepView::Probe { index, path } => self.locate(
                module_name,
                present,
                self.after_probe(module_name, index, present.contains(path)),
            ),
            _ => step,
        }
    }

    /// The registry and the last step of a whole import that is run
    /// against a file system.
    pub open spec fn run(self, module_name: Seq<char>, files: Files) -> (
        ImporterView,
        ImportStepView,
    ) {
        match self.locate(module_name, files.present, self.begin(module_name)) {
            ImportStepView::Read { index, path } => self.after_read(
                module_name,
                index,
                (files.contents)(path),
            ),
            last => (self, last),
        }
    }
}

/// Probing that has reached search directory `from` without a hit ends at
/// the first directory that holds the module.
proof fn lemma_locate_reaches_first_hit(
    importer: ImporterView,
    module_name: Seq<char>,
    present: Set<Seq<char>>,
    from: nat,
    hit: int,
)
    requires
        is_first_hit(importer.search_paths, module_name, present, hit),
        from <= hit,
    ensures
        importer.locate(
            module_name,
            present,
            probe_from(importer.search_paths, module_name, from),
        ) == (ImportStepView::Read {
            index: hit as nat,
            path: candidate(importer.search_paths, module_name, hit),
        }),
    decreases hit - from,
{
    let path = candidate(importer.search_paths, module_name, from as int);
    if from < hit {
        assert(!present.contains(path));
        lemma_locate_reaches_first_hit(importer, module_name, present, from + 1, hit);
    } else {
        let read = importer.after_probe(module_name, from, true);
        assert(importer.locate(module_name, present, read) == read);
    }
}

/// Probing that has reached search directory `from` ends without a hit
/// where no directory holds the module.
proof fn lemma_locate_finds_nothing(
    importer: ImporterView,
    module_name: Seq<char>,
    present: Set<Seq<char>>,
    from: nat,
)
    requires
        is_nowhere(importer.search_paths, module_name, present),
    ensures
        importer.locate(
            module_name,
            present,
            probe_from(importer.search_paths, module_name, from),
        ) == ImportStepView::Failed(ImportErrorView::ModuleNotFound { name: module_name }),
    decreases importer.search_paths.len() - from,
{
    if from < importer.search_paths.len() {
        let path = candidate(importer.search_paths, module_name, from as int);
        assert(!present.contains(path));
        lemma_locate_finds_nothing(importer, module_name, present, from + 1);
    }
}

/// Probing ends in a read, in a failure, or with the module at hand: it
/// never ends asking for another probe.
proof fn lemma_locate_ends(
    importer: ImporterView,
    module_name: Seq<char>,
    present: Set<Seq<char>>,
    step: ImportStepView,
)
    ensures
        !(importer.locate(module_name, present, step) is Probe),
        step is Done || step is Failed ==> importer.locate(module_name, present, step) == step,
        importer.locate(module_name, present, step) is Done ==> step is Done,
    decreases importer.probes_left(step),
{
    if let ImportStepView::Probe { index, path } = step {
        lemma_locate_ends(
            importer,
            module_name,
            present,
            importer.after_probe(module_name, index, present.contains(path)),
        );
    }
}

/// A module that is in a well-formed registry goes by the name under
/// which it is kept, and its path is the path at which one of the search
/// directories would hold it: that directory joined with the name of the
/// module's file.
pub proof fn lemma_cached_module_is_located(importer: ImporterView, module_name: Seq<char>)
    requires
        importer.wf(),
        importer.modules.contains_key(module_name),
    ensures
        importer.modules[module_name].name == module_name,
        is_candidate(importer.search_paths, module_name, importer.modules[module_name].path),
{
}

/// A registry stays well-formed when a search directory is added.
pub proof fn lemma_search_path_keeps_wf(importer: ImporterView, path: Seq<char>)
    requires
        importer.wf(),
    ensures
        importer.with_search_path(path).wf(),
{
    let after = importer.with_search_path(path);
    assert forall|name: Seq<char>| #[trigger]
        after.modules.contains_key(name) implies after.modules[name].is_import_of(
        after.search_paths,
        name,
    ) by {
        let module = importer.modules[name];
        let i = choose|i: int|
            0 <= i < importer.search_paths.len() && module.path == #[trigger] candidate(
                importer.search_paths,
                name,
                i,
            );
        assert(after.search_paths[i] == importer.search_paths[i]);
        assert(module.path == candidate(after.search_paths, name, i));
    }
}

/// A registry stays well-formed over every import, however it ends.
pub proof fn lemma_import_keeps_wf(importer: ImporterView, module_name: Seq<char>, files: Files)
    requires
        importer.wf(),
    ensures
        importer.run(module_name, files).0.wf(),
{
}

/// An import only adds to the registry: every module that was in it is
/// still there, unchanged, and the search directories are as they were.
pub proof fn lemma_import_keeps_modules(
    importer: ImporterView,
    module_name: Seq<char>,
    files: Files,
    other: Seq<char>,
)
    requires
        importer.modules.contains_key(other),
    ensures
        importer.run(module_name, files).0.modules.contains_key(other),
        importer.run(module_name, files).0.modules[other] == importer.modules[other],
        importer.run(module_name, files).0.search_paths == importer.search_paths,
{
}

/// An import is all or nothing: it ends with the module in the registry,
/// or in a failure that leaves the registry exactly as it was.
pub proof fn lemma_import_is_all_or_nothing(
    importer: ImporterView,
    module_name: Seq<char>,
    files: Files,
)
    ensures
        ({
            let (after, last) = importer.run(module_name, files);
            &&& last is Done || last is Failed
            &&& last is Done ==> after.modules.contains_key(module_name)
            &&& last is Failed ==> after == importer
        }),
{
    lemma_locate_ends(importer, module_name, files.present, importer.begin(module_name));
}

/// Importing is idempotent. Once an import has put a module into the
/// registry, a later import of the same name is done at its first step,
/// before anything is looked up: whatever the file system holds by then,
/// the registry and the module stay the same.
pub proof fn lemma_import_is_idempotent(
    importer: ImporterView,
    module_name: Seq<char>,
    files: Files,
    later_files: Files,
)
    requires
        importer.run(module_name, files).1 is Done,
    ensures
        ({
            let after = importer.run(module_name, files).0;
            &&& after.begin(module_name) is Done
            &&& after.run(module_name, later_files) == (after, ImportStepView::Done)
        }),
{
    lemma_import_is_all_or_nothing(importer, module_name, files);
    let after = importer.run(module_name, files).0;
    assert(after.locate(module_name, later_files.present, ImportStepView::Done)
        == ImportStepView::Done);
}

/// The search directories are tried in order: where several hold the
/// module, the file in the earliest of them is the one that is read.
pub proof fn lemma_first_search_path_wins(
    importer: ImporterView,
    module_name: Seq<char>,
    present: Set<Seq<char>>,
    hit: int,
)
    requires
        !importer.modules.contains_key(module_name),
        is_first_hit(importer.search_paths, module_name, present, hit),
    ensures
        importer.locate(module_name, present, importer.begin(module_name))
            == (ImportStepView::Read {
            index: hit as nat,
            path: candidate(importer.search_paths, module_name, hit),
        }),
{
    lemma_locate_reaches_first_hit(importer, module_name, present, 0, hit);
}

/// A search directory that is added later never takes precedence: the
/// first directory that holds a module is still the first.
pub proof fn lemma_added_search_path_comes_last(
    importer: ImporterView,
    module_name: Seq<char>,
    present: Set<Seq<char>>,
    hit: int,
    path: Seq<char>,
)
    requires
        is_first_hit(importer.search_paths, module_name, present, hit),
    ensures
        is_first_hit(importer.with_search_path(path).search_paths, module_name, present, hit),
        candidate(importer.with_search_path(path).search_paths, module_name, hit) == candidate(
            importer.search_paths,
            module_name,
            hit,
        ),
{
    let before = importer.search_paths;
    let after = importer.with_search_path(path).search_paths;
    assert forall|j: int| 0 <= j <= hit implies candidate(after, module_name, j) == candidate(
        before,
        module_name,
        j,
    ) by {
        assert(after[j] == before[j]);
    }
}

/// A module that no search directory holds is not found, and the import
/// leaves the registry as it was.
pub proof fn lemma_missing_module_is_not_found(
    importer: ImporterView,
    module_name: Seq<char>,
    files: Files,
)
    requires
        !importer.modules.contains_key(module_name),
        is_nowhere(importer.search_paths, module_name, files.present),
    ensures
        importer.run(module_name, files) == (
            importer,
            ImportStepView::Failed(ImportErrorView::ModuleNotFound { name: module_name }),
        ),
{
    lemma_locate_finds_nothing(importer, module_name, files.present, 0);
}

/// A module whose file is found, read and parsed enters the registry with
/// the path of the first search directory that holds it and the symbols of
/// its own declarations.
pub proof fn lemma_import_adds_the_first_hit(
    importer: ImporterView,
    module_name: Seq<char>,
    files: Files,
    hit: int,
    source: Seq<char>,
    ast: syn::File,
)
    requires
        !importer.modules.contains_key(module_name),
        is_first_hit(importer.search_paths, module_name, files.present, hit),
        (files.contents)(candidate(importer.search_paths, module_name, hit)) == Ok::<
            Seq<char>,
            Seq<char>,
        >(source),
        parse_outcome(source) == Ok::<syn::File, Seq<char>>(ast),
    ensures
        importer.run(module_name, files) == (
            ImporterView {
                modules: importer.modules.insert(
                    module_name,
                    ModuleView::from_ast(
                        module_name,
                        candidate(importer.search_paths, module_name, hit),
                        ast,
                    ),
                ),
                ..importer
            },
            ImportStepView::Done,
        ),
{
    lemma_first_search_path_wins(importer, module_name, files.present, hit);
}

/// A symbol of an imported module is there exactly when a declaration of
/// the module goes by it.
pub proof fn lemma_symbol_is_there_iff_declared(
    importer: ImporterView,
    module_name: Seq<char>,
    symbol_name: Seq<char>,
)
    requires
        importer.wf(),
        importer.modules.contains_key(module_name),
    ensures
        importer.symbol(module_name, symbol_name) is Some <==> exists|i: int|
            declares(importer.modules[module_name].declarations(), i, symbol_name),
{
    lemma_symbol_table_domain(importer.modules[module_name].declarations(), symbol_name);
}

/// A symbol of an imported module holds the tokens of the last
/// declaration of the module that goes by it.
pub proof fn lemma_symbol_is_the_last_declared(
    importer: ImporterView,
    module_name: Seq<char>,
    symbol_name: Seq<char>,
    i: int,
)
    requires
        importer.wf(),
        importer.modules.contains_key(module_name),
        declares(importer.modules[module_name].declarations(), i, symbol_name),
        forall|j: int|
            i < j ==> !declares(importer.modules[module_name].declarations(), j, symbol_name),
    ensures
        importer.symbol(module_name, symbol_name)
            == importer.modules[module_name].declarations()[i].tokens(),
{
    lemma_last_declaration_wins(importer.modules[module_name].declarations(), i, symbol_name);
}

/// Every item of a named kind in the syntax tree of an imported module is
/// a symbol of that module, under its own identifier.
pub proof fn lemma_named_item_is_a_symbol(
    importer: ImporterView,
    module_name: Seq<char>,
    i: int,
)
    requires
        importer.wf(),
        importer.well_read(),
        importer.modules.contains_key(module_name),
        0 <= i < file_items(importer.modules[module_name].ast).len(),
        file_items(importer.modules[module_name].ast)[i].kind.named() is Some,
    ensures
        importer.symbol(
            module_name,
            file_items(importer.modules[module_name].ast)[i].ident.unwrap(),
        ) is Some,
{
    lemma_named_item_is_indexed(file_items(importer.modules[module_name].ast), i);
}

} // verus!
