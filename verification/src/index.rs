//! Index files: one per package, which gathers its modules, and one for the
//! project, which gathers its packages.
//!
//! An index names each child three times: once to import it, once to export
//! it again, and once to register its parsers. All three lists are rendered
//! from the same ordered entries, so they always agree.

use crate::text::{join_with, joined, texts};
use vstd::prelude::*;

verus! {

/// What every index begins with.
pub const INDEX_HEADER: &'static str = r###"
import { AptosParserRepo } from "@manahippo/move-to-ts";
"###;

pub const IMPORT_KEYWORD: &'static str = "import";

pub const EXPORT_KEYWORD: &'static str = "export";

pub const BINDING_AS: &'static str = " * as ";

pub const BINDING_FROM: &'static str = " from './";

pub const BINDING_END: &'static str = "';\n";

pub const LOAD_INDENT: &'static str = "  ";

pub const LOAD_CALL: &'static str = ".loadParsers(repo);";

pub const LINE_BREAK: &'static str = "\n";

/// What follows the name of a module in the namespace it is bound to.
pub const MODULE_ALIAS_SUFFIX: &'static str = "$_";

/// The path of the project index.
pub const INDEX_FILE: &'static str = "index.ts";

/// The path of a package index, after the name of the package.
pub const PACKAGE_INDEX_FILE: &'static str = "/index.ts";

/// What stands between the exports of a package index and its registration
/// calls.
pub const PACKAGE_LOADER_OPEN: &'static str = r###"

export function loadParsers(repo: AptosParserRepo) {
"###;

/// What stands after the registration calls of a package index.
pub const PACKAGE_LOADER_CLOSE: &'static str = r###"
}

export function getPackageRepo(): AptosParserRepo {
  const repo = new AptosParserRepo();
  loadParsers(repo);
  repo.addDefaultParsers();
  return repo;
}
"###;

/// What stands between the exports of the project index and its
/// registration calls.
pub const PROJECT_FACTORY_OPEN: &'static str = r###"

export function getProjectRepo(): AptosParserRepo {
  const repo = new AptosParserRepo();
"###;

/// What stands after the registration calls of the project index.
pub const PROJECT_FACTORY_CLOSE: &'static str = r###"
  repo.addDefaultParsers();
  return repo;
}
"###;

/// A module of a package, known to the index by its name alone.
pub struct ModuleIdentifier {
    pub name: String,
}

/// One child of an index: the namespace it is bound to and the file, beside
/// the index, that it is read from.
pub struct IndexEntry {
    pub alias: String,
    pub source: String,
}

/// What an [`IndexEntry`] says, as plain text.
pub struct EntryText {
    pub alias: Seq<char>,
    pub source: Seq<char>,
}

impl View for IndexEntry {
    type V = EntryText;

    open spec fn view(&self) -> EntryText {
        EntryText { alias: self.alias@, source: self.source@ }
    }
}

/// The entry of a module: bound to its name followed by `$_`, read from the
/// file of its name.
pub open spec fn module_entry(name: Seq<char>) -> EntryText {
    EntryText { alias: name + MODULE_ALIAS_SUFFIX@, source: name }
}

/// The entry of a package: bound to its name, read from the directory of its
/// name.
pub open spec fn package_entry(name: Seq<char>) -> EntryText {
    EntryText { alias: name, source: name }
}

/// The names of the given modules, in order.
pub open spec fn module_names(modules: Seq<&ModuleIdentifier>) -> Seq<Seq<char>> {
    modules.map_values(|m: &ModuleIdentifier| m.name@)
}

/// The given package names as text, in order.
pub open spec fn package_names(packages: Seq<&String>) -> Seq<Seq<char>> {
    packages.map_values(|p: &String| p@)
}

/// One entry for each module name, in order.
pub open spec fn module_entries(names: Seq<Seq<char>>) -> Seq<EntryText> {
    names.map_values(|name: Seq<char>| module_entry(name))
}

/// One entry for each package name, in order.
pub open spec fn package_entries(names: Seq<Seq<char>>) -> Seq<EntryText> {
    names.map_values(|name: Seq<char>| package_entry(name))
}

/// What the given entries say, in order.
pub open spec fn entry_texts(entries: Seq<IndexEntry>) -> Seq<EntryText> {
    entries.map_values(|e: IndexEntry| e@)
}

/// `<keyword> * as <alias> from './<source>';` and a line break.
pub open spec fn binding_line(keyword: Seq<char>, entry: EntryText) -> Seq<char> {
    keyword + BINDING_AS@ + entry.alias + BINDING_FROM@ + entry.source + BINDING_END@
}

/// The line that imports one child.
pub open spec fn import_line(entry: EntryText) -> Seq<char> {
    binding_line(IMPORT_KEYWORD@, entry)
}

/// The line that exports one child again.
pub open spec fn export_line(entry: EntryText) -> Seq<char> {
    binding_line(EXPORT_KEYWORD@, entry)
}

/// The call that registers the parsers of one child; no line break.
pub open spec fn load_line(entry: EntryText) -> Seq<char> {
    LOAD_INDENT@ + entry.alias + LOAD_CALL@
}

/// One import or export line for each entry, in order.
pub open spec fn binding_lines(keyword: Seq<char>, entries: Seq<EntryText>) -> Seq<Seq<char>> {
    entries.map_values(|e: EntryText| binding_line(keyword, e))
}

/// One import line for each entry, in order.
pub open spec fn import_lines(entries: Seq<EntryText>) -> Seq<Seq<char>> {
    binding_lines(IMPORT_KEYWORD@, entries)
}

/// One export line for each entry, in order.
pub open spec fn export_lines(entries: Seq<EntryText>) -> Seq<Seq<char>> {
    binding_lines(EXPORT_KEYWORD@, entries)
}

/// One registration call for each entry, in order.
pub open spec fn load_lines(entries: Seq<EntryText>) -> Seq<Seq<char>> {
    entries.map_values(|e: EntryText| load_line(e))
}

/// The text of a package index over the given entries.
pub open spec fn package_index_text(entries: Seq<EntryText>) -> Seq<char> {
    INDEX_HEADER@ + import_lines(entries).flatten() + LINE_BREAK@ + export_lines(
        entries,
    ).flatten() + PACKAGE_LOADER_OPEN@ + joined(load_lines(entries), LINE_BREAK@)
        + PACKAGE_LOADER_CLOSE@
}

/// The text of the project index over the given entries.
pub open spec fn project_index_text(entries: Seq<EntryText>) -> Seq<char> {
    INDEX_HEADER@ + import_lines(entries).flatten() + LINE_BREAK@ + export_lines(
        entries,
    ).flatten() + PROJECT_FACTORY_OPEN@ + joined(load_lines(entries), LINE_BREAK@)
        + PROJECT_FACTORY_CLOSE@
}

/// Appends one import or export line per entry, in order.
fn push_binding_lines(out: &mut String, keyword: &str, entries: &Vec<IndexEntry>)
    ensures
        final(out)@ == old(out)@ + binding_lines(keyword@, entry_texts(entries@)).flatten(),
{
    let ghost all = entry_texts(entries@);
    let mut i: usize = 0;
    while i < entries.len()
        invariant
            i <= entries.len(),
            all == entry_texts(entries@),
            out@ == old(out)@ + binding_lines(keyword@, all.take(i as int)).flatten(),
        decreases entries.len() - i,
    {
        let entry = &entries[i];
        out.append(keyword);
        out.append(BINDING_AS);
        out.append(entry.alias.as_str());
        out.append(BINDING_FROM);
        out.append(entry.source.as_str());
        out.append(BINDING_END);
        proof {
            let done = binding_lines(keyword@, all.take(i as int));
            let line = binding_line(keyword@, all[i as int]);
            assert(binding_lines(keyword@, all.take(i + 1)) =~= done.push(line));
            done.lemma_flatten_push(line);
        }
        i += 1;
    }
    assert(all.take(entries.len() as int) =~= all);
}

/// One registration call per entry, in order.
fn load_calls(entries: &Vec<IndexEntry>) -> (calls: Vec<String>)
    ensures
        texts(calls@) == load_lines(entry_texts(entries@)),
{
    let ghost all = entry_texts(entries@);
    let mut calls: Vec<String> = Vec::new();
    let mut i: usize = 0;
    while i < entries.len()
        invariant
            i <= entries.len(),
            all == entry_texts(entries@),
            texts(calls@) =~= load_lines(all.take(i as int)),
        decreases entries.len() - i,
    {
        let mut call = LOAD_INDENT.to_string();
        call.append(entries[i].alias.as_str());
        call.append(LOAD_CALL);
        calls.push(call);
        proof {
            assert(load_lines(all.take(i + 1)) =~= load_lines(all.take(i as int)).push(
                load_line(all[i as int]),
            ));
        }
        i += 1;
    }
    calls
}

/// What both indices share: the header, the imports, the exports, and the
/// registration calls between `open` and `close`.
fn render_index(entries: &Vec<IndexEntry>, open: &str, close: &str) -> (out: String)
    ensures
        out@ == INDEX_HEADER@ + import_lines(entry_texts(entries@)).flatten() + LINE_BREAK@
            + export_lines(entry_texts(entries@)).flatten() + open@ + joined(
            load_lines(entry_texts(entries@)),
            LINE_BREAK@,
        ) + close@,
{
    let mut out = INDEX_HEADER.to_string();
    push_binding_lines(&mut out, IMPORT_KEYWORD, entries);
    out.append(LINE_BREAK);
    push_binding_lines(&mut out, EXPORT_KEYWORD, entries);
    out.append(open);
    let calls = load_calls(entries);
    let loads = join_with(&calls, LINE_BREAK);
    out.append(loads.as_str());
    out.append(close);
    out
}

impl IndexEntry {
    /// The entry of `module` in the index of its package.
    pub fn for_module(module: &ModuleIdentifier) -> (entry: IndexEntry)
        ensures
            entry@ == module_entry(module.name@),
    {
        let mut alias = module.name.clone();
        alias.append(MODULE_ALIAS_SUFFIX);
        IndexEntry { alias, source: module.name.clone() }
    }

    /// The entry of the package called `package` in the index of the
    /// project.
    pub fn for_package(package: &String) -> (entry: IndexEntry)
        ensures
            entry@ == package_entry(package@),
    {
        IndexEntry { alias: package.clone(), source: package.clone() }
    }
}

/// The entries of the given modules, in the order given.
pub fn module_index_entries(modules: &Vec<&ModuleIdentifier>) -> (entries: Vec<IndexEntry>)
    ensures
        entry_texts(entries@) == module_entries(module_names(modules@)),
{
    let mut entries: Vec<IndexEntry> = Vec::new();
    let mut i: usize = 0;
    while i < modules.len()
        invariant
            i <= modules.len(),
            entry_texts(entries@) =~= module_entries(module_names(modules@.take(i as int))),
        decreases modules.len() - i,
    {
        let entry = IndexEntry::for_module(modules[i]);
        entries.push(entry);
        proof {
            assert(module_entries(module_names(modules@.take(i + 1))) =~= module_entries(
                module_names(modules@.take(i as int)),
            ).push(module_entry(modules@[i as int].name@)));
        }
        i += 1;
    }
    entries
}

/// The entries of the given packages, in the order given.
pub fn project_index_entries(packages: &Vec<&String>) -> (entries: Vec<IndexEntry>)
    ensures
        entry_texts(entries@) == package_entries(package_names(packages@)),
{
    let mut entries: Vec<IndexEntry> = Vec::new();
    let mut i: usize = 0;
    while i < packages.len()
        invariant
            i <= packages.len(),
            entry_texts(entries@) =~= package_entries(package_names(packages@.take(i as int))),
        decreases packages.len() - i,
    {
        let entry = IndexEntry::for_package(packages[i]);
        entries.push(entry);
        proof {
            assert(package_entries(package_names(packages@.take(i + 1))) =~= package_entries(
                package_names(packages@.take(i as int)),
            ).push(package_entry(packages@[i as int]@)));
        }
        i += 1;
    }
    entries
}

/// The text of a package index over `entries`: every child is imported,
/// exported and registered, in the order of the entries.
pub fn render_package_index(entries: &Vec<IndexEntry>) -> (text: String)
    ensures
        text@ == package_index_text(entry_texts(entries@)),
{
    render_index(entries, PACKAGE_LOADER_OPEN, PACKAGE_LOADER_CLOSE)
}

/// The text of the project index over `entries`: every child is imported,
/// exported and registered, in the order of the entries.
pub fn render_project_index(entries: &Vec<IndexEntry>) -> (text: String)
    ensures
        text@ == project_index_text(entry_texts(entries@)),
{
    render_index(entries, PROJECT_FACTORY_OPEN, PROJECT_FACTORY_CLOSE)
}

/// The index of one package: `<package_name>/index.ts`, which imports and
/// exports every module in the order given and registers their parsers in
/// that order.
pub fn generate_index(package_name: &String, modules: &Vec<&ModuleIdentifier>) -> (file: (
    String,
    String,
))
    ensures
        file.0@ == package_name@ + PACKAGE_INDEX_FILE@,
        file.1@ == package_index_text(module_entries(module_names(modules@))),
{
    let mut filename = package_name.clone();
    filename.append(PACKAGE_INDEX_FILE);
    let entries = module_index_entries(modules);
    (filename, render_package_index(&entries))
}

/// The index of the whole project: `index.ts`, which imports and exports
/// every package in the order given and registers their parsers in that
/// order.
pub fn generate_topmost_index(packages: &Vec<&String>) -> (file: (String, String))
    ensures
        file.0@ == INDEX_FILE@,
        file.1@ == project_index_text(package_entries(package_names(packages@))),
{
    let entries = project_index_entries(packages);
    (INDEX_FILE.to_string(), render_project_index(&entries))
}

/// The lines of an index stand in the order of its children, and the three
/// lists agree: the import line, the export line and the registration call
/// at any one place are those of the child at that place.
pub proof fn lemma_lines_follow_entries(entries: Seq<EntryText>, i: int)
    requires
        0 <= i < entries.len(),
    ensures
        import_lines(entries).len() == entries.len(),
        export_lines(entries).len() == entries.len(),
        load_lines(entries).len() == entries.len(),
        import_lines(entries)[i] == import_line(entries[i]),
        export_lines(entries)[i] == export_line(entries[i]),
        load_lines(entries)[i] == load_line(entries[i]),
{
}

/// Mapping two arrangements of the same items gives two arrangements of the
/// same images.
proof fn lemma_map_keeps_arrangement<A, B>(a: Seq<A>, b: Seq<A>, f: spec_fn(A) -> B)
    requires
        a.to_multiset() == b.to_multiset(),
    ensures
        a.map_values(f).to_multiset() == b.map_values(f).to_multiset(),
    decreases a.len(),
{
    let fa = a.map_values(f);
    let fb = b.map_values(f);
    a.to_multiset_ensures();
    b.to_multiset_ensures();
    fa.to_multiset_ensures();
    fb.to_multiset_ensures();
    if a.len() > 0 {
        // The last item of `a` stands somewhere in `b`. Without it, the two
        // are arrangements of the same items still; with its image back in
        // place, so are their images.
        let last = a.len() - 1;
        let x = a[last];
        assert(b.to_multiset().count(x) > 0);
        let j = choose|j: int| 0 <= j < b.len() && b[j] == x;
        let a_rest = a.remove(last);
        let b_rest = b.remove(j);
        lemma_map_keeps_arrangement(a_rest, b_rest, f);
        assert(fa.remove(last) =~= a_rest.map_values(f));
        assert(fb.remove(j) =~= b_rest.map_values(f));
        assert(fa.to_multiset() =~= fa.remove(last).to_multiset().insert(f(x)));
        assert(fb.to_multiset() =~= fb.remove(j).to_multiset().insert(f(x)));
    }
}

/// Taking one part out of a list shortens what the parts make together by
/// the length of that part.
proof fn lemma_flatten_without_one(parts: Seq<Seq<char>>, j: int)
    requires
        0 <= j < parts.len(),
    ensures
        parts.flatten().len() == parts.remove(j).flatten().len() + parts[j].len(),
    decreases parts.len(),
{
    let front = parts.drop_last();
    assert(parts =~= front.push(parts.last()));
    front.lemma_flatten_push(parts.last());
    if j == parts.len() - 1 {
        assert(parts.remove(j) =~= front);
    } else {
        lemma_flatten_without_one(front, j);
        assert(parts.remove(j) =~= front.remove(j).push(parts.last()));
        front.remove(j).lemma_flatten_push(parts.last());
    }
}

/// Two arrangements of the same parts make texts of the same length.
proof fn lemma_flatten_length_of_arrangement(a: Seq<Seq<char>>, b: Seq<Seq<char>>)
    requires
        a.to_multiset() == b.to_multiset(),
    ensures
        a.len() == b.len(),
        a.flatten().len() == b.flatten().len(),
    decreases a.len(),
{
    a.to_multiset_ensures();
    b.to_multiset_ensures();
    if a.len() > 0 {
        let last = a.len() - 1;
        assert(b.to_multiset().count(a[last]) > 0);
        let j = choose|j: int| 0 <= j < b.len() && b[j] == a[last];
        lemma_flatten_length_of_arrangement(a.remove(last), b.remove(j));
        lemma_flatten_without_one(a, last);
        lemma_flatten_without_one(b, j);
    }
}

/// The length of joined parts: that of the parts, and one separator fewer
/// than there are parts.
proof fn lemma_joined_length(parts: Seq<Seq<char>>, sep: Seq<char>)
    ensures
        parts.len() == 0 ==> joined(parts, sep).len() == 0,
        parts.len() > 0 ==> joined(parts, sep).len() == parts.flatten().len() + (parts.len() - 1)
            * sep.len(),
    decreases parts.len(),
{
    if parts.len() == 1 {
        parts.lemma_flatten_one_element();
    } else if parts.len() > 1 {
        let front = parts.drop_last();
        lemma_joined_length(front, sep);
        assert(parts =~= front.push(parts.last()));
        front.lemma_flatten_push(parts.last());
        assert((parts.len() - 1) * sep.len() == (front.len() - 1) * sep.len() + sep.len())
            by (nonlinear_arith)
            requires
                front.len() == parts.len() - 1,
        ;
    }
}

/// Order is all that the order of the children decides. Two indices over the
/// same children, arranged differently, hold the same import lines, the same
/// export lines and the same registration calls, each as often in one as in
/// the other; what stands around those lines does not depend on the children
/// at all.
pub proof fn lemma_rearranged_entries_keep_lines(a: Seq<EntryText>, b: Seq<EntryText>)
    requires
        a.to_multiset() == b.to_multiset(),
    ensures
        import_lines(a).to_multiset() == import_lines(b).to_multiset(),
        export_lines(a).to_multiset() == export_lines(b).to_multiset(),
        load_lines(a).to_multiset() == load_lines(b).to_multiset(),
{
    lemma_map_keeps_arrangement(a, b, |e: EntryText| binding_line(IMPORT_KEYWORD@, e));
    lemma_map_keeps_arrangement(a, b, |e: EntryText| binding_line(EXPORT_KEYWORD@, e));
    lemma_map_keeps_arrangement(a, b, |e: EntryText| load_line(e));
}

/// Two indices over the same children, arranged differently, are of the
/// same length: nothing is added and nothing is lost.
pub proof fn lemma_rearranged_entries_keep_length(a: Seq<EntryText>, b: Seq<EntryText>)
    requires
        a.to_multiset() == b.to_multiset(),
    ensures
        package_index_text(a).len() == package_index_text(b).len(),
        project_index_text(a).len() == project_index_text(b).len(),
{
    lemma_rearranged_entries_keep_lines(a, b);
    lemma_flatten_length_of_arrangement(import_lines(a), import_lines(b));
    lemma_flatten_length_of_arrangement(export_lines(a), export_lines(b));
    lemma_flatten_length_of_arrangement(load_lines(a), load_lines(b));
    lemma_joined_length(load_lines(a), LINE_BREAK@);
    lemma_joined_length(load_lines(b), LINE_BREAK@);
}

/// Listing the modules of a package in another order changes the order of
/// the lines of its index and nothing else: every import line, export line
/// and registration call of one index stands in the other, as often, and
/// the two indices are of the same length.
pub proof fn lemma_rearranged_modules_keep_lines(a: Seq<Seq<char>>, b: Seq<Seq<char>>)
    requires
        a.to_multiset() == b.to_multiset(),
    ensures
        import_lines(module_entries(a)).to_multiset() == import_lines(
            module_entries(b),
        ).to_multiset(),
        export_lines(module_entries(a)).to_multiset() == export_lines(
            module_entries(b),
        ).to_multiset(),
        load_lines(module_entries(a)).to_multiset() == load_lines(module_entries(b)).to_multiset(),
        package_index_text(module_entries(a)).len() == package_index_text(
            module_entries(b),
        ).len(),
{
    lemma_map_keeps_arrangement(a, b, |name: Seq<char>| module_entry(name));
    lemma_rearranged_entries_keep_lines(module_entries(a), module_entries(b));
    lemma_rearranged_entries_keep_length(module_entries(a), module_entries(b));
}

/// The same for the packages of a project.
pub proof fn lemma_rearranged_packages_keep_lines(a: Seq<Seq<char>>, b: Seq<Seq<char>>)
    requires
        a.to_multiset() == b.to_multiset(),
    ensures
        import_lines(package_entries(a)).to_multiset() == import_lines(
            package_entries(b),
        ).to_multiset(),
        export_lines(package_entries(a)).to_multiset() == export_lines(
            package_entries(b),
        ).to_multiset(),
        load_lines(package_entries(a)).to_multiset() == load_lines(
            package_entries(b),
        ).to_multiset(),
        project_index_text(package_entries(a)).len() == project_index_text(
            package_entries(b),
        ).len(),
{
    lemma_map_keeps_arrangement(a, b, |name: Seq<char>| package_entry(name));
    lemma_rearranged_entries_keep_lines(package_entries(a), package_entries(b));
    lemma_rearranged_entries_keep_length(package_entries(a), package_entries(b));
}

/// An index is decided by the names of its children in their order: module
/// lists that carry the same names in the same order have the same index,
/// character for character.
pub proof fn lemma_same_names_same_index(a: Seq<&ModuleIdentifier>, b: Seq<&ModuleIdentifier>)
    requires
        a.len() == b.len(),
        forall|i: int| 0 <= i < a.len() ==> a[i].name@ == b[i].name@,
    ensures
        package_index_text(module_entries(module_names(a))) == package_index_text(
            module_entries(module_names(b)),
        ),
{
    assert(module_names(a) =~= module_names(b));
}

} // verus!
