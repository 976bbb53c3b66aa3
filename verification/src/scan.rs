//! Building the tree of modules from a source tree.

use vstd::prelude::*;
use crate::ir::{
    extract_cfg, find_ignore_attribute, function_views, module_views, spec_extract_cfg,
    spec_function, spec_ignored, Function, FunctionView, Module, ModuleView,
};
use crate::parse::{
    first_named, is_error, spec_first_named, spec_fun_from, syntax_error, Fun, Parsed,
};
use crate::syntax::{Attribute, Item, ItemMod, Lit, Meta, ModContent};
use crate::text::{concat3, decimal, join, spec_decimal, spec_join, views};
use crate::util::SyntaxError;

verus! {

/// Cause of an [`Error`].
#[derive(Debug, PartialEq)]
pub enum ErrorSource {
    /// Failed to read a source file; the text says why.
    ReadSource(String),
    /// Failed to read an external module.
    ReadExternalModule(Box<Error>),
    /// Failed to write target code; the text says why.
    Write(String),
    /// Failed to parse source code.
    Parse(SyntaxError),
    /// Illegal use of a marker attribute.
    Riko(SyntaxError),
}

/// Errors when reading source code or writing target code.
#[derive(Debug, PartialEq)]
pub struct Error {
    /// The source file which causes the error, by the segments of its path.
    pub file: Vec<String>,
    pub source: ErrorSource,
}

/// Where in its file the error lies, as `:line:column`; empty where that
/// is not known.
pub open spec fn spec_location_text(source: ErrorSource) -> Seq<char> {
    match source {
        ErrorSource::Parse(inner) | ErrorSource::Riko(inner) => match inner.position {
            Some((line, column)) => ":"@ + spec_decimal(line as nat) + ":"@ + spec_decimal(
                column as nat,
            ),
            None => ""@,
        },
        _ => ""@,
    }
}

impl Error {
    /// The file that the error is found in and, where known, the line and
    /// column: `src/lib.rs:3:7`.
    pub fn to_string(&self) -> (r: String)
        ensures
            r@ == spec_join(views(self.file@), "/"@) + spec_location_text(self.source),
    {
        let mut out = join(self.file.as_slice(), "/");
        let position = match &self.source {
            ErrorSource::Parse(inner) => inner.position,
            ErrorSource::Riko(inner) => inner.position,
            _ => None,
        };
        match position {
            Some((line, column)) => {
                let mut location = concat3(":", decimal(line).as_str(), ":");
                location.append(decimal(column).as_str());
                out.append(location.as_str());
            },
            None => {
                out.append("");
            },
        }
        out
    }
}

/// Why a scan fails.
pub struct Failure {
    /// The file that is blamed.
    pub file: Seq<Seq<char>>,
    /// Whether a marker attribute is misused; a syntax error otherwise.
    pub marker: bool,
    pub message: Seq<char>,
}

/// Whether `e` reports the failure `f`.
pub open spec fn reports(e: Error, f: Failure) -> bool {
    &&& views(e.file@) == f.file
    &&& match e.source {
        ErrorSource::Riko(inner) => f.marker && is_error(inner, f.message),
        ErrorSource::Parse(inner) => !f.marker && is_error(inner, f.message),
        _ => false,
    }
}

/// The outcome of a scan.
pub enum Scanned<T> {
    Good(T),
    Bad(Failure),
}

/// A copy of a path.
pub fn clone_path(path: &Vec<String>) -> (r: Vec<String>)
    ensures
        r@ == path@,
{
    let mut out: Vec<String> = Vec::new();
    let mut i: usize = 0;
    while i < path.len()
        invariant
            i <= path.len(),
            out@ == path@.take(i as int),
        decreases path.len() - i,
    {
        out.push(path[i].clone());
        proof {
            assert(path@.take(i as int).push(path@[i as int]) =~= path@.take(i as int + 1));
        }
        i += 1;
    }
    proof {
        assert(path@.take(path.len() as int) =~= path@);
    }
    out
}

/// The directory of a file: its path without the last segment.
pub open spec fn spec_parent_dir(file: Seq<Seq<char>>) -> Seq<Seq<char>> {
    if file.len() > 0 {
        file.drop_last()
    } else {
        file
    }
}

/// Where the source of an external module is looked for.
#[derive(Debug, PartialEq)]
pub enum ModuleFile {
    /// At the path that an explicit override names, relative to the
    /// directory of the parent file.
    Explicit(Vec<String>),
    /// In a sibling file named after the module, and where that is no file,
    /// in the entry file of a directory named after it.
    Searched(Vec<String>, Vec<String>),
}

/// Mathematical value of a [`ModuleFile`].
pub enum ModuleFileView {
    Explicit(Seq<Seq<char>>),
    Searched(Seq<Seq<char>>, Seq<Seq<char>>),
}

impl View for ModuleFile {
    type V = ModuleFileView;

    open spec fn view(&self) -> ModuleFileView {
        match *self {
            ModuleFile::Explicit(p) => ModuleFileView::Explicit(views(p@)),
            ModuleFile::Searched(a, b) => ModuleFileView::Searched(views(a@), views(b@)),
        }
    }
}

/// Where the file of the child module `child` is looked for, seen from the
/// parent module named `parent_name` (`None` for the crate root) in the
/// file `parent_file`.
pub open spec fn spec_module_file(
    parent_name: Option<Seq<char>>,
    parent_file: Seq<Seq<char>>,
    child: ItemMod,
) -> Parsed<ModuleFileView> {
    let dir = spec_parent_dir(parent_file);
    match spec_first_named(child.attrs@, seq!["path"@]) {
        Some(i) => match child.attrs@[i].meta {
            Meta::NameValue(Lit::Str(value)) => Parsed::Good(
                ModuleFileView::Explicit(dir.push(value@)),
            ),
            Meta::NameValue(Lit::Other) => Parsed::Bad("Expect a file path literal"@),
            Meta::Invalid(why) => Parsed::Bad(why@),
            _ => Parsed::Bad("Expect a name-value pair"@),
        },
        None => match parent_name {
            Some(parent) => Parsed::Good(
                ModuleFileView::Searched(
                    dir.push(parent).push(child.ident@ + ".rs"@),
                    dir.push(parent).push(child.ident@).push("mod.rs"@),
                ),
            ),
            None => Parsed::Good(
                ModuleFileView::Searched(
                    dir.push(child.ident@ + ".rs"@),
                    dir.push(child.ident@).push("mod.rs"@),
                ),
            ),
        },
    }
}

/// Lists where the file of a child module is looked for.
pub fn module_file_candidates(
    module_name_parent: Option<&String>,
    file_path_parent: &Vec<String>,
    module_child: &ItemMod,
) -> (r: Result<ModuleFile, SyntaxError>)
    ensures
        match spec_module_file(
            match module_name_parent {
                Some(p) => Some(p@),
                None => None,
            },
            views(file_path_parent@),
            *module_child,
        ) {
            Parsed::Good(v) => r matches Ok(found) && found@ == v,
            Parsed::Bad(msg) => r matches Err(e) && is_error(e, msg),
        },
{
    let mut dir = clone_path(file_path_parent);
    if dir.len() > 0 {
        dir.pop();
    }
    proof {
        assert(views(dir@) =~= spec_parent_dir(views(file_path_parent@)));
    }
    let name = [String::from_str("path")];
    proof {
        assert(name@.map_values(|s: String| s@) =~= seq!["path"@]);
    }
    match first_named(&module_child.attrs, name.as_slice()) {
        Some(attr) => match &attr.meta {
            Meta::NameValue(Lit::Str(value)) => {
                let mut result = dir;
                proof {
                    assert(views(result@.push(*value)) =~= views(result@).push(value@));
                }
                result.push(value.clone());
                Ok(ModuleFile::Explicit(result))
            },
            Meta::NameValue(Lit::Other) => Err(syntax_error("Expect a file path literal")),
            Meta::Invalid(why) => Err(syntax_error(why.as_str())),
            _ => Err(syntax_error("Expect a name-value pair")),
        },
        None => {
            let mut sibling = dir;
            if let Some(parent) = module_name_parent {
                proof {
                    assert(views(sibling@.push(*parent)) =~= views(sibling@).push(parent@));
                }
                sibling.push(parent.clone());
            }
            let mut entry = clone_path(&sibling);
            let mut file_name = module_child.ident.clone();
            file_name.append(".rs");
            proof {
                assert(views(sibling@.push(file_name)) =~= views(sibling@).push(file_name@));
                assert(views(entry@.push(module_child.ident)) =~= views(entry@).push(
                    module_child.ident@,
                ));
            }
            sibling.push(file_name);
            entry.push(module_child.ident.clone());
            let mod_rs = String::from_str("mod.rs");
            proof {
                assert(views(entry@.push(mod_rs)) =~= views(entry@).push(mod_rs@));
            }
            entry.push(mod_rs);
            Ok(ModuleFile::Searched(sibling, entry))
        },
    }
}

/// The file that a child module is read from, given whether the sibling
/// file named after it exists.
pub open spec fn spec_resolved(found: ModuleFileView, sibling_is_file: bool) -> Seq<Seq<char>> {
    match found {
        ModuleFileView::Explicit(p) => p,
        ModuleFileView::Searched(sibling, entry) => if sibling_is_file {
            sibling
        } else {
            entry
        },
    }
}

/// Picks among the places where a module's file is looked for.
pub fn choose_module_file(found: ModuleFile, sibling_is_file: bool) -> (r: Vec<String>)
    ensures
        views(r@) == spec_resolved(found@, sibling_is_file),
{
    match found {
        ModuleFile::Explicit(p) => p,
        ModuleFile::Searched(sibling, entry) => if sibling_is_file {
            sibling
        } else {
            entry
        },
    }
}

/// Resolves the file path to a child module.
///
/// `module_name_parent` is the name of the parent module, or `None` for the
/// crate root; `file_path_parent` is the path of the parent's file;
/// `sibling_is_file` tells whether the sibling file named after the child
/// exists.
pub fn resolve_module_path(
    module_name_parent: Option<&String>,
    file_path_parent: Vec<String>,
    module_child: &ItemMod,
    sibling_is_file: bool,
) -> (r: Result<Vec<String>, SyntaxError>)
    ensures
        match spec_module_file(
            match module_name_parent {
                Some(p) => Some(p@),
                None => None,
            },
            views(file_path_parent@),
            *module_child,
        ) {
            Parsed::Good(v) => r matches Ok(path) && views(path@) == spec_resolved(
                v,
                sibling_is_file,
            ),
            Parsed::Bad(msg) => r matches Err(e) && is_error(e, msg),
        },
{
    match module_file_candidates(module_name_parent, &file_path_parent, module_child) {
        Ok(found) => Ok(choose_module_file(found, sibling_is_file)),
        Err(e) => Err(e),
    }
}

/// The name of the module with the path `path`: its last segment.
pub open spec fn spec_last_name(path: Seq<Seq<char>>) -> Option<Seq<char>> {
    if path.len() > 0 {
        Some(path.last())
    } else {
        None
    }
}

/// The modules and functions found among the first `n` of `items`.
pub open spec fn spec_scan_items(
    items: Seq<Item>,
    n: nat,
    mod_path: Seq<Seq<char>>,
    file: Seq<Seq<char>>,
) -> Scanned<(Seq<ModuleView>, Seq<FunctionView>)>
    decreases items, n,
{
    if n == 0 || n > items.len() {
        Scanned::Good((Seq::empty(), Seq::empty()))
    } else {
        match spec_scan_items(items, (n - 1) as nat, mod_path, file) {
            Scanned::Bad(f) => Scanned::Bad(f),
            Scanned::Good((modules, functions)) => match items[n - 1] {
                Item::Fn(inner) => if spec_ignored(inner.attrs@) {
                    Scanned::Good((modules, functions))
                } else {
                    match spec_fun_from(inner.attrs@) {
                        Parsed::Bad(message) => Scanned::Bad(
                            Failure { file, marker: true, message },
                        ),
                        Parsed::Good(None) => Scanned::Good((modules, functions)),
                        Parsed::Good(Some(args)) => match spec_function(inner, args) {
                            Parsed::Bad(message) => Scanned::Bad(
                                Failure { file, marker: true, message },
                            ),
                            Parsed::Good(function) => Scanned::Good(
                                (modules, functions.push(function)),
                            ),
                        },
                    }
                },
                Item::Mod(inner) => if spec_ignored(inner.attrs@) {
                    Scanned::Good((modules, functions))
                } else {
                    match spec_parse_module(inner, mod_path, file) {
                        Scanned::Bad(f) => Scanned::Bad(f),
                        Scanned::Good(found) => Scanned::Good((modules + found, functions)),
                    }
                },
                Item::Other => Scanned::Good((modules, functions)),
            },
        }
    }
}

/// The modules found in a block of items: those of its child modules in
/// the order of their declarations, each with its descendants before it,
/// and the module of the block itself last.
pub open spec fn spec_parse_items(
    items: Seq<Item>,
    mod_path: Seq<Seq<char>>,
    file: Seq<Seq<char>>,
    attrs: Seq<Attribute>,
) -> Scanned<Seq<ModuleView>>
    decreases items, items.len() + 1,
{
    match spec_scan_items(items, items.len(), mod_path, file) {
        Scanned::Bad(f) => Scanned::Bad(f),
        Scanned::Good((modules, functions)) => Scanned::Good(
            modules.push(
                ModuleView { functions, path: mod_path, cfg: spec_extract_cfg(attrs) },
            ),
        ),
    }
}

/// The modules found in a child module and below it. A module whose file
/// could not be read contributes nothing.
pub open spec fn spec_parse_module(
    module: ItemMod,
    parent_path: Seq<Seq<char>>,
    parent_file: Seq<Seq<char>>,
) -> Scanned<Seq<ModuleView>>
    decreases module, 0nat,
{
    let child_path = parent_path.push(module.ident@);
    match spec_module_file(spec_last_name(parent_path), parent_file, module) {
        Parsed::Bad(message) => Scanned::Bad(
            Failure { file: parent_file, marker: false, message },
        ),
        Parsed::Good(_) => match module.content {
            ModContent::Inline(items) => spec_parse_items(
                items@,
                child_path,
                parent_file,
                module.attrs@,
            ),
            ModContent::Loaded(file, attrs, items) => spec_parse_items(
                items@,
                child_path,
                views(file@),
                attrs@,
            ),
            ModContent::Missing => Scanned::Good(Seq::empty()),
        },
    }
}

/// An item that is not accepted decides the outcome of the whole block.
proof fn lemma_scan_bad(
    items: Seq<Item>,
    k: nat,
    mod_path: Seq<Seq<char>>,
    file: Seq<Seq<char>>,
)
    requires
        k <= items.len(),
    ensures
        spec_scan_items(items, k, mod_path, file) is Bad ==> spec_scan_items(
            items,
            items.len(),
            mod_path,
            file,
        ) == spec_scan_items(items, k, mod_path, file),
    decreases items.len() - k,
{
    if k < items.len() {
        lemma_scan_bad(items, k + 1, mod_path, file);
    }
}

fn blame(file_path: &Vec<String>, marker: bool, cause: SyntaxError) -> (e: Error)
    ensures
        reports(e, Failure { file: views(file_path@), marker, message: cause.message@ })
            || cause.position is Some,
{
    let file = clone_path(file_path);
    if marker {
        Error { file, source: ErrorSource::Riko(cause) }
    } else {
        Error { file, source: ErrorSource::Parse(cause) }
    }
}

impl Module {
    /// Reads a block of items into a set of modules.
    ///
    /// `mod_path` is the full path of the module whose items these are;
    /// the empty path means the crate root. `file_path` is the file that
    /// holds the items, `attrs` are the attributes of the module. The result
    /// holds the module itself, last, and before it all modules below it.
    pub fn parse_items(
        items: &Vec<Item>,
        mod_path: &Vec<String>,
        file_path: &Vec<String>,
        attrs: &Vec<Attribute>,
    ) -> (r: Result<Vec<Module>, Error>)
        ensures
            match spec_parse_items(items@, views(mod_path@), views(file_path@), attrs@) {
                Scanned::Good(found) => r matches Ok(modules) && module_views(modules@) == found,
                Scanned::Bad(f) => r matches Err(e) && reports(e, f),
            },
        decreases items@, 1nat,
    {
        let mut result: Vec<Module> = Vec::new();
        let mut functions: Vec<Function> = Vec::new();
        let ghost path = views(mod_path@);
        let ghost file = views(file_path@);
        proof {
            assert(module_views(result@) =~= Seq::empty());
            assert(function_views(functions@) =~= Seq::empty());
        }
        let mut i: usize = 0;
        while i < items.len()
            invariant
                i <= items.len(),
                path == views(mod_path@),
                file == views(file_path@),
                spec_scan_items(items@, i as nat, path, file) == Scanned::Good(
                    (module_views(result@), function_views(functions@)),
                ),
            decreases items.len() - i,
        {
            proof {
                lemma_scan_bad(items@, (i + 1) as nat, path, file);
            }
            match &items[i] {
                Item::Fn(inner) => {
                    if !find_ignore_attribute(&inner.attrs) {
                        match Fun::take_from(&inner.attrs) {
                            Ok(Some(args)) => match Function::parse(inner, args) {
                                Ok(function) => {
                                    proof {
                                        assert(function_views(functions@.push(function))
                                            =~= function_views(functions@).push(function@));
                                    }
                                    functions.push(function);
                                },
                                Err(e) => {
                                    return Err(blame(file_path, true, e));
                                },
                            },
                            Ok(None) => {},
                            Err(e) => {
                                return Err(blame(file_path, true, e));
                            },
                        }
                    }
                },
                Item::Mod(inner) => {
                    if !find_ignore_attribute(&inner.attrs) {
                        let mut parsed_module = Self::parse_module(inner, mod_path, file_path)?;
                        proof {
                            assert(module_views(result@ + parsed_module@) =~= module_views(
                                result@,
                            ) + module_views(parsed_module@));
                        }
                        result.append(&mut parsed_module);
                    }
                },
                Item::Other => {},
            }
            i += 1;
        }
        let module = Module {
            functions,
            path: clone_path(mod_path),
            cfg: extract_cfg(attrs),
        };
        proof {
            assert(module_views(result@.push(module)) =~= module_views(result@).push(module@));
        }
        result.push(module);
        Ok(result)
    }

    /// Reads a module into a set of modules: the module itself, last, and
    /// before it all modules below it.
    ///
    /// `mod_path_parent` is the path of the parent module,
    /// `file_path_parent` is the file of the parent module.
    pub fn parse_module(
        module: &ItemMod,
        mod_path_parent: &Vec<String>,
        file_path_parent: &Vec<String>,
    ) -> (r: Result<Vec<Module>, Error>)
        ensures
            match spec_parse_module(
                *module,
                views(mod_path_parent@),
                views(file_path_parent@),
            ) {
                Scanned::Good(found) => r matches Ok(modules) && module_views(modules@) == found,
                Scanned::Bad(f) => r matches Err(e) && reports(e, f),
            },
        decreases module, 0nat,
    {
        let mut mod_path_child = clone_path(mod_path_parent);
        proof {
            assert(views(mod_path_child@.push(module.ident)) =~= views(
                mod_path_parent@,
            ).push(module.ident@));
        }
        mod_path_child.push(module.ident.clone());
        let parent_name = if mod_path_parent.len() > 0 {
            Some(&mod_path_parent[mod_path_parent.len() - 1])
        } else {
            None
        };
        if let Err(e) = module_file_candidates(parent_name, file_path_parent, module) {
            return Err(blame(file_path_parent, false, e));
        }
        match &module.content {
            ModContent::Inline(items) => Self::parse_items(
                items,
                &mod_path_child,
                file_path_parent,
                &module.attrs,
            ),
            ModContent::Loaded(file, attrs, items) => Self::parse_items(
                items,
                &mod_path_child,
                file,
                attrs,
            ),
            ModContent::Missing => {
                let none: Vec<Module> = Vec::new();
                proof {
                    assert(module_views(none@) =~= Seq::empty());
                }
                Ok(none)
            },
        }
    }
}

} // verus!
