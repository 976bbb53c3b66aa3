//! Questions asked of a finished tree of modules.

use vstd::prelude::*;
use crate::ir::{
    module_views, spec_extract_cfg, Crate, CrateView, Function, Module, ModuleView,
};
use crate::scan::{
    reports, spec_parse_items, spec_parse_module, Error, Scanned,
};
use crate::syntax::{
    attribute_views, same_path, AttrStyle, Attribute, AttributeView, Item, ItemMod, };
use crate::text::views;

verus! {

/// A parsed source file: its inner attributes and its items.
#[derive(Debug, PartialEq)]
pub struct SourceFile {
    pub attrs: Vec<Attribute>,
    pub items: Vec<Item>,
}

/// The first module with the path `path`, by its index.
pub open spec fn spec_module_index(modules: Seq<ModuleView>, path: Seq<Seq<char>>) -> Option<int>
    decreases modules.len(),
{
    if modules.len() == 0 {
        None
    } else {
        match spec_module_index(modules.drop_last(), path) {
            Some(i) => Some(i),
            None => if modules.last().path == path {
                Some(modules.len() - 1)
            } else {
                None
            },
        }
    }
}

/// A module that is found among the first `k` stays the first.
proof fn lemma_module_index_stable(modules: Seq<ModuleView>, path: Seq<Seq<char>>, k: int)
    requires
        0 <= k <= modules.len(),
    ensures
        spec_module_index(modules.take(k), path) matches Some(i) ==> 0 <= i < k
            && spec_module_index(modules, path) == Some(i),
    decreases modules.len() - k,
{
    lemma_module_index_bound(modules.take(k), path);
    if k < modules.len() {
        assert(modules.take(k + 1).drop_last() =~= modules.take(k));
        lemma_module_index_stable(modules, path, k + 1);
    } else {
        assert(modules.take(k) =~= modules);
    }
}

/// An index that is found lies within the sequence and has the path.
proof fn lemma_module_index_bound(modules: Seq<ModuleView>, path: Seq<Seq<char>>)
    ensures
        spec_module_index(modules, path) matches Some(i) ==> 0 <= i < modules.len()
            && modules[i].path == path,
    decreases modules.len(),
{
    if modules.len() > 0 {
        lemma_module_index_bound(modules.drop_last(), path);
    }
}

/// Whether every module above and including `path` is in the tree.
pub open spec fn spec_has_ancestors(root: CrateView, path: Seq<Seq<char>>) -> bool {
    forall|k: int|
        1 <= k <= path.len() ==> (#[trigger] spec_module_index(root.modules, path.take(k))) is Some
}

/// The module of the tree that stands at the first `k` segments of `path`.
pub open spec fn spec_ancestor(root: CrateView, path: Seq<Seq<char>>, k: int) -> ModuleView {
    root.modules[spec_module_index(root.modules, path.take(k))->0]
}

/// The guards of the modules at the first 1, 2, .. `k` segments of `path`,
/// in this order.
pub open spec fn spec_inherited_cfg(root: CrateView, path: Seq<Seq<char>>, k: nat) -> Seq<
    AttributeView,
>
    decreases k,
{
    if k == 0 {
        Seq::empty()
    } else {
        spec_inherited_cfg(root, path, (k - 1) as nat) + spec_ancestor(root, path, k as int).cfg
    }
}

/// The views of a sequence of borrowed attributes.
pub open spec fn borrowed_views(v: Seq<&Attribute>) -> Seq<AttributeView> {
    v.map_values(|a: &Attribute| a@)
}

impl Crate {
    /// Builds the tree of a crate from its parsed entry file.
    ///
    /// `src` is the path of the entry file, `name` the name of the crate.
    pub fn parse(file: &SourceFile, src: &Vec<String>, name: String) -> (r: Result<Crate, Error>)
        ensures
            match spec_parse_items(file.items@, Seq::empty(), views(src@), file.attrs@) {
                Scanned::Good(found) => r matches Ok(root) && root@ == (CrateView {
                    modules: found,
                    name: name@,
                }) && spec_closed(root@),
                Scanned::Bad(f) => r matches Err(e) && reports(e, f),
            },
    {
        let top: Vec<String> = Vec::new();
        proof {
            assert(views(top@) =~= Seq::empty());
            crate::closed::lemma_scanned_crate_closed(
                file.items@,
                views(src@),
                file.attrs@,
                name@,
            );
        }
        match Module::parse_items(&file.items, &top, src, &file.attrs) {
            Ok(modules) => Ok(Crate { modules, name }),
            Err(e) => Err(e),
        }
    }

    /// The first module with the given path.
    pub fn find_module(&self, path: &[String]) -> (r: Option<usize>)
        ensures
            match spec_module_index(self@.modules, views(path@)) {
                Some(i) => r matches Some(j) && j as int == i && j < self.modules@.len(),
                None => r is None,
            },
    {
        let ghost all = self@.modules;
        let ghost wanted = views(path@);
        let mut i: usize = 0;
        while i < self.modules.len()
            invariant
                i <= self.modules.len(),
                all == module_views(self.modules@),
                wanted == views(path@),
                spec_module_index(all.take(i as int), wanted) is None,
            decreases self.modules.len() - i,
        {
            proof {
                assert(all.take(i as int + 1).drop_last() =~= all.take(i as int));
                lemma_module_index_stable(all, wanted, i as int + 1);
            }
            if same_path(self.modules[i].path.as_slice(), path) {
                return Some(i);
            }
            i += 1;
        }
        proof {
            assert(all.take(self.modules.len() as int) =~= all);
        }
        None
    }

    /// List of modules along a module path, in the order of appearance in
    /// the path: the module at its first segment, at its first two, and so
    /// on.
    pub fn modules_by_path<'a>(&'a self, path: &[String]) -> (r: Vec<&'a Module>)
        requires
            spec_has_ancestors(self@, views(path@)),
        ensures
            r@.len() == path@.len(),
            forall|k: int|
                0 <= k < r@.len() ==> (#[trigger] r@[k])@ == spec_ancestor(
                    self@,
                    views(path@),
                    k + 1,
                ),
    {
        let ghost wanted = views(path@);
        let mut out: Vec<&'a Module> = Vec::new();
        let mut idx: usize = 0;
        while idx < path.len()
            invariant
                idx <= path.len(),
                wanted == views(path@),
                spec_has_ancestors(self@, wanted),
                out@.len() == idx,
                forall|k: int|
                    0 <= k < out@.len() ==> (#[trigger] out@[k])@ == spec_ancestor(
                        self@,
                        wanted,
                        k + 1,
                    ),
            decreases path.len() - idx,
        {
            let subpath = vstd::slice::slice_subrange(path, 0, idx + 1);
            proof {
                assert(views(subpath@) =~= wanted.take(idx as int + 1));
                assert(spec_module_index(self@.modules, wanted.take(idx as int + 1)) is Some);
            }
            match self.find_module(subpath) {
                Some(found) => {
                    proof {
                        assert(self@.modules[found as int] == self.modules@[found as int]@);
                        assert(views(subpath@) == wanted.take(idx as int + 1));
                        assert(spec_module_index(self@.modules, wanted.take(idx as int + 1))
                            == Some(found as int));
                    }
                    out.push(&self.modules[found]);
                },
                None => {
                    proof {
                        assert(false);
                    }
                },
            }
            idx += 1;
        }
        out
    }
}

/// Whether every module of the tree has all modules above it in the tree.
pub open spec fn spec_closed(root: CrateView) -> bool {
    forall|i: int|
        0 <= i < root.modules.len() ==> spec_has_ancestors(root, (#[trigger] root.modules[i]).path)
}

impl Crate {
    /// Whether all modules above and including `path` are in the tree.
    pub fn has_ancestors(&self, path: &[String]) -> (r: bool)
        ensures
            r == spec_has_ancestors(self@, views(path@)),
    {
        let ghost wanted = views(path@);
        let mut length: usize = 0;
        while length < path.len()
            invariant
                length <= path.len(),
                wanted == views(path@),
                forall|k: int|
                    1 <= k <= length ==> (#[trigger] spec_module_index(
                        self@.modules,
                        wanted.take(k),
                    )) is Some,
            decreases path.len() - length,
        {
            let subpath = vstd::slice::slice_subrange(path, 0, length + 1);
            proof {
                assert(views(subpath@) =~= wanted.take(length as int + 1));
            }
            if self.find_module(subpath).is_none() {
                return false;
            }
            length += 1;
        }
        true
    }

    /// Whether every module of the tree has all modules above it in the
    /// tree, as the bridge code asks.
    pub fn is_closed(&self) -> (r: bool)
        ensures
            r == spec_closed(self@),
    {
        let mut i: usize = 0;
        while i < self.modules.len()
            invariant
                i <= self.modules.len(),
                forall|j: int|
                    0 <= j < i ==> spec_has_ancestors(self@, (#[trigger] self@.modules[j]).path),
            decreases self.modules.len() - i,
        {
            proof {
                assert(self@.modules[i as int] == self.modules@[i as int]@);
            }
            if !self.has_ancestors(self.modules[i].path.as_slice()) {
                return false;
            }
            i += 1;
        }
        true
    }
}

impl Function {
    /// Collects the guards of all modules above this function, from the
    /// outermost to the one that holds it, and then its own.
    pub fn collect_cfg<'a>(&'a self, module: &'a Module, root: &'a Crate) -> (r: Vec<
        &'a Attribute,
    >)
        requires
            spec_has_ancestors(root@, module@.path),
        ensures
            borrowed_views(r@) == spec_inherited_cfg(root@, module@.path, module@.path.len())
                + self@.cfg,
    {
        let ancestors = root.modules_by_path(module.path.as_slice());
        let ghost path = module@.path;
        let mut out: Vec<&'a Attribute> = Vec::new();
        proof {
            assert(borrowed_views(out@) =~= Seq::empty());
        }
        let mut k: usize = 0;
        while k < ancestors.len()
            invariant
                k <= ancestors.len(),
                path == module@.path,
                ancestors@.len() == path.len(),
                forall|j: int|
                    0 <= j < ancestors@.len() ==> (#[trigger] ancestors@[j])@ == spec_ancestor(
                        root@,
                        path,
                        j + 1,
                    ),
                borrowed_views(out@) == spec_inherited_cfg(root@, path, k as nat),
            decreases ancestors.len() - k,
        {
            let m: &'a Module = ancestors[k];
            let mut j: usize = 0;
            while j < m.cfg.len()
                invariant
                    j <= m.cfg.len(),
                    m@ == spec_ancestor(root@, path, k as int + 1),
                    borrowed_views(out@) == spec_inherited_cfg(root@, path, k as nat)
                        + attribute_views(m.cfg@).take(j as int),
                decreases m.cfg.len() - j,
            {
                proof {
                    assert(borrowed_views(out@.push(&m.cfg[j as int])) =~= borrowed_views(
                        out@,
                    ).push(m.cfg[j as int]@));
                    assert(attribute_views(m.cfg@).take(j as int).push(m.cfg[j as int]@)
                        =~= attribute_views(m.cfg@).take(j as int + 1));
                    assert((spec_inherited_cfg(root@, path, k as nat) + attribute_views(
                        m.cfg@,
                    ).take(j as int)).push(m.cfg[j as int]@) =~= spec_inherited_cfg(
                        root@,
                        path,
                        k as nat,
                    ) + attribute_views(m.cfg@).take(j as int + 1));
                }
                out.push(&m.cfg[j]);
                j += 1;
            }
            proof {
                assert(attribute_views(m.cfg@).take(m.cfg.len() as int) =~= m@.cfg);
            }
            k += 1;
        }
        let mut j: usize = 0;
        let ghost inherited = spec_inherited_cfg(root@, path, path.len());
        while j < self.cfg.len()
            invariant
                j <= self.cfg.len(),
                borrowed_views(out@) == inherited + attribute_views(self.cfg@).take(j as int),
            decreases self.cfg.len() - j,
        {
            proof {
                assert(borrowed_views(out@.push(&self.cfg[j as int])) =~= borrowed_views(
                    out@,
                ).push(self.cfg[j as int]@));
                assert((inherited + attribute_views(self.cfg@).take(j as int)).push(
                    self.cfg[j as int]@,
                ) =~= inherited + attribute_views(self.cfg@).take(j as int + 1));
            }
            out.push(&self.cfg[j]);
            j += 1;
        }
        proof {
            assert(attribute_views(self.cfg@).take(self.cfg.len() as int) =~= self@.cfg);
        }
        out
    }
}

/// Every guard that is picked out of a list of attributes has the form that
/// is written before its item, also where it was written inside it.
pub proof fn lemma_extract_cfg_outer(attrs: Seq<Attribute>)
    ensures
        forall|i: int|
            0 <= i < spec_extract_cfg(attrs).len() ==> (#[trigger] spec_extract_cfg(
                attrs,
            )[i]).style == AttrStyle::Outer,
    decreases attrs.len(),
{
    if attrs.len() > 0 {
        lemma_extract_cfg_outer(attrs.drop_last());
    }
}

/// The guards collected for a function end with its own, in their order,
/// and begin with those of the modules above it, the outermost first.
pub proof fn lemma_collect_cfg_order(root: CrateView, path: Seq<Seq<char>>, own: Seq<AttributeView>)
    requires
        path.len() >= 1,
    ensures
        spec_inherited_cfg(root, path, path.len()) + own == spec_inherited_cfg(
            root,
            path,
            (path.len() - 1) as nat,
        ) + spec_ancestor(root, path, path.len() as int).cfg + own,
        spec_inherited_cfg(root, path, 1) == spec_ancestor(root, path, 1).cfg,
{
    assert(spec_inherited_cfg(root, path, 0) =~= Seq::empty());
    assert(spec_inherited_cfg(root, path, 1) =~= spec_ancestor(root, path, 1).cfg) by {
        reveal_with_fuel(spec_inherited_cfg, 2);
    }
}

/// The path of a child module is the path of its parent with the child's
/// name behind it, and the child stands last among the modules found in
/// it.
pub proof fn lemma_child_module_path(
    module: ItemMod,
    parent_path: Seq<Seq<char>>,
    parent_file: Seq<Seq<char>>,
)
    requires
        !(module.content is Missing),
    ensures
        spec_parse_module(module, parent_path, parent_file) matches Scanned::Good(found)
            ==> found.len() >= 1 && found.last().path == parent_path.push(module.ident@),
{
}

} // verus!
