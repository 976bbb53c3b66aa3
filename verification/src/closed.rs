//! Why the tree of a scanned crate holds, for each of its modules, all
//! modules above it.

use vstd::prelude::*;
use crate::ir::{CrateView, ModuleView};
use crate::scan::{spec_parse_items, spec_parse_module, spec_scan_items, Scanned};
use crate::syntax::{Attribute, Item, ItemMod, ModContent};
use crate::tree::{spec_closed, spec_has_ancestors, spec_module_index};

verus! {

/// Whether a module with the path `path` is among `modules`.
pub open spec fn spec_has_module(modules: Seq<ModuleView>, path: Seq<Seq<char>>) -> bool {
    exists|j: int| 0 <= j < modules.len() && (#[trigger] modules[j]).path == path
}

/// Whether every one of `modules` lies strictly below the module at
/// `base`.
pub open spec fn spec_under(modules: Seq<ModuleView>, base: Seq<Seq<char>>) -> bool {
    forall|i: int|
        0 <= i < modules.len() ==> (#[trigger] modules[i]).path.len() > base.len()
            && modules[i].path.take(base.len() as int) == base
}

/// Whether `modules` hold, for each of them, every module between it and
/// the module at `base`.
pub open spec fn spec_chained(modules: Seq<ModuleView>, base: Seq<Seq<char>>) -> bool {
    forall|i: int, k: int|
        0 <= i < modules.len() && base.len() < k <= modules[i].path.len() ==> spec_has_module(
            modules,
            #[trigger] modules[i].path.take(k),
        )
}

/// A module that is among some modules is found by its path.
proof fn lemma_found_by_path(modules: Seq<ModuleView>, path: Seq<Seq<char>>)
    requires
        spec_has_module(modules, path),
    ensures
        spec_module_index(modules, path) is Some,
    decreases modules.len(),
{
    let j = choose|j: int| 0 <= j < modules.len() && (#[trigger] modules[j]).path == path;
    if j < modules.len() - 1 {
        assert(modules.drop_last()[j] == modules[j]);
        lemma_found_by_path(modules.drop_last(), path);
    }
}

/// What is among some modules is among them and more.
proof fn lemma_has_module_grows(
    left: Seq<ModuleView>,
    middle: Seq<ModuleView>,
    right: Seq<ModuleView>,
    path: Seq<Seq<char>>,
)
    requires
        spec_has_module(middle, path),
    ensures
        spec_has_module(left + middle + right, path),
{
    let j = choose|j: int| 0 <= j < middle.len() && (#[trigger] middle[j]).path == path;
    let all = left + middle + right;
    assert(all[left.len() + j] == middle[j]);
}

/// Modules below one base, put behind others below it, are below it and
/// hold all modules in between.
proof fn lemma_concat(first: Seq<ModuleView>, second: Seq<ModuleView>, base: Seq<Seq<char>>)
    requires
        spec_under(first, base),
        spec_chained(first, base),
        spec_under(second, base),
        spec_chained(second, base),
    ensures
        spec_under(first + second, base),
        spec_chained(first + second, base),
{
    let all = first + second;
    let none = Seq::<ModuleView>::empty();
    assert forall|i: int| 0 <= i < all.len() implies (#[trigger] all[i]).path.len() > base.len()
        && all[i].path.take(base.len() as int) == base by {
        if i < first.len() {
            assert(all[i] == first[i]);
        } else {
            assert(all[i] == second[i - first.len()]);
        }
    }
    assert forall|i: int, k: int|
        0 <= i < all.len() && base.len() < k <= all[i].path.len() implies spec_has_module(
        all,
        #[trigger] all[i].path.take(k),
    ) by {
        if i < first.len() {
            assert(all[i] == first[i]);
            assert(spec_has_module(first, first[i].path.take(k)));
            lemma_has_module_grows(none, first, second, first[i].path.take(k));
            assert(none + first + second =~= all);
        } else {
            let m = i - first.len();
            assert(all[i] == second[m]);
            assert(spec_has_module(second, second[m].path.take(k)));
            lemma_has_module_grows(first, second, none, second[m].path.take(k));
            assert(first + second + none =~= all);
        }
    }
}

/// The modules found among the first `n` items of a block lie below the
/// module of the block and hold all modules in between.
proof fn lemma_scan_chained(
    items: Seq<Item>,
    n: nat,
    path: Seq<Seq<char>>,
    file: Seq<Seq<char>>,
)
    ensures
        spec_scan_items(items, n, path, file) matches Scanned::Good(found) ==> spec_under(
            found.0,
            path,
        ) && spec_chained(found.0, path),
    decreases items, n,
{
    if n == 0 || n > items.len() {
    } else {
        lemma_scan_chained(items, (n - 1) as nat, path, file);
        match spec_scan_items(items, (n - 1) as nat, path, file) {
            Scanned::Bad(_) => {},
            Scanned::Good((modules, functions)) => match items[n - 1] {
                Item::Mod(inner) => {
                    lemma_module_chained(inner, path, file);
                    match spec_parse_module(inner, path, file) {
                        Scanned::Good(found) => {
                            lemma_concat(modules, found, path);
                        },
                        Scanned::Bad(_) => {},
                    }
                },
                _ => {},
            },
        }
    }
}

/// The modules found in a block, the module of the block among them, hold
/// for each of them all modules from the block's on.
proof fn lemma_items_chained(
    items: Seq<Item>,
    path: Seq<Seq<char>>,
    file: Seq<Seq<char>>,
    attrs: Seq<Attribute>,
)
    ensures
        spec_parse_items(items, path, file, attrs) matches Scanned::Good(found) ==> found.len()
            >= 1 && found.last().path == path && spec_under(found.drop_last(), path)
            && spec_chained(found.drop_last(), path),
    decreases items, items.len() + 1,
{
    lemma_scan_chained(items, items.len(), path, file);
    match spec_parse_items(items, path, file, attrs) {
        Scanned::Good(found) => {
            let below = spec_scan_items(items, items.len(), path, file)->Good_0.0;
            assert(found.drop_last() =~= below);
        },
        Scanned::Bad(_) => {},
    }
}

/// The modules found in a child module and below it lie below its parent
/// and hold all modules in between.
proof fn lemma_module_chained(
    module: ItemMod,
    parent_path: Seq<Seq<char>>,
    parent_file: Seq<Seq<char>>,
)
    ensures
        spec_parse_module(module, parent_path, parent_file) matches Scanned::Good(found)
            ==> spec_under(found, parent_path) && spec_chained(found, parent_path),
    decreases module, 0nat,
{
    let child = parent_path.push(module.ident@);
    match spec_parse_module(module, parent_path, parent_file) {
        Scanned::Bad(_) => {},
        Scanned::Good(found) => {
            match module.content {
                ModContent::Inline(items) => {
                    lemma_items_chained(items@, child, parent_file, module.attrs@);
                },
                ModContent::Loaded(file, attrs, items) => {
                    lemma_items_chained(
                        items@,
                        child,
                        file@.map_values(|s: String| s@),
                        attrs@,
                    );
                },
                ModContent::Missing => {},
            }
            if found.len() > 0 {
                lemma_step_up(found, parent_path, module.ident@);
            }
        },
    }
}

/// Modules below a child, with the child behind them, lie below its parent.
proof fn lemma_step_up(found: Seq<ModuleView>, parent: Seq<Seq<char>>, name: Seq<char>)
    requires
        found.len() >= 1,
        found.last().path == parent.push(name),
        spec_under(found.drop_last(), parent.push(name)),
        spec_chained(found.drop_last(), parent.push(name)),
    ensures
        spec_under(found, parent),
        spec_chained(found, parent),
{
    let child = parent.push(name);
    let below = found.drop_last();
    let last = found.len() - 1;
    assert(child.take(parent.len() as int) =~= parent);
    assert forall|i: int| 0 <= i < found.len() implies (#[trigger] found[i]).path.len()
        > parent.len() && found[i].path.take(parent.len() as int) == parent by {
        if i < last {
            assert(found[i] == below[i]);
            assert(below[i].path.take(child.len() as int) == child);
            assert(below[i].path.take(parent.len() as int) =~= below[i].path.take(
                child.len() as int,
            ).take(parent.len() as int));
        }
    }
    assert forall|i: int, k: int|
        0 <= i < found.len() && parent.len() < k <= found[i].path.len() implies spec_has_module(
        found,
        #[trigger] found[i].path.take(k),
    ) by {
        if i < last && k > child.len() {
            assert(found[i] == below[i]);
            assert(spec_has_module(below, below[i].path.take(k)));
            lemma_has_module_grows(
                Seq::<ModuleView>::empty(),
                below,
                seq![found.last()],
                below[i].path.take(k),
            );
            assert(Seq::<ModuleView>::empty() + below + seq![found.last()] =~= found);
        } else {
            if i < last {
                assert(found[i] == below[i]);
                assert(below[i].path.take(child.len() as int) == child);
            } else {
                assert(found[i].path.take(k) =~= child);
            }
            assert(found[last].path == found[i].path.take(k));
        }
    }
}

/// The tree of a scanned crate holds, for each of its modules, all modules
/// above it.
pub proof fn lemma_scanned_crate_closed(
    items: Seq<Item>,
    file: Seq<Seq<char>>,
    attrs: Seq<Attribute>,
    name: Seq<char>,
)
    ensures
        spec_parse_items(items, Seq::empty(), file, attrs) matches Scanned::Good(found)
            ==> spec_closed(CrateView { modules: found, name }),
{
    let top = Seq::<Seq<char>>::empty();
    lemma_items_chained(items, top, file, attrs);
    match spec_parse_items(items, top, file, attrs) {
        Scanned::Bad(_) => {},
        Scanned::Good(found) => {
            let root = CrateView { modules: found, name };
            let below = found.drop_last();
            assert forall|i: int| 0 <= i < found.len() implies spec_has_ancestors(
                root,
                (#[trigger] found[i]).path,
            ) by {
                let path = found[i].path;
                assert forall|k: int| 1 <= k <= path.len() implies (#[trigger] spec_module_index(
                    found,
                    path.take(k),
                )) is Some by {
                    if i < found.len() - 1 {
                        assert(found[i] == below[i]);
                        assert(spec_has_module(below, below[i].path.take(k)));
                        lemma_has_module_grows(
                            Seq::<ModuleView>::empty(),
                            below,
                            seq![found.last()],
                            path.take(k),
                        );
                        assert(Seq::<ModuleView>::empty() + below + seq![found.last()] =~= found);
                        lemma_found_by_path(found, path.take(k));
                    }
                }
            }
        },
    }
}

} // verus!
