//! Walking the layers of nested wrapper types.

use vstd::prelude::*;
use crate::syntax::{unit_path, Argument, ArgumentView, Lit, Path, PathView, Type, TypeView};

verus! {

/// What went wrong while reading a piece of syntax.
#[derive(Debug, PartialEq)]
pub struct SyntaxError {
    /// What was expected.
    pub message: String,
    /// Line and column of the offending tokens, where known.
    pub position: Option<(usize, usize)>,
}

/// Whether two texts hold the same characters.
pub fn same_text(a: &str, b: &str) -> (r: bool)
    ensures
        r == (a@ == b@),
{
    String::from_str(a) == String::from_str(b)
}

/// The names of the wrappers that are looked through.
pub open spec fn spec_is_wrapper(ident: Seq<char>) -> bool {
    ident == "Arc"@ || ident == "Option"@ || ident == "Result"@ || ident == "Future"@
}

/// Whether `ident` names a wrapper that is looked through.
pub fn is_wrapper(ident: &str) -> (r: bool)
    ensures
        r == spec_is_wrapper(ident@),
{
    same_text(ident, "Arc") || same_text(ident, "Option") || same_text(ident, "Result")
        || same_text(ident, "Future")
}

/// The path that a type amounts to: a path type itself, the path without
/// segments for `()`, nothing for any other type.
pub open spec fn spec_type_as_path(t: TypeView) -> Option<PathView> {
    match t {
        TypeView::Path(p) => Some(p),
        TypeView::Tuple(n) => if n == 0 {
            Some(unit_path())
        } else {
            None
        },
        _ => None,
    }
}

/// The layer directly below `p`: the first generic argument of its last
/// segment, if that is a type or a binding of `Output` that amounts to a
/// path.
pub open spec fn spec_next_layer(p: PathView) -> Option<PathView> {
    if p.last is None {
        None
    } else {
        match p.first {
            ArgumentView::Type(t) => spec_type_as_path(*t),
            ArgumentView::Binding(name, t) => if name == "Output"@ {
                spec_type_as_path(*t)
            } else {
                None
            },
            _ => None,
        }
    }
}

/// How many layers lie below `p` at most.
pub open spec fn spec_depth(p: PathView) -> nat
    decreases p,
{
    match p.first {
        ArgumentView::Type(t) => match *t {
            TypeView::Path(q) => 1 + spec_depth(q),
            _ => 1,
        },
        ArgumentView::Binding(_, t) => match *t {
            TypeView::Path(q) => 1 + spec_depth(q),
            _ => 1,
        },
        _ => 0,
    }
}

/// The layers of `p` from the outermost inwards.
pub open spec fn spec_layers(p: PathView) -> Seq<PathView>
    decreases spec_depth(p),
{
    match spec_next_layer(p) {
        Some(q) => if spec_depth(q) < spec_depth(p) {
            seq![p] + spec_layers(q)
        } else {
            seq![p]
        },
        None => seq![p],
    }
}

/// The innermost type below the known wrappers: the first layer whose last
/// segment is no wrapper, or the path without segments if there is none.
pub open spec fn spec_unwrap(p: PathView) -> PathView
    decreases spec_depth(p),
{
    match p.last {
        None => unit_path(),
        Some(ident) => if !spec_is_wrapper(ident) {
            p
        } else {
            match spec_next_layer(p) {
                Some(q) => if spec_depth(q) < spec_depth(p) {
                    spec_unwrap(q)
                } else {
                    unit_path()
                },
                None => unit_path(),
            }
        },
    }
}

/// Each layer lies strictly deeper than the one above it.
pub proof fn lemma_next_layer_depth(p: PathView)
    ensures
        spec_next_layer(p) matches Some(q) ==> spec_depth(q) < spec_depth(p),
{
    assert(spec_depth(unit_path()) == 0);
}

pub fn assert_type_is_path(src: &Type) -> (r: Result<Path, SyntaxError>)
    ensures
        match spec_type_as_path(src@) {
            Some(p) => r matches Ok(path) && path@ == p,
            None => r matches Err(e) && e.message@ == "Expect a type path or a unit"@
                && e.position is None,
        },
{
    match src {
        Type::Path(path) => Ok(path.duplicate()),
        Type::Tuple(n) => {
            if *n == 0 {
                Ok(Path::unit())
            } else {
                Err(
                    SyntaxError {
                        message: String::from_str("Expect a type path or a unit"),
                        position: None,
                    },
                )
            }
        },
        _ => Err(
            SyntaxError {
                message: String::from_str("Expect a type path or a unit"),
                position: None,
            },
        ),
    }
}

pub fn assert_lit_is_litstr(src: &Lit) -> (r: Result<&String, SyntaxError>)
    ensures
        match *src {
            Lit::Str(s) => r matches Ok(v) && *v == s,
            Lit::Other => r matches Err(e) && e.message@ == "Expect a string literal"@
                && e.position is None,
        },
{
    match src {
        Lit::Str(litstr) => Ok(litstr),
        Lit::Other => Err(
            SyntaxError { message: String::from_str("Expect a string literal"), position: None },
        ),
    }
}

/// Steps through the layers of nested wrapper types.
///
/// For `Arc<Result<Option<String>>>` it yields `Arc<..>`, `Result<..>`,
/// `Option<..>` and `String`, in this order.
pub struct TypeLayerIter {
    cursor: Option<Path>,
}

impl TypeLayerIter {
    /// The layer that `next` yields, if any is left.
    pub closed spec fn cursor(&self) -> Option<PathView> {
        match self.cursor {
            Some(p) => Some(p@),
            None => None,
        }
    }

    pub fn new(ty: Path) -> (r: Self)
        ensures
            r.cursor() == Some(ty@),
    {
        Self { cursor: Some(ty) }
    }

    /// Yields the current layer and moves on to the one below it.
    pub fn next(&mut self) -> (r: Option<Path>)
        ensures
            match old(self).cursor() {
                Some(p) => r matches Some(layer) && layer@ == p && final(self).cursor()
                    == spec_next_layer(p),
                None => r is None && final(self).cursor() is None,
            },
    {
        let taken = self.cursor.take();
        if let Some(cursor) = taken {
            if cursor.last.is_some() {
                self.cursor = match &cursor.first {
                    Argument::Type(ty) => {
                        if let Ok(ty) = assert_type_is_path(ty) {
                            Some(ty)
                        } else {
                            None
                        }
                    },
                    Argument::Binding(name, ty) => {
                        if same_text(name.as_str(), "Output") {
                            if let Ok(ty) = assert_type_is_path(ty) {
                                Some(ty)
                            } else {
                                None
                            }
                        } else {
                            None
                        }
                    },
                    _ => None,
                };
                Some(cursor)
            } else {
                Some(cursor)
            }
        } else {
            None
        }
    }
}

/// All layers of `ty`, from the outermost inwards.
pub fn type_layers(ty: Path) -> (r: Vec<Path>)
    ensures
        r@.len() == spec_layers(ty@).len(),
        forall|i: int| 0 <= i < r@.len() ==> (#[trigger] r@[i])@ == spec_layers(ty@)[i],
{
    let ghost all = spec_layers(ty@);
    let mut iter = TypeLayerIter::new(ty);
    let mut out: Vec<Path> = Vec::new();
    loop
        invariant
            all == spec_layers(ty@),
            out@.len() <= all.len(),
            forall|i: int| 0 <= i < out@.len() ==> (#[trigger] out@[i])@ == all[i],
            match iter.cursor() {
                Some(p) => all =~= all.take(out@.len() as int) + spec_layers(p),
                None => out@.len() == all.len(),
            },
        decreases
            match iter.cursor() {
                Some(p) => spec_depth(p) + 1,
                None => 0,
            },
    {
        let ghost before = iter.cursor();
        match iter.next() {
            Some(layer) => {
                proof {
                    lemma_next_layer_depth(before->0);
                    let k = out@.len() as int;
                    assert(all[k] == spec_layers(before->0)[0]);
                    match iter.cursor() {
                        Some(q) => {
                            assert(all.take(k + 1) + spec_layers(q) =~= all.take(k) + spec_layers(
                                before->0,
                            ));
                        },
                        None => {
                            assert(spec_layers(before->0) =~= seq![before->0]);
                        },
                    }
                }
                out.push(layer);
            },
            None => {
                return out;
            },
        }
    }
}

/// Unwraps the actual type wrapped in layers of nested containers.
///
/// For `Arc<Result<Option<String>>>` the result is `String`.
pub fn unwrap_type(ty: Path) -> (r: Path)
    ensures
        r@ == spec_unwrap(ty@),
{
    let ghost goal = spec_unwrap(ty@);
    let mut iter = TypeLayerIter::new(ty);
    loop
        invariant
            goal == spec_unwrap(ty@),
            match iter.cursor() {
                Some(p) => goal == spec_unwrap(p),
                None => goal == unit_path(),
            },
        decreases
            match iter.cursor() {
                Some(p) => spec_depth(p) + 1,
                None => 0,
            },
    {
        let ghost before = iter.cursor();
        match iter.next() {
            Some(layer) => {
                proof {
                    lemma_next_layer_depth(before->0);
                }
                let stop = match &layer.last {
                    Some(ident) => !is_wrapper(ident.as_str()),
                    None => false,
                };
                if stop {
                    return layer;
                }
            },
            None => {
                return Path::unit();
            },
        }
    }
}

/// Unwrapping stops at what it returns: unwrapping twice changes nothing.
pub proof fn lemma_unwrap_idempotent(p: PathView)
    ensures
        spec_unwrap(spec_unwrap(p)) == spec_unwrap(p),
    decreases spec_depth(p),
{
    lemma_next_layer_depth(p);
    match p.last {
        None => {},
        Some(ident) => {
            if spec_is_wrapper(ident) {
                match spec_next_layer(p) {
                    Some(q) => {
                        lemma_unwrap_idempotent(q);
                    },
                    None => {},
                }
            }
        },
    }
}

/// A fallible result of an optional value unwraps to what the value
/// unwraps to: `Result<Option<T>>` and `T` have the same innermost type.
pub proof fn lemma_unwrap_result_option(result: PathView, option: PathView, inner: PathView)
    requires
        result.last == Some("Result"@),
        spec_next_layer(result) == Some(option),
        option.last == Some("Option"@),
        spec_next_layer(option) == Some(inner),
    ensures
        spec_unwrap(result) == spec_unwrap(inner),
        (inner.last matches Some(ident) && !spec_is_wrapper(ident)) ==> spec_unwrap(result)
            == inner,
{
    reveal_with_fuel(spec_unwrap, 3);
    lemma_next_layer_depth(result);
    lemma_next_layer_depth(option);
}

} // verus!
