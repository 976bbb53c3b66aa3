//! The parts of a parsed source tree that the generator reads.
//!
//! A caller that holds a full syntax tree fills these types in; they keep
//! the identifiers, the attribute arguments, the nesting of generic wrappers
//! and the token text of types, and nothing else.

use vstd::prelude::*;

verus! {

/// A type as written in a signature.
#[derive(Debug, PartialEq)]
pub enum Type {
    /// A path such as `std::string::String` or `Option<T>`.
    Path(Path),
    /// `&T` or `&mut T`.
    Reference(Box<Type>),
    /// A tuple with this many elements; `()` has none.
    Tuple(usize),
    /// Any other form of type.
    Other,
}

/// The first generic argument of a path's last segment.
#[derive(Debug, PartialEq)]
pub enum Argument {
    /// The segment has no angle brackets, or they are empty.
    Absent,
    /// A type, as in `Option<T>`.
    Type(Box<Type>),
    /// A binding, as in `Future<Output = T>`.
    Binding(String, Box<Type>),
    /// A lifetime, a constant or a constraint.
    Other,
}

/// A type path.
#[derive(Debug, PartialEq)]
pub struct Path {
    /// The segments as token text, such as `std :: sync :: Arc < T >`.
    pub tokens: String,
    /// Whether the path is written with a leading `::`.
    pub leading_colon: bool,
    /// The identifier of the last segment; `None` for the path without
    /// segments, which stands for `()`.
    pub last: Option<String>,
    /// The first generic argument of the last segment.
    pub first: Argument,
}

/// Mathematical value of a [`Type`].
pub enum TypeView {
    Path(PathView),
    Reference(Box<TypeView>),
    Tuple(nat),
    Other,
}

/// Mathematical value of an [`Argument`].
pub enum ArgumentView {
    Absent,
    Type(Box<TypeView>),
    Binding(Seq<char>, Box<TypeView>),
    Other,
}

/// Mathematical value of a [`Path`].
pub struct PathView {
    pub tokens: Seq<char>,
    pub leading_colon: bool,
    pub last: Option<Seq<char>>,
    pub first: ArgumentView,
}

pub open spec fn type_view(t: Type) -> TypeView
    decreases t,
{
    match t {
        Type::Path(p) => TypeView::Path(path_view(p)),
        Type::Reference(inner) => TypeView::Reference(Box::new(type_view(*inner))),
        Type::Tuple(n) => TypeView::Tuple(n as nat),
        Type::Other => TypeView::Other,
    }
}

pub open spec fn argument_view(a: Argument) -> ArgumentView
    decreases a,
{
    match a {
        Argument::Absent => ArgumentView::Absent,
        Argument::Type(t) => ArgumentView::Type(Box::new(type_view(*t))),
        Argument::Binding(name, t) => ArgumentView::Binding(name@, Box::new(type_view(*t))),
        Argument::Other => ArgumentView::Other,
    }
}

pub open spec fn path_view(p: Path) -> PathView
    decreases p,
{
    PathView {
        tokens: p.tokens@,
        leading_colon: p.leading_colon,
        last: match p.last {
            Some(s) => Some(s@),
            None => None,
        },
        first: argument_view(p.first),
    }
}

impl View for Type {
    type V = TypeView;

    open spec fn view(&self) -> TypeView {
        type_view(*self)
    }
}

impl View for Argument {
    type V = ArgumentView;

    open spec fn view(&self) -> ArgumentView {
        argument_view(*self)
    }
}

impl View for Path {
    type V = PathView;

    open spec fn view(&self) -> PathView {
        path_view(*self)
    }
}

/// The path without segments, which stands for `()`.
pub open spec fn unit_path() -> PathView {
    PathView {
        tokens: Seq::empty(),
        leading_colon: false,
        last: None,
        first: ArgumentView::Absent,
    }
}

impl Type {
    /// A copy of this type.
    pub fn duplicate(&self) -> (r: Type)
        ensures
            r@ == self@,
        decreases self,
    {
        match self {
            Type::Path(p) => Type::Path(p.duplicate()),
            Type::Reference(inner) => Type::Reference(Box::new(inner.duplicate())),
            Type::Tuple(n) => Type::Tuple(*n),
            Type::Other => Type::Other,
        }
    }
}

impl Argument {
    /// A copy of this argument.
    pub fn duplicate(&self) -> (r: Argument)
        ensures
            r@ == self@,
        decreases self,
    {
        match self {
            Argument::Absent => Argument::Absent,
            Argument::Type(t) => Argument::Type(Box::new(t.duplicate())),
            Argument::Binding(name, t) => Argument::Binding(name.clone(), Box::new(t.duplicate())),
            Argument::Other => Argument::Other,
        }
    }
}

impl Path {
    /// The path without segments.
    pub fn unit() -> (r: Path)
        ensures
            r@ == unit_path(),
    {
        Path { tokens: String::new(), leading_colon: false, last: None, first: Argument::Absent }
    }

    /// A path of one plain identifier, such as `bool`.
    pub fn ident(name: &str) -> (r: Path)
        ensures
            r@ == (PathView {
                tokens: name@,
                leading_colon: false,
                last: Some(name@),
                first: ArgumentView::Absent,
            }),
    {
        Path {
            tokens: String::from_str(name),
            leading_colon: false,
            last: Some(String::from_str(name)),
            first: Argument::Absent,
        }
    }

    /// A copy of this path.
    pub fn duplicate(&self) -> (r: Path)
        ensures
            r@ == self@,
        decreases self,
    {
        Path {
            tokens: self.tokens.clone(),
            leading_colon: self.leading_colon,
            last: match &self.last {
                Some(s) => Some(s.clone()),
                None => None,
            },
            first: self.first.duplicate(),
        }
    }
}

/// Whether an attribute is written before its item or inside it.
#[derive(Debug, Clone, Copy, PartialEq, Eq, Structural)]
pub enum AttrStyle {
    /// `#[..]`, applied to the item that follows.
    Outer,
    /// `#![..]`, applied to the item that encloses it.
    Inner,
}

/// A literal.
#[derive(Debug, PartialEq)]
pub enum Lit {
    /// A string literal, by its value.
    Str(String),
    /// Any other literal.
    Other,
}

/// An attribute read as a meta item.
#[derive(Debug, PartialEq)]
pub enum Meta {
    /// A bare path, as in `#[test]`.
    Path,
    /// A list, as in `#[derive(Debug)]`.
    List,
    /// A name and a value, as in `#[path = "a.rs"]`.
    NameValue(Lit),
    /// The attribute is no meta item; the text says why.
    Invalid(String),
}

/// One of the comma-separated arguments of an attribute.
#[derive(Debug, PartialEq)]
pub enum NestedMeta {
    /// `name = value`; the name is `None` where it is no single identifier.
    NameValue(Option<String>, Lit),
    /// Any other argument.
    Other,
}

/// An attribute.
#[derive(Debug, PartialEq)]
pub struct Attribute {
    pub style: AttrStyle,
    /// The segments of the attribute's path.
    pub path: Vec<String>,
    /// What follows the path, as token text.
    pub tokens: String,
    /// The attribute as a meta item.
    pub meta: Meta,
    /// The attribute's parenthesized arguments; `None` where what follows
    /// the path is no such list.
    pub args: Option<Vec<NestedMeta>>,
}

/// What of an attribute is written out again.
pub struct AttributeView {
    pub style: AttrStyle,
    pub path: Seq<Seq<char>>,
    pub tokens: Seq<char>,
}

impl View for Attribute {
    type V = AttributeView;

    open spec fn view(&self) -> AttributeView {
        AttributeView {
            style: self.style,
            path: self.path@.map_values(|s: String| s@),
            tokens: self.tokens@,
        }
    }
}

/// The views of a sequence of attributes.
pub open spec fn attribute_views(v: Seq<Attribute>) -> Seq<AttributeView> {
    v.map_values(|a: Attribute| a@)
}

/// A parameter of a function.
#[derive(Debug, PartialEq)]
pub enum FnArg {
    /// A parameter with a type.
    Typed(Vec<Attribute>, Type),
    /// `self` in one of its forms.
    Receiver,
}

/// The return type of a function.
#[derive(Debug, PartialEq)]
pub enum ReturnType {
    /// Nothing is written: the function returns `()`.
    Default,
    /// The type behind `->`.
    Type(Type),
}

/// A free-standing function.
#[derive(Debug, PartialEq)]
pub struct ItemFn {
    pub attrs: Vec<Attribute>,
    pub ident: String,
    /// Whether the function is declared `async`.
    pub asyncness: bool,
    pub inputs: Vec<FnArg>,
    pub output: ReturnType,
}

/// The body of a module.
#[derive(Debug, PartialEq)]
pub enum ModContent {
    /// The items stand between braces in the parent's file.
    Inline(Vec<Item>),
    /// The items were read from the module's own file, whose path and inner
    /// attributes are kept with them.
    Loaded(Vec<String>, Vec<Attribute>, Vec<Item>),
    /// The module's file could not be read.
    Missing,
}

/// A module declaration.
#[derive(Debug, PartialEq)]
pub struct ItemMod {
    pub attrs: Vec<Attribute>,
    pub ident: String,
    pub content: ModContent,
}

/// An item of a module.
#[derive(Debug, PartialEq)]
pub enum Item {
    Fn(ItemFn),
    Mod(ItemMod),
    /// Any other item.
    Other,
}

/// Whether two paths hold the same segments.
pub fn same_path(a: &[String], b: &[String]) -> (r: bool)
    ensures
        r == (a@.map_values(|s: String| s@) == b@.map_values(|s: String| s@)),
{
    let ghost va = a@.map_values(|s: String| s@);
    let ghost vb = b@.map_values(|s: String| s@);
    if a.len() != b.len() {
        assert(va.len() != vb.len());
        return false;
    }
    let mut i: usize = 0;
    while i < a.len()
        invariant
            a.len() == b.len(),
            i <= a.len(),
            va == a@.map_values(|s: String| s@),
            vb == b@.map_values(|s: String| s@),
            forall|j: int| 0 <= j < i ==> va[j] == vb[j],
        decreases a.len() - i,
    {
        if a[i] != b[i] {
            assert(va[i as int] != vb[i as int]);
            return false;
        }
        i += 1;
    }
    assert(va =~= vb);
    true
}

impl Attribute {
    /// A copy of what of this attribute is written out again, in the given
    /// style.
    pub fn restyled(&self, style: AttrStyle) -> (r: Attribute)
        ensures
            r@ == (AttributeView { style, path: self@.path, tokens: self@.tokens }),
    {
        let mut path: Vec<String> = Vec::new();
        let mut i: usize = 0;
        while i < self.path.len()
            invariant
                i <= self.path.len(),
                path@ == self.path@.take(i as int),
            decreases self.path.len() - i,
        {
            path.push(self.path[i].clone());
            proof {
                assert(self.path@.take(i as int).push(self.path@[i as int]) =~= self.path@.take(
                    i as int + 1,
                ));
            }
            i += 1;
        }
        proof {
            assert(self.path@.take(self.path.len() as int) =~= self.path@);
        }
        Attribute { style, path, tokens: self.tokens.clone(), meta: Meta::List, args: None }
    }
}

} // verus!
