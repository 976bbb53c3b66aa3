//! Marshaling rules and their inference from the text of a type.

use vstd::prelude::*;
use crate::syntax::{Path, PathView};
use crate::util::{same_text, spec_is_wrapper, spec_next_layer, spec_unwrap, lemma_unwrap_result_option};

verus! {

/// Specifies how a value crosses the boundary between the native and the
/// managed side.
#[derive(Debug, PartialEq)]
pub enum MarshalingRule {
    /// `bool`.
    Bool,
    /// A byte buffer, as opposed to a collection of `u8`.
    Bytes,
    /// `i8`.
    I8,
    /// `i32`.
    I32,
    /// `i64`.
    I64,
    /// A sequence that is pulled item by item; it lives in the handle pool.
    Iterator(Box<MarshalingRule>),
    /// Heap-allocated data behind an opaque handle.
    Object,
    /// A type with structural serialization, by its qualified path.
    Struct(String),
    /// `String`.
    String,
    /// `()`.
    Unit,
}

/// Mathematical value of a [`MarshalingRule`].
pub enum RuleView {
    Bool,
    Bytes,
    I8,
    I32,
    I64,
    Iterator(Box<RuleView>),
    Object,
    Struct(Seq<char>),
    String,
    Unit,
}

pub open spec fn rule_view(r: MarshalingRule) -> RuleView
    decreases r,
{
    match r {
        MarshalingRule::Bool => RuleView::Bool,
        MarshalingRule::Bytes => RuleView::Bytes,
        MarshalingRule::I8 => RuleView::I8,
        MarshalingRule::I32 => RuleView::I32,
        MarshalingRule::I64 => RuleView::I64,
        MarshalingRule::Iterator(item) => RuleView::Iterator(Box::new(rule_view(*item))),
        MarshalingRule::Object => RuleView::Object,
        MarshalingRule::Struct(path) => RuleView::Struct(path@),
        MarshalingRule::String => RuleView::String,
        MarshalingRule::Unit => RuleView::Unit,
    }
}

impl View for MarshalingRule {
    type V = RuleView;

    open spec fn view(&self) -> RuleView {
        rule_view(*self)
    }
}

/// Whether a character is white space, as `char::is_whitespace` tells it.
pub uninterp spec fn spec_is_whitespace(c: char) -> bool;

/// `char::is_whitespace` depends on the character alone.
pub assume_specification[ char::is_whitespace ](c: char) -> (r: bool)
    ensures
        r == spec_is_whitespace(c),
;

/// Whether a text holds nothing but white space.
pub open spec fn spec_is_blank(text: Seq<char>) -> bool {
    forall|i: int| 0 <= i < text.len() ==> spec_is_whitespace(#[trigger] text[i])
}

/// Whether a text holds nothing but white space.
pub fn is_blank(text: &str) -> (r: bool)
    ensures
        r == spec_is_blank(text@),
{
    let n = text.unicode_len();
    let mut i: usize = 0;
    while i < n
        invariant
            n == text@.len(),
            i <= n,
            forall|j: int| 0 <= j < i ==> spec_is_whitespace(#[trigger] text@[j]),
        decreases n - i,
    {
        if !text.get_char(i).is_whitespace() {
            return false;
        }
        i += 1;
    }
    true
}

/// The rule that the token text of an unwrapped type stands for.
pub open spec fn spec_infer(text: Seq<char>) -> RuleView {
    if text == "bool"@ {
        RuleView::Bool
    } else if text == "i32"@ {
        RuleView::I32
    } else if text == "i64"@ {
        RuleView::I64
    } else if text == "i8"@ {
        RuleView::I8
    } else if spec_is_blank(text) {
        RuleView::Unit
    } else if text == "String"@ || text == "std :: string :: String"@ || text
        == ":: std :: string :: String"@ {
        RuleView::String
    } else if text == "ByteBuf"@ || text == "serde_bytes :: ByteBuf"@ || text
        == ":: serde_bytes :: ByteBuf"@ {
        RuleView::Bytes
    } else {
        RuleView::Struct(text)
    }
}

/// The rule by its plain name.
pub open spec fn spec_rule_by_name(text: Seq<char>) -> Option<RuleView> {
    if text == "Bool"@ {
        Some(RuleView::Bool)
    } else if text == "Bytes"@ {
        Some(RuleView::Bytes)
    } else if text == "I8"@ {
        Some(RuleView::I8)
    } else if text == "I32"@ {
        Some(RuleView::I32)
    } else if text == "I64"@ {
        Some(RuleView::I64)
    } else if text == "Object"@ {
        Some(RuleView::Object)
    } else if text == "Struct"@ {
        Some(RuleView::Struct(Seq::empty()))
    } else if text == "String"@ {
        Some(RuleView::String)
    } else if text == "Unit"@ {
        Some(RuleView::Unit)
    } else {
        None
    }
}

/// Whether `text` is `open`, something, and a closing `>`.
pub open spec fn spec_bracketed(text: Seq<char>, open: Seq<char>) -> bool {
    text.len() > open.len() && text.subrange(0, open.len() as int) == open && text.last() == '>'
}

/// What stands between `open` and the closing `>`.
pub open spec fn spec_bracket_body(text: Seq<char>, open: Seq<char>) -> Seq<char> {
    text.subrange(open.len() as int, text.len() - 1)
}

/// The rule that an explicit annotation names: a plain name,
/// `Iterator<rule>`, or `Struct<path>`, which may also be written
/// `Serde<path>`.
pub open spec fn spec_parse_rule(text: Seq<char>) -> Option<RuleView>
    decreases text.len(),
{
    if spec_rule_by_name(text) is Some {
        spec_rule_by_name(text)
    } else if spec_bracketed(text, "Iterator<"@) {
        match spec_parse_rule(spec_bracket_body(text, "Iterator<"@)) {
            Some(item) => Some(RuleView::Iterator(Box::new(item))),
            None => None,
        }
    } else if spec_bracketed(text, "Struct<"@) {
        Some(RuleView::Struct(spec_bracket_body(text, "Struct<"@)))
    } else if spec_bracketed(text, "Serde<"@) {
        Some(RuleView::Struct(spec_bracket_body(text, "Serde<"@)))
    } else {
        None
    }
}

/// What stands between `open` and a closing `>`, if `text` has that shape.
fn bracket_body<'a>(text: &'a str, open: &str) -> (r: Option<&'a str>)
    ensures
        match r {
            Some(body) => spec_bracketed(text@, open@) && body@ == spec_bracket_body(
                text@,
                open@,
            ),
            None => !spec_bracketed(text@, open@),
        },
{
    let n = text.unicode_len();
    let k = open.unicode_len();
    if n > k && same_text(text.substring_char(0, k), open) && text.get_char(n - 1) == '>' {
        Some(text.substring_char(k, n - 1))
    } else {
        None
    }
}

impl MarshalingRule {
    /// A copy of this rule.
    pub fn duplicate(&self) -> (r: MarshalingRule)
        ensures
            r@ == self@,
        decreases self,
    {
        match self {
            MarshalingRule::Bool => MarshalingRule::Bool,
            MarshalingRule::Bytes => MarshalingRule::Bytes,
            MarshalingRule::I8 => MarshalingRule::I8,
            MarshalingRule::I32 => MarshalingRule::I32,
            MarshalingRule::I64 => MarshalingRule::I64,
            MarshalingRule::Iterator(item) => MarshalingRule::Iterator(Box::new(item.duplicate())),
            MarshalingRule::Object => MarshalingRule::Object,
            MarshalingRule::Struct(path) => MarshalingRule::Struct(path.clone()),
            MarshalingRule::String => MarshalingRule::String,
            MarshalingRule::Unit => MarshalingRule::Unit,
        }
    }

    /// Infers the rule from the token text of an unwrapped type.
    pub fn infer_text(text: &str) -> (r: MarshalingRule)
        ensures
            r@ == spec_infer(text@),
    {
        if same_text(text, "bool") {
            MarshalingRule::Bool
        } else if same_text(text, "i32") {
            MarshalingRule::I32
        } else if same_text(text, "i64") {
            MarshalingRule::I64
        } else if same_text(text, "i8") {
            MarshalingRule::I8
        } else if is_blank(text) {
            MarshalingRule::Unit
        } else if same_text(text, "String") || same_text(text, "std :: string :: String")
            || same_text(text, ":: std :: string :: String") {
            MarshalingRule::String
        } else if same_text(text, "ByteBuf") || same_text(text, "serde_bytes :: ByteBuf")
            || same_text(text, ":: serde_bytes :: ByteBuf") {
            MarshalingRule::Bytes
        } else {
            MarshalingRule::Struct(String::from_str(text))
        }
    }

    /// Infers the rule of an unwrapped type.
    pub fn infer(t: &Path) -> (r: MarshalingRule)
        ensures
            r@ == spec_infer(t@.tokens),
    {
        Self::infer_text(t.tokens.as_str())
    }

    /// The rule with the given plain name.
    pub fn from_name(name: &str) -> (r: Option<MarshalingRule>)
        ensures
            match spec_rule_by_name(name@) {
                Some(rule) => r matches Some(found) && found@ == rule,
                None => r is None,
            },
    {
        if same_text(name, "Bool") {
            Some(MarshalingRule::Bool)
        } else if same_text(name, "Bytes") {
            Some(MarshalingRule::Bytes)
        } else if same_text(name, "I8") {
            Some(MarshalingRule::I8)
        } else if same_text(name, "I32") {
            Some(MarshalingRule::I32)
        } else if same_text(name, "I64") {
            Some(MarshalingRule::I64)
        } else if same_text(name, "Object") {
            Some(MarshalingRule::Object)
        } else if same_text(name, "Struct") {
            Some(MarshalingRule::Struct(String::new()))
        } else if same_text(name, "String") {
            Some(MarshalingRule::String)
        } else if same_text(name, "Unit") {
            Some(MarshalingRule::Unit)
        } else {
            None
        }
    }

    /// Reads an explicit rule annotation.
    pub fn parse(text: &str) -> (r: Option<MarshalingRule>)
        ensures
            match spec_parse_rule(text@) {
                Some(rule) => r matches Some(found) && found@ == rule,
                None => r is None,
            },
        decreases text@.len(),
    {
        if let Some(rule) = Self::from_name(text) {
            return Some(rule);
        }
        if let Some(body) = bracket_body(text, "Iterator<") {
            return match Self::parse(body) {
                Some(item) => Some(MarshalingRule::Iterator(Box::new(item))),
                None => None,
            };
        }
        if let Some(body) = bracket_body(text, "Struct<") {
            return Some(MarshalingRule::Struct(String::from_str(body)));
        }
        if let Some(body) = bracket_body(text, "Serde<") {
            return Some(MarshalingRule::Struct(String::from_str(body)));
        }
        None
    }
}

/// The rule inferred for a type: that of its innermost type.
pub open spec fn spec_infer_type(p: PathView) -> RuleView {
    spec_infer(spec_unwrap(p).tokens)
}

/// Inference sees through a fallible result of an optional value: the rule
/// of `Result<Option<T>>` is the rule of `T`; where `T` is no wrapper
/// itself, it is read off the text of `T`.
pub proof fn lemma_infer_result_option(result: PathView, option: PathView, inner: PathView)
    requires
        result.last == Some("Result"@),
        spec_next_layer(result) == Some(option),
        option.last == Some("Option"@),
        spec_next_layer(option) == Some(inner),
    ensures
        spec_infer_type(result) == spec_infer_type(inner),
        (inner.last matches Some(ident) && !spec_is_wrapper(ident)) ==> spec_infer_type(result)
            == spec_infer(inner.tokens),
{
    lemma_unwrap_result_option(result, option, inner);
}

} // verus!
