//! Reading the arguments of the marker attributes.

use vstd::prelude::*;
use crate::rule::{spec_parse_rule, MarshalingRule, RuleView};
use crate::syntax::{same_path, Attribute, Lit, Meta, NestedMeta};
use crate::util::{same_text, SyntaxError};

verus! {

/// The arguments of the attribute that marks an exported function. Both are
/// optional.
#[derive(Debug, PartialEq)]
pub struct Fun {
    /// Name under which the function is exported; empty for its own name.
    pub name: String,
    /// Marshaling rule for the return type.
    pub marshal: Option<MarshalingRule>,
}

/// Mathematical value of a [`Fun`].
pub struct FunView {
    pub name: Seq<char>,
    pub marshal: Option<RuleView>,
}

impl View for Fun {
    type V = FunView;

    open spec fn view(&self) -> FunView {
        FunView {
            name: self.name@,
            marshal: match self.marshal {
                Some(r) => Some(r@),
                None => None,
            },
        }
    }
}

/// The outcome of reading a piece of syntax: a value or the message of the
/// error.
pub enum Parsed<T> {
    Good(T),
    Bad(Seq<char>),
}

/// An error made by this library with the given message.
pub open spec fn is_error(e: SyntaxError, message: Seq<char>) -> bool {
    e.message@ == message && e.position is None
}

pub fn syntax_error(message: &str) -> (e: SyntaxError)
    ensures
        is_error(e, message@),
{
    SyntaxError { message: String::from_str(message), position: None }
}

/// Whether an attribute's path has exactly the segments `name`.
pub open spec fn spec_named(attr: Attribute, name: Seq<Seq<char>>) -> bool {
    attr.path@.map_values(|s: String| s@) == name
}

/// The first attribute with the path `name`, by its index.
pub open spec fn spec_first_named(attrs: Seq<Attribute>, name: Seq<Seq<char>>) -> Option<int>
    decreases attrs.len(),
{
    if attrs.len() == 0 {
        None
    } else {
        match spec_first_named(attrs.drop_last(), name) {
            Some(i) => Some(i),
            None => if spec_named(attrs.last(), name) {
                Some(attrs.len() - 1)
            } else {
                None
            },
        }
    }
}

/// Finds the first attribute with the path `name`.
pub fn first_named<'a>(attrs: &'a Vec<Attribute>, name: &[String]) -> (r: Option<&'a Attribute>)
    ensures
        match spec_first_named(attrs@, name@.map_values(|s: String| s@)) {
            Some(i) => 0 <= i < attrs@.len() && r == Some(&attrs@[i]),
            None => r is None,
        },
{
    let ghost wanted = name@.map_values(|s: String| s@);
    let mut i: usize = 0;
    while i < attrs.len()
        invariant
            i <= attrs.len(),
            wanted == name@.map_values(|s: String| s@),
            spec_first_named(attrs@.take(i as int), wanted) is None,
        decreases attrs.len() - i,
    {
        proof {
            assert(attrs@.take(i as int + 1).drop_last() =~= attrs@.take(i as int));
        }
        if same_path(attrs[i].path.as_slice(), name) {
            proof {
                lemma_first_named_stable(attrs@, wanted, i as int + 1);
            }
            return Some(&attrs[i]);
        }
        i += 1;
    }
    proof {
        assert(attrs@.take(attrs.len() as int) =~= attrs@);
    }
    None
}

/// Once an attribute is found among the first `k`, it stays the first.
proof fn lemma_first_named_stable(attrs: Seq<Attribute>, name: Seq<Seq<char>>, k: int)
    requires
        0 <= k <= attrs.len(),
        spec_first_named(attrs.take(k), name) is Some,
    ensures
        spec_first_named(attrs, name) == spec_first_named(attrs.take(k), name),
    decreases attrs.len() - k,
{
    if k < attrs.len() {
        assert(attrs.take(k + 1).drop_last() =~= attrs.take(k));
        lemma_first_named_stable(attrs, name, k + 1);
    } else {
        assert(attrs.take(k) =~= attrs);
    }
}

pub open spec fn marshal_name() -> Seq<Seq<char>> {
    seq!["riko"@, "marshal"@]
}

pub open spec fn fun_name() -> Seq<Seq<char>> {
    seq!["riko"@, "fun"@]
}

/// The rule that a parameter's marker attribute names.
pub open spec fn spec_marshal_of(attr: Attribute) -> Parsed<RuleView> {
    match attr.meta {
        Meta::NameValue(Lit::Str(value)) => match spec_parse_rule(value@) {
            Some(rule) => Parsed::Good(rule),
            None => Parsed::Bad("No such marshaling rule"@),
        },
        Meta::Invalid(why) => Parsed::Bad(why@),
        _ => Parsed::Bad("Expect a marshaling rule"@),
    }
}

/// The rule that the first marker attribute among `attrs` names, if there is
/// one.
pub open spec fn spec_marshal_from(attrs: Seq<Attribute>) -> Parsed<Option<RuleView>> {
    match spec_first_named(attrs, marshal_name()) {
        Some(i) => match spec_marshal_of(attrs[i]) {
            Parsed::Good(rule) => Parsed::Good(Some(rule)),
            Parsed::Bad(e) => Parsed::Bad(e),
        },
        None => Parsed::Good(None),
    }
}

/// What one more argument makes of the arguments read so far.
pub open spec fn spec_fun_step(so_far: FunView, arg: NestedMeta) -> Parsed<FunView> {
    match arg {
        NestedMeta::NameValue(Some(name), lit) => if name@ == "name"@ {
            match lit {
                Lit::Str(s) => Parsed::Good(FunView { name: s@, marshal: so_far.marshal }),
                Lit::Other => Parsed::Bad("Expect a string literal"@),
            }
        } else if name@ == "marshal"@ {
            match lit {
                Lit::Str(s) => match spec_parse_rule(s@) {
                    Some(rule) => Parsed::Good(FunView { name: so_far.name, marshal: Some(rule) }),
                    None => Parsed::Bad("No such marshaling rule"@),
                },
                Lit::Other => Parsed::Bad("Expect a string literal"@),
            }
        } else {
            Parsed::Bad("Unrecognized argument"@)
        },
        NestedMeta::NameValue(None, _) => Parsed::Bad("Unrecognized argument"@),
        NestedMeta::Other => Parsed::Bad("Not a key-value"@),
    }
}

/// The arguments read from a list, from left to right; the first argument
/// that is not accepted decides the error.
pub open spec fn spec_fun_args(args: Seq<NestedMeta>) -> Parsed<FunView>
    decreases args.len(),
{
    if args.len() == 0 {
        Parsed::Good(FunView { name: Seq::empty(), marshal: None })
    } else {
        match spec_fun_args(args.drop_last()) {
            Parsed::Good(so_far) => spec_fun_step(so_far, args.last()),
            Parsed::Bad(e) => Parsed::Bad(e),
        }
    }
}

/// The arguments of one marker attribute.
pub open spec fn spec_fun_of(attr: Attribute) -> Parsed<FunView> {
    if attr.tokens@.len() == 0 {
        Parsed::Good(FunView { name: Seq::empty(), marshal: None })
    } else {
        match attr.args {
            Some(args) => spec_fun_args(args@),
            None => Parsed::Bad("Expect a list of arguments"@),
        }
    }
}

/// The arguments of the first marker attribute among `attrs`, if there is
/// one.
pub open spec fn spec_fun_from(attrs: Seq<Attribute>) -> Parsed<Option<FunView>> {
    match spec_first_named(attrs, fun_name()) {
        Some(i) => match spec_fun_of(attrs[i]) {
            Parsed::Good(f) => Parsed::Good(Some(f)),
            Parsed::Bad(e) => Parsed::Bad(e),
        },
        None => Parsed::Good(None),
    }
}

/// The marker attribute of a parameter.
pub struct Marshal {
    /// Marshaling rule for the parameter.
    pub value: MarshalingRule,
}

impl Marshal {
    /// Reads the rule out of the attribute.
    pub fn parse(attr: &Attribute) -> (r: Result<Marshal, SyntaxError>)
        ensures
            match spec_marshal_of(*attr) {
                Parsed::Good(rule) => r matches Ok(m) && m.value@ == rule,
                Parsed::Bad(msg) => r matches Err(e) && is_error(e, msg),
            },
    {
        match &attr.meta {
            Meta::NameValue(Lit::Str(value)) => match MarshalingRule::parse(value.as_str()) {
                Some(rule) => Ok(Marshal { value: rule }),
                None => Err(syntax_error("No such marshaling rule")),
            },
            Meta::Invalid(why) => Err(syntax_error(why.as_str())),
            _ => Err(syntax_error("Expect a marshaling rule")),
        }
    }

    /// Looks for the first marker attribute and reads it.
    pub fn take_from(attrs: &Vec<Attribute>) -> (r: Result<Option<Marshal>, SyntaxError>)
        ensures
            match spec_marshal_from(attrs@) {
                Parsed::Good(Some(rule)) => r matches Ok(Some(m)) && m.value@ == rule,
                Parsed::Good(None) => r matches Ok(None),
                Parsed::Bad(msg) => r matches Err(e) && is_error(e, msg),
            },
    {
        let name = [String::from_str("riko"), String::from_str("marshal")];
        proof {
            assert(name@.map_values(|s: String| s@) =~= marshal_name());
        }
        match first_named(attrs, name.as_slice()) {
            Some(attr) => match Self::parse(attr) {
                Ok(m) => Ok(Some(m)),
                Err(e) => Err(e),
            },
            None => Ok(None),
        }
    }
}

impl Fun {
    /// No arguments given.
    pub fn empty() -> (r: Fun)
        ensures
            r@ == (FunView { name: Seq::empty(), marshal: None }),
    {
        Fun { name: String::new(), marshal: None }
    }

    /// Reads a list of `key = "value"` arguments.
    pub fn try_from(value: &Vec<NestedMeta>) -> (r: Result<Fun, SyntaxError>)
        ensures
            match spec_fun_args(value@) {
                Parsed::Good(f) => r matches Ok(fun) && fun@ == f,
                Parsed::Bad(msg) => r matches Err(e) && is_error(e, msg),
            },
    {
        let mut result = Fun::empty();
        let mut i: usize = 0;
        while i < value.len()
            invariant
                i <= value.len(),
                spec_fun_args(value@.take(i as int)) == Parsed::Good(result@),
            decreases value.len() - i,
        {
            proof {
                assert(value@.take(i as int + 1).drop_last() =~= value@.take(i as int));
                lemma_fun_args_bad(value@, i as int + 1);
            }
            match &value[i] {
                NestedMeta::NameValue(Some(name), lit) => {
                    if same_text(name.as_str(), "name") {
                        match lit {
                            Lit::Str(s) => {
                                result.name = s.clone();
                            },
                            Lit::Other => {
                                return Err(syntax_error("Expect a string literal"));
                            },
                        }
                    } else if same_text(name.as_str(), "marshal") {
                        match lit {
                            Lit::Str(s) => match MarshalingRule::parse(s.as_str()) {
                                Some(rule) => {
                                    result.marshal = Some(rule);
                                },
                                None => {
                                    return Err(syntax_error("No such marshaling rule"));
                                },
                            },
                            Lit::Other => {
                                return Err(syntax_error("Expect a string literal"));
                            },
                        }
                    } else {
                        return Err(syntax_error("Unrecognized argument"));
                    }
                },
                NestedMeta::NameValue(None, _) => {
                    return Err(syntax_error("Unrecognized argument"));
                },
                NestedMeta::Other => {
                    return Err(syntax_error("Not a key-value"));
                },
            }
            i += 1;
        }
        proof {
            assert(value@.take(value.len() as int) =~= value@);
        }
        Ok(result)
    }

    /// Reads the arguments of the attribute.
    pub fn parse(attr: &Attribute) -> (r: Result<Fun, SyntaxError>)
        ensures
            match spec_fun_of(*attr) {
                Parsed::Good(f) => r matches Ok(fun) && fun@ == f,
                Parsed::Bad(msg) => r matches Err(e) && is_error(e, msg),
            },
    {
        if attr.tokens.as_str().unicode_len() == 0 {
            Ok(Fun::empty())
        } else {
            match &attr.args {
                Some(args) => Self::try_from(args),
                None => Err(syntax_error("Expect a list of arguments")),
            }
        }
    }

    /// Looks for the first marker attribute and reads it.
    pub fn take_from(attrs: &Vec<Attribute>) -> (r: Result<Option<Fun>, SyntaxError>)
        ensures
            match spec_fun_from(attrs@) {
                Parsed::Good(Some(f)) => r matches Ok(Some(fun)) && fun@ == f,
                Parsed::Good(None) => r matches Ok(None),
                Parsed::Bad(msg) => r matches Err(e) && is_error(e, msg),
            },
    {
        let name = [String::from_str("riko"), String::from_str("fun")];
        proof {
            assert(name@.map_values(|s: String| s@) =~= fun_name());
        }
        match first_named(attrs, name.as_slice()) {
            Some(attr) => match Self::parse(attr) {
                Ok(f) => Ok(Some(f)),
                Err(e) => Err(e),
            },
            None => Ok(None),
        }
    }
}

/// An argument that is not accepted decides the outcome for every longer
/// list.
proof fn lemma_fun_args_bad(args: Seq<NestedMeta>, k: int)
    requires
        0 <= k <= args.len(),
    ensures
        spec_fun_args(args.take(k)) is Bad ==> spec_fun_args(args) == spec_fun_args(args.take(k)),
    decreases args.len() - k,
{
    if k < args.len() {
        assert(args.take(k + 1).drop_last() =~= args.take(k));
        lemma_fun_args_bad(args, k + 1);
    } else {
        assert(args.take(k) =~= args);
    }
}

} // verus!
