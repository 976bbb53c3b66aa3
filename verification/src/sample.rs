//! Exported functions of a sample crate, as the bridge calls them.

use vstd::prelude::*;
use crate::ir::spec_ignored;
use crate::parse::{spec_fun_from, FunView, Parsed};
use crate::returned::{Error, Returned};
use crate::syntax::{ItemFn, ReturnType};

verus! {

pub struct Love {
    pub target: String,
}

pub struct Work {
    pub salary: i64,
}

#[derive(Debug)]
pub struct Life {
    pub happy: bool,
}

/// Adds two numbers whose sum is an `i32`.
pub fn _i32(a: i32, b: i32) -> (r: i32)
    requires
        i32::MIN <= a + b <= i32::MAX,
    ensures
        r == a + b,
{
    a + b
}

/// The conjunction of two truth values.
pub fn _bool(x: bool, y: bool) -> (r: bool)
    ensures
        r == (x && y),
{
    x && y
}

/// Two texts, one behind the other.
pub fn string(a: String, b: String) -> (r: String)
    ensures
        r@ == a@ + b@,
{
    let mut out = a;
    out.append(b.as_str());
    out
}

/// The sum of two optional numbers: an error where both are missing,
/// nothing where one is.
pub fn result_option(a: Option<i32>, b: Option<i32>) -> (r: Result<Option<i32>, Error>)
    requires
        a is Some && b is Some ==> i32::MIN <= a->0 + b->0 <= i32::MAX,
    ensures
        match (a, b) {
            (Some(x), Some(y)) => r == Ok::<Option<i32>, Error>(Some((x + y) as i32)),
            (None, None) => r matches Err(e) && e.message@
                == "an error occurred when formatting"@ && e.debug@ == "Error"@,
            _ => r == Ok::<Option<i32>, Error>(None),
        },
{
    match (a, b) {
        (Some(a_value), Some(b_value)) => Ok(Some(a_value + b_value)),
        (None, None) => Err(
            Error::new(
                String::from_str("Error"),
                String::from_str("an error occurred when formatting"),
            ),
        ),
        _ => Ok(None),
    }
}

/// Life is happy with somebody to love and work that pays.
pub fn structs(love: Love, work: Work) -> (r: Life)
    ensures
        r.happy == (love.target@.len() > 0 && work.salary > 0),
{
    Life { happy: love.target.as_str().unicode_len() != 0 && work.salary > 0 }
}

/// The envelope that the bridge hands out for the sum of two numbers.
pub fn bridged_i32(a: i32, b: i32) -> (r: Returned<i32>)
    requires
        i32::MIN <= a + b <= i32::MAX,
    ensures
        r.wf(),
        r.error is None,
        r.value == Some((a + b) as i32),
{
    Returned::from_value(_i32(a, b))
}

/// The declaration of a function that is not exported: it carries no
/// marker attribute, so a scan leaves it out.
pub fn ignored() -> (r: ItemFn)
    ensures
        r.ident@ == "ignored"@,
        r.attrs@.len() == 0,
        r.inputs@.len() == 0,
        r.output is Default,
        !r.asyncness,
        spec_fun_from(r.attrs@) == Parsed::<Option<FunView>>::Good(None),
        !spec_ignored(r.attrs@),
{
    ItemFn {
        attrs: Vec::new(),
        ident: String::from_str("ignored"),
        asyncness: false,
        inputs: Vec::new(),
        output: ReturnType::Default,
    }
}

} // verus!
