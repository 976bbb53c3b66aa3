//! Helpers for comparing and assembling generated source code.

use vstd::prelude::*;
use crate::rule::{MarshalingRule, RuleView};
use crate::text::{concat3, decimal, join, spec_decimal, spec_join, views};

verus! {

/// An error met while assembling target code.
#[derive(Debug, PartialEq)]
pub struct TargetCodeError {
    pub message: &'static str,
}

/// What `regex::Regex::replace_all` makes of `text` when every match of
/// `pattern` is replaced by `rep`; `None` where `regex::Regex::new` does not
/// accept the pattern.
pub uninterp spec fn spec_replace_all(pattern: Seq<char>, text: Seq<char>, rep: Seq<char>) -> Option<
    Seq<char>,
>;

/// Compiles `pattern` with `regex::Regex::new` and replaces every match in
/// `text` with `regex::Regex::replace_all`. Both depend on their arguments
/// alone; nothing else is claimed of the result.
#[verifier::external_body]
fn regex_replace_all(pattern: &str, text: &str, rep: &str) -> (r: Option<String>)
    ensures
        match spec_replace_all(pattern@, text@, rep@) {
            Some(replaced) => r matches Some(out) && out@ == replaced,
            None => r is None,
        },
{
    match regex::Regex::new(pattern) {
        Ok(re) => Some(re.replace_all(text, rep).into_owned()),
        Err(_) => None,
    }
}

/// The pattern of a run of white space.
pub open spec fn whitespace_run() -> Seq<char> {
    "\\s+"@
}

/// Replaces every run of white space by one blank, so that two sources can
/// be compared without regard to their layout. Should the pattern not be
/// accepted, the code comes back as it is.
pub fn normalize_source_code(code: &str) -> (r: String)
    ensures
        match spec_replace_all(whitespace_run(), code@, " "@) {
            Some(replaced) => r@ == replaced,
            None => r@ == code@,
        },
{
    match regex_replace_all("\\s+", code, " ") {
        Some(replaced) => replaced,
        None => String::from_str(code),
    }
}

/// `text` from its `i`-th character on, with every `::` replaced by a dot.
pub open spec fn spec_dotted(text: Seq<char>, i: int) -> Seq<char>
    decreases text.len() - i,
{
    if i < 0 || i >= text.len() {
        Seq::empty()
    } else if text[i] == ':' && i + 1 < text.len() && text[i + 1] == ':' {
        seq!['.'] + spec_dotted(text, i + 2)
    } else {
        seq![text[i]] + spec_dotted(text, i + 1)
    }
}

/// Replaces every `::` by a dot, from left to right.
pub fn dotted(text: &str) -> (r: String)
    ensures
        r@ == spec_dotted(text@, 0),
{
    let n = text.unicode_len();
    let mut out = String::new();
    let mut i: usize = 0;
    proof {
        assert(out@ + spec_dotted(text@, 0) =~= spec_dotted(text@, 0));
    }
    while i < n
        invariant
            n == text@.len(),
            i <= n,
            out@ + spec_dotted(text@, i as int) == spec_dotted(text@, 0),
        decreases n - i,
    {
        let ghost before = out@;
        if text.get_char(i) == ':' && i + 1 < n && text.get_char(i + 1) == ':' {
            out.push('.');
            proof {
                assert(before.push('.') + spec_dotted(text@, i as int + 2) =~= before
                    + spec_dotted(text@, i as int));
            }
            i += 2;
        } else {
            out.push(text.get_char(i));
            proof {
                assert(before.push(text@[i as int]) + spec_dotted(text@, i as int + 1) =~= before
                    + spec_dotted(text@, i as int));
            }
            i += 1;
        }
    }
    proof {
        assert(out@ + spec_dotted(text@, n as int) =~= out@);
    }
    out
}

/// The Java type of a value under `rule`.
pub open spec fn spec_return_type(rule: RuleView) -> Seq<char>
    decreases rule,
{
    match rule {
        RuleView::Bool => "java.lang.Boolean"@,
        RuleView::Bytes => "byte[]"@,
        RuleView::I8 => "java.lang.Byte"@,
        RuleView::I32 => "java.lang.Integer"@,
        RuleView::I64 => "java.lang.Long"@,
        RuleView::Iterator(item) => "java.util.Iterator<"@ + spec_return_type(*item) + ">"@,
        RuleView::Object => "riko.Object"@,
        RuleView::Struct(path) => spec_dotted(path, 0),
        RuleView::String => "java.lang.String"@,
        RuleView::Unit => "void"@,
    }
}

/// The Java type of a value under `rule`.
pub fn return_type(rule: &MarshalingRule) -> (r: String)
    ensures
        r@ == spec_return_type(rule@),
    decreases rule,
{
    match rule {
        MarshalingRule::Bool => String::from_str("java.lang.Boolean"),
        MarshalingRule::Bytes => String::from_str("byte[]"),
        MarshalingRule::I8 => String::from_str("java.lang.Byte"),
        MarshalingRule::I32 => String::from_str("java.lang.Integer"),
        MarshalingRule::I64 => String::from_str("java.lang.Long"),
        MarshalingRule::Iterator(item) => concat3(
            "java.util.Iterator<",
            return_type(item).as_str(),
            ">",
        ),
        MarshalingRule::Object => String::from_str("riko.Object"),
        MarshalingRule::Struct(path) => dotted(path.as_str()),
        MarshalingRule::String => String::from_str("java.lang.String"),
        MarshalingRule::Unit => String::from_str("void"),
    }
}

/// The place in the class of a module where methods are inserted.
pub open spec fn spec_cursor() -> Seq<char> {
    "/* __riko_cursor */"@
}

/// The place in the class of a module where methods are inserted.
pub fn cursor() -> (r: &'static str)
    ensures
        r@ == spec_cursor(),
{
    "/* __riko_cursor */"
}

/// The full name of a function, with `::` between the segments.
pub open spec fn spec_qualified(module: Seq<Seq<char>>, name: Seq<char>) -> Seq<char> {
    spec_join(module.push(name), "::"@)
}

/// The comments that enclose the method of function `name` of `module`.
pub fn encloser(module: &[String], name: &str) -> (r: (String, String))
    ensures
        r.0@ == "/* __riko_opening "@ + spec_qualified(views(module@), name@) + " */"@,
        r.1@ == "/* __riko_closing "@ + spec_qualified(views(module@), name@) + " */"@,
{
    let full = join_qualified(module, name);
    (
        concat3("/* __riko_opening ", full.as_str(), " */"),
        concat3("/* __riko_closing ", full.as_str(), " */"),
    )
}

/// The Java class of a module that is filled method by method: it holds
/// only the place where methods are inserted.
pub open spec fn spec_module_template(name: Seq<Seq<char>>) -> Seq<char> {
    "\n            "@ + (if name.len() == 0 {
        ""@
    } else {
        "package "@ + spec_join(name, "."@) + ";"@
    })
        + "\n\n            public final class __riko_Module {\n\n                private __riko_Module() {}\n\n                "@
        + spec_cursor() + "\n            }\n        "@
}

/// The Java class of a module, ready to take the methods of its functions.
pub fn module(name: &[String]) -> (r: String)
    ensures
        r@ == spec_module_template(views(name@)),
{
    let result_package = if name.len() == 0 {
        String::from_str("")
    } else {
        concat3("package ", join(name, ".").as_str(), ";")
    };
    let mut out = String::from_str("\n            ");
    out.append(result_package.as_str());
    out.append(
        "\n\n            public final class __riko_Module {\n\n                private __riko_Module() {}\n\n                ",
    );
    out.append(cursor());
    out.append("\n            }\n        ");
    out
}

/// The type that the envelope of the native method holds.
pub open spec fn spec_result_type(output: RuleView) -> Seq<char> {
    if output is Iterator {
        spec_return_type(RuleView::I32)
    } else {
        spec_return_type(output)
    }
}

/// The statements that unpack what the native method returned.
pub open spec fn spec_unpack_block(output: Option<RuleView>) -> Seq<char> {
    match output {
        None => ""@,
        Some(rule) => "\n                final riko.Returned<"@ + spec_result_type(rule)
            + "> result = riko.Marshaler.fromBytes(returned);\n                return result.unwrap();\n            "@,
    }
}

/// The Java method of function `name` of `module`, between its enclosing
/// comments.
pub open spec fn spec_method(
    module: Seq<Seq<char>>,
    name: Seq<char>,
    inputs: Seq<RuleView>,
    output: Option<RuleView>,
) -> Seq<char> {
    let n = inputs.len();
    let full = spec_qualified(module, name);
    let args = spec_join(
        Seq::new(n, |k: int| "riko.Marshaler.toBytes(arg_"@ + spec_decimal(k as nat) + ")"@),
        ", "@,
    );
    let params_native = spec_join(
        Seq::new(n, |k: int| "byte[] arg_"@ + spec_decimal(k as nat)),
        ", "@,
    );
    let params_java = spec_join(
        Seq::new(
            n,
            |k: int| "final "@ + spec_return_type(inputs[k]) + " arg_"@ + spec_decimal(k as nat),
        ),
        ", "@,
    );
    let return_type_java = match output {
        None => "void"@,
        Some(rule) => spec_return_type(rule),
    };
    "\n            /* __riko_opening "@ + full + " */"@
        + "\n            private static native "@ + (if output is None {
        "void"@
    } else {
        "byte[]"@
    }) + " __riko_"@ + name + "( "@ + params_native + " );\n            public static "@
        + return_type_java + " "@ + name + "( "@ + params_java + " ) {\n                "@ + (if output is None {
        ""@
    } else {
        "final byte[] returned ="@
    }) + " __riko_"@ + name + "( "@ + args + " );\n                "@ + spec_unpack_block(output)
        + "\n            }\n            "@ + "/* __riko_closing "@ + full + " */"@
        + "\n        "@
}

/// Generates the Java method of a function.
pub fn function(
    module: &[String],
    name: &str,
    inputs: &[MarshalingRule],
    output: &Option<MarshalingRule>,
) -> (r: String)
    ensures
        r@ == spec_method(
            views(module@),
            name@,
            inputs@.map_values(|rule: MarshalingRule| rule@),
            match *output {
                Some(rule) => Some(rule@),
                None => None,
            },
        ),
{
    let ghost rules = inputs@.map_values(|rule: MarshalingRule| rule@);
    let n = inputs.len();
    let mut args: Vec<String> = Vec::new();
    let mut params_native: Vec<String> = Vec::new();
    let mut params_java: Vec<String> = Vec::new();
    let mut idx: usize = 0;
    while idx < n
        invariant
            idx <= n,
            n == inputs@.len(),
            rules == inputs@.map_values(|rule: MarshalingRule| rule@),
            views(args@) =~= Seq::new(
                idx as nat,
                |k: int| "riko.Marshaler.toBytes(arg_"@ + spec_decimal(k as nat) + ")"@,
            ),
            views(params_native@) =~= Seq::new(
                idx as nat,
                |k: int| "byte[] arg_"@ + spec_decimal(k as nat),
            ),
            views(params_java@) =~= Seq::new(
                idx as nat,
                |k: int|
                    "final "@ + spec_return_type(rules[k]) + " arg_"@ + spec_decimal(k as nat),
            ),
        decreases n - idx,
    {
        let number = decimal(idx);
        let arg = concat3("riko.Marshaler.toBytes(arg_", number.as_str(), ")");
        let mut native = String::from_str("byte[] arg_");
        native.append(number.as_str());
        let mut java = concat3("final ", return_type(&inputs[idx]).as_str(), " arg_");
        java.append(number.as_str());
        proof {
            assert(rules[idx as int] == inputs@[idx as int]@);
            assert(views(args@.push(arg)) =~= views(args@).push(arg@));
            assert(views(params_native@.push(native)) =~= views(params_native@).push(native@));
            assert(views(params_java@.push(java)) =~= views(params_java@).push(java@));
        }
        args.push(arg);
        params_native.push(native);
        params_java.push(java);
        idx += 1;
    }
    let return_type_java = match output {
        None => String::from_str("void"),
        Some(rule) => return_type(rule),
    };
    let unpack = match output {
        None => String::from_str(""),
        Some(rule) => {
            let result_type = match rule {
                MarshalingRule::Iterator(_) => return_type(&MarshalingRule::I32),
                _ => return_type(rule),
            };
            concat3(
                "\n                final riko.Returned<",
                result_type.as_str(),
                "> result = riko.Marshaler.fromBytes(returned);\n                return result.unwrap();\n            ",
            )
        },
    };
    let mut out = String::from_str("\n            /* __riko_opening ");
    out.append(join_qualified(module, name).as_str());
    out.append(" */");
    out.append("\n            private static native ");
    out.append(
        match output {
            None => "void",
            Some(_) => "byte[]",
        },
    );
    out.append(" __riko_");
    out.append(name);
    out.append("( ");
    out.append(join(params_native.as_slice(), ", ").as_str());
    out.append(" );\n            public static ");
    out.append(return_type_java.as_str());
    out.append(" ");
    out.append(name);
    out.append("( ");
    out.append(join(params_java.as_slice(), ", ").as_str());
    out.append(" ) {\n                ");
    out.append(
        match output {
            None => "",
            Some(_) => "final byte[] returned =",
        },
    );
    out.append(" __riko_");
    out.append(name);
    out.append("( ");
    out.append(join(args.as_slice(), ", ").as_str());
    out.append(" );\n                ");
    out.append(unpack.as_str());
    out.append("\n            }\n            ");
    out.append("/* __riko_closing ");
    out.append(join_qualified(module, name).as_str());
    out.append(" */");
    out.append("\n        ");
    out
}

fn join_qualified(module: &[String], name: &str) -> (r: String)
    ensures
        r@ == spec_qualified(views(module@), name@),
{
    let mut parts: Vec<String> = Vec::new();
    let mut i: usize = 0;
    proof {
        assert(views(parts@) =~= views(module@).take(0));
    }
    while i < module.len()
        invariant
            i <= module.len(),
            views(parts@) == views(module@).take(i as int),
        decreases module.len() - i,
    {
        proof {
            assert(views(parts@.push(module@[i as int])) =~= views(parts@).push(
                module@[i as int]@,
            ));
            assert(views(parts@).push(module@[i as int]@) =~= views(module@).take(i as int + 1));
        }
        parts.push(module[i].clone());
        i += 1;
    }
    let last = String::from_str(name);
    proof {
        assert(views(module@).take(module.len() as int) =~= views(module@));
        assert(views(parts@.push(last)) =~= views(parts@).push(last@));
    }
    parts.push(last);
    join(parts.as_slice(), "::")
}

/// Whether `needle` stands in `text` at the position `i`.
pub open spec fn spec_occurs_at(text: Seq<char>, needle: Seq<char>, i: int) -> bool {
    0 <= i && i + needle.len() <= text.len() && text.subrange(i, i + needle.len()) == needle
}

/// The first position at or behind `from` where `needle` stands in `text`.
pub open spec fn spec_find_from(text: Seq<char>, needle: Seq<char>, from: int) -> Option<int>
    decreases text.len() - from + 1,
{
    if from < 0 || from + needle.len() > text.len() {
        None
    } else if spec_occurs_at(text, needle, from) {
        Some(from)
    } else {
        spec_find_from(text, needle, from + 1)
    }
}

/// The first position where `needle` stands in `text`, counted in
/// characters.
pub fn find(text: &str, needle: &str) -> (r: Option<usize>)
    ensures
        match spec_find_from(text@, needle@, 0) {
            Some(i) => r matches Some(j) && j as int == i && spec_occurs_at(text@, needle@, i),
            None => r is None,
        },
{
    let n = text.unicode_len();
    let k = needle.unicode_len();
    if k > n {
        return None;
    }
    let limit = n - k;
    let mut i: usize = 0;
    loop
        invariant
            n == text@.len(),
            k == needle@.len(),
            limit == n - k,
            i <= limit,
            spec_find_from(text@, needle@, i as int) == spec_find_from(text@, needle@, 0),
        decreases limit - i,
    {
        if crate::util::same_text(text.substring_char(i, i + k), needle) {
            return Some(i);
        }
        if i == limit {
            return None;
        }
        i += 1;
    }
}

/// What inserting a method makes of the source of a class: the method
/// takes the place of an earlier version between its enclosing comments, or
/// it is put before the cursor where there is none.
pub open spec fn spec_insert(
    content: Seq<char>,
    method: Seq<char>,
    opening: Seq<char>,
    closing: Seq<char>,
) -> Result<Seq<char>, Seq<char>> {
    match spec_find_from(content, opening, 0) {
        Some(start) => match spec_find_from(content, closing, 0) {
            Some(end) => if start <= end + closing.len() {
                Ok(content.take(start) + method + content.skip(end + closing.len()))
            } else {
                Err("Found an opening tag but not the closing."@)
            },
            None => Err("Found an opening tag but not the closing."@),
        },
        None => match spec_find_from(content, spec_cursor(), 0) {
            Some(at) => Ok(content.take(at) + method + content.skip(at)),
            None => Err("No cursor to insert code."@),
        },
    }
}

/// Inserts the method of function `name` of `module` into the source of a
/// class, in place of an earlier version of it if there is one.
pub fn insert(content: &str, method: &str, module: &[String], name: &str) -> (r: Result<
    String,
    TargetCodeError,
>)
    ensures
        match spec_insert(
            content@,
            method@,
            "/* __riko_opening "@ + spec_qualified(views(module@), name@) + " */"@,
            "/* __riko_closing "@ + spec_qualified(views(module@), name@) + " */"@,
        ) {
            Ok(text) => r matches Ok(out) && out@ == text,
            Err(message) => r matches Err(e) && e.message@ == message,
        },
{
    let (opening, closing) = encloser(module, name);
    let n = content.unicode_len();
    match find(content, opening.as_str()) {
        Some(start) => match find(content, closing.as_str()) {
            Some(end) => {
                let stop = end + closing.as_str().unicode_len();
                if start <= stop {
                    let mut out = String::from_str(content.substring_char(0, start));
                    out.append(method);
                    out.append(content.substring_char(stop, n));
                    Ok(out)
                } else {
                    Err(TargetCodeError { message: "Found an opening tag but not the closing." })
                }
            },
            None => Err(TargetCodeError { message: "Found an opening tag but not the closing." }),
        },
        None => match find(content, cursor()) {
            Some(at) => {
                let mut out = String::from_str(content.substring_char(0, at));
                out.append(method);
                out.append(content.substring_char(at, n));
                Ok(out)
            },
            None => Err(TargetCodeError { message: "No cursor to insert code." }),
        },
    }
}

} // verus!
