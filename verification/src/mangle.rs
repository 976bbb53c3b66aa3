//! Native symbol naming.
//!
//! The managed runtime finds a native method by a symbol derived from the
//! method's package, class and name: every part has its underscores escaped
//! as `_1`, and the parts are joined by single underscores behind the prefix
//! `Java_`.

use vstd::prelude::*;
use crate::text::{escape_underscores, join, spec_escape, spec_join, views};

verus! {

/// `Java_`, the prefix of every native symbol.
pub open spec fn symbol_prefix() -> Seq<char> {
    seq!['J', 'a', 'v', 'a', '_']
}

/// `Module`, the class that holds the functions of one module.
pub open spec fn class_for_module() -> Seq<char> {
    seq!['M', 'o', 'd', 'u', 'l', 'e']
}

/// `__riko_`, the prefix of the native method behind a public method.
pub open spec fn prefix_for_native() -> Seq<char> {
    seq!['_', '_', 'r', 'i', 'k', 'o', '_']
}

/// The parts of a symbol in order: package, module path, class, native
/// method name.
pub open spec fn symbol_parts(name: Seq<char>, module: Seq<Seq<char>>, package: Seq<char>) -> Seq<
    Seq<char>,
> {
    seq![package] + module + seq![class_for_module(), prefix_for_native() + name]
}

/// The escaped parts joined by `_`.
pub open spec fn spec_encode(parts: Seq<Seq<char>>) -> Seq<char> {
    spec_join(parts.map_values(|p: Seq<char>| spec_escape(p)), seq!['_'])
}

/// The native symbol of function `name` in module `module` of `package`.
pub open spec fn spec_mangle(name: Seq<char>, module: Seq<Seq<char>>, package: Seq<char>) -> Seq<
    char,
> {
    symbol_prefix() + spec_encode(symbol_parts(name, module, package))
}

/// The symbol under which the bridge function of `name` is exported.
pub fn mangle_function_name(name: &str, module: &[String], crate_: &str) -> (r: String)
    ensures
        r@ == spec_mangle(name@, views(module@), crate_@),
{
    let ghost parts = symbol_parts(name@, views(module@), crate_@);
    let ghost escaped = parts.map_values(|p: Seq<char>| spec_escape(p));
    let mut tokens: Vec<String> = Vec::new();
    tokens.push(escape_underscores(crate_));
    let mut i: usize = 0;
    while i < module.len()
        invariant
            i <= module.len(),
            parts == symbol_parts(name@, views(module@), crate_@),
            escaped == parts.map_values(|p: Seq<char>| spec_escape(p)),
            views(tokens@) == escaped.take(i as int + 1),
        decreases module.len() - i,
    {
        let t = escape_underscores(module[i].as_str());
        proof {
            assert(parts[i as int + 1] == module@[i as int]@);
            assert(views(tokens@).push(t@) =~= escaped.take(i as int + 2));
            assert(views(tokens@.push(t)) =~= views(tokens@).push(t@));
        }
        tokens.push(t);
        i += 1;
    }
    let class = escape_underscores("Module");
    let mut native = String::from_str("__riko_");
    native.append(name);
    let method = escape_underscores(native.as_str());
    proof {
        reveal_strlit("Module");
        reveal_strlit("__riko_");
        reveal_strlit("Java_");
        reveal_strlit("_");
        let n = module@.len() as int;
        assert("Module"@ =~= class_for_module());
        assert("__riko_"@ =~= prefix_for_native());
        assert("Java_"@ =~= symbol_prefix());
        assert("_"@ =~= seq!['_']);
        assert(parts[n + 1] == class_for_module());
        assert(parts[n + 2] == prefix_for_native() + name@);
        assert(views(tokens@.push(class)) =~= views(tokens@).push(class@));
        assert(views(tokens@.push(class).push(method)) =~= views(tokens@).push(class@).push(
            method@,
        ));
        assert(views(tokens@).push(class@).push(method@) =~= escaped);
    }
    tokens.push(class);
    tokens.push(method);
    let mut out = String::from_str("Java_");
    out.append(join(tokens.as_slice(), "_").as_str());
    out
}

/// A part may follow a separator without being read as an escape: it is
/// empty or does not begin with `1`.
pub open spec fn plain_start(part: Seq<char>) -> bool {
    part.len() == 0 || part[0] != '1'
}

/// Reads an encoded symbol body back into its parts.
pub open spec fn spec_decode(x: Seq<char>) -> Seq<Seq<char>>
    decreases x.len(),
{
    if x.len() == 0 {
        seq![Seq::<char>::empty()]
    } else if x[0] == '_' && x.len() >= 2 && x[1] == '1' {
        let rest = spec_decode(x.skip(2));
        rest.update(0, seq!['_'] + rest[0])
    } else if x[0] == '_' {
        seq![Seq::<char>::empty()] + spec_decode(x.skip(1))
    } else {
        let rest = spec_decode(x.skip(1));
        rest.update(0, seq![x[0]] + rest[0])
    }
}

proof fn lemma_escape_concat(a: Seq<char>, b: Seq<char>)
    ensures
        spec_escape(a + b) == spec_escape(a) + spec_escape(b),
    decreases b.len(),
{
    if b.len() == 0 {
        assert(a + b =~= a);
        assert(spec_escape(a) + spec_escape(b) =~= spec_escape(a));
    } else {
        assert((a + b).drop_last() =~= a + b.drop_last());
        lemma_escape_concat(a, b.drop_last());
        assert((a + b).last() == b.last());
        if b.last() == '_' {
            assert(spec_escape(a + b) =~= spec_escape(a) + spec_escape(b));
        } else {
            assert(spec_escape(a + b) =~= spec_escape(a) + spec_escape(b));
        }
    }
}

proof fn lemma_escape_one(c: char)
    ensures
        spec_escape(seq![c]) == if c == '_' {
            seq!['_', '1']
        } else {
            seq![c]
        },
{
    let s = seq![c];
    assert(s.drop_last() =~= Seq::<char>::empty());
    assert(spec_escape(s.drop_last()) =~= Seq::<char>::empty());
    if c == '_' {
        assert(spec_escape(s) =~= seq!['_', '1']);
    } else {
        assert(spec_escape(s) =~= seq![c]);
    }
}

proof fn lemma_join_front(parts: Seq<Seq<char>>, sep: Seq<char>)
    requires
        parts.len() >= 2,
    ensures
        spec_join(parts, sep) == parts[0] + sep + spec_join(parts.drop_first(), sep),
    decreases parts.len(),
{
    if parts.len() == 2 {
        assert(parts.drop_last() =~= seq![parts[0]]);
        assert(parts.drop_first() =~= seq![parts[1]]);
        assert(spec_join(parts.drop_last(), sep) == parts[0]);
        assert(spec_join(parts.drop_first(), sep) == parts[1]);
    } else {
        lemma_join_front(parts.drop_last(), sep);
        assert(parts.drop_last().drop_first() =~= parts.drop_first().drop_last());
        assert(parts.drop_first().last() == parts.last());
        assert(spec_join(parts, sep) =~= parts[0] + sep + spec_join(parts.drop_first(), sep));
    }
}

/// The encoding of a list whose first part begins with `c`.
proof fn lemma_encode_char(parts: Seq<Seq<char>>)
    requires
        parts.len() >= 1,
        parts[0].len() >= 1,
    ensures
        spec_encode(parts) == spec_escape(seq![parts[0][0]]) + spec_encode(
            parts.update(0, parts[0].drop_first()),
        ),
{
    let c = parts[0][0];
    let tail = parts[0].drop_first();
    let shorter = parts.update(0, tail);
    let e1 = parts.map_values(|p: Seq<char>| spec_escape(p));
    let e2 = shorter.map_values(|p: Seq<char>| spec_escape(p));
    let sep = seq!['_'];
    assert(parts[0] =~= seq![c] + tail);
    lemma_escape_concat(seq![c], tail);
    assert(e1[0] == spec_escape(seq![c]) + e2[0]);
    if parts.len() == 1 {
    } else {
        lemma_join_front(e1, sep);
        lemma_join_front(e2, sep);
        assert(e1.drop_first() =~= e2.drop_first());
        assert(spec_join(e1, sep) =~= spec_escape(seq![c]) + spec_join(e2, sep));
    }
}

/// The encoding of a list whose first part is empty and has successors.
proof fn lemma_encode_separator(parts: Seq<Seq<char>>)
    requires
        parts.len() >= 2,
        parts[0].len() == 0,
    ensures
        spec_encode(parts) == seq!['_'] + spec_encode(parts.drop_first()),
{
    let e1 = parts.map_values(|p: Seq<char>| spec_escape(p));
    let e2 = parts.drop_first().map_values(|p: Seq<char>| spec_escape(p));
    let sep = seq!['_'];
    lemma_join_front(e1, sep);
    assert(e1.drop_first() =~= e2);
    assert(e1[0] =~= Seq::<char>::empty());
    assert(e1[0] + sep + spec_join(e2, sep) =~= sep + spec_join(e2, sep));
}

/// What an encoding begins with.
proof fn lemma_encode_start(parts: Seq<Seq<char>>)
    requires
        parts.len() >= 1,
    ensures
        parts[0].len() >= 1 ==> spec_encode(parts).len() >= 1 && spec_encode(parts)[0]
            == parts[0][0],
        parts[0].len() == 0 && parts.len() >= 2 ==> spec_encode(parts).len() >= 1 && spec_encode(
            parts,
        )[0] == '_',
        parts[0].len() == 0 && parts.len() == 1 ==> spec_encode(parts).len() == 0,
{
    if parts[0].len() >= 1 {
        lemma_encode_char(parts);
        lemma_escape_one(parts[0][0]);
    } else if parts.len() >= 2 {
        lemma_encode_separator(parts);
    } else {
        let e1 = parts.map_values(|p: Seq<char>| spec_escape(p));
        assert(e1[0] =~= Seq::<char>::empty());
    }
}

/// Decoding undoes encoding, as long as no part after the first begins
/// with `1`.
pub proof fn lemma_decode_encode(parts: Seq<Seq<char>>)
    requires
        parts.len() >= 1,
        forall|i: int| 1 <= i < parts.len() ==> plain_start(#[trigger] parts[i]),
    ensures
        spec_decode(spec_encode(parts)) == parts,
    decreases parts.len(), parts[0].len(),
{
    let x = spec_encode(parts);
    if parts[0].len() >= 1 {
        let c = parts[0][0];
        let shorter = parts.update(0, parts[0].drop_first());
        lemma_encode_char(parts);
        lemma_escape_one(c);
        lemma_decode_encode(shorter);
        assert(seq![c] + shorter[0] =~= parts[0]);
        if c == '_' {
            assert(x.skip(2) =~= spec_encode(shorter));
            assert(shorter.update(0, seq!['_'] + shorter[0]) =~= parts);
        } else {
            assert(x.skip(1) =~= spec_encode(shorter));
            assert(shorter.update(0, seq![c] + shorter[0]) =~= parts);
        }
    } else if parts.len() >= 2 {
        let rest = parts.drop_first();
        lemma_encode_separator(parts);
        lemma_encode_start(rest);
        assert(plain_start(parts[1]));
        assert(rest[0] == parts[1]);
        assert forall|i: int| 1 <= i < rest.len() implies plain_start(#[trigger] rest[i]) by {
            assert(rest[i] == parts[i + 1]);
        }
        lemma_decode_encode(rest);
        assert(x.skip(1) =~= spec_encode(rest));
        assert(parts[0] =~= Seq::<char>::empty());
        assert(seq![Seq::<char>::empty()] + rest =~= parts);
    } else {
        lemma_encode_start(parts);
        assert(parts[0] =~= Seq::<char>::empty());
        assert(parts =~= seq![Seq::<char>::empty()]);
    }
}

/// Mangling is injective: two functions share a symbol only if they agree
/// in package, module path and name. It holds where no segment of either
/// module path begins with `1`, as is the case for identifiers.
pub proof fn lemma_mangle_injective(
    name1: Seq<char>,
    module1: Seq<Seq<char>>,
    package1: Seq<char>,
    name2: Seq<char>,
    module2: Seq<Seq<char>>,
    package2: Seq<char>,
)
    requires
        forall|i: int| 0 <= i < module1.len() ==> plain_start(#[trigger] module1[i]),
        forall|i: int| 0 <= i < module2.len() ==> plain_start(#[trigger] module2[i]),
        spec_mangle(name1, module1, package1) == spec_mangle(name2, module2, package2),
    ensures
        name1 == name2,
        module1 == module2,
        package1 == package2,
{
    let p1 = symbol_parts(name1, module1, package1);
    let p2 = symbol_parts(name2, module2, package2);
    lemma_parts_plain(name1, module1, package1);
    lemma_parts_plain(name2, module2, package2);
    lemma_decode_encode(p1);
    lemma_decode_encode(p2);
    let m1 = spec_mangle(name1, module1, package1);
    let m2 = spec_mangle(name2, module2, package2);
    assert(m1.skip(5) =~= spec_encode(p1));
    assert(m2.skip(5) =~= spec_encode(p2));
    assert(p1 == p2);
    let n = module1.len() as int;
    assert(p1.len() == n + 3);
    assert(p2.len() == module2.len() + 3);
    assert(package1 == p1[0]);
    assert(package2 == p2[0]);
    assert(module1 =~= p1.subrange(1, n + 1));
    assert(module2 =~= p2.subrange(1, n + 1));
    assert(p1[n + 2] == prefix_for_native() + name1);
    assert(p2[n + 2] == prefix_for_native() + name2);
    assert(name1 =~= p1[n + 2].skip(7));
    assert(name2 =~= p2[n + 2].skip(7));
}

proof fn lemma_parts_plain(name: Seq<char>, module: Seq<Seq<char>>, package: Seq<char>)
    requires
        forall|i: int| 0 <= i < module.len() ==> plain_start(#[trigger] module[i]),
    ensures
        symbol_parts(name, module, package).len() == module.len() + 3,
        forall|i: int|
            1 <= i < symbol_parts(name, module, package).len() ==> plain_start(
                #[trigger] symbol_parts(name, module, package)[i],
            ),
{
    let p = symbol_parts(name, module, package);
    let n = module.len() as int;
    assert forall|i: int| 1 <= i < p.len() implies plain_start(#[trigger] p[i]) by {
        if i <= n {
            assert(p[i] == module[i - 1]);
        } else if i == n + 1 {
            assert(p[i] == class_for_module());
        } else {
            assert(p[i] == prefix_for_native() + name);
            assert(p[i][0] == '_');
        }
    }
}

} // verus!
