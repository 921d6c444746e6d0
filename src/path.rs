use vstd::prelude::*;

use crate::text::{chars_of, push_char};
use crate::value::{
    is_lit, lit_str, unknown_call, unknown_of_call, ConstantValue, JsValue, UnknownReason,
    WellKnownFunctionKind,
};

verus! {

broadcast use vstd::string::group_string_axioms;

/// How path joining sees one value: a literal segment, the either-separator
/// alternatives `{"/", ""}`, or anything else, which stays opaque.
pub enum Part {
    Lit(Seq<char>),
    Sep,
    Opaque(JsValue),
}

/// `v` is the alternatives `{"/", ""}` placed between a non-literal part and its neighbour.
pub open spec fn is_either_sep(v: JsValue) -> bool {
    v matches JsValue::Alternatives(xs) && xs@.len() == 2 && is_lit(xs@[0], seq!['/']) && is_lit(
        xs@[1],
        Seq::<char>::empty(),
    )
}

pub open spec fn part_of(v: JsValue) -> Part {
    match lit_str(v) {
        Some(s) => Part::Lit(s),
        None => if is_either_sep(v) {
            Part::Sep
        } else {
            Part::Opaque(v)
        },
    }
}

pub open spec fn parts_of(vs: Seq<JsValue>) -> Seq<Part> {
    vs.map_values(|v: JsValue| part_of(v))
}

/// The pieces of `s` between slashes, empty pieces included.
pub open spec fn split_slash(s: Seq<char>) -> Seq<Seq<char>>
    decreases s.len(),
{
    if s.len() == 0 {
        seq![Seq::<char>::empty()]
    } else {
        let prev = split_slash(s.drop_last());
        if s.last() == '/' {
            prev.push(Seq::<char>::empty())
        } else {
            prev.update(prev.len() - 1, prev.last().push(s.last()))
        }
    }
}

pub open spec fn lit_parts(pieces: Seq<Seq<char>>) -> Seq<Part> {
    pieces.map_values(|p: Seq<char>| Part::Lit(p))
}

/// The arguments as parts: each literal string split at its slashes, other values kept whole.
pub open spec fn flatten(args: Seq<JsValue>) -> Seq<Part>
    decreases args.len(),
{
    if args.len() == 0 {
        Seq::empty()
    } else {
        let prev = flatten(args.drop_last());
        match lit_str(args.last()) {
            Some(s) => prev + lit_parts(split_slash(s)),
            None => prev.push(part_of(args.last())),
        }
    }
}

pub open spec fn is_dot_or_empty(s: Seq<char>) -> bool {
    s == Seq::<char>::empty() || s == seq!['.']
}

pub open spec fn is_dot_dot(s: Seq<char>) -> bool {
    s == seq!['.', '.']
}

/// One step of normalisation on the state (finalized, pending).
pub open spec fn norm_step(fin: Seq<Part>, pend: Seq<Part>, p: Part) -> (Seq<Part>, Seq<Part>) {
    match p {
        Part::Lit(s) => if is_dot_or_empty(s) {
            if fin.len() == 0 && pend.len() == 0 {
                (fin.push(p), pend)
            } else {
                (fin, pend)
            }
        } else if is_dot_dot(s) {
            if pend.len() > 0 {
                (fin, pend.drop_last())
            } else {
                (fin.push(p), pend)
            }
        } else {
            (fin, pend.push(p))
        },
        _ => ((fin + pend).push(p), Seq::empty()),
    }
}

pub open spec fn normalize(parts: Seq<Part>) -> (Seq<Part>, Seq<Part>)
    decreases parts.len(),
{
    if parts.len() == 0 {
        (Seq::empty(), Seq::empty())
    } else {
        let st = normalize(parts.drop_last());
        norm_step(st.0, st.1, parts.last())
    }
}

/// The parts that survive normalisation, in order.
pub open spec fn normalized(parts: Seq<Part>) -> Seq<Part> {
    normalize(parts).0 + normalize(parts).1
}

/// The separator between two neighbouring parts.
pub open spec fn separator(a: Part, b: Part) -> Part {
    if a is Lit && b is Lit {
        Part::Lit(seq!['/'])
    } else {
        Part::Sep
    }
}

/// The parts with a separator between each two neighbours.
pub open spec fn interleave(fin: Seq<Part>) -> Seq<Part>
    decreases fin.len(),
{
    if fin.len() <= 1 {
        fin
    } else {
        interleave(fin.drop_last()).push(separator(fin[fin.len() - 2], fin.last())).push(fin.last())
    }
}

/// `r` is what joining `args` as paths gives.
pub open spec fn join_result(args: Seq<JsValue>, r: JsValue) -> bool {
    let fin = normalized(flatten(args));
    if fin.len() == 0 {
        r is Constant && is_lit(r, seq!['.'])
    } else {
        r matches JsValue::Concat(items) && parts_of(items@) == interleave(fin)
    }
}

proof fn lemma_split_nonempty(s: Seq<char>)
    ensures
        split_slash(s).len() >= 1,
    decreases s.len(),
{
    if s.len() > 0 {
        lemma_split_nonempty(s.drop_last());
    }
}

/// Appends to `parts` the literal pieces of `s` between slashes.
fn push_split(s: &str, parts: &mut Vec<JsValue>)
    ensures
        parts_of(final(parts)@) == parts_of(old(parts)@) + lit_parts(split_slash(s@)),
{
    let chars = chars_of(s);
    let ghost base = parts_of(parts@);
    let mut cur = String::new();
    let n = chars.len();
    for i in 0..n
        invariant
            n == chars@.len(),
            chars@ == s@,
            split_slash(chars@.take(i as int)).len() >= 1,
            parts_of(parts@) == base + lit_parts(split_slash(chars@.take(i as int)).drop_last()),
            cur@ == split_slash(chars@.take(i as int)).last(),
    {
        let c = chars[i];
        let ghost pre = chars@.take(i as int);
        let ghost pieces = split_slash(pre);
        assert(chars@.take(i + 1).drop_last() =~= pre);
        if c == '/' {
            let ghost before = parts@;
            let seg = JsValue::Constant(ConstantValue::Str(cur));
            parts.push(seg);
            cur = String::new();
            assert(split_slash(chars@.take(i + 1)).drop_last() =~= pieces);
            assert(parts_of(parts@) =~= parts_of(before).push(Part::Lit(pieces.last())));
            assert(lit_parts(pieces) =~= lit_parts(pieces.drop_last()).push(
                Part::Lit(pieces.last()),
            ));
            assert(parts_of(parts@) =~= base + lit_parts(pieces));
        } else {
            push_char(&mut cur, c);
            assert(split_slash(chars@.take(i + 1)).drop_last() =~= pieces.drop_last());
        }
        proof {
            lemma_split_nonempty(chars@.take(i + 1));
        }
    }
    let ghost pieces = split_slash(chars@.take(n as int));
    let ghost before = parts@;
    parts.push(JsValue::Constant(ConstantValue::Str(cur)));
    assert(chars@.take(n as int) =~= s@);
    assert(parts_of(parts@) =~= parts_of(before).push(Part::Lit(pieces.last())));
    assert(lit_parts(pieces) =~= lit_parts(pieces.drop_last()).push(Part::Lit(pieces.last())));
    assert(parts_of(parts@) =~= base + lit_parts(pieces));
}

/// The literal `"/"`.
fn slash() -> (r: JsValue)
    ensures
        part_of(r) == Part::Lit(seq!['/']),
{
    proof {
        reveal_strlit("/");
        assert("/"@ =~= seq!['/']);
    }
    JsValue::str("/")
}

/// The alternatives `{"/", ""}`.
fn either_separator() -> (r: JsValue)
    ensures
        part_of(r) == Part::Sep,
{
    proof {
        reveal_strlit("/");
        reveal_strlit("");
        assert("/"@ =~= seq!['/']);
        assert(""@ =~= Seq::<char>::empty());
    }
    let r = JsValue::Alternatives(vec![JsValue::str("/"), JsValue::str("")]);
    assert(lit_str(r) is None);
    r
}

/// The classes that normalisation tells apart: 0 for `""` and `"."`, 1 for `".."`,
/// 2 for any other literal, 3 for a non-literal.
pub open spec fn class_of(p: Part) -> u8 {
    match p {
        Part::Lit(s) => if is_dot_or_empty(s) {
            0
        } else if is_dot_dot(s) {
            1
        } else {
            2
        },
        _ => 3,
    }
}

fn classify(v: &JsValue) -> (r: u8)
    ensures
        r == class_of(part_of(*v)),
{
    proof {
        reveal_strlit("");
        reveal_strlit(".");
        reveal_strlit("..");
    }
    match v.as_str() {
        Some(s) => {
            let cs = chars_of(s);
            if cs.len() == 0 {
                assert(cs@ =~= Seq::<char>::empty());
                0
            } else if cs.len() == 1 && cs[0] == '.' {
                assert(cs@ =~= seq!['.']);
                0
            } else if cs.len() == 2 && cs[0] == '.' && cs[1] == '.' {
                assert(cs@ =~= seq!['.', '.']);
                1
            } else {
                assert(cs@ != seq!['.'] && cs@ != seq!['.', '.'] && cs@ != Seq::<char>::empty());
                2
            }
        },
        None => 3,
    }
}

/// Joins path segments as POSIX `path.join` does, normalising `.` and `..` across
/// literal segments and keeping non-literal segments opaque. Where nothing is left
/// after normalisation (no arguments, or `["a/.."]`) the result is `"."`.
pub fn path_join(args: Vec<JsValue>) -> (r: JsValue)
    ensures
        join_result(args@, r),
{
    let ghost a = args@;
    let mut parts: Vec<JsValue> = Vec::new();
    for item in it: args
        invariant
            it.seq() == a,
            parts_of(parts@) == flatten(a.take(it.index() as int)),
    {
        let ghost k = it.index() as int;
        assert(a.take(k + 1).drop_last() =~= a.take(k));
        match item {
            JsValue::Constant(ConstantValue::Str(s)) => {
                push_split(s.as_str(), &mut parts);
            },
            other => {
                let ghost before = parts@;
                parts.push(other);
                assert(parts_of(parts@) =~= parts_of(before).push(part_of(other)));
            },
        }
    }
    assert(a.take(a.len() as int) =~= a);
    let ghost ps = parts_of(parts@);
    let mut fin: Vec<JsValue> = Vec::new();
    let mut pend: Vec<JsValue> = Vec::new();
    for item in it: parts
        invariant
            parts_of(it.seq()) == ps,
            parts_of(fin@) == normalize(ps.take(it.index() as int)).0,
            parts_of(pend@) == normalize(ps.take(it.index() as int)).1,
    {
        let ghost k = it.index() as int;
        let ghost f0 = fin@;
        let ghost p0 = pend@;
        assert(ps.take(k + 1).drop_last() =~= ps.take(k));
        assert(ps[k] == part_of(it.seq()[k]));
        let class = classify(&item);
        if class == 0 {
            if fin.len() == 0 && pend.len() == 0 {
                fin.push(item);
                assert(parts_of(fin@) =~= parts_of(f0).push(part_of(item)));
            }
        } else if class == 1 {
            if pend.len() > 0 {
                pend.pop();
                assert(parts_of(pend@) =~= parts_of(p0).drop_last());
            } else {
                fin.push(item);
                assert(parts_of(fin@) =~= parts_of(f0).push(part_of(item)));
            }
        } else if class == 2 {
            pend.push(item);
            assert(parts_of(pend@) =~= parts_of(p0).push(part_of(item)));
        } else {
            fin.append(&mut pend);
            fin.push(item);
            assert(parts_of(fin@) =~= (parts_of(f0) + parts_of(p0)).push(part_of(item)));
            assert(parts_of(pend@) =~= Seq::<Part>::empty());
        }
    }
    assert(ps.take(ps.len() as int) =~= ps);
    let ghost f0 = fin@;
    let ghost p0 = pend@;
    fin.append(&mut pend);
    assert(parts_of(fin@) =~= parts_of(f0) + parts_of(p0));
    let ghost fs = parts_of(fin@);
    if fin.len() == 0 {
        proof {
            reveal_strlit(".");
            assert("."@ =~= seq!['.']);
        }
        return JsValue::str(".");
    }
    let mut items: Vec<JsValue> = Vec::new();
    let mut last_is_str = false;
    let mut first = true;
    for part in it: fin
        invariant
            parts_of(it.seq()) == fs,
            first == (it.index() == 0),
            fs.len() > 0,
            it.index() > 0 ==> last_is_str == (fs[it.index() - 1] is Lit),
            parts_of(items@) == interleave(fs.take(it.index() as int)),
    {
        let ghost k = it.index() as int;
        let ghost i0 = items@;
        assert(fs[k] == part_of(it.seq()[k]));
        let is_str = part.as_str().is_some();
        proof {
            if k == 0 {
                assert(fs.take(1) =~= seq![fs[0]]);
            } else {
                assert(fs.take(k + 1).drop_last() =~= fs.take(k));
            }
        }
        if !first {
            if last_is_str && is_str {
                items.push(slash());
            } else {
                items.push(either_separator());
            }
        }
        items.push(part);
        assert(parts_of(items@) =~= interleave(fs.take(k + 1)));
        last_is_str = is_str;
        first = false;
    }
    assert(fs.take(fs.len() as int) =~= fs);
    JsValue::Concat(items)
}

/// The index of the last `/` in `s`, or -1 when there is none.
pub open spec fn last_slash(s: Seq<char>) -> int
    decreases s.len(),
{
    if s.len() == 0 {
        -1
    } else if s.last() == '/' {
        s.len() - 1
    } else {
        last_slash(s.drop_last())
    }
}

/// What precedes the last `/` of `s`; empty when `s` has none.
pub open spec fn dirname_of(s: Seq<char>) -> Seq<char> {
    if last_slash(s) >= 0 {
        s.take(last_slash(s))
    } else {
        Seq::empty()
    }
}

/// `v` is a concatenation whose last part is a literal holding a `/`.
pub open spec fn concat_with_slash(v: JsValue) -> bool {
    match v {
        JsValue::Concat(items) => items@.len() > 0 && match lit_str(items@.last()) {
            Some(t) => last_slash(t) >= 0,
            None => false,
        },
        _ => false,
    }
}

/// `r` is what `path.dirname(args)` gives.
pub open spec fn dirname_result(args: Seq<JsValue>, r: JsValue) -> bool {
    if args.len() > 0 && lit_str(args[0]) is Some {
        is_lit(r, dirname_of(lit_str(args[0])->0))
    } else if args.len() > 0 && concat_with_slash(args[0]) {
        &&& args[0] matches JsValue::Concat(items)
        &&& r matches JsValue::Concat(out)
        &&& out@.len() == items@.len()
        &&& out@.drop_last() == items@.drop_last()
        &&& is_lit(out@.last(), dirname_of(lit_str(items@.last())->0))
    } else {
        unknown_call(
            r,
            WellKnownFunctionKind::PathDirname,
            args,
            UnknownReason::DirnameUnsupportedArguments,
        )
    }
}

/// What precedes the last `/` of `s`, when it holds one.
fn slash_prefix(s: &str) -> (r: Option<String>)
    ensures
        r is Some == (last_slash(s@) >= 0),
        r matches Some(d) ==> d@ == dirname_of(s@),
{
    let chars = chars_of(s);
    let n = chars.len();
    let mut found: usize = 0;
    for i in 0..n
        invariant
            n == chars@.len(),
            chars@ == s@,
            found <= i,
            found as int - 1 == last_slash(chars@.take(i as int)),
    {
        assert(chars@.take(i + 1).drop_last() =~= chars@.take(i as int));
        if chars[i] == '/' {
            found = i + 1;
        }
    }
    assert(chars@.take(n as int) =~= s@);
    if found == 0 {
        return None;
    }
    let k = found - 1;
    let mut out = String::new();
    for j in 0..k
        invariant
            k < n,
            n == chars@.len(),
            out@ == chars@.take(j as int),
    {
        push_char(&mut out, chars[j]);
        assert(chars@.take(j + 1) =~= chars@.take(j as int).push(chars@[j as int]));
    }
    Some(out)
}

/// What precedes the last `/` of `s`; empty when `s` has none.
fn dirname_str(s: &str) -> (r: String)
    ensures
        r@ == dirname_of(s@),
{
    match slash_prefix(s) {
        Some(d) => d,
        None => String::new(),
    }
}

/// `path.dirname`: the part of the path before its last `/`. A concatenation whose
/// last part is a literal holding a `/` keeps its other parts.
pub fn path_dirname(args: Vec<JsValue>) -> (r: JsValue)
    ensures
        dirname_result(args@, r),
{
    let mut args = args;
    let mut trailing: Option<String> = None;
    if args.len() > 0 {
        match &args[0] {
            JsValue::Constant(ConstantValue::Str(s)) => {
                return JsValue::Constant(ConstantValue::Str(dirname_str(s.as_str())));
            },
            JsValue::Concat(items) => {
                if items.len() > 0 {
                    if let JsValue::Constant(ConstantValue::Str(s)) = &items[items.len() - 1] {
                        trailing = slash_prefix(s.as_str());
                    }
                }
            },
            _ => {},
        }
    }
    match trailing {
        Some(d) => {
            let first = args.swap_remove(0);
            match first {
                JsValue::Concat(items) => {
                    let mut items = items;
                    let ghost before = items@;
                    items.pop();
                    items.push(JsValue::Constant(ConstantValue::Str(d)));
                    assert(items@.drop_last() =~= before.drop_last());
                    JsValue::Concat(items)
                },
                other => other,
            }
        },
        None => unknown_of_call(
            WellKnownFunctionKind::PathDirname,
            args,
            UnknownReason::DirnameUnsupportedArguments,
        ),
    }
}

} // verus!
