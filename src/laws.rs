use vstd::prelude::*;

use crate::path::{
    flatten, interleave, join_result, lit_parts, normalize, normalized, part_of, parts_of,
    split_slash, Part,
};
use crate::resolve::{
    call_result, function_member_result, is_fs_read_method, is_rewritable, is_spawn_method,
    object_member_result, resolves_to,
};
use crate::value::{
    is_lit, lit_str, unknown_call, unknown_member, JsValue, UnknownReason, WellKnownFunctionKind,
    WellKnownObjectKind,
};

verus! {

broadcast use vstd::string::group_string_axioms;

/// One rewrite lands on a fixpoint: whatever resolving gives is not rewritten again.
pub proof fn lemma_resolve_reaches_fixpoint(v: JsValue, w: JsValue, changed: bool)
    requires
        resolves_to(v, w, changed),
    ensures
        !is_rewritable(w),
{
}

/// Resolving is idempotent: resolving a result once more reports no change and
/// gives the result back, and a value reported unchanged is given back as it was.
pub proof fn lemma_resolve_idempotent(
    v: JsValue,
    w: JsValue,
    changed: bool,
    w2: JsValue,
    changed2: bool,
)
    requires
        resolves_to(v, w, changed),
        resolves_to(w, w2, changed2),
    ensures
        !changed2,
        w2 == w,
        !changed ==> w == v,
{
    lemma_resolve_reaches_fixpoint(v, w, changed);
}

/// Joining no segments gives the literal `"."`.
pub proof fn lemma_join_empty(r: JsValue)
    requires
        join_result(Seq::empty(), r),
    ensures
        is_lit(r, seq!['.']),
{
    assert(flatten(Seq::<JsValue>::empty()) =~= Seq::<Part>::empty());
}

proof fn lemma_split_without_slash(s: Seq<char>)
    requires
        forall|i: int| 0 <= i < s.len() ==> s[i] != '/',
    ensures
        split_slash(s) == seq![s],
    decreases s.len(),
{
    if s.len() == 0 {
        assert(s =~= Seq::<char>::empty());
        assert(split_slash(s) =~= seq![s]);
    } else {
        lemma_split_without_slash(s.drop_last());
        assert(s.drop_last().push(s.last()) =~= s);
        assert(seq![s.drop_last()].update(0, s) =~= seq![s]);
    }
}

/// A `..` after a non-literal segment does not cancel it: joining `[x, "..", "a"]`
/// keeps `x`, then `..`, then `a`.
pub proof fn lemma_join_keeps_opaque(x: JsValue, dots: JsValue, a: JsValue, r: JsValue)
    requires
        lit_str(x) is None,
        is_lit(dots, seq!['.', '.']),
        is_lit(a, seq!['a']),
        join_result(seq![x, dots, a], r),
    ensures
        r matches JsValue::Concat(items) && parts_of(items@) == seq![
            part_of(x),
            Part::Sep,
            Part::Lit(seq!['.', '.']),
            Part::Lit(seq!['/']),
            Part::Lit(seq!['a']),
        ],
{
    let args = seq![x, dots, a];
    let dd = seq!['.', '.'];
    let sa = seq!['a'];
    lemma_split_without_slash(dd);
    lemma_split_without_slash(sa);
    assert(args.drop_last() =~= seq![x, dots]);
    assert(seq![x, dots].drop_last() =~= seq![x]);
    assert(seq![x].drop_last() =~= Seq::<JsValue>::empty());
    let p = part_of(x);
    assert(!(p is Lit));
    assert(flatten(Seq::<JsValue>::empty()) =~= Seq::<Part>::empty());
    assert(seq![x].last() == x);
    assert(flatten(seq![x]) =~= seq![p]);
    assert(lit_parts(seq![dd]) =~= seq![Part::Lit(dd)]);
    assert(lit_parts(seq![sa]) =~= seq![Part::Lit(sa)]);
    let ps = seq![p, Part::Lit(dd), Part::Lit(sa)];
    assert(seq![x, dots].last() == dots);
    assert(flatten(seq![x, dots]) =~= seq![p, Part::Lit(dd)]);
    assert(args.last() == a);
    assert(flatten(args) =~= ps);
    assert(ps.drop_last() =~= seq![p, Part::Lit(dd)]);
    assert(seq![p, Part::Lit(dd)].drop_last() =~= seq![p]);
    assert(seq![p].drop_last() =~= Seq::<Part>::empty());
    assert(normalize(Seq::<Part>::empty()) == (Seq::<Part>::empty(), Seq::<Part>::empty()));
    assert(seq![p].last() == p);
    assert(seq![p, Part::Lit(dd)].last() == Part::Lit(dd));
    assert(ps.last() == Part::Lit(sa));
    assert(normalize(seq![p]).0 =~= seq![p]);
    assert(normalize(seq![p]).1 =~= Seq::<Part>::empty());
    assert(normalize(seq![p, Part::Lit(dd)]).0 =~= seq![p, Part::Lit(dd)]);
    assert(normalize(ps).1 =~= seq![Part::Lit(sa)]);
    let fin = seq![p, Part::Lit(dd), Part::Lit(sa)];
    assert(normalized(ps) =~= fin);
    assert(fin.drop_last() =~= seq![p, Part::Lit(dd)]);
    assert(seq![p, Part::Lit(dd)].drop_last() =~= seq![p]);
    assert(interleave(seq![p]) == seq![p]);
    assert(interleave(seq![p, Part::Lit(dd)]) =~= seq![p, Part::Sep, Part::Lit(dd)]);
    assert(interleave(fin) =~= seq![
        p,
        Part::Sep,
        Part::Lit(dd),
        Part::Lit(seq!['/']),
        Part::Lit(sa),
    ]);
}

/// `require.resolve` is the `RequireResolve` function.
pub proof fn lemma_require_resolve_member(prop: JsValue, r: JsValue)
    requires
        lit_str(prop) == Some("resolve"@),
        function_member_result(WellKnownFunctionKind::Require, prop, r),
    ensures
        r == JsValue::WellKnownFunction(WellKnownFunctionKind::RequireResolve),
{
}

/// `fs.promises` leads back to the `fs` module.
pub proof fn lemma_fs_promises_member(prop: JsValue, r: JsValue)
    requires
        lit_str(prop) == Some("promises"@),
        object_member_result(WellKnownObjectKind::FsModule, prop, r),
    ensures
        r == JsValue::WellKnownObject(WellKnownObjectKind::FsModule),
{
    reveal_strlit("promises");
    reveal_strlit("realpath");
    reveal_strlit("realpathSync");
    reveal_strlit("stat");
    reveal_strlit("statSync");
    reveal_strlit("existsSync");
    reveal_strlit("createReadStream");
    reveal_strlit("exists");
    reveal_strlit("open");
    reveal_strlit("openSync");
    reveal_strlit("readFile");
    reveal_strlit("readFileSync");
    let p = "promises"@;
    assert(p.len() == 8 && p[0] == 'p');
    assert(p != "realpath"@) by {
        assert("realpath"@[0] == 'r');
    }
    assert(p != "statSync"@) by {
        assert("statSync"@[0] == 's');
    }
    assert(p != "openSync"@) by {
        assert("openSync"@[0] == 'o');
    }
    assert(p != "readFile"@) by {
        assert("readFile"@[0] == 'r');
    }
    assert(!is_fs_read_method(p));
}

/// The property names that the object `kind` resolves.
pub open spec fn is_known_object_property(kind: WellKnownObjectKind, s: Seq<char>) -> bool {
    match kind {
        WellKnownObjectKind::PathModule => s == "join"@ || s == "dirname"@,
        WellKnownObjectKind::FsModule => is_fs_read_method(s) || s == "promises"@,
        WellKnownObjectKind::UrlModule => s == "pathToFileURL"@,
        WellKnownObjectKind::ChildProcess => is_spawn_method(s) || s == "fork"@,
    }
}

/// An unknown property of a well-known object gives an `Unknown` that keeps the
/// member access as it was.
pub proof fn lemma_unknown_object_property(kind: WellKnownObjectKind, prop: JsValue, r: JsValue)
    requires
        object_member_result(kind, prop, r),
        !(lit_str(prop) matches Some(s) && is_known_object_property(kind, s)),
    ensures
        exists|why: UnknownReason| unknown_member(r, JsValue::WellKnownObject(kind), prop, why),
{
    let why = match kind {
        WellKnownObjectKind::PathModule => UnknownReason::UnsupportedPathProperty,
        WellKnownObjectKind::FsModule => UnknownReason::UnsupportedFsProperty,
        WellKnownObjectKind::UrlModule => UnknownReason::UnsupportedUrlProperty,
        WellKnownObjectKind::ChildProcess => UnknownReason::UnsupportedChildProcessProperty,
    };
    assert(unknown_member(r, JsValue::WellKnownObject(kind), prop, why));
}

/// A property of a well-known function other than `require.resolve` gives an
/// `Unknown` that keeps the member access as it was.
pub proof fn lemma_unknown_function_property(kind: WellKnownFunctionKind, prop: JsValue, r: JsValue)
    requires
        function_member_result(kind, prop, r),
        !(kind is Require && lit_str(prop) == Some("resolve"@)),
    ensures
        unknown_member(
            r,
            JsValue::WellKnownFunction(kind),
            prop,
            UnknownReason::UnsupportedFunctionProperty,
        ),
{
}

/// `import(...)` and `require.resolve(...)` give an `Unknown` with their fixed
/// reason, whatever the arguments.
pub proof fn lemma_unsupported_calls(kind: WellKnownFunctionKind, args: Seq<JsValue>, r: JsValue)
    requires
        kind is Import || kind is RequireResolve,
        call_result(kind, args, r),
    ensures
        kind is Import ==> unknown_call(r, kind, args, UnknownReason::ImportUnsupported),
        kind is RequireResolve ==> unknown_call(
            r,
            kind,
            args,
            UnknownReason::RequireResolveUnsupported,
        ),
{
}

} // verus!
