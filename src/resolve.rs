use vstd::prelude::*;

use crate::path::{dirname_result, join_result, path_dirname, path_join};
use crate::text::eq_lit;
use crate::value::{
    lit_str, unknown_call, unknown_member, unknown_of_call, unknown_of_member, ConstantValue,
    JsValue, UnknownReason, WellKnownFunctionKind, WellKnownObjectKind,
};

verus! {

broadcast use vstd::string::group_string_axioms;

/// The serialisation of the `file:` URL that `url` makes of an absolute path.
pub uninterp spec fn file_url_of(path: Seq<char>) -> Seq<char>;

/// `s` is an absolute POSIX path.
pub open spec fn is_absolute(s: Seq<char>) -> bool {
    s.len() > 0 && s[0] == '/'
}

/// Relies on `url::Url::from_file_path`: on Unix it fails exactly on a path that is
/// not absolute; the URL is handed on as its serialisation.
#[verifier::external_body]
fn url_from_file_path(path: &str) -> (r: Option<String>)
    ensures
        r is Some == is_absolute(path@),
        r matches Some(u) ==> u@ == file_url_of(path@),
{
    url::Url::from_file_path(path).ok().map(String::from)
}

/// `prop` is the literal string `name`.
fn prop_is(prop: &JsValue, name: &str) -> (r: bool)
    ensures
        r == (lit_str(*prop) == Some(name@)),
{
    match prop.as_str() {
        Some(s) => eq_lit(s, name),
        None => false,
    }
}

/// `r` is what `require(args)` gives.
pub open spec fn require_result(args: Seq<JsValue>, r: JsValue) -> bool {
    if args.len() == 1 {
        match lit_str(args[0]) {
            Some(s) => r matches JsValue::Module(m) && m@ == s,
            None => unknown_call(
                r,
                WellKnownFunctionKind::Require,
                args,
                UnknownReason::OnlyConstantArgument,
            ),
        }
    } else {
        unknown_call(r, WellKnownFunctionKind::Require, args, UnknownReason::OnlySingleArgument)
    }
}

/// `require`: one literal argument names a module.
pub fn require(args: Vec<JsValue>) -> (r: JsValue)
    ensures
        require_result(args@, r),
{
    if args.len() == 1 {
        let name: Option<String> = match &args[0] {
            JsValue::Constant(ConstantValue::Str(s)) => Some(s.clone()),
            _ => None,
        };
        match name {
            Some(s) => JsValue::Module(s),
            None => unknown_of_call(
                WellKnownFunctionKind::Require,
                args,
                UnknownReason::OnlyConstantArgument,
            ),
        }
    } else {
        unknown_of_call(WellKnownFunctionKind::Require, args, UnknownReason::OnlySingleArgument)
    }
}

/// The value of `url.pathToFileURL(args)` once the conversion gave `url`.
pub fn url_value(url: Option<String>, args: Vec<JsValue>) -> (r: JsValue)
    ensures
        match url {
            Some(u) => r matches JsValue::Url(x) && x@ == u@,
            None => unknown_call(
                r,
                WellKnownFunctionKind::PathToFileUrl,
                args@,
                UnknownReason::UrlNotParseable,
            ),
        },
{
    match url {
        Some(u) => JsValue::Url(u),
        None => unknown_of_call(
            WellKnownFunctionKind::PathToFileUrl,
            args,
            UnknownReason::UrlNotParseable,
        ),
    }
}

/// `r` is what `url.pathToFileURL(args)` gives.
pub open spec fn file_url_result(args: Seq<JsValue>, r: JsValue) -> bool {
    if args.len() == 1 {
        match lit_str(args[0]) {
            Some(p) => if is_absolute(p) {
                r matches JsValue::Url(u) && u@ == file_url_of(p)
            } else {
                unknown_call(
                    r,
                    WellKnownFunctionKind::PathToFileUrl,
                    args,
                    UnknownReason::UrlNotParseable,
                )
            },
            None => unknown_call(
                r,
                WellKnownFunctionKind::PathToFileUrl,
                args,
                UnknownReason::OnlyConstantArgument,
            ),
        }
    } else {
        unknown_call(
            r,
            WellKnownFunctionKind::PathToFileUrl,
            args,
            UnknownReason::OnlySingleArgument,
        )
    }
}

/// `url.pathToFileURL`: one literal absolute path becomes a `file:` URL.
pub fn path_to_file_url(args: Vec<JsValue>) -> (r: JsValue)
    ensures
        file_url_result(args@, r),
{
    if args.len() == 1 {
        let url: Option<Option<String>> = match &args[0] {
            JsValue::Constant(ConstantValue::Str(p)) => Some(url_from_file_path(p.as_str())),
            _ => None,
        };
        match url {
            Some(u) => url_value(u, args),
            None => unknown_of_call(
                WellKnownFunctionKind::PathToFileUrl,
                args,
                UnknownReason::OnlyConstantArgument,
            ),
        }
    } else {
        unknown_of_call(
            WellKnownFunctionKind::PathToFileUrl,
            args,
            UnknownReason::OnlySingleArgument,
        )
    }
}

/// `r` is what calling the function `kind` with `args` gives.
pub open spec fn call_result(kind: WellKnownFunctionKind, args: Seq<JsValue>, r: JsValue) -> bool {
    match kind {
        WellKnownFunctionKind::PathJoin => join_result(args, r),
        WellKnownFunctionKind::PathDirname => dirname_result(args, r),
        WellKnownFunctionKind::Import => unknown_call(
            r,
            kind,
            args,
            UnknownReason::ImportUnsupported,
        ),
        WellKnownFunctionKind::Require => require_result(args, r),
        WellKnownFunctionKind::RequireResolve => unknown_call(
            r,
            kind,
            args,
            UnknownReason::RequireResolveUnsupported,
        ),
        WellKnownFunctionKind::PathToFileUrl => file_url_result(args, r),
        _ => unknown_call(r, kind, args, UnknownReason::UnsupportedFunction),
    }
}

/// Calls the well-known function `kind` on `args`.
pub fn well_known_function_call(
    kind: WellKnownFunctionKind,
    _this: JsValue,
    args: Vec<JsValue>,
) -> (r: JsValue)
    ensures
        call_result(kind, args@, r),
{
    match kind {
        WellKnownFunctionKind::PathJoin => path_join(args),
        WellKnownFunctionKind::PathDirname => path_dirname(args),
        WellKnownFunctionKind::Import => unknown_of_call(
            kind,
            args,
            UnknownReason::ImportUnsupported,
        ),
        WellKnownFunctionKind::Require => require(args),
        WellKnownFunctionKind::RequireResolve => unknown_of_call(
            kind,
            args,
            UnknownReason::RequireResolveUnsupported,
        ),
        WellKnownFunctionKind::PathToFileUrl => path_to_file_url(args),
        _ => unknown_of_call(kind, args, UnknownReason::UnsupportedFunction),
    }
}

/// `r` is what the property `prop` of the function `kind` gives.
pub open spec fn function_member_result(kind: WellKnownFunctionKind, prop: JsValue, r: JsValue) -> bool {
    if kind is Require && lit_str(prop) == Some("resolve"@) {
        r == JsValue::WellKnownFunction(WellKnownFunctionKind::RequireResolve)
    } else {
        unknown_member(
            r,
            JsValue::WellKnownFunction(kind),
            prop,
            UnknownReason::UnsupportedFunctionProperty,
        )
    }
}

/// The property `prop` of the well-known function `kind`.
pub fn well_known_function_member(kind: WellKnownFunctionKind, prop: JsValue) -> (r: JsValue)
    ensures
        function_member_result(kind, prop, r),
{
    if matches!(kind, WellKnownFunctionKind::Require) && prop_is(&prop, "resolve") {
        JsValue::WellKnownFunction(WellKnownFunctionKind::RequireResolve)
    } else {
        unknown_of_member(
            JsValue::WellKnownFunction(kind),
            prop,
            UnknownReason::UnsupportedFunctionProperty,
        )
    }
}

/// `r` is what the property `prop` of the `path` module gives.
pub open spec fn path_member_result(prop: JsValue, r: JsValue) -> bool {
    if lit_str(prop) == Some("join"@) {
        r == JsValue::WellKnownFunction(WellKnownFunctionKind::PathJoin)
    } else if lit_str(prop) == Some("dirname"@) {
        r == JsValue::WellKnownFunction(WellKnownFunctionKind::PathDirname)
    } else {
        unknown_member(
            r,
            JsValue::WellKnownObject(WellKnownObjectKind::PathModule),
            prop,
            UnknownReason::UnsupportedPathProperty,
        )
    }
}

/// A property of the `path` module.
pub fn path_module_member(prop: JsValue) -> (r: JsValue)
    ensures
        path_member_result(prop, r),
{
    if prop_is(&prop, "join") {
        JsValue::WellKnownFunction(WellKnownFunctionKind::PathJoin)
    } else if prop_is(&prop, "dirname") {
        JsValue::WellKnownFunction(WellKnownFunctionKind::PathDirname)
    } else {
        unknown_of_member(
            JsValue::WellKnownObject(WellKnownObjectKind::PathModule),
            prop,
            UnknownReason::UnsupportedPathProperty,
        )
    }
}

/// The read-style methods of the `fs` module.
pub open spec fn is_fs_read_method(s: Seq<char>) -> bool {
    ||| s == "realpath"@
    ||| s == "realpathSync"@
    ||| s == "stat"@
    ||| s == "statSync"@
    ||| s == "existsSync"@
    ||| s == "createReadStream"@
    ||| s == "exists"@
    ||| s == "open"@
    ||| s == "openSync"@
    ||| s == "readFile"@
    ||| s == "readFileSync"@
}

fn fs_read_method(prop: &JsValue) -> (r: bool)
    ensures
        r == (lit_str(*prop) matches Some(s) && is_fs_read_method(s)),
{
    prop_is(prop, "realpath") || prop_is(prop, "realpathSync") || prop_is(prop, "stat")
        || prop_is(prop, "statSync") || prop_is(prop, "existsSync") || prop_is(
        prop,
        "createReadStream",
    ) || prop_is(prop, "exists") || prop_is(prop, "open") || prop_is(prop, "openSync")
        || prop_is(prop, "readFile") || prop_is(prop, "readFileSync")
}

/// `r` is what the property `prop` of the `fs` module gives.
pub open spec fn fs_member_result(prop: JsValue, r: JsValue) -> bool {
    match lit_str(prop) {
        Some(s) if is_fs_read_method(s) => r matches JsValue::WellKnownFunction(
            WellKnownFunctionKind::FsReadMethod(w),
        ) && w@ == s,
        Some(s) if s == "promises"@ => r == JsValue::WellKnownObject(WellKnownObjectKind::FsModule),
        _ => unknown_member(
            r,
            JsValue::WellKnownObject(WellKnownObjectKind::FsModule),
            prop,
            UnknownReason::UnsupportedFsProperty,
        ),
    }
}

/// A property of the `fs` module; `promises` leads back to the module itself.
pub fn fs_module_member(prop: JsValue) -> (r: JsValue)
    ensures
        fs_member_result(prop, r),
{
    if fs_read_method(&prop) {
        match prop {
            JsValue::Constant(ConstantValue::Str(w)) => JsValue::WellKnownFunction(
                WellKnownFunctionKind::FsReadMethod(w),
            ),
            other => other,
        }
    } else if prop_is(&prop, "promises") {
        JsValue::WellKnownObject(WellKnownObjectKind::FsModule)
    } else {
        unknown_of_member(
            JsValue::WellKnownObject(WellKnownObjectKind::FsModule),
            prop,
            UnknownReason::UnsupportedFsProperty,
        )
    }
}

/// `r` is what the property `prop` of the `url` module gives.
pub open spec fn url_member_result(prop: JsValue, r: JsValue) -> bool {
    if lit_str(prop) == Some("pathToFileURL"@) {
        r == JsValue::WellKnownFunction(WellKnownFunctionKind::PathToFileUrl)
    } else {
        unknown_member(
            r,
            JsValue::WellKnownObject(WellKnownObjectKind::UrlModule),
            prop,
            UnknownReason::UnsupportedUrlProperty,
        )
    }
}

/// A property of the `url` module.
pub fn url_module_member(prop: JsValue) -> (r: JsValue)
    ensures
        url_member_result(prop, r),
{
    if prop_is(&prop, "pathToFileURL") {
        JsValue::WellKnownFunction(WellKnownFunctionKind::PathToFileUrl)
    } else {
        unknown_of_member(
            JsValue::WellKnownObject(WellKnownObjectKind::UrlModule),
            prop,
            UnknownReason::UnsupportedUrlProperty,
        )
    }
}

/// The process-spawning methods of the `child_process` module, `fork` aside.
pub open spec fn is_spawn_method(s: Seq<char>) -> bool {
    ||| s == "spawn"@
    ||| s == "spawnSync"@
    ||| s == "execFile"@
    ||| s == "execFileSync"@
}

/// `r` is what the property `prop` of the `child_process` module gives.
pub open spec fn child_process_member_result(prop: JsValue, r: JsValue) -> bool {
    match lit_str(prop) {
        Some(s) if is_spawn_method(s) => r matches JsValue::WellKnownFunction(
            WellKnownFunctionKind::ChildProcessSpawnMethod(w),
        ) && w@ == s,
        Some(s) if s == "fork"@ => r == JsValue::WellKnownFunction(
            WellKnownFunctionKind::ChildProcessFork,
        ),
        _ => unknown_member(
            r,
            JsValue::WellKnownObject(WellKnownObjectKind::ChildProcess),
            prop,
            UnknownReason::UnsupportedChildProcessProperty,
        ),
    }
}

/// A property of the `child_process` module.
pub fn child_process_module_member(prop: JsValue) -> (r: JsValue)
    ensures
        child_process_member_result(prop, r),
{
    if prop_is(&prop, "spawn") || prop_is(&prop, "spawnSync") || prop_is(&prop, "execFile")
        || prop_is(&prop, "execFileSync") {
        match prop {
            JsValue::Constant(ConstantValue::Str(w)) => JsValue::WellKnownFunction(
                WellKnownFunctionKind::ChildProcessSpawnMethod(w),
            ),
            other => other,
        }
    } else if prop_is(&prop, "fork") {
        JsValue::WellKnownFunction(WellKnownFunctionKind::ChildProcessFork)
    } else {
        unknown_of_member(
            JsValue::WellKnownObject(WellKnownObjectKind::ChildProcess),
            prop,
            UnknownReason::UnsupportedChildProcessProperty,
        )
    }
}

/// `r` is what the property `prop` of the object `kind` gives.
pub open spec fn object_member_result(kind: WellKnownObjectKind, prop: JsValue, r: JsValue) -> bool {
    match kind {
        WellKnownObjectKind::PathModule => path_member_result(prop, r),
        WellKnownObjectKind::FsModule => fs_member_result(prop, r),
        WellKnownObjectKind::UrlModule => url_member_result(prop, r),
        WellKnownObjectKind::ChildProcess => child_process_member_result(prop, r),
    }
}

/// The property `prop` of the well-known object `kind`.
pub fn well_known_object_member(kind: WellKnownObjectKind, prop: JsValue) -> (r: JsValue)
    ensures
        object_member_result(kind, prop, r),
{
    match kind {
        WellKnownObjectKind::PathModule => path_module_member(prop),
        WellKnownObjectKind::FsModule => fs_module_member(prop),
        WellKnownObjectKind::UrlModule => url_module_member(prop),
        WellKnownObjectKind::ChildProcess => child_process_module_member(prop),
    }
}

/// `v` is a node that the resolver rewrites: a call of a well-known function, or a
/// member access on a well-known object or function.
pub open spec fn is_rewritable(v: JsValue) -> bool {
    match v {
        JsValue::Call(callee, _) => *callee is WellKnownFunction,
        JsValue::Member(object, _) => *object is WellKnownObject || *object is WellKnownFunction,
        _ => false,
    }
}

/// Resolving `v` gives `w` and reports `changed`.
pub open spec fn resolves_to(v: JsValue, w: JsValue, changed: bool) -> bool {
    &&& changed == is_rewritable(v)
    &&& match v {
        JsValue::Call(callee, args) => match *callee {
            JsValue::WellKnownFunction(kind) => call_result(kind, args@, w),
            _ => w == v,
        },
        JsValue::Member(object, prop) => match *object {
            JsValue::WellKnownObject(kind) => object_member_result(kind, *prop, w),
            JsValue::WellKnownFunction(kind) => function_member_result(kind, *prop, w),
            _ => w == v,
        },
        _ => w == v,
    }
}

/// Rewrites one node: a call of a well-known function or a member access on a
/// well-known object or function is resolved and reported as changed; any other
/// value comes back as it is, unchanged.
pub fn replace_well_known(value: JsValue) -> (r: (JsValue, bool))
    ensures
        resolves_to(value, r.0, r.1),
{
    match value {
        JsValue::Call(callee, args) => match *callee {
            JsValue::WellKnownFunction(kind) => (
                well_known_function_call(
                    kind,
                    JsValue::Unknown(None, UnknownReason::NotAnalysedYet),
                    args,
                ),
                true,
            ),
            other => (JsValue::Call(Box::new(other), args), false),
        },
        JsValue::Member(object, prop) => match *object {
            JsValue::WellKnownObject(kind) => (well_known_object_member(kind, *prop), true),
            JsValue::WellKnownFunction(kind) => (well_known_function_member(kind, *prop), true),
            other => (JsValue::Member(Box::new(other), prop), false),
        },
        other => (other, false),
    }
}

} // verus!
