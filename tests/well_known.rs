use js_well_known::path::{path_dirname, path_join};
use js_well_known::resolve::{
    child_process_module_member, fs_module_member, path_module_member, path_to_file_url,
    replace_well_known, require, url_module_member, url_value, well_known_function_call,
    well_known_function_member, well_known_object_member,
};
use js_well_known::value::{
    ConstantValue, JsValue, UnknownReason, WellKnownFunctionKind, WellKnownObjectKind,
};

fn s(x: &str) -> JsValue {
    JsValue::str(x)
}

fn either() -> JsValue {
    JsValue::Alternatives(vec![s("/"), s("")])
}

fn opaque() -> JsValue {
    JsValue::Unknown(None, UnknownReason::NotAnalysedYet)
}

fn unknown_call(kind: WellKnownFunctionKind, args: Vec<JsValue>, why: UnknownReason) -> JsValue {
    JsValue::Unknown(
        Some(Box::new(JsValue::call(JsValue::WellKnownFunction(kind), args))),
        why,
    )
}

fn unknown_member(object: JsValue, prop: JsValue, why: UnknownReason) -> JsValue {
    JsValue::Unknown(Some(Box::new(JsValue::member(object, prop))), why)
}

#[test]
fn join_of_nothing_is_dot() {
    assert_eq!(path_join(vec![]), s("."));
}

#[test]
fn join_two_literals() {
    assert_eq!(
        path_join(vec![s("a"), s("b")]),
        JsValue::Concat(vec![s("a"), s("/"), s("b")])
    );
}

#[test]
fn join_dot_dot_cancels_previous_segment() {
    assert_eq!(path_join(vec![s("a"), s(".."), s("b")]), JsValue::Concat(vec![s("b")]));
}

#[test]
fn join_leading_dot_dot_is_kept() {
    assert_eq!(
        path_join(vec![s(".."), s("a")]),
        JsValue::Concat(vec![s(".."), s("/"), s("a")])
    );
}

#[test]
fn join_leading_dot_is_kept_as_marker() {
    assert_eq!(
        path_join(vec![s("."), s("a")]),
        JsValue::Concat(vec![s("."), s("/"), s("a")])
    );
}

#[test]
fn join_splits_literals_at_slashes() {
    assert_eq!(
        path_join(vec![s("a/b"), s("./c/")]),
        JsValue::Concat(vec![s("a"), s("/"), s("b"), s("/"), s("c")])
    );
}

#[test]
fn join_absolute_path_keeps_leading_empty_segment() {
    assert_eq!(
        path_join(vec![s("/a"), s("b")]),
        JsValue::Concat(vec![s(""), s("/"), s("a"), s("/"), s("b")])
    );
}

#[test]
fn join_that_cancels_everything_is_dot() {
    assert_eq!(path_join(vec![s("a/..")]), s("."));
}

#[test]
fn join_does_not_cancel_opaque_segment() {
    assert_eq!(
        path_join(vec![opaque(), s(".."), s("a")]),
        JsValue::Concat(vec![opaque(), either(), s(".."), s("/"), s("a")])
    );
}

#[test]
fn join_opaque_flushes_pending_segments() {
    assert_eq!(
        path_join(vec![s("a"), opaque(), s("..")]),
        JsValue::Concat(vec![s("a"), either(), opaque(), either(), s("..")])
    );
}

#[test]
fn dirname_of_literal() {
    assert_eq!(path_dirname(vec![s("a/b/c")]), s("a/b"));
}

#[test]
fn dirname_without_slash_is_empty() {
    assert_eq!(path_dirname(vec![s("a")]), s(""));
}

#[test]
fn dirname_of_concat_with_literal_tail() {
    let arg = JsValue::Concat(vec![opaque(), s("x/y.js")]);
    assert_eq!(path_dirname(vec![arg]), JsValue::Concat(vec![opaque(), s("x")]));
}

#[test]
fn dirname_of_concat_without_slash_is_unknown() {
    let arg = || JsValue::Concat(vec![opaque(), s("y.js")]);
    assert_eq!(
        path_dirname(vec![arg()]),
        unknown_call(
            WellKnownFunctionKind::PathDirname,
            vec![arg()],
            UnknownReason::DirnameUnsupportedArguments
        )
    );
}

#[test]
fn dirname_without_arguments_is_unknown() {
    assert_eq!(
        path_dirname(vec![]),
        unknown_call(
            WellKnownFunctionKind::PathDirname,
            vec![],
            UnknownReason::DirnameUnsupportedArguments
        )
    );
}

#[test]
fn require_literal_is_module() {
    assert_eq!(require(vec![s("./x")]), JsValue::Module("./x".to_string()));
}

#[test]
fn require_non_literal_is_unknown() {
    assert_eq!(
        require(vec![opaque()]),
        unknown_call(
            WellKnownFunctionKind::Require,
            vec![opaque()],
            UnknownReason::OnlyConstantArgument
        )
    );
}

#[test]
fn require_two_arguments_is_unknown() {
    assert_eq!(
        require(vec![s("a"), s("b")]),
        unknown_call(
            WellKnownFunctionKind::Require,
            vec![s("a"), s("b")],
            UnknownReason::OnlySingleArgument
        )
    );
}

#[test]
fn file_url_of_absolute_path() {
    assert_eq!(
        path_to_file_url(vec![s("/tmp/a b.js")]),
        JsValue::Url("file:///tmp/a%20b.js".to_string())
    );
}

#[test]
fn file_url_of_relative_path_is_unknown() {
    assert_eq!(
        path_to_file_url(vec![s("a.js")]),
        unknown_call(
            WellKnownFunctionKind::PathToFileUrl,
            vec![s("a.js")],
            UnknownReason::UrlNotParseable
        )
    );
}

#[test]
fn file_url_needs_literal_and_one_argument() {
    assert_eq!(
        path_to_file_url(vec![opaque()]),
        unknown_call(
            WellKnownFunctionKind::PathToFileUrl,
            vec![opaque()],
            UnknownReason::OnlyConstantArgument
        )
    );
    assert_eq!(
        path_to_file_url(vec![]),
        unknown_call(
            WellKnownFunctionKind::PathToFileUrl,
            vec![],
            UnknownReason::OnlySingleArgument
        )
    );
}

#[test]
fn url_value_wraps_conversion() {
    assert_eq!(
        url_value(Some("file:///x".to_string()), vec![s("/x")]),
        JsValue::Url("file:///x".to_string())
    );
    assert_eq!(
        url_value(None, vec![s("x")]),
        unknown_call(
            WellKnownFunctionKind::PathToFileUrl,
            vec![s("x")],
            UnknownReason::UrlNotParseable
        )
    );
}

#[test]
fn import_and_require_resolve_are_unsupported() {
    for args in [vec![], vec![s("./x")], vec![opaque(), s("y")]] {
        let copy = || args.iter().map(|a| match a {
            JsValue::Constant(ConstantValue::Str(t)) => s(t),
            _ => opaque(),
        }).collect::<Vec<_>>();
        assert_eq!(
            well_known_function_call(WellKnownFunctionKind::Import, opaque(), copy()),
            unknown_call(WellKnownFunctionKind::Import, copy(), UnknownReason::ImportUnsupported)
        );
        assert_eq!(
            well_known_function_call(WellKnownFunctionKind::RequireResolve, opaque(), copy()),
            unknown_call(
                WellKnownFunctionKind::RequireResolve,
                copy(),
                UnknownReason::RequireResolveUnsupported
            )
        );
    }
}

#[test]
fn other_functions_are_unsupported() {
    assert_eq!(
        well_known_function_call(WellKnownFunctionKind::ChildProcessFork, opaque(), vec![s("a")]),
        unknown_call(
            WellKnownFunctionKind::ChildProcessFork,
            vec![s("a")],
            UnknownReason::UnsupportedFunction
        )
    );
}

#[test]
fn call_dispatches_to_join() {
    assert_eq!(
        well_known_function_call(WellKnownFunctionKind::PathJoin, opaque(), vec![s("a"), s("b")]),
        JsValue::Concat(vec![s("a"), s("/"), s("b")])
    );
}

#[test]
fn require_resolve_member() {
    assert_eq!(
        well_known_function_member(WellKnownFunctionKind::Require, s("resolve")),
        JsValue::WellKnownFunction(WellKnownFunctionKind::RequireResolve)
    );
}

#[test]
fn unknown_function_member() {
    assert_eq!(
        well_known_function_member(WellKnownFunctionKind::PathJoin, s("resolve")),
        unknown_member(
            JsValue::WellKnownFunction(WellKnownFunctionKind::PathJoin),
            s("resolve"),
            UnknownReason::UnsupportedFunctionProperty
        )
    );
}

#[test]
fn path_members() {
    assert_eq!(
        path_module_member(s("join")),
        JsValue::WellKnownFunction(WellKnownFunctionKind::PathJoin)
    );
    assert_eq!(
        path_module_member(s("dirname")),
        JsValue::WellKnownFunction(WellKnownFunctionKind::PathDirname)
    );
    assert_eq!(
        path_module_member(s("resolve")),
        unknown_member(
            JsValue::WellKnownObject(WellKnownObjectKind::PathModule),
            s("resolve"),
            UnknownReason::UnsupportedPathProperty
        )
    );
}

#[test]
fn fs_members() {
    for name in [
        "realpath", "realpathSync", "stat", "statSync", "existsSync", "createReadStream",
        "exists", "open", "openSync", "readFile", "readFileSync",
    ] {
        assert_eq!(
            fs_module_member(s(name)),
            JsValue::WellKnownFunction(WellKnownFunctionKind::FsReadMethod(name.to_string()))
        );
    }
    assert_eq!(
        fs_module_member(s("promises")),
        JsValue::WellKnownObject(WellKnownObjectKind::FsModule)
    );
    assert_eq!(
        fs_module_member(s("writeFile")),
        unknown_member(
            JsValue::WellKnownObject(WellKnownObjectKind::FsModule),
            s("writeFile"),
            UnknownReason::UnsupportedFsProperty
        )
    );
}

#[test]
fn url_members() {
    assert_eq!(
        url_module_member(s("pathToFileURL")),
        JsValue::WellKnownFunction(WellKnownFunctionKind::PathToFileUrl)
    );
    assert_eq!(
        url_module_member(s("parse")),
        unknown_member(
            JsValue::WellKnownObject(WellKnownObjectKind::UrlModule),
            s("parse"),
            UnknownReason::UnsupportedUrlProperty
        )
    );
}

#[test]
fn child_process_members() {
    for name in ["spawn", "spawnSync", "execFile", "execFileSync"] {
        assert_eq!(
            child_process_module_member(s(name)),
            JsValue::WellKnownFunction(WellKnownFunctionKind::ChildProcessSpawnMethod(
                name.to_string()
            ))
        );
    }
    assert_eq!(
        child_process_module_member(s("fork")),
        JsValue::WellKnownFunction(WellKnownFunctionKind::ChildProcessFork)
    );
    assert_eq!(
        child_process_module_member(s("exec")),
        unknown_member(
            JsValue::WellKnownObject(WellKnownObjectKind::ChildProcess),
            s("exec"),
            UnknownReason::UnsupportedChildProcessProperty
        )
    );
}

#[test]
fn object_member_dispatch() {
    assert_eq!(
        well_known_object_member(WellKnownObjectKind::FsModule, s("promises")),
        JsValue::WellKnownObject(WellKnownObjectKind::FsModule)
    );
    assert_eq!(
        well_known_object_member(WellKnownObjectKind::PathModule, opaque()),
        unknown_member(
            JsValue::WellKnownObject(WellKnownObjectKind::PathModule),
            opaque(),
            UnknownReason::UnsupportedPathProperty
        )
    );
}

#[test]
fn replace_rewrites_well_known_call() {
    let call = JsValue::call(
        JsValue::WellKnownFunction(WellKnownFunctionKind::Require),
        vec![s("./x")],
    );
    let (v, changed) = replace_well_known(call);
    assert!(changed);
    assert_eq!(v, JsValue::Module("./x".to_string()));
}

#[test]
fn replace_rewrites_members() {
    let (v, changed) = replace_well_known(JsValue::member(
        JsValue::WellKnownFunction(WellKnownFunctionKind::Require),
        s("resolve"),
    ));
    assert!(changed);
    assert_eq!(v, JsValue::WellKnownFunction(WellKnownFunctionKind::RequireResolve));
    let (v, changed) = replace_well_known(JsValue::member(
        JsValue::WellKnownObject(WellKnownObjectKind::PathModule),
        s("join"),
    ));
    assert!(changed);
    assert_eq!(v, JsValue::WellKnownFunction(WellKnownFunctionKind::PathJoin));
}

#[test]
fn replace_leaves_other_values() {
    let plain = || JsValue::call(s("f"), vec![s("a")]);
    assert_eq!(replace_well_known(plain()), (plain(), false));
    assert_eq!(replace_well_known(s("a")), (s("a"), false));
    let member = || JsValue::member(opaque(), s("x"));
    assert_eq!(replace_well_known(member()), (member(), false));
}

#[test]
fn replace_is_idempotent() {
    let call = JsValue::call(
        JsValue::WellKnownFunction(WellKnownFunctionKind::PathDirname),
        vec![opaque()],
    );
    let (once, changed) = replace_well_known(call);
    assert!(changed);
    let expected = unknown_call(
        WellKnownFunctionKind::PathDirname,
        vec![opaque()],
        UnknownReason::DirnameUnsupportedArguments,
    );
    assert_eq!(once, expected);
    let (twice, changed) = replace_well_known(once);
    assert!(!changed);
    assert_eq!(twice, expected);
}

#[test]
fn as_str_reads_literals() {
    assert_eq!(s("ab").as_str(), Some("ab"));
    assert_eq!(JsValue::Constant(ConstantValue::Num(1)).as_str(), None);
}

#[test]
fn reasons_have_messages() {
    assert_eq!(UnknownReason::ImportUnsupported.message(), "import() is not supported");
    assert_eq!(
        UnknownReason::RequireResolveUnsupported.message(),
        "require.resolve() is not supported"
    );
    assert_ne!(
        UnknownReason::OnlyConstantArgument.message(),
        UnknownReason::OnlySingleArgument.message()
    );
}
