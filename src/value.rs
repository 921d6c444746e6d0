use vstd::prelude::*;

verus! {

/// A literal scalar whose runtime value is known exactly.
#[derive(Debug, PartialEq)]
pub enum ConstantValue {
    Undefined,
    Null,
    True,
    False,
    Num(i64),
    Str(String),
}

/// Recognised runtime objects (modules).
#[derive(Debug, Clone, Copy, PartialEq, Eq, Structural)]
pub enum WellKnownObjectKind {
    PathModule,
    FsModule,
    UrlModule,
    ChildProcess,
}

/// Recognised runtime functions.
#[derive(Debug, PartialEq)]
pub enum WellKnownFunctionKind {
    PathJoin,
    PathDirname,
    PathToFileUrl,
    Import,
    Require,
    RequireResolve,
    FsReadMethod(String),
    ChildProcessSpawnMethod(String),
    ChildProcessFork,
}

/// Why a value could not be resolved more precisely.
#[derive(Debug, Clone, Copy, PartialEq, Eq, Structural)]
pub enum UnknownReason {
    NotAnalysedYet,
    ImportUnsupported,
    RequireResolveUnsupported,
    UnsupportedFunction,
    DirnameUnsupportedArguments,
    OnlyConstantArgument,
    OnlySingleArgument,
    UrlNotParseable,
    UnsupportedFunctionProperty,
    UnsupportedPathProperty,
    UnsupportedFsProperty,
    UnsupportedUrlProperty,
    UnsupportedChildProcessProperty,
}

/// The diagnostic text of each reason.
pub open spec fn reason_text(why: UnknownReason) -> Seq<char> {
    match why {
        UnknownReason::NotAnalysedYet => "this is not analysed yet"@,
        UnknownReason::ImportUnsupported => "import() is not supported"@,
        UnknownReason::RequireResolveUnsupported => "require.resolve() is not supported"@,
        UnknownReason::UnsupportedFunction => "unsupported function"@,
        UnknownReason::DirnameUnsupportedArguments => "path.dirname with unsupported arguments"@,
        UnknownReason::OnlyConstantArgument => "only constant argument is supported"@,
        UnknownReason::OnlySingleArgument => "only a single argument is supported"@,
        UnknownReason::UrlNotParseable => "url not parseable"@,
        UnknownReason::UnsupportedFunctionProperty => "unsupported property on function"@,
        UnknownReason::UnsupportedPathProperty => "unsupported property on Node.js path module"@,
        UnknownReason::UnsupportedFsProperty => "unsupported property on Node.js fs module"@,
        UnknownReason::UnsupportedUrlProperty => "unsupported property on Node.js url module"@,
        UnknownReason::UnsupportedChildProcessProperty =>
            "unsupported property on Node.js child_process module"@,
    }
}

impl UnknownReason {
    /// A short diagnostic text for the reason.
    pub fn message(&self) -> (r: &'static str)
        ensures
            r@ == reason_text(*self),
    {
        match self {
            UnknownReason::NotAnalysedYet => "this is not analysed yet",
            UnknownReason::ImportUnsupported => "import() is not supported",
            UnknownReason::RequireResolveUnsupported => "require.resolve() is not supported",
            UnknownReason::UnsupportedFunction => "unsupported function",
            UnknownReason::DirnameUnsupportedArguments => "path.dirname with unsupported arguments",
            UnknownReason::OnlyConstantArgument => "only constant argument is supported",
            UnknownReason::OnlySingleArgument => "only a single argument is supported",
            UnknownReason::UrlNotParseable => "url not parseable",
            UnknownReason::UnsupportedFunctionProperty => "unsupported property on function",
            UnknownReason::UnsupportedPathProperty => "unsupported property on Node.js path module",
            UnknownReason::UnsupportedFsProperty => "unsupported property on Node.js fs module",
            UnknownReason::UnsupportedUrlProperty => "unsupported property on Node.js url module",
            UnknownReason::UnsupportedChildProcessProperty =>
                "unsupported property on Node.js child_process module",
        }
    }
}

/// A symbolic JavaScript value.
#[derive(Debug, PartialEq)]
pub enum JsValue {
    Constant(ConstantValue),
    /// A `file:` URL, held as its serialisation.
    Url(String),
    /// One of the members, unresolved which.
    Alternatives(Vec<JsValue>),
    /// String concatenation of the parts, left to right.
    Concat(Vec<JsValue>),
    Call(Box<JsValue>, Vec<JsValue>),
    Member(Box<JsValue>, Box<JsValue>),
    Module(String),
    WellKnownObject(WellKnownObjectKind),
    WellKnownFunction(WellKnownFunctionKind),
    /// The safe fallback; the first field reconstructs the original expression.
    Unknown(Option<Box<JsValue>>, UnknownReason),
}

/// The characters of `v` when it is a literal string.
pub open spec fn lit_str(v: JsValue) -> Option<Seq<char>> {
    match v {
        JsValue::Constant(ConstantValue::Str(s)) => Some(s@),
        _ => None,
    }
}

/// `v` is the literal string `s`.
pub open spec fn is_lit(v: JsValue, s: Seq<char>) -> bool {
    lit_str(v) == Some(s)
}

/// `r` is an `Unknown` that keeps the call `kind(args)` and gives `reason`.
pub open spec fn unknown_call(
    r: JsValue,
    kind: WellKnownFunctionKind,
    args: Seq<JsValue>,
    reason: UnknownReason,
) -> bool {
    match r {
        JsValue::Unknown(Some(origin), why) => why == reason && match *origin {
            JsValue::Call(callee, a) => *callee == JsValue::WellKnownFunction(kind) && a@ == args,
            _ => false,
        },
        _ => false,
    }
}

/// `r` is an `Unknown` that keeps the member access `object[prop]` and gives `reason`.
pub open spec fn unknown_member(
    r: JsValue,
    object: JsValue,
    prop: JsValue,
    reason: UnknownReason,
) -> bool {
    match r {
        JsValue::Unknown(Some(origin), why) => why == reason && match *origin {
            JsValue::Member(o, p) => *o == object && *p == prop,
            _ => false,
        },
        _ => false,
    }
}

impl JsValue {
    /// A literal string value.
    pub fn str(s: &str) -> (r: JsValue)
        ensures
            is_lit(r, s@),
    {
        JsValue::Constant(ConstantValue::Str(s.to_owned()))
    }

    /// The text of a literal string value.
    pub fn as_str(&self) -> (r: Option<&str>)
        ensures
            match r {
                Some(s) => lit_str(*self) == Some(s@),
                None => lit_str(*self) is None,
            },
    {
        match self {
            JsValue::Constant(ConstantValue::Str(s)) => Some(s.as_str()),
            _ => None,
        }
    }

    /// The call node `callee(args)`.
    pub fn call(callee: JsValue, args: Vec<JsValue>) -> (r: JsValue)
        ensures
            r matches JsValue::Call(c, a) && *c == callee && a == args,
    {
        JsValue::Call(Box::new(callee), args)
    }

    /// The member access node `object[prop]`.
    pub fn member(object: JsValue, prop: JsValue) -> (r: JsValue)
        ensures
            r matches JsValue::Member(o, p) && *o == object && *p == prop,
    {
        JsValue::Member(Box::new(object), Box::new(prop))
    }
}

/// An `Unknown` keeping the call `kind(args)`.
pub fn unknown_of_call(kind: WellKnownFunctionKind, args: Vec<JsValue>, reason: UnknownReason) -> (r:
    JsValue)
    ensures
        unknown_call(r, kind, args@, reason),
{
    JsValue::Unknown(Some(Box::new(JsValue::call(JsValue::WellKnownFunction(kind), args))), reason)
}

/// An `Unknown` keeping the member access `object[prop]`.
pub fn unknown_of_member(object: JsValue, prop: JsValue, reason: UnknownReason) -> (r: JsValue)
    ensures
        unknown_member(r, object, prop, reason),
{
    JsValue::Unknown(Some(Box::new(JsValue::member(object, prop))), reason)
}

} // verus!
