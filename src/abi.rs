//! The ABI generator: checks a contract function's signature against the
//! types the wire codec can decode, derives its exported dispatcher name,
//! produces its manifest entry and writes the dispatcher's source.
use vstd::prelude::*;
use vstd::string::*;
use vstd::utf8::*;
use crate::hex::{hex_encoding, lemma_hex_encoding_ascii, lemma_hex_round_trip};
use crate::text::{ascii_chars, lemma_ascii_text};

verus! {

/// A type as it is written in a signature.
pub enum TypeDecl {
    /// A path of a single identifier without arguments, such as `u32`.
    Ident(String),
    /// A reference `&T` or `&mut T`.
    Reference(Box<TypeDecl>),
    /// A slice `[T]`.
    Slice(Box<TypeDecl>),
    /// Any other form.
    Other,
}

/// A parameter pattern.
pub enum PatDecl {
    Ident(String),
    Other,
}

/// One entry of a parameter list.
pub enum FnArgDecl {
    Typed { pat: PatDecl, ty: TypeDecl },
    /// `self` in any form.
    Receiver,
}

/// A function signature: its name, parameters and return type.
pub struct FnDecl {
    pub name: String,
    pub inputs: Vec<FnArgDecl>,
    pub output: Option<TypeDecl>,
}

/// A parameter type the dispatcher can decode.
#[derive(Clone, Copy, Debug, PartialEq, Eq, Structural)]
pub enum ArgType {
    Bool,
    U32,
    I32,
    U64,
    I64,
    U128,
    I128,
    String,
    Str,
    Bytes,
}

/// The one return type a dispatcher forwards to the host.
#[derive(Clone, Copy, Debug, PartialEq, Eq, Structural)]
pub enum ReturnType {
    ContractResult,
}

impl ReturnType {
    /// The manifest's tag for this type.
    pub fn tag(&self) -> (r: &'static str)
        ensures
            r == "ContractResult",
    {
        "ContractResult"
    }
}

/// Why a signature cannot get a dispatcher.
#[derive(Clone, Copy, Debug, PartialEq, Eq, Structural)]
pub enum CompileError {
    UnsupportedArgType,
    UnsupportedReturnType,
    ExpectedIdentifier,
    ExpectedFunctionArgs,
    DuplicateIdentifier,
}

pub open spec fn compile_error_text(e: CompileError) -> &'static str {
    match e {
        CompileError::UnsupportedArgType => "expected one of: `bool`,`u32`,`i32`,`u64`,`i64`,`u128`,`i128`,`String`,`&str`,`&[u8]`",
        CompileError::UnsupportedReturnType => "expected `ContractResult`",
        CompileError::ExpectedIdentifier => "expected identifier",
        CompileError::ExpectedFunctionArgs => "expected function args",
        CompileError::DuplicateIdentifier => "identifier used as parameter more than once",
    }
}

impl CompileError {
    /// The diagnostic shown when the build stops.
    pub fn to_string(&self) -> (r: String)
        ensures
            r@ == compile_error_text(*self)@,
    {
        let s = match self {
            CompileError::UnsupportedArgType => "expected one of: `bool`,`u32`,`i32`,`u64`,`i64`,`u128`,`i128`,`String`,`&str`,`&[u8]`",
            CompileError::UnsupportedReturnType => "expected `ContractResult`",
            CompileError::ExpectedIdentifier => "expected identifier",
            CompileError::ExpectedFunctionArgs => "expected function args",
            CompileError::DuplicateIdentifier => "identifier used as parameter more than once",
        };
        String::from_str(s)
    }
}

pub open spec fn arg_type_tag(t: ArgType) -> &'static str {
    match t {
        ArgType::Bool => "bool",
        ArgType::U32 => "u32",
        ArgType::I32 => "i32",
        ArgType::U64 => "u64",
        ArgType::I64 => "i64",
        ArgType::U128 => "u128",
        ArgType::I128 => "i128",
        ArgType::String => "String",
        ArgType::Str => "str",
        ArgType::Bytes => "u8",
    }
}

pub open spec fn arg_type_text(t: ArgType) -> &'static str {
    match t {
        ArgType::Str => "&str",
        ArgType::Bytes => "&[u8]",
        _ => arg_type_tag(t),
    }
}

impl ArgType {
    /// The manifest's tag for this type.
    pub fn tag(&self) -> (r: &'static str)
        ensures
            r == arg_type_tag(*self),
    {
        match self {
            ArgType::Bool => "bool",
            ArgType::U32 => "u32",
            ArgType::I32 => "i32",
            ArgType::U64 => "u64",
            ArgType::I64 => "i64",
            ArgType::U128 => "u128",
            ArgType::I128 => "i128",
            ArgType::String => "String",
            ArgType::Str => "str",
            ArgType::Bytes => "u8",
        }
    }

    /// The type as it is written in source.
    pub fn source_text(&self) -> (r: &'static str)
        ensures
            r == arg_type_text(*self),
    {
        match self {
            ArgType::Str => "&str",
            ArgType::Bytes => "&[u8]",
            _ => self.tag(),
        }
    }
}

/// The parameter type a written type stands for, if it is one of the decodable ones.
pub open spec fn arg_type_of(ty: TypeDecl) -> Option<ArgType> {
    match ty {
        TypeDecl::Ident(s) => if s@ == "bool"@ {
            Some(ArgType::Bool)
        } else if s@ == "u32"@ {
            Some(ArgType::U32)
        } else if s@ == "i32"@ {
            Some(ArgType::I32)
        } else if s@ == "u64"@ {
            Some(ArgType::U64)
        } else if s@ == "i64"@ {
            Some(ArgType::I64)
        } else if s@ == "u128"@ {
            Some(ArgType::U128)
        } else if s@ == "i128"@ {
            Some(ArgType::I128)
        } else if s@ == "String"@ {
            Some(ArgType::String)
        } else {
            None
        },
        TypeDecl::Reference(inner) => match *inner {
            TypeDecl::Ident(s) => if s@ == "str"@ {
                Some(ArgType::Str)
            } else {
                None
            },
            TypeDecl::Slice(elem) => match *elem {
                TypeDecl::Ident(s) => if s@ == "u8"@ {
                    Some(ArgType::Bytes)
                } else {
                    None
                },
                _ => None,
            },
            _ => None,
        },
        _ => None,
    }
}

pub open spec fn return_type_of(ty: TypeDecl) -> Option<ReturnType> {
    match ty {
        TypeDecl::Ident(s) => if s@ == "ContractResult"@ {
            Some(ReturnType::ContractResult)
        } else {
            None
        },
        _ => None,
    }
}

fn is_named(s: &String, name: &str) -> (r: bool)
    ensures
        r == (s@ == name@),
{
    let n = String::from_str(name);
    *s == n
}

/// Maps a written parameter type to a decodable one.
pub fn parse_arg_type(arg_tp: &TypeDecl) -> (r: Result<ArgType, CompileError>)
    ensures
        r matches Ok(t) ==> arg_type_of(*arg_tp) == Some(t),
        r matches Err(e) ==> arg_type_of(*arg_tp) is None && e == CompileError::UnsupportedArgType,
{
    match arg_tp {
        TypeDecl::Ident(s) => {
            if is_named(s, "bool") {
                Ok(ArgType::Bool)
            } else if is_named(s, "u32") {
                Ok(ArgType::U32)
            } else if is_named(s, "i32") {
                Ok(ArgType::I32)
            } else if is_named(s, "u64") {
                Ok(ArgType::U64)
            } else if is_named(s, "i64") {
                Ok(ArgType::I64)
            } else if is_named(s, "u128") {
                Ok(ArgType::U128)
            } else if is_named(s, "i128") {
                Ok(ArgType::I128)
            } else if is_named(s, "String") {
                Ok(ArgType::String)
            } else {
                Err(CompileError::UnsupportedArgType)
            }
        },
        TypeDecl::Reference(inner) => match &**inner {
            TypeDecl::Ident(s) => {
                if is_named(s, "str") {
                    Ok(ArgType::Str)
                } else {
                    Err(CompileError::UnsupportedArgType)
                }
            },
            TypeDecl::Slice(elem) => match &**elem {
                TypeDecl::Ident(s) => {
                    if is_named(s, "u8") {
                        Ok(ArgType::Bytes)
                    } else {
                        Err(CompileError::UnsupportedArgType)
                    }
                },
                _ => Err(CompileError::UnsupportedArgType),
            },
            _ => Err(CompileError::UnsupportedArgType),
        },
        _ => Err(CompileError::UnsupportedArgType),
    }
}

/// Accepts `ContractResult` as the return type.
pub fn parse_return_type(return_tp: &TypeDecl) -> (r: Result<ReturnType, CompileError>)
    ensures
        r matches Ok(t) ==> return_type_of(*return_tp) == Some(t),
        r matches Err(e) ==> return_type_of(*return_tp) is None && e
            == CompileError::UnsupportedReturnType,
{
    match return_tp {
        TypeDecl::Ident(s) => {
            if is_named(s, "ContractResult") {
                Ok(ReturnType::ContractResult)
            } else {
                Err(CompileError::UnsupportedReturnType)
            }
        },
        _ => Err(CompileError::UnsupportedReturnType),
    }
}

/// A checked parameter: its name and decodable type.
pub struct FnArg {
    pub ident: String,
    pub ty: ArgType,
}

pub open spec fn fn_arg_model(a: FnArg) -> (Seq<char>, ArgType) {
    (a.ident@, a.ty)
}

pub open spec fn fn_args_model(a: Seq<FnArg>) -> Seq<(Seq<char>, ArgType)> {
    a.map_values(|x: FnArg| fn_arg_model(x))
}

/// Checks the parameters one by one, in order: the first that is a receiver,
/// has a pattern other than a name, repeats an earlier name, or has a type
/// that cannot be decoded decides the error.
pub open spec fn params_outcome(inputs: Seq<FnArgDecl>) -> Result<Seq<(Seq<char>, ArgType)>, CompileError>
    decreases inputs.len(),
{
    if inputs.len() == 0 {
        Ok(Seq::empty())
    } else {
        match params_outcome(inputs.drop_last()) {
            Ok(ps) => match inputs.last() {
                FnArgDecl::Receiver => Err(CompileError::ExpectedFunctionArgs),
                FnArgDecl::Typed { pat, ty } => match pat {
                    PatDecl::Ident(n) => if exists|i: int| 0 <= i < ps.len() && ps[i].0 == n@ {
                        Err(CompileError::DuplicateIdentifier)
                    } else {
                        match arg_type_of(ty) {
                            Some(t) => Ok(ps.push((n@, t))),
                            None => Err(CompileError::UnsupportedArgType),
                        }
                    },
                    PatDecl::Other => Err(CompileError::ExpectedIdentifier),
                },
            },
            Err(e) => Err(e),
        }
    }
}

/// The checked parameters and return type of a signature, or the error that stops the build.
pub open spec fn signature_outcome(f: FnDecl) -> Result<
    (Seq<(Seq<char>, ArgType)>, Option<ReturnType>),
    CompileError,
> {
    match params_outcome(f.inputs@) {
        Ok(ps) => match f.output {
            None => Ok((ps, None)),
            Some(t) => match return_type_of(t) {
                Some(rt) => Ok((ps, Some(rt))),
                None => Err(CompileError::UnsupportedReturnType),
            },
        },
        Err(e) => Err(e),
    }
}

proof fn lemma_params_stop(inputs: Seq<FnArgDecl>, k: int)
    requires
        0 <= k <= inputs.len(),
        params_outcome(inputs.subrange(0, k)) is Err,
    ensures
        params_outcome(inputs) == params_outcome(inputs.subrange(0, k)),
    decreases inputs.len() - k,
{
    if k < inputs.len() {
        let next = inputs.subrange(0, k + 1);
        assert(next.drop_last() =~= inputs.subrange(0, k));
        lemma_params_stop(inputs, k + 1);
    } else {
        assert(inputs.subrange(0, k) =~= inputs);
    }
}

/// Whether `name` is among the checked parameters.
fn has_param(args: &Vec<FnArg>, name: &String) -> (r: bool)
    ensures
        r == exists|i: int| 0 <= i < args@.len() && fn_args_model(args@)[i].0 == name@,
{
    let mut j: usize = 0;
    while j < args.len()
        invariant
            0 <= j <= args@.len(),
            forall|i: int| 0 <= i < j ==> fn_args_model(args@)[i].0 != name@,
        decreases args@.len() - j,
    {
        if args[j].ident == *name {
            assert(fn_args_model(args@)[j as int].0 == name@);
            return true;
        }
        j += 1;
    }
    false
}

/// Checks a signature and returns its parameters and return type.
pub fn parse_fn_params(f: &FnDecl) -> (r: Result<(Vec<FnArg>, Option<ReturnType>), CompileError>)
    ensures
        r matches Ok((args, ret)) ==> signature_outcome(*f) == Ok::<
            (Seq<(Seq<char>, ArgType)>, Option<ReturnType>),
            CompileError,
        >((fn_args_model(args@), ret)),
        r matches Err(e) ==> signature_outcome(*f) == Err::<
            (Seq<(Seq<char>, ArgType)>, Option<ReturnType>),
            CompileError,
        >(e),
{
    let mut args: Vec<FnArg> = Vec::new();
    let mut i: usize = 0;
    assert(f.inputs@.subrange(0, 0) =~= Seq::<FnArgDecl>::empty());
    assert(fn_args_model(args@) =~= Seq::<(Seq<char>, ArgType)>::empty());
    while i < f.inputs.len()
        invariant
            0 <= i <= f.inputs@.len(),
            params_outcome(f.inputs@.subrange(0, i as int)) == Ok::<
                Seq<(Seq<char>, ArgType)>,
                CompileError,
            >(fn_args_model(args@)),
        decreases f.inputs@.len() - i,
    {
        let ghost next = f.inputs@.subrange(0, i + 1);
        assert(next.drop_last() =~= f.inputs@.subrange(0, i as int));
        assert(next.last() == f.inputs@[i as int]);
        let failed = match &f.inputs[i] {
            FnArgDecl::Typed { pat, ty } => match pat {
                PatDecl::Ident(name) => {
                    if has_param(&args, name) {
                        Some(CompileError::DuplicateIdentifier)
                    } else {
                        match parse_arg_type(ty) {
                            Ok(t) => {
                                let ghost before = args@;
                                args.push(FnArg { ident: name.clone(), ty: t });
                                assert(fn_args_model(args@) =~= fn_args_model(before).push(
                                    (name@, t),
                                ));
                                None
                            },
                            Err(e) => Some(e),
                        }
                    }
                },
                PatDecl::Other => Some(CompileError::ExpectedIdentifier),
            },
            FnArgDecl::Receiver => Some(CompileError::ExpectedFunctionArgs),
        };
        match failed {
            Some(e) => {
                proof {
                    lemma_params_stop(f.inputs@, i + 1);
                }
                return Err(e);
            },
            None => {},
        }
        i += 1;
    }
    assert(f.inputs@.subrange(0, f.inputs@.len() as int) =~= f.inputs@);
    let ret = match &f.output {
        None => None,
        Some(t) => Some(parse_return_type(t)?),
    };
    Ok((args, ret))
}

/// The exported name of a dispatcher: `x`, then the hex digits of the
/// function name's UTF-8 bytes.
pub open spec fn export_name_of(name: Seq<char>) -> Seq<char> {
    seq!['x'] + ascii_chars(hex_encoding(encode_utf8(name)))
}

pub fn export_fn_name(name: &String) -> (r: String)
    ensures
        r@ == export_name_of(name@),
{
    let mut s = String::from_str("x");
    let digits = crate::hex::encode(name.as_str().as_bytes());
    s.append(digits.as_str());
    proof {
        reveal_strlit("x");
        assert(s@ =~= export_name_of(name@));
    }
    s
}

/// Different function names get different exported names, so dispatchers
/// bundled in one module never collide.
pub proof fn lemma_export_name_injective(a: Seq<char>, b: Seq<char>)
    requires
        export_name_of(a) == export_name_of(b),
    ensures
        a == b,
{
    let ha = hex_encoding(encode_utf8(a));
    let hb = hex_encoding(encode_utf8(b));
    assert(ascii_chars(ha) =~= export_name_of(a).subrange(1, export_name_of(a).len() as int));
    assert(ascii_chars(hb) =~= export_name_of(b).subrange(1, export_name_of(b).len() as int));
    lemma_hex_encoding_ascii(encode_utf8(a));
    lemma_hex_encoding_ascii(encode_utf8(b));
    lemma_ascii_text(ha);
    lemma_ascii_text(hb);
    lemma_hex_round_trip(encode_utf8(a));
    lemma_hex_round_trip(encode_utf8(b));
    encode_utf8_decode_utf8(a);
    encode_utf8_decode_utf8(b);
}

/// The statement that decodes one parameter, returning the decode error to
/// the host when the input does not hold it.
pub open spec fn arg_line(a: (Seq<char>, ArgType)) -> Seq<char> {
    "    let "@ + a.0 + ": "@ + arg_type_text(a.1)@
        + " = match source.read() {\n        Ok(v) => v,\n        Err(e) => return runtime::ret_decode_error(e),\n    };\n"@
}

pub open spec fn arg_lines(args: Seq<(Seq<char>, ArgType)>) -> Seq<char>
    decreases args.len(),
{
    if args.len() == 0 {
        Seq::empty()
    } else {
        arg_lines(args.drop_last()) + arg_line(args.last())
    }
}

/// The parameter names, comma-separated.
pub open spec fn call_args(args: Seq<(Seq<char>, ArgType)>) -> Seq<char>
    decreases args.len(),
{
    if args.len() == 0 {
        Seq::empty()
    } else if args.len() == 1 {
        args[0].0
    } else {
        call_args(args.drop_last()) + ", "@ + args.last().0
    }
}

/// Source of the exported dispatcher. It reads the input through
/// `runtime::input`, decodes the parameters in order with a
/// `codec::Source`, calls the function, and hands a result to `runtime::ret`.
pub open spec fn dispatcher_source(
    export: Seq<char>,
    user: Seq<char>,
    args: Seq<(Seq<char>, ArgType)>,
    ret: Option<ReturnType>,
) -> Seq<char> {
    "#[no_mangle]\nfn "@ + export
        + "() {\n    let input = runtime::input();\n    let mut source = codec::Source::new(&input);\n"@
        + arg_lines(args) + if ret is Some {
        "    runtime::ret("@ + user + "("@ + call_args(args) + "));\n}\n"@
    } else {
        "    "@ + user + "("@ + call_args(args) + ");\n}\n"@
    }
}

/// Writes the source of the dispatcher that exports `user_fn_name` as `export_fn_name`.
pub fn generate_invoke_fn(
    export_fn_name: &String,
    user_fn_name: &String,
    fn_args: &Vec<FnArg>,
    fn_return_type: Option<ReturnType>,
) -> (r: String)
    ensures
        r@ == dispatcher_source(
            export_fn_name@,
            user_fn_name@,
            fn_args_model(fn_args@),
            fn_return_type,
        ),
{
    let ghost args = fn_args_model(fn_args@);
    let mut s = String::from_str("#[no_mangle]\nfn ");
    s.append(export_fn_name.as_str());
    s.append("() {\n    let input = runtime::input();\n    let mut source = codec::Source::new(&input);\n");
    let ghost head = s@;
    let mut i: usize = 0;
    while i < fn_args.len()
        invariant
            0 <= i <= fn_args@.len(),
            args == fn_args_model(fn_args@),
            s@ == head + arg_lines(args.subrange(0, i as int)),
        decreases fn_args@.len() - i,
    {
        s.append("    let ");
        s.append(fn_args[i].ident.as_str());
        s.append(": ");
        s.append(fn_args[i].ty.source_text());
        s.append(" = match source.read() {\n        Ok(v) => v,\n        Err(e) => return runtime::ret_decode_error(e),\n    };\n");
        proof {
            let next = args.subrange(0, i + 1);
            assert(next.drop_last() =~= args.subrange(0, i as int));
            assert(next.last() == fn_arg_model(fn_args@[i as int]));
        }
        i += 1;
        assert(s@ =~= head + arg_lines(args.subrange(0, i as int)));
    }
    assert(args.subrange(0, args.len() as int) =~= args);
    let ghost body = s@;
    let mut call = user_fn_name.clone();
    call.append("(");
    let ghost call_head = call@;
    let mut j: usize = 0;
    while j < fn_args.len()
        invariant
            0 <= j <= fn_args@.len(),
            args == fn_args_model(fn_args@),
            call@ == call_head + call_args(args.subrange(0, j as int)),
        decreases fn_args@.len() - j,
    {
        let ghost before = call@;
        if j > 0 {
            call.append(", ");
        }
        call.append(fn_args[j].ident.as_str());
        proof {
            let next = args.subrange(0, j + 1);
            assert(next.drop_last() =~= args.subrange(0, j as int));
            if j == 0 {
                assert(call_args(next) == args[0].0);
                assert(call_args(args.subrange(0, 0)) =~= Seq::<char>::empty());
            }
        }
        j += 1;
        assert(call@ =~= call_head + call_args(args.subrange(0, j as int)));
    }
    match fn_return_type {
        Some(_) => {
            s.append("    runtime::ret(");
            s.append(call.as_str());
            s.append("));\n}\n");
        },
        None => {
            s.append("    ");
            s.append(call.as_str());
            s.append(");\n}\n");
        },
    }
    assert(s@ =~= dispatcher_source(
        export_fn_name@,
        user_fn_name@,
        fn_args_model(fn_args@),
        fn_return_type,
    ));
    s
}

/// An ABI manifest entry: the exported name, the parameter type tags in
/// order, and the return type if there is one.
pub struct ContractFnSig {
    pub fn_name: String,
    pub input_type: Vec<ArgType>,
    pub output_type: Option<ReturnType>,
}

pub open spec fn arg_types(args: Seq<(Seq<char>, ArgType)>) -> Seq<ArgType> {
    args.map_values(|a: (Seq<char>, ArgType)| a.1)
}

/// What a contract function expands to: its manifest entry and its dispatcher.
pub struct Expansion {
    pub sig: ContractFnSig,
    pub dispatcher: String,
}

/// Checks a contract function's signature and expands it into its manifest
/// entry and the source of its exported dispatcher.
pub fn expand_contract_fn(f: &FnDecl) -> (r: Result<Expansion, CompileError>)
    ensures
        r matches Err(e) ==> signature_outcome(*f) == Err::<
            (Seq<(Seq<char>, ArgType)>, Option<ReturnType>),
            CompileError,
        >(e),
        r matches Ok(x) ==> signature_outcome(*f) matches Ok((ps, ret)) && x.sig.fn_name@
            == export_name_of(f.name@) && x.sig.input_type@ == arg_types(ps) && x.sig.output_type
            == ret && x.dispatcher@ == dispatcher_source(export_name_of(f.name@), f.name@, ps, ret),
{
    let (fn_args, fn_return_type) = parse_fn_params(f)?;
    let export = export_fn_name(&f.name);
    let mut input_type: Vec<ArgType> = Vec::new();
    let mut i: usize = 0;
    while i < fn_args.len()
        invariant
            0 <= i <= fn_args@.len(),
            input_type@ =~= arg_types(fn_args_model(fn_args@)).subrange(0, i as int),
        decreases fn_args@.len() - i,
    {
        input_type.push(fn_args[i].ty);
        i += 1;
    }
    let dispatcher = generate_invoke_fn(&export, &f.name, &fn_args, fn_return_type);
    Ok(
        Expansion {
            sig: ContractFnSig { fn_name: export, input_type, output_type: fn_return_type },
            dispatcher,
        },
    )
}

} // verus!
