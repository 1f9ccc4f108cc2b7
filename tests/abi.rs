use c123chain_cdk::abi::{
    expand_contract_fn, export_fn_name, parse_arg_type, parse_fn_params, parse_return_type,
    ArgType, CompileError, FnArgDecl, FnDecl, PatDecl, ReturnType, TypeDecl,
};

fn ident(s: &str) -> TypeDecl {
    TypeDecl::Ident(s.to_string())
}

fn param(name: &str, ty: TypeDecl) -> FnArgDecl {
    FnArgDecl::Typed { pat: PatDecl::Ident(name.to_string()), ty }
}

fn decl(name: &str, inputs: Vec<FnArgDecl>, output: Option<TypeDecl>) -> FnDecl {
    FnDecl { name: name.to_string(), inputs, output }
}

#[test]
fn float_parameter_is_unsupported() {
    let f = decl("f", vec![param("x", ident("f64"))], None);
    assert_eq!(parse_fn_params(&f).err(), Some(CompileError::UnsupportedArgType));
}

#[test]
fn repeated_parameter_name_is_refused() {
    let f = decl("f", vec![param("x", ident("u32")), param("x", ident("u64"))], None);
    assert_eq!(parse_fn_params(&f).err(), Some(CompileError::DuplicateIdentifier));
}

#[test]
fn receiver_and_patterns_are_refused() {
    let f = decl("f", vec![FnArgDecl::Receiver], None);
    assert_eq!(parse_fn_params(&f).err(), Some(CompileError::ExpectedFunctionArgs));
    let g = decl("g", vec![FnArgDecl::Typed { pat: PatDecl::Other, ty: ident("u32") }], None);
    assert_eq!(parse_fn_params(&g).err(), Some(CompileError::ExpectedIdentifier));
}

#[test]
fn return_type_must_be_contract_result() {
    let f = decl("f", vec![], Some(ident("u32")));
    assert_eq!(parse_fn_params(&f).err(), Some(CompileError::UnsupportedReturnType));
    assert_eq!(parse_return_type(&ident("ContractResult")), Ok(ReturnType::ContractResult));
}

#[test]
fn allowed_argument_types() {
    assert_eq!(parse_arg_type(&ident("bool")), Ok(ArgType::Bool));
    assert_eq!(parse_arg_type(&ident("i128")), Ok(ArgType::I128));
    assert_eq!(parse_arg_type(&ident("String")), Ok(ArgType::String));
    let str_ref = TypeDecl::Reference(Box::new(ident("str")));
    assert_eq!(parse_arg_type(&str_ref), Ok(ArgType::Str));
    let bytes = TypeDecl::Reference(Box::new(TypeDecl::Slice(Box::new(ident("u8")))));
    assert_eq!(parse_arg_type(&bytes), Ok(ArgType::Bytes));
    let words = TypeDecl::Reference(Box::new(TypeDecl::Slice(Box::new(ident("u32")))));
    assert_eq!(parse_arg_type(&words), Err(CompileError::UnsupportedArgType));
    assert_eq!(parse_arg_type(&TypeDecl::Other), Err(CompileError::UnsupportedArgType));
}

#[test]
fn export_name_is_hex_of_the_name() {
    assert_eq!(export_fn_name(&"read_db".to_string()), "x726561645f6462");
}

#[test]
fn expansion_gives_manifest_entry_and_dispatcher() {
    let f = decl(
        "send",
        vec![
            param("addr_str", TypeDecl::Reference(Box::new(ident("str")))),
            param("amount", ident("u64")),
        ],
        Some(ident("ContractResult")),
    );
    let x = expand_contract_fn(&f).unwrap();
    assert_eq!(x.sig.fn_name, "x73656e64");
    assert_eq!(x.sig.input_type, vec![ArgType::Str, ArgType::U64]);
    assert_eq!(x.sig.output_type, Some(ReturnType::ContractResult));
    let tags: Vec<&str> = x.sig.input_type.iter().map(|t| t.tag()).collect();
    assert_eq!(tags, vec!["str", "u64"]);
    let expected = "#[no_mangle]\nfn x73656e64() {\n    let input = runtime::input();\n    let mut source = codec::Source::new(&input);\n    let addr_str: &str = match source.read() {\n        Ok(v) => v,\n        Err(e) => return runtime::ret_decode_error(e),\n    };\n    let amount: u64 = match source.read() {\n        Ok(v) => v,\n        Err(e) => return runtime::ret_decode_error(e),\n    };\n    runtime::ret(send(addr_str, amount));\n}\n";
    assert_eq!(x.dispatcher, expected);
}

#[test]
fn expansion_without_result_only_calls() {
    let f = decl("ping", vec![], None);
    let x = expand_contract_fn(&f).unwrap();
    assert_eq!(x.sig.output_type, None);
    assert!(x.dispatcher.ends_with("    ping();\n}\n"));
}

#[test]
fn compile_error_messages() {
    assert_eq!(
        CompileError::DuplicateIdentifier.to_string(),
        "identifier used as parameter more than once"
    );
    assert_eq!(CompileError::UnsupportedReturnType.to_string(), "expected `ContractResult`");
}
