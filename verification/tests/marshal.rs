use usdt_impl::error::Error;
use usdt_impl::marshal::{argument_register, construct_probe_args, Register, MAX_ARGUMENTS};
use usdt_impl::provider::{
    Arch, BitWidth, CompileProvidersConfig, DataType, PassingClass, Probe, Provider, Sign,
};

const U8: DataType = DataType::Integer(Sign::Unsigned, BitWidth::Bit8);
const I64: DataType = DataType::Integer(Sign::Signed, BitWidth::Bit64);

#[test]
fn each_argument_gets_its_register_in_order() {
    let types = [U8, DataType::String, I64];
    let arguments = construct_probe_args(&types, Arch::X86_64).unwrap();
    assert_eq!(arguments.len(), 3);
    for (i, argument) in arguments.iter().enumerate() {
        assert_eq!(argument.index, i);
        assert_eq!(argument.data_type, types[i]);
    }
    assert_eq!(arguments[0].register, Register::Rdi);
    assert_eq!(arguments[1].register, Register::Rsi);
    assert_eq!(arguments[2].register, Register::Rdx);
    assert_eq!(arguments[0].class, PassingClass::Register);
    assert_eq!(arguments[1].class, PassingClass::Indirect);
    assert_eq!(arguments[2].class, PassingClass::Register);
}

#[test]
fn a_probe_without_arguments_has_none() {
    assert!(construct_probe_args(&[], Arch::X86_64).unwrap().is_empty());
    assert!(construct_probe_args(&[], Arch::AArch64).unwrap().is_empty());
}

#[test]
fn the_registers_are_those_of_the_processor() {
    let types = [U8; 6];
    let names = |arch| -> Vec<&'static str> {
        construct_probe_args(&types, arch).unwrap().iter().map(|a| a.register.name()).collect()
    };
    assert_eq!(names(Arch::X86_64), ["rdi", "rsi", "rdx", "rcx", "r8", "r9"]);
    assert_eq!(names(Arch::AArch64), ["x0", "x1", "x2", "x3", "x4", "x5"]);
    assert_eq!(argument_register(Arch::X86_64, 5), Register::R9);
    assert_eq!(argument_register(Arch::AArch64, 0), Register::X0);
}

#[test]
fn the_count_of_arguments_is_kept() {
    for n in 0..=MAX_ARGUMENTS {
        let types = vec![I64; n];
        for arch in [Arch::X86_64, Arch::AArch64] {
            assert_eq!(construct_probe_args(&types, arch).unwrap().len(), n);
        }
    }
}

#[test]
fn a_seventh_argument_is_refused() {
    let types = [U8; 7];
    assert_eq!(construct_probe_args(&types, Arch::X86_64).unwrap_err(), Error::ParseFailure);
    assert_eq!(construct_probe_args(&types, Arch::AArch64).unwrap_err(), Error::ParseFailure);
}

#[test]
fn each_type_has_one_class_and_one_representation() {
    assert_eq!(U8.class(), PassingClass::Register);
    assert_eq!(DataType::Integer(Sign::Signed, BitWidth::Pointer).class(), PassingClass::Register);
    assert_eq!(DataType::String.class(), PassingClass::Indirect);
    assert_eq!(U8.to_c_type(), "uint8_t");
    assert_eq!(I64.to_c_type(), "int64_t");
    assert_eq!(DataType::Integer(Sign::Unsigned, BitWidth::Pointer).to_c_type(), "uintptr_t");
    assert_eq!(DataType::Integer(Sign::Signed, BitWidth::Bit16).to_c_type(), "int16_t");
    assert_eq!(DataType::String.to_c_type(), "char*");
    assert_eq!(U8.to_rust_ffi_type(), "::std::os::raw::c_uchar");
    assert_eq!(I64.to_rust_ffi_type(), "::std::os::raw::c_longlong");
    assert_eq!(
        DataType::Integer(Sign::Unsigned, BitWidth::Bit32).to_rust_ffi_type(),
        "::std::os::raw::c_uint"
    );
    assert_eq!(DataType::String.to_rust_ffi_type(), "*const ::std::os::raw::c_char");
}

#[test]
fn the_configuration_places_and_names() {
    let config = CompileProvidersConfig::default();
    assert_eq!(config.provider_module("foo"), "foo");
    assert_eq!(config.probe_ident("bar"), "bar");
    let config = CompileProvidersConfig { module: Some("probes".to_string()) };
    assert_eq!(config.provider_module("foo"), "probes");
    let config = CompileProvidersConfig { module: Some(String::new()) };
    assert_eq!(config.provider_module("foo"), "");
}

#[test]
fn a_provider_is_written_as_a_definition() {
    let provider = Provider {
        name: "foo".to_string(),
        probes: vec![
            Probe { name: "bar".to_string(), types: vec![] },
            Probe { name: "baz".to_string(), types: vec![U8, DataType::String, I64] },
            Probe { name: "one".to_string(), types: vec![DataType::String] },
        ],
        use_statements: vec![],
    };
    assert_eq!(provider.probes[0].to_d_source(), "probe bar();");
    assert_eq!(provider.probes[1].to_d_source(), "probe baz(uint8_t, char*, int64_t);");
    assert_eq!(provider.probes[2].to_d_source(), "probe one(char*);");
    assert_eq!(
        provider.to_d_source(),
        "provider foo {\n\tprobe bar();\n\tprobe baz(uint8_t, char*, int64_t);\n\tprobe one(char*);\n};"
    );
    let empty = Provider { name: "foo".to_string(), probes: vec![], use_statements: vec![] };
    assert_eq!(empty.to_d_source(), "provider foo {\n\n};");
}
