use std::collections::BTreeMap;
use usdt_impl::error::Error;
use usdt_impl::module_name::module_name_buffer;
use usdt_impl::no_linker::{
    compile_probe, compile_provider, finish_registration, register_probes,
    registration_request, HELPER_COMMAND, HELPER_DEVICE, PROBE_SECTION,
};
use usdt_impl::marshal::Register;
use usdt_impl::site::Step;
use usdt_impl::provider::{
    Arch, BitWidth, CompileProvidersConfig, DataType, Probe, Provider, Sign,
};
use usdt_impl::section::{
    Section, SectionProbe, SectionProvider, DESCRIPTOR_HEADER_SIZE, DESCRIPTOR_TABLE_HEADER_SIZE,
};

fn probe(name: &str, address: u64) -> SectionProbe {
    SectionProbe {
        name: name.to_string(),
        function: "main".to_string(),
        address,
        offsets: vec![4],
        enabled_offsets: vec![0],
        arguments: vec!["uint8_t".to_string(), "char*".to_string()],
    }
}

fn section() -> Section {
    Section {
        providers: vec![
            SectionProvider {
                name: "foo".to_string(),
                probes: vec![probe("bar", 0x4010), probe("baz", 0x4020)],
            },
            SectionProvider { name: "goo".to_string(), probes: vec![probe("bar", 0x4030)] },
        ],
    }
}

fn holds(bytes: &[u8], text: &str) -> bool {
    let mut wanted = text.as_bytes().to_vec();
    wanted.push(0);
    bytes.windows(wanted.len()).any(|window| window == wanted)
}

#[test]
fn without_a_section_nothing_is_to_be_done() {
    assert!(matches!(register_probes(None, None), Ok(None)));
    assert!(matches!(register_probes(None, Some("/usr/bin/app")), Ok(None)));
}

#[test]
fn a_section_with_a_probe_is_registered_under_its_owner() {
    let ours = section();
    assert_eq!(ours.probe_address(), Some(0x4010));
    let request = register_probes(Some(&ours), Some("/usr/bin/app")).unwrap().unwrap();
    assert_eq!(request.module_name, module_name_buffer("app"));
    assert_eq!(request.descriptor, ours.descriptor().unwrap());
    let request = register_probes(Some(&ours), None).unwrap().unwrap();
    assert_eq!(request.module_name, module_name_buffer("?0x4010"));
    let mut expected = [0i8; 64];
    for (i, byte) in "?0x4010".bytes().enumerate() {
        expected[i] = byte as i8;
    }
    assert_eq!(request.module_name, expected);
}

#[test]
fn registering_twice_calls_twice() {
    let ours = section();
    let first = register_probes(Some(&ours), None).unwrap().unwrap();
    let second = register_probes(Some(&ours), None).unwrap().unwrap();
    assert_eq!(first.module_name, second.module_name);
    assert_eq!(first.descriptor, second.descriptor);
}

#[test]
fn a_section_without_probes_is_not_registered() {
    let empty = Section { providers: vec![] };
    assert!(empty.is_empty());
    assert_eq!(empty.probe_address(), None);
    assert!(matches!(register_probes(Some(&empty), None), Ok(None)));
    assert!(matches!(register_probes(Some(&empty), Some("/usr/bin/app")), Ok(None)));
    let hollow = Section {
        providers: vec![
            SectionProvider { name: "foo".to_string(), probes: vec![] },
            SectionProvider { name: "goo".to_string(), probes: vec![] },
        ],
    };
    assert!(hollow.is_empty());
    assert!(matches!(register_probes(Some(&hollow), None), Ok(None)));
    let twice = Section {
        providers: vec![
            SectionProvider { name: "foo".to_string(), probes: vec![] },
            SectionProvider { name: "foo".to_string(), probes: vec![] },
        ],
    };
    assert!(matches!(register_probes(Some(&twice), None), Ok(None)));
    assert!(!section().is_empty());
}

#[test]
fn a_first_provider_without_probes_registers_as_unknown() {
    let hollow = Section {
        providers: vec![
            SectionProvider { name: "foo".to_string(), probes: vec![] },
            SectionProvider { name: "goo".to_string(), probes: vec![probe("bar", 1)] },
        ],
    };
    assert!(!hollow.is_empty());
    assert_eq!(hollow.probe_address(), None);
    let request = register_probes(Some(&hollow), Some("/usr/bin/app")).unwrap().unwrap();
    assert_eq!(request.module_name, module_name_buffer("unknown-module"));
    assert_eq!(
        &request.module_name[..15],
        &[117, 110, 107, 110, 111, 119, 110, 45, 109, 111, 100, 117, 108, 101, 0]
    );
    assert!(
        request.descriptor.len() >= DESCRIPTOR_HEADER_SIZE + 8 * DESCRIPTOR_TABLE_HEADER_SIZE
    );
}

#[test]
fn a_long_name_is_cut_and_still_registered() {
    let path = format!("/opt/{}", "m".repeat(100));
    let request = register_probes(Some(&section()), Some(&path)).unwrap().unwrap();
    assert!(request.module_name[..63].iter().all(|&b| b == 109));
    assert_eq!(request.module_name[63], 0);
}

#[test]
fn a_name_held_twice_is_refused() {
    let mut twice = section();
    twice.providers[1].name = "foo".to_string();
    assert!(!twice.is_well_formed());
    assert!(matches!(register_probes(Some(&twice), None), Err(Error::ParseFailure)));
    assert!(matches!(registration_request(&twice, None), Err(Error::ParseFailure)));
    assert!(twice.descriptor().is_none());
    let mut twice = section();
    twice.providers[0].probes[1].name = "bar".to_string();
    assert!(!twice.is_well_formed());
    assert!(matches!(register_probes(Some(&twice), None), Err(Error::ParseFailure)));
    assert!(section().is_well_formed());
}

#[test]
fn the_descriptor_holds_the_sections_strings() {
    let mut ours = section();
    ours.providers[1].probes[0].function = "caf\u{e9}".to_string();
    let bytes = ours.descriptor().unwrap();
    assert!(bytes.len() >= DESCRIPTOR_HEADER_SIZE + DESCRIPTOR_TABLE_HEADER_SIZE * (4 + 2 * 2));
    for text in ["foo", "goo", "bar", "baz", "main", "caf\u{e9}", "uint8_t", "char*"] {
        assert!(holds(&bytes, text));
    }
    assert!(!holds(&bytes, "qux"));
    let empty = Section { providers: vec![] }.descriptor().unwrap();
    assert!(!holds(&empty, "foo"));
    assert!(empty.len() < bytes.len());
}

#[test]
fn the_descriptor_holds_the_sections_sites() {
    let mut ours = section();
    ours.providers[0].probes[0].address = 0x0102_0304_0506_0708;
    ours.providers[0].probes[0].offsets = vec![0x1122_3344, 0x5566_7788];
    ours.providers[1].probes[0].enabled_offsets = vec![0x99aa_bbcc];
    let bytes = ours.descriptor().unwrap();
    let stands = |number: &[u8]| bytes.windows(number.len()).any(|window| window == number);
    for provider in &ours.providers {
        for probe in &provider.probes {
            assert!(stands(&probe.address.to_ne_bytes()));
            for offset in probe.offsets.iter().chain(probe.enabled_offsets.iter()) {
                assert!(stands(&offset.to_ne_bytes()));
            }
        }
    }
    assert!(!stands(&0x0807_0605_0403_0201u64.to_ne_bytes()));
    let other = section().descriptor().unwrap();
    assert!(!other.windows(8).any(|window| window == 0x0102_0304_0506_0708u64.to_ne_bytes()));
}

#[test]
fn the_request_names_the_owner() {
    let request = registration_request(&section(), Some("/usr/lib/libapp.so")).unwrap();
    assert_eq!(request.module_name, module_name_buffer("libapp.so"));
    let request = registration_request(&section(), None).unwrap();
    assert_eq!(request.module_name, module_name_buffer("?0x4010"));
    let empty = Section { providers: vec![] };
    let request = registration_request(&empty, Some("/usr/lib/libapp.so")).unwrap();
    assert_eq!(request.module_name, module_name_buffer("unknown-module"));
}

#[test]
fn the_descriptor_is_the_one_of_the_format() {
    let ours = section();
    let bytes = ours.descriptor().unwrap();
    assert!(bytes.len() >= DESCRIPTOR_HEADER_SIZE);
    assert_eq!(&bytes[..4], &[0x7f, b'D', b'O', b'F']);
    assert_eq!(bytes[4], 2);
    assert_eq!(bytes[5], 1);
    assert!(bytes[6] == 2 || bytes[6] == 3);
    assert_eq!(&bytes[7..16], &[2, 8, 8, 0, 0, 0, 0, 0, 0]);

    let mut theirs = dof::Section::default();
    for provider in &ours.providers {
        let mut probes = BTreeMap::new();
        for probe in &provider.probes {
            probes.insert(
                probe.name.clone(),
                dof::Probe {
                    name: probe.name.clone(),
                    function: probe.function.clone(),
                    address: probe.address,
                    offsets: probe.offsets.clone(),
                    enabled_offsets: probe.enabled_offsets.clone(),
                    arguments: probe.arguments.clone(),
                },
            );
        }
        theirs
            .providers
            .insert(provider.name.clone(), dof::Provider { name: provider.name.clone(), probes });
    }
    assert_eq!(bytes, dof::serialize_section(&theirs));
    assert_eq!(registration_request(&ours, None).unwrap().descriptor, bytes);
    let empty = Section { providers: vec![] };
    assert_ne!(empty.descriptor().unwrap(), bytes);
    assert_eq!(empty.descriptor().unwrap(), dof::serialize_section(&dof::Section::default()));
}

#[test]
fn the_first_probe_gives_the_address() {
    assert_eq!(section().probe_address(), Some(0x4010));
    assert_eq!(Section { providers: vec![] }.probe_address(), None);
}

#[test]
fn the_control_calls_outcome_is_the_registrations() {
    assert_eq!(finish_registration(Ok(())), Ok(()));
    assert_eq!(finish_registration(Err(13)), Err(Error::RegistrationFailure(13)));
    assert_eq!(finish_registration(Err(-1)), Err(Error::RegistrationFailure(-1)));
}

#[test]
fn a_probe_has_two_sites() {
    let types = [DataType::Integer(Sign::Unsigned, BitWidth::Bit64), DataType::String];
    let site = compile_probe("foo", "bar", "fire", &types, Arch::X86_64).unwrap();
    assert_eq!(site.probe_name, "bar");
    assert_eq!(site.probe_fn, "fire");
    assert_eq!(site.is_enabled_instruction, "990:   clr rax");
    assert_eq!(site.is_enabled_register, "rax");
    assert_eq!(site.probe_instruction, "990:   nop");
    assert_eq!(site.is_enabled_record.provider, "foo");
    assert_eq!(site.is_enabled_record.probe, "bar");
    assert!(site.is_enabled_record.types.is_none());
    assert_eq!(site.probe_record.provider, "foo");
    assert_eq!(site.probe_record.probe, "bar");
    assert_eq!(site.probe_record.types.as_deref(), Some(&types[..]));
    assert_eq!(site.options, ["nomem", "nostack", "preserves_flags"]);
    assert_eq!(site.arguments.len(), 2);
    assert_eq!(site.arguments[0].register, Register::Rdi);
    assert_eq!(site.arguments[1].register, Register::Rsi);
}

#[test]
fn the_helper_device_is_fixed() {
    assert_eq!(HELPER_DEVICE, "/dev/dtrace/helper");
    assert_eq!(HELPER_COMMAND, 0x64746803);
    assert_eq!(PROBE_SECTION, "set_dtrace_probes");
}

#[test]
fn the_sites_are_written_for_both_processors() {
    let types = [DataType::String, DataType::Integer(Sign::Signed, BitWidth::Bit8)];
    let site = compile_probe("foo", "bar", "bar", &types, Arch::AArch64).unwrap();
    assert_eq!(site.is_enabled_instruction, "990:   clr rax");
    assert_eq!(site.is_enabled_register, "rax");
    assert_eq!(site.probe_instruction, "990:   nop");
    assert!(site.is_enabled_record.types.is_none());
    assert_eq!(site.probe_record.provider, "foo");
    assert_eq!(site.probe_record.probe, "bar");
    assert_eq!(site.probe_record.types.as_deref(), Some(&types[..]));
    assert_eq!(site.arguments[0].register, Register::X0);
    assert_eq!(site.arguments[1].register, Register::X1);
    for n in 0..=6 {
        for arch in [Arch::X86_64, Arch::AArch64] {
            assert!(compile_probe("foo", "bar", "bar", &vec![DataType::String; n], arch).is_ok());
        }
    }
    for arch in [Arch::X86_64, Arch::AArch64] {
        assert_eq!(
            compile_probe("foo", "bar", "bar", &[DataType::String; 7], arch).unwrap_err(),
            Error::ParseFailure
        );
    }
}

#[test]
fn a_recorded_site_reads_first_and_fires_only_where_enabled() {
    for arch in [Arch::X86_64, Arch::AArch64] {
        let site = compile_probe("foo", "bar", "bar", &[DataType::String], arch).unwrap();
        assert_eq!(site.shape.test, Step::ReadEnabled);
        assert_eq!(site.shape.when_enabled, [Step::Marshal, Step::Fire]);
        assert_eq!(site.options, ["nomem", "nostack", "preserves_flags"]);
    }
}

#[test]
fn a_provider_has_the_sites_of_its_probes() {
    let provider = Provider {
        name: "foo".to_string(),
        probes: vec![
            Probe { name: "bar".to_string(), types: vec![] },
            Probe { name: "baz".to_string(), types: vec![DataType::String] },
        ],
        use_statements: vec![],
    };
    let config = CompileProvidersConfig::default();
    let site = compile_provider(&provider, &config, Arch::X86_64).unwrap();
    assert_eq!(site.name, "foo");
    assert_eq!(site.module.as_deref(), Some("foo"));
    assert_eq!(site.probes.len(), 2);
    assert_eq!(site.probes[0].probe_name, "bar");
    assert_eq!(site.probes[1].probe_name, "baz");
    assert_eq!(site.probes[1].arguments.len(), 1);
    assert_eq!(compile_provider(&provider, &config, Arch::AArch64).unwrap().probes.len(), 2);
    let mut many = provider.clone();
    many.probes[1].types = vec![DataType::String; 7];
    assert_eq!(
        compile_provider(&many, &config, Arch::AArch64).unwrap_err(),
        Error::ParseFailure
    );
    let none = Provider { name: "foo".to_string(), probes: vec![], use_statements: vec![] };
    assert!(compile_provider(&none, &config, Arch::AArch64).unwrap().probes.is_empty());
    let config = CompileProvidersConfig { module: Some(String::new()) };
    assert!(compile_provider(&none, &config, Arch::X86_64).unwrap().module.is_none());
}
