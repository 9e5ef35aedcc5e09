use usdt_impl::module_name::{
    final_segment, hex_address, module_name, module_name_buffer, MODULE_NAME_SIZE,
};

#[test]
fn an_address_is_written_in_hexadecimal() {
    assert_eq!(hex_address(0), "0x0");
    assert_eq!(hex_address(9), "0x9");
    assert_eq!(hex_address(10), "0xa");
    assert_eq!(hex_address(16), "0x10");
    assert_eq!(hex_address(255), "0xff");
    assert_eq!(hex_address(0xdead_beef), "0xdeadbeef");
    assert_eq!(hex_address(0x0123_4567_89ab_cdef), "0x123456789abcdef");
    assert_eq!(hex_address(u64::MAX), "0xffffffffffffffff");
}

#[test]
fn an_address_is_written_as_the_formatter_writes_it() {
    for address in [0u64, 1, 15, 16, 17, 4095, 4096, 1 << 32, (1 << 63) + 7, u64::MAX - 1] {
        assert_eq!(hex_address(address), format!("{:#x}", address));
    }
}

#[test]
fn the_final_segment_follows_the_last_slash() {
    assert_eq!(final_segment("/usr/lib/libfoo.so"), "libfoo.so");
    assert_eq!(final_segment("libfoo.so"), "libfoo.so");
    assert_eq!(final_segment("/usr/lib/"), "");
    assert_eq!(final_segment("/"), "");
    assert_eq!(final_segment(""), "");
    assert_eq!(final_segment("a/b"), "b");
    assert_eq!(final_segment("/opt/caf\u{e9}/pr\u{f6}be"), "pr\u{f6}be");
}

#[test]
fn without_a_probe_the_module_is_unknown() {
    assert_eq!(module_name(None, None), "unknown-module");
    assert_eq!(module_name(None, Some("/usr/bin/app")), "unknown-module");
}

#[test]
fn without_a_path_the_module_is_its_address() {
    assert_eq!(module_name(Some(0x7fff_1234), None), "?0x7fff1234");
    assert_eq!(module_name(Some(0), None), "?0x0");
}

#[test]
fn with_a_path_the_module_is_the_file() {
    assert_eq!(module_name(Some(0x1000), Some("/usr/bin/app")), "app");
    assert_eq!(module_name(Some(0x1000), Some("app")), "app");
}

#[test]
fn the_buffer_holds_the_name_and_zeros() {
    let buffer = module_name_buffer("app");
    assert_eq!(buffer.len(), MODULE_NAME_SIZE);
    assert_eq!(&buffer[..3], &[97i8, 112, 112]);
    assert!(buffer[3..].iter().all(|&b| b == 0));
    assert_eq!(module_name_buffer(""), [0i8; 64]);
}

#[test]
fn a_long_name_is_cut_after_63_bytes() {
    let name = "0123456789".repeat(10);
    let buffer = module_name_buffer(&name);
    for i in 0..63 {
        assert_eq!(buffer[i], name.as_bytes()[i] as i8);
    }
    assert_eq!(buffer[63], 0);
    let exact = "x".repeat(63);
    let buffer = module_name_buffer(&exact);
    assert!(buffer[..63].iter().all(|&b| b == 120));
    assert_eq!(buffer[63], 0);
    let one_more = "x".repeat(64);
    assert_eq!(module_name_buffer(&one_more), buffer);
}

#[test]
fn bytes_above_127_become_negative() {
    let buffer = module_name_buffer("\u{e9}");
    assert_eq!(buffer[0], 0xc3u8 as i8);
    assert_eq!(buffer[1], 0xa9u8 as i8);
    assert_eq!(buffer[2], 0);
}

#[test]
fn a_name_is_cut_inside_a_character() {
    let name = format!("{}\u{e9}", "a".repeat(62));
    let buffer = module_name_buffer(&name);
    assert_eq!(buffer[61], 97);
    assert_eq!(buffer[62], 0xc3u8 as i8);
    assert_eq!(buffer[63], 0);
}
