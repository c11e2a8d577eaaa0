use msr_driver::error::{Error, IntoResult, STATUS_NOT_IMPLEMENTED, STATUS_SUCCESS};
use msr_driver::kernel_module::{driver_entry_status, registry_path_string};
use msr_driver::utils::create_unicode_string;
use msr_driver::{DEVICE_NAME, DOS_DEVICE_NAME};

#[test]
fn not_implemented_carries_its_status() {
    assert_eq!(STATUS_NOT_IMPLEMENTED, 0xC0000002u32 as i32);
    assert_eq!(Error::NOT_IMPLEMENTED().to_nt_status(), STATUS_NOT_IMPLEMENTED);
}

#[test]
fn status_round_trips_through_error() {
    for s in [1, -1, STATUS_NOT_IMPLEMENTED, i32::MIN, i32::MAX] {
        assert_eq!(Error::from_nt_status(s).to_nt_status(), s);
    }
}

#[test]
fn success_becomes_ok() {
    assert_eq!(STATUS_SUCCESS.into_result(), Ok(()));
}

#[test]
fn failure_becomes_err_with_status() {
    let r = STATUS_NOT_IMPLEMENTED.into_result();
    assert_eq!(r, Err(Error::NOT_IMPLEMENTED()));
    match 0x4000_0000i32.into_result() {
        Err(e) => assert_eq!(e.to_nt_status(), 0x4000_0000),
        Ok(()) => panic!("a non-zero status must fail"),
    }
}

#[test]
fn entry_status_of_init() {
    let ok: Result<u8, Error> = Ok(3);
    assert_eq!(driver_entry_status(&ok), STATUS_SUCCESS);
    let err: Result<u8, Error> = Err(Error::from_nt_status(-5));
    assert_eq!(driver_entry_status(&err), -5);
}

#[test]
fn unicode_string_of_plain_text() {
    let u = create_unicode_string("AB");
    assert_eq!(u.buffer, vec![0x41u16, 0x42]);
    assert_eq!(u.length, 4);
    assert_eq!(u.maximum_length, 4);
}

#[test]
fn unicode_string_of_empty_text() {
    let u = create_unicode_string("");
    assert!(u.buffer.is_empty());
    assert_eq!(u.length, 0);
    assert_eq!(u.maximum_length, 0);
}

#[test]
fn unicode_string_excludes_terminator_from_length() {
    let u = create_unicode_string(DEVICE_NAME);
    assert_eq!(u.buffer.len(), 26);
    assert_eq!(*u.buffer.last().unwrap(), 0);
    assert_eq!(u.length, 50);
    assert_eq!(u.maximum_length, 52);
    let d = create_unicode_string(DOS_DEVICE_NAME);
    assert_eq!(d.length + 2, d.maximum_length);
    let only_nul = create_unicode_string("\0");
    assert_eq!(only_nul.length, 0);
    assert_eq!(only_nul.maximum_length, 2);
}

#[test]
fn unicode_string_encodes_surrogate_pairs() {
    let u = create_unicode_string("a\u{1F600}\u{E9}");
    assert_eq!(u.buffer, vec![0x61u16, 0xD83D, 0xDE00, 0xE9]);
    assert_eq!(u.length, 8);
    let expected: Vec<u16> = "a\u{1F600}\u{E9}".encode_utf16().collect();
    assert_eq!(u.buffer, expected);
}

#[test]
fn unicode_string_lengths_wrap_at_sixteen_bits() {
    let text = "x".repeat(40000);
    let u = create_unicode_string(&text);
    assert_eq!(u.buffer.len(), 40000);
    assert_eq!(u.length, (80000u32 % 65536) as u16);
    assert_eq!(u.maximum_length, (80000u32 % 65536) as u16);
}

#[test]
fn registry_path_decodes_units() {
    assert_eq!(registry_path_string(&[0x41, 0x42]), "AB");
    assert_eq!(registry_path_string(&[]), "");
}

#[test]
fn registry_path_replaces_unpaired_surrogates() {
    assert_eq!(registry_path_string(&[0xD800, 0x41]), "\u{FFFD}A");
    assert_eq!(registry_path_string(&[0xDC00]), "\u{FFFD}");
    assert_eq!(registry_path_string(&[0x41, 0xD83D]), "A\u{FFFD}");
}

#[test]
fn registry_path_gives_back_encoded_text() {
    let text = "\\Registry\\Machine\\h\u{E9}llo\u{1F600}";
    let u = create_unicode_string(text);
    assert_eq!(registry_path_string(&u.buffer), text);
}
