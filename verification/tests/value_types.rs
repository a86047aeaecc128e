use daxa::device::check_result;
use daxa::types::{
    FfiOption, ImageLayout, ResultCode, SmallString, MEMORY_FLAG_CAN_ALIAS,
    MEMORY_FLAG_DEDICATED_MEMORY, MEMORY_FLAG_HOST_ACCESS_RANDOM, MEMORY_FLAG_MIN_MEMORY,
    MEMORY_FLAG_MIN_TIME, MEMORY_FLAG_SEQUENTIAL_WRITE, RESULT_MISSING_EXTENSION, RESULT_SUCCESS,
};

#[test]
fn result_code_values_match_engine() {
    assert_eq!(RESULT_SUCCESS, 0);
    assert_eq!(ResultCode::Success.code(), 0);
    assert_eq!(ResultCode::MissingExtension.code(), RESULT_MISSING_EXTENSION);
}

#[test]
fn result_code_roundtrip() {
    for code in [ResultCode::Success, ResultCode::MissingExtension] {
        assert_eq!(ResultCode::from_code(code.code()), Some(code));
    }
    assert_eq!(ResultCode::from_code(7), None);
    assert_eq!(ResultCode::from_code(-1), None);
}

#[test]
fn check_result_splits_success_from_failure() {
    assert_eq!(check_result(RESULT_SUCCESS), Ok(()));
    assert_eq!(check_result(5), Err(5));
    assert_eq!(check_result(-7), Err(-7));
    assert_eq!(check_result(RESULT_MISSING_EXTENSION), Err(RESULT_MISSING_EXTENSION));
}

#[test]
fn image_layout_values_match_engine() {
    assert_eq!(ImageLayout::Undefined.code(), 0);
    assert_eq!(ImageLayout::General.code(), 1);
    assert_eq!(ImageLayout::TransferSrcOptimal.code(), 6);
    assert_eq!(ImageLayout::TransferDstOptimal.code(), 7);
    assert_eq!(ImageLayout::ReadOnlyOptimal.code(), 1000314000);
    assert_eq!(ImageLayout::AttachmentOptimal.code(), 1000314001);
    assert_eq!(ImageLayout::PresentSrc.code(), 1000001002);
}

#[test]
fn memory_flag_values_match_engine() {
    assert_eq!(MEMORY_FLAG_DEDICATED_MEMORY, 0x1);
    assert_eq!(MEMORY_FLAG_CAN_ALIAS, 0x200);
    assert_eq!(MEMORY_FLAG_SEQUENTIAL_WRITE, 0x400);
    assert_eq!(MEMORY_FLAG_HOST_ACCESS_RANDOM, 0x800);
    assert_eq!(MEMORY_FLAG_MIN_MEMORY, 0x1_0000);
    assert_eq!(MEMORY_FLAG_MIN_TIME, 0x2_0000);
}

#[test]
fn small_string_preserves_short_content() {
    let s = SmallString::from_bytes(&b"frame color target"[..]).unwrap();
    assert_eq!(s.len(), 18);
    assert_eq!(s.to_bytes(), b"frame color target".to_vec());
}

#[test]
fn small_string_accepts_up_to_38_bytes() {
    let bytes = [b'x'; 38];
    let s = SmallString::from_bytes(&bytes[..]).unwrap();
    assert_eq!(s.len(), 38);
    assert_eq!(s.to_bytes(), bytes.to_vec());
}

#[test]
fn small_string_refuses_39_or_more_bytes() {
    let at_cap = [b'x'; 39];
    assert!(SmallString::from_bytes(&at_cap[..]).is_none());
    let beyond = [b'y'; 100];
    assert!(SmallString::from_bytes(&beyond[..]).is_none());
}

#[test]
fn small_string_default_is_empty() {
    let s = SmallString::default();
    assert_eq!(s.len(), 0);
    assert_eq!(s.to_bytes(), Vec::<u8>::new());
}

#[test]
fn small_string_scans_to_terminating_zero() {
    let s = SmallString::from_bytes_null_terminated(&b"abc\0def"[..]).unwrap();
    assert_eq!(s.to_bytes(), b"abc".to_vec());
    let t = SmallString::from_bytes_null_terminated(&b"abc"[..]).unwrap();
    assert_eq!(t.to_bytes(), b"abc".to_vec());
    let u = SmallString::from_bytes_null_terminated(&b"\0abc"[..]).unwrap();
    assert_eq!(u.to_bytes(), Vec::<u8>::new());
}

#[test]
fn ffi_option_roundtrips_present_payload() {
    let wrapped = FfiOption::some(417u32);
    assert!(wrapped.has_value());
    assert_eq!(*wrapped.value(), 417);
    assert_eq!(wrapped.into_option(), Some(417));
}

#[test]
fn ffi_option_absent_yields_nothing() {
    let wrapped = FfiOption::absent(12345u64);
    assert!(!wrapped.has_value());
    assert_eq!(wrapped.into_option(), None);
}

#[test]
fn ffi_option_from_option_roundtrips() {
    let present = FfiOption::from_option(Some(3u16), 0);
    assert_eq!(present.into_option(), Some(3));
    let missing = FfiOption::from_option(None, 9u16);
    assert_eq!(missing.into_option(), None);
}

#[test]
fn ffi_option_borrow_paths_honor_the_flag() {
    let mut wrapped = FfiOption::some(1u32);
    assert_eq!(wrapped.as_option_ref().copied(), Some(1));
    if let Some(payload) = wrapped.as_option_mut() {
        *payload = 2;
    }
    assert_eq!(wrapped.into_option(), Some(2));

    let mut empty = FfiOption::absent(5u32);
    assert!(empty.as_option_ref().is_none());
    assert!(empty.as_option_mut().is_none());
    assert_eq!(empty.into_option(), None);
}
