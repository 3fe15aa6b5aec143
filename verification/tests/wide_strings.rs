use win_tcache_multi::bindings::ExtractMode;
use win_tcache_multi::bindings::NativeOutcome;
use win_tcache_multi::bindings::WTS_EXTRACT;
use win_tcache_multi::bindings::WTS_FORCEEXTRACTION;
use win_tcache_multi::bindings::__bench_force_get_thumbnail_from_path;
use win_tcache_multi::bindings::build_request;
use win_tcache_multi::bindings::classify_outcome;
use win_tcache_multi::bindings::get_thumbnail_from_path;
use win_tcache_multi::wstr::path_to_wstr;

#[test]
fn ascii_path_is_utf16_with_terminator() {
    assert_eq!(path_to_wstr("ab"), vec![0x61, 0x62, 0x0]);
}

#[test]
fn empty_path_is_just_the_terminator() {
    assert_eq!(path_to_wstr(""), vec![0x0]);
}

#[test]
fn bmp_char_is_one_unit() {
    // U+00E9, a one-unit code point outside ASCII
    assert_eq!(path_to_wstr("\u{e9}"), vec![0xE9, 0x0]);
}

#[test]
fn astral_char_becomes_surrogate_pair() {
    // U+1D11E encodes as the surrogate pair D834 DD1E
    assert_eq!(path_to_wstr("\u{1d11e}"), vec![0xD834, 0xDD1E, 0x0]);
    // U+1F600 encodes as D83D DE00
    assert_eq!(path_to_wstr("a\u{1f600}"), vec![0x61, 0xD83D, 0xDE00, 0x0]);
}

#[test]
fn encoding_matches_std_utf16() {
    let path = "C:\\Users\\me\\pic \u{1f600}\u{e9}.png";
    let mut expected: Vec<u16> = path.encode_utf16().collect();
    expected.push(0);
    assert_eq!(path_to_wstr(path), expected);
}

#[test]
fn production_request_uses_extract_flag() {
    let r = get_thumbnail_from_path("ab");
    assert_eq!(r.flags, WTS_EXTRACT);
    assert_eq!(r.wpath, vec![0x61, 0x62, 0x0]);
}

#[test]
fn bench_request_forces_reextraction() {
    let r = __bench_force_get_thumbnail_from_path("ab");
    assert_eq!(r.flags, WTS_FORCEEXTRACTION);
    assert_eq!(r.wpath, vec![0x61, 0x62, 0x0]);
}

#[test]
fn build_request_selects_mode_flag() {
    assert_eq!(build_request("x", ExtractMode::Extract).flags, WTS_EXTRACT);
    assert_eq!(build_request("x", ExtractMode::ForceExtraction).flags, WTS_FORCEEXTRACTION);
}

#[test]
fn outcome_classification_keeps_code_and_message() {
    let good = NativeOutcome { ok: true, code: 0, msg: String::new() };
    assert!(classify_outcome(&good).is_ok());

    let bad = NativeOutcome { ok: false, code: -2147175936, msg: String::from("boom") };
    let err = classify_outcome(&bad).unwrap_err();
    assert_eq!(err.code, -2147175936);
    assert_eq!(err.msg, "boom");
}
