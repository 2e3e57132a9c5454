use audio_core::camelot::parse_prefix_number;
use audio_core::lyrics::LyricFile;
use audio_core::plugin::NativeMediaPlugin;
use audio_core::text::{decimal_string, digit_str, str_eq};

#[test]
fn digits_are_written_one_by_one() {
    let expected = ["0", "1", "2", "3", "4", "5", "6", "7", "8", "9"];
    for d in 0..10u32 {
        assert_eq!(digit_str(d), expected[d as usize]);
    }
}

#[test]
fn numbers_are_written_in_decimal() {
    assert_eq!(decimal_string(0), "0");
    assert_eq!(decimal_string(7), "7");
    assert_eq!(decimal_string(10), "10");
    assert_eq!(decimal_string(12), "12");
    assert_eq!(decimal_string(1_000_000), "1000000");
    assert_eq!(decimal_string(u32::MAX), "4294967295");
}

#[test]
fn decimals_read_back() {
    for n in [0u32, 1, 9, 10, 99, 100, 12_345, 2_147_483_647] {
        let s = decimal_string(n);
        assert_eq!(parse_prefix_number(&s, s.len()), Some(n as i32));
    }
}

#[test]
fn numbers_are_read_like_signed_decimals() {
    assert_eq!(parse_prefix_number("123abc", 3), Some(123));
    assert_eq!(parse_prefix_number("123abc", 4), None);
    assert_eq!(parse_prefix_number("123", 0), None);
    assert_eq!(parse_prefix_number("+7", 2), Some(7));
    assert_eq!(parse_prefix_number("-7", 2), Some(-7));
    assert_eq!(parse_prefix_number("-", 1), None);
    assert_eq!(parse_prefix_number("+", 1), None);
    assert_eq!(parse_prefix_number("--7", 3), None);
    assert_eq!(parse_prefix_number("7-", 2), None);
    assert_eq!(parse_prefix_number(" 7", 2), None);
    assert_eq!(parse_prefix_number("000000000000000000000042", 24), Some(42));
    assert_eq!(parse_prefix_number("2147483647", 10), Some(i32::MAX));
    assert_eq!(parse_prefix_number("2147483648", 10), None);
    assert_eq!(parse_prefix_number("-2147483648", 11), Some(i32::MIN));
    assert_eq!(parse_prefix_number("-2147483649", 11), None);
    assert_eq!(parse_prefix_number("99999999999999999999999999", 26), None);
    assert_eq!(parse_prefix_number("٣", 1), None);
}

#[test]
fn numbers_are_read_as_the_standard_library_reads_them() {
    let texts = [
        "0", "-0", "+0", "12", "-12", "+12", "007", "", "-", "1x", "x1", "2147483648", "-2147483648",
    ];
    for text in texts {
        let ours = parse_prefix_number(text, text.chars().count());
        assert_eq!(ours, text.parse::<i32>().ok());
    }
}

#[test]
fn strings_are_compared_by_characters() {
    assert!(str_eq("", ""));
    assert!(str_eq("8A", "8A"));
    assert!(!str_eq("8A", "8B"));
    assert!(!str_eq("8A", "8"));
    assert!(!str_eq("8", "8A"));
    assert!(str_eq("héllo", "héllo"));
    assert!(!str_eq("héllo", "hèllo"));
}

#[test]
fn plugin_is_a_plain_handle() {
    assert_eq!(NativeMediaPlugin::new(), NativeMediaPlugin);
}

#[test]
fn lyric_file_holds_name_and_path() {
    let file = LyricFile { name: "song.lrc".to_string(), path: "/music/song.lrc".to_string() };
    let copy = file.clone();
    assert_eq!(copy.name, "song.lrc");
    assert_eq!(copy.path, "/music/song.lrc");
}
