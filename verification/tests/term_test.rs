use busycrab::term::MAX_DIM;
use busycrab::term::chars_of;
use busycrab::term::normalize_dims;
use busycrab::term::push_dec_i64;
use busycrab::term::push_dec_u64;
use busycrab::term::push_fg256;
use busycrab::term::push_repeat;
use busycrab::term::push_str_chars;

#[test]
fn test_normalize_dims_fallback() {
    let d = normalize_dims(None, 2, (78, 20));
    assert_eq!((d.width, d.height), (78, 20));
}

#[test]
fn test_normalize_dims_margin() {
    let d = normalize_dims(Some((80, 24)), 2, (78, 20));
    assert_eq!((d.width, d.height), (78, 24));
}

#[test]
fn test_normalize_dims_tiny() {
    let d = normalize_dims(Some((1, 0)), 5, (75, 20));
    assert_eq!((d.width, d.height), (0, 0));
}

#[test]
fn test_normalize_dims_clamps() {
    let d = normalize_dims(Some((100000, 100000)), 2, (78, 20));
    assert_eq!((d.width, d.height), (MAX_DIM, MAX_DIM));
}

#[test]
fn test_decimal_rendering() {
    let mut v: Vec<char> = Vec::new();
    push_dec_u64(&mut v, 12345);
    let s: String = v.iter().collect();
    assert_eq!(s, "12345");

    let mut v2: Vec<char> = Vec::new();
    push_dec_u64(&mut v2, 0);
    let s2: String = v2.iter().collect();
    assert_eq!(s2, "0");

    let mut v3: Vec<char> = Vec::new();
    push_dec_i64(&mut v3, -42);
    let s3: String = v3.iter().collect();
    assert_eq!(s3, "-42");
}

#[test]
fn test_color_escape() {
    let mut v: Vec<char> = Vec::new();
    push_fg256(&mut v, 255);
    let s: String = v.iter().collect();
    assert_eq!(s, "\u{1b}[38;5;255m");
}

#[test]
fn test_frame_building_helpers() {
    let mut v = chars_of("ab");
    push_repeat(&mut v, 'x', 3);
    push_str_chars(&mut v, "cd");
    let s: String = v.iter().collect();
    assert_eq!(s, "abxxxcd");
}
