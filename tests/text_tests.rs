use termtrace::text::{parse_char, parse_size, split_on, token_is};

fn strings(v: &[&str]) -> Vec<String> {
    v.iter().map(|s| s.to_string()).collect()
}

#[test]
fn split_keeps_empty_fields() {
    assert_eq!(split_on("T a b c", ' '), strings(&["T", "a", "b", "c"]));
    assert_eq!(split_on("a  b", ' '), strings(&["a", "", "b"]));
    assert_eq!(split_on("", ' '), strings(&[""]));
    assert_eq!(split_on("x,", ','), strings(&["x", ""]));
}

#[test]
fn token_comparison_is_exact() {
    assert!(token_is(&"END_OBJ".to_string(), "END_OBJ"));
    assert!(!token_is(&"END_OB".to_string(), "END_OBJ"));
    assert!(!token_is(&"p".to_string(), "P"));
}

#[test]
fn glyph_is_first_character() {
    assert_eq!(parse_char(&"#".to_string()), '#');
    assert_eq!(parse_char(&"xyz".to_string()), 'x');
}

#[test]
fn size_reads_width_and_height() {
    assert_eq!(parse_size(&"80,40".to_string()), Some((80, 40)));
    assert_eq!(parse_size(&"+5,6".to_string()), Some((5, 6)));
    assert_eq!(parse_size(&"3,4,5".to_string()), Some((3, 4)));
}

#[test]
fn size_refuses_malformed_input() {
    assert_eq!(parse_size(&"80".to_string()), None);
    assert_eq!(parse_size(&"a,3".to_string()), None);
    assert_eq!(parse_size(&"-1,2".to_string()), None);
    assert_eq!(parse_size(&"80, 40".to_string()), None);
    assert_eq!(parse_size(&"+,4".to_string()), None);
    assert_eq!(parse_size(&"99999999999999999999999,1".to_string()), None);
}
