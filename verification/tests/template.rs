use dir_server::template::{html_response, placeholder_chars};
use dir_server::text::{chars_of, decimal_chars, string_of};

fn strings(items: &[&str]) -> Vec<String> {
    items.iter().map(|s| s.to_string()).collect()
}

#[test]
fn substitutions_go_to_their_places() {
    let page = html_response("<h1>{0}</h1><p>{1}</p>{2}", &strings(&["T", "M", "<i>D</i>"]));
    assert_eq!(page, "<h1>T</h1><p>M</p><i>D</i>");
}

#[test]
fn a_place_may_occur_more_than_once_or_not_at_all() {
    assert_eq!(html_response("{0}{1}{0}", &strings(&["a", "b"])), "aba");
    assert_eq!(html_response("{1}", &strings(&["a", "b"])), "b");
    assert_eq!(html_response("none", &strings(&["a", "b"])), "none");
    assert_eq!(html_response("{0} {1}", &strings(&[])), "{0} {1}");
    assert_eq!(html_response("{0} {1}", &strings(&["only"])), "only {1}");
}

#[test]
fn substitutions_are_made_in_order() {
    assert_eq!(html_response("{0}", &strings(&["{1}", "x"])), "x");
    assert_eq!(html_response("{1}", &strings(&["x", "{0}"])), "{0}");
}

#[test]
fn places_beyond_nine_are_written_in_decimal() {
    let mut args = strings(&["0", "1", "2", "3", "4", "5", "6", "7", "8", "9"]);
    args.push("ten".to_string());
    assert_eq!(html_response("{10}-{1}-{0}", &args), "ten-1-0");
    assert_eq!(string_of(&placeholder_chars(0)), "{0}");
    assert_eq!(string_of(&placeholder_chars(12)), "{12}");
}

#[test]
fn numbers_are_written_without_leading_zeros() {
    assert_eq!(string_of(&decimal_chars(0)), "0");
    assert_eq!(string_of(&decimal_chars(7)), "7");
    assert_eq!(string_of(&decimal_chars(10)), "10");
    assert_eq!(string_of(&decimal_chars(4096)), "4096");
    assert_eq!(string_of(&decimal_chars(usize::MAX)), usize::MAX.to_string());
}

#[test]
fn characters_and_strings_convert_both_ways() {
    assert_eq!(chars_of("a\u{e9}\u{20ac}"), vec!['a', '\u{e9}', '\u{20ac}']);
    assert_eq!(string_of(&vec!['a', '\u{e9}', '\u{20ac}']), "a\u{e9}\u{20ac}");
    assert_eq!(string_of(&chars_of("")), "");
}
