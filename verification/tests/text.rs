use usdt_impl::table::Table;
use usdt_impl::text::{chars_of, find, line_bounds, rfind, same_text};

fn chars(s: &str) -> Vec<char> {
    s.chars().collect()
}

fn lines_of(text: &str) -> Vec<String> {
    let all = chars(text);
    line_bounds(&all).into_iter().map(|(start, end)| all[start..end].iter().collect()).collect()
}

#[test]
fn chars_of_gives_the_characters() {
    assert_eq!(chars_of(""), Vec::<char>::new());
    assert_eq!(chars_of("a\u{e9}$"), vec!['a', '\u{e9}', '$']);
}

#[test]
fn find_gives_the_first_place() {
    let hay = chars("abcabc");
    assert_eq!(find(&hay, 0, &chars("bc")), Some(1));
    assert_eq!(find(&hay, 1, &chars("bc")), Some(1));
    assert_eq!(find(&hay, 2, &chars("bc")), Some(4));
    assert_eq!(find(&hay, 5, &chars("bc")), None);
    assert_eq!(find(&hay, 0, &chars("cb")), None);
    assert_eq!(find(&hay, 0, &chars("abcabcd")), None);
    assert_eq!(find(&hay, 3, &chars("")), Some(3));
    assert_eq!(find(&hay, 6, &chars("")), Some(6));
    assert_eq!(find(&chars(""), 0, &chars("a")), None);
}

#[test]
fn find_agrees_with_the_standard_search() {
    let texts = ["", "a", "aa", "aab", "abab", "$a$$b", "xx yy  zz"];
    let needles = ["", "a", "b", "ab", "$", " ", "aa", "zz"];
    for text in texts {
        for needle in needles {
            assert_eq!(find(&chars(text), 0, &chars(needle)), text.find(needle));
            assert_eq!(rfind(&chars(text), &chars(needle)), text.rfind(needle));
        }
    }
}

#[test]
fn rfind_gives_the_last_place() {
    let hay = chars("f(a)(b)");
    assert_eq!(rfind(&hay, &chars("(")), Some(4));
    assert_eq!(rfind(&hay, &chars("[")), None);
    assert_eq!(rfind(&hay, &chars("")), Some(7));
    assert_eq!(rfind(&chars("x"), &chars("xy")), None);
}

#[test]
fn lines_end_at_line_feeds() {
    assert_eq!(lines_of(""), Vec::<String>::new());
    assert_eq!(lines_of("a"), vec!["a"]);
    assert_eq!(lines_of("a\n"), vec!["a"]);
    assert_eq!(lines_of("a\nb"), vec!["a", "b"]);
    assert_eq!(lines_of("a\n\nb\n"), vec!["a", "", "b"]);
    assert_eq!(lines_of("\n"), vec![""]);
    assert_eq!(lines_of("a\r\nb\r"), vec!["a", "b\r"]);
    assert_eq!(lines_of("a\rb\n\r\n"), vec!["a\rb", ""]);
}

#[test]
fn lines_agree_with_the_standard_lines() {
    for text in ["", "\n", "\r\n", "a\r\n\r\nb", "x\ny\r", "\r", "one\ntwo\nthree\n", "\n\n\n"] {
        let expected: Vec<String> = text.lines().map(String::from).collect();
        assert_eq!(lines_of(text), expected);
    }
}

#[test]
fn same_text_compares_contents() {
    assert!(same_text("", ""));
    assert!(same_text("caf\u{e9}", "caf\u{e9}"));
    assert!(!same_text("cafe", "caf\u{e9}"));
    assert!(!same_text("a", "ab"));
    assert!(!same_text("ab", "ac"));
}

#[test]
fn a_table_maps_names_to_values() {
    let mut table: Table<String> = Table::new();
    assert_eq!(table.len(), 0);
    assert!(table.get("a").is_none());
    assert!(!table.contains_key("a"));
    table.insert("a".to_string(), "1".to_string());
    table.insert("b".to_string(), "2".to_string());
    assert_eq!(table.len(), 2);
    assert_eq!(table.get("a").unwrap(), "1");
    assert_eq!(table.get("b").unwrap(), "2");
    assert!(table.contains_key("b"));
    table.insert("a".to_string(), "3".to_string());
    assert_eq!(table.len(), 2);
    assert_eq!(table.get("a").unwrap(), "3");
    assert_eq!(table.remove("a"), Some("3".to_string()));
    assert_eq!(table.remove("a"), None);
    assert_eq!(table.len(), 1);
    assert!(table.get("a").is_none());
    assert_eq!(table.get("b").unwrap(), "2");
}
