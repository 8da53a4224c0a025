use kindle_button_mapper::order::{sort_triples, text_le_of};

fn v(s: &str) -> Vec<char> {
    s.chars().collect()
}

#[test]
fn text_is_ordered_as_rust_orders_strings() {
    let words = ["", "a", "ab", "b", "B", "é", "z", "aa", "event10", "event2"];
    for x in words {
        for y in words {
            assert_eq!(text_le_of(&v(x), &v(y)), x <= y, "{:?} <= {:?}", x, y);
        }
    }
}

#[test]
fn triples_sort_as_tuples_do() {
    let raw = vec![("b", "x", "1"), ("a", "y", "2"), ("a", "x", "3"), ("a", "x", "1"), ("b", "x", "1")];
    let input: Vec<(Vec<char>, Vec<char>, Vec<char>)> = raw.iter().map(|t| (v(t.0), v(t.1), v(t.2))).collect();
    let sorted = sort_triples(input);
    let mut expected = raw.clone();
    expected.sort();
    let got: Vec<(String, String, String)> = sorted
        .iter()
        .map(|t| (t.0.iter().collect(), t.1.iter().collect(), t.2.iter().collect()))
        .collect();
    let want: Vec<(String, String, String)> =
        expected.iter().map(|t| (t.0.to_string(), t.1.to_string(), t.2.to_string())).collect();
    assert_eq!(got, want);
}
