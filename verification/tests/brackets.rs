use gamble_sim::nesting::{find_close, find_open};

fn chars(code: &str) -> Vec<char> {
    code.chars().collect()
}

#[test]
fn find_close_takes_the_first_balancing_bracket() {
    assert_eq!(find_close(&chars("[]"), 0), Some(1));
    assert_eq!(find_close(&chars("[+]"), 0), Some(2));
    assert_eq!(find_close(&chars("[[]]"), 0), Some(3));
    assert_eq!(find_close(&chars("[[]]"), 1), Some(2));
    assert_eq!(find_close(&chars("[][]"), 0), Some(1));
    assert_eq!(find_close(&chars("[][]"), 2), Some(3));
    assert_eq!(find_close(&chars("+[.[-]+]]"), 1), Some(7));
}

#[test]
fn find_close_reports_a_loop_left_open() {
    assert_eq!(find_close(&chars("["), 0), None);
    assert_eq!(find_close(&chars("]["), 1), None);
    assert_eq!(find_close(&chars("[[]"), 0), None);
    assert_eq!(find_close(&chars("[[+]"), 0), None);
}

#[test]
fn find_open_takes_the_last_balancing_bracket() {
    assert_eq!(find_open(&chars("[]"), 1), Some(0));
    assert_eq!(find_open(&chars("[+]"), 2), Some(0));
    assert_eq!(find_open(&chars("[[]]"), 3), Some(0));
    assert_eq!(find_open(&chars("[[]]"), 2), Some(1));
    assert_eq!(find_open(&chars("[][]"), 3), Some(2));
    assert_eq!(find_open(&chars("[+[.[-]+]"), 8), Some(2));
}

#[test]
fn find_open_reports_a_loop_never_opened() {
    assert_eq!(find_open(&chars("]"), 0), None);
    assert_eq!(find_open(&chars("]["), 0), None);
    assert_eq!(find_open(&chars("[]]"), 2), None);
    assert_eq!(find_open(&chars("+]]"), 2), None);
}

#[test]
fn the_two_searches_name_the_same_pairs() {
    let code = chars("+[>[-]<[.+[,]]]-[]");
    for (at, c) in code.iter().enumerate() {
        if *c == '[' {
            let close = find_close(&code, at).unwrap();
            assert_eq!(find_open(&code, close), Some(at));
        }
        if *c == ']' {
            let open = find_open(&code, at).unwrap();
            assert_eq!(find_close(&code, open), Some(at));
        }
    }
}
