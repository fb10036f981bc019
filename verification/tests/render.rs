use drill::render::{join, join_texts, render};

fn strings(texts: &[&str]) -> Vec<String> {
    texts.iter().map(|text| String::from(*text)).collect()
}

#[test]
fn join_puts_the_separator_between_texts() {
    assert_eq!(join_texts(strings(&["a", "b", "c"]), ", "), "a, b, c");
    assert_eq!(join(vec![1, 2, 3], "-"), "1-2-3");
}

#[test]
fn join_of_nothing_is_empty() {
    assert_eq!(join_texts(Vec::new(), ","), "");
    assert_eq!(join(Vec::<u8>::new(), ","), "");
}

#[test]
fn join_of_one_text_is_that_text() {
    assert_eq!(join_texts(strings(&["only"]), ","), "only");
}

#[test]
fn leading_empty_texts_leave_no_separator() {
    assert_eq!(join_texts(strings(&["", "x"]), ","), "x");
    assert_eq!(join_texts(strings(&["", "", "x", "y"]), ","), "x,y");
    assert_eq!(join_texts(strings(&["x", "", "y"]), ","), "x,,y");
    assert_eq!(join_texts(strings(&["x", ""]), ","), "x,");
}

#[test]
fn join_without_separator_concatenates() {
    assert_eq!(join_texts(strings(&["ab", "", "cd", "e"]), ""), "abcde");
}

#[test]
fn render_writes_the_reports_one_after_the_other() {
    let reports = strings(&["\n- name: first\n", "\n- name: second\n"]);
    assert_eq!(render(reports), "\n- name: first\n\n- name: second\n");
    assert_eq!(render(Vec::<String>::new()), "");
    assert_eq!(render(vec![10, 20]), "1020");
}
