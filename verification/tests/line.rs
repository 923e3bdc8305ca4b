use cli_select::line::Line;

#[test]
fn selected_line_printed_with_pointer() {
    let mut line = Line::new(String::from("test"), '>');
    line.select();
    assert_eq!(line.render(), "> test")
}

#[test]
fn unselected_line_printed_without_pointer() {
    let line = Line::new(String::from("test"), '>');
    assert_eq!(line.render(), "  test")
}

#[test]
fn underlined_line_wraps_text_in_escape_pair() {
    let mut line = Line::new(String::from("test"), '>');
    line.select();
    line.underline();
    assert_eq!(line.render(), "> \u{1b}[4mtest\u{1b}[0m")
}

#[test]
fn custom_not_selected_pointer_is_rendered() {
    let mut line = Line::new(String::from("test"), '>');
    line.not_selected_pointer('x');
    assert_eq!(line.render(), "x test")
}

#[test]
fn wider_spacing_is_rendered() {
    let mut line = Line::new(String::from("test"), '>');
    line.select();
    line.space_from_pointer(2);
    assert_eq!(line.render(), ">  test")
}

#[test]
fn len_counts_pointer_space_and_text() {
    let mut line = Line::new(String::from("test"), '>');
    assert_eq!(line.len(), 6);
    line.space_from_pointer(3);
    assert_eq!(line.len(), 8);
}

#[test]
fn select_is_idempotent() {
    let mut once = Line::new(String::from("test"), '>');
    once.select();
    let mut twice = Line::new(String::from("test"), '>');
    twice.select();
    twice.select();
    assert_eq!(once.render(), twice.render());
    assert_eq!(once.is_selected, twice.is_selected);
}

#[test]
fn default_is_idempotent() {
    let mut once = Line::new(String::from("test"), '>');
    once.select();
    once.underline();
    once.space_from_pointer(4);
    let mut twice = Line::new(String::from("test"), '>');
    twice.select();
    twice.underline();
    twice.space_from_pointer(4);
    once.default();
    twice.default();
    twice.default();
    assert_eq!(once.is_selected, twice.is_selected);
    assert_eq!(once.space, twice.space);
    assert_eq!(once.underline, twice.underline);
    assert_eq!(once.render(), twice.render());
    assert_eq!(once.render(), "  test");
}
