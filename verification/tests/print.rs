use psammophis::stdlib::io::{format_print_args, PrintOptions};

#[test]
fn default_options_join_with_space_and_newline() {
    let args = vec![String::from("a"), String::from("b")];
    let out = format_print_args(&args, &PrintOptions::default());
    assert_eq!(out, "a b\n");
}

#[test]
fn custom_separator_is_used() {
    let args = vec![String::from("a"), String::from("b")];
    let opts = PrintOptions { sep: Some(String::from(",")), end: None, flush: false };
    assert_eq!(format_print_args(&args, &opts), "a,b\n");
}

#[test]
fn custom_terminator_is_used() {
    let args = vec![String::from("x")];
    let opts = PrintOptions { sep: None, end: Some(String::from("")), flush: false };
    assert_eq!(format_print_args(&args, &opts), "x");
}

#[test]
fn no_arguments_prints_only_the_terminator() {
    let args: Vec<String> = Vec::new();
    assert_eq!(format_print_args(&args, &PrintOptions::default()), "\n");
}

#[test]
fn single_argument_has_no_separator() {
    let args = vec![String::from("hello, world!")];
    assert_eq!(format_print_args(&args, &PrintOptions::default()), "hello, world!\n");
}

#[test]
fn many_arguments_keep_their_order() {
    let args = vec![String::from("1"), String::from("2"), String::from("3"), String::from("4")];
    let opts = PrintOptions { sep: Some(String::from(" | ")), end: Some(String::from(".")), flush: true };
    assert_eq!(format_print_args(&args, &opts), "1 | 2 | 3 | 4.");
}

#[test]
fn arguments_may_contain_the_separator() {
    let args = vec![String::from("a b"), String::from("c")];
    assert_eq!(format_print_args(&args, &PrintOptions::default()), "a b c\n");
}
