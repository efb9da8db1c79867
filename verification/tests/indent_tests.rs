use rissois::indent::{execute, hard_indent_org, heading_level, indent_line, level_to_indent};

#[test]
fn test_heading_level() {
    let line1 = String::from("** this is a level 2 heading");
    assert_eq!(Some(2), heading_level(&line1));

    let line2 = String::from("this is a normal sentence and not a headline");
    assert_eq!(None, heading_level(&line2));

    let line3 = String::from("*this will be considered a heading but is not");
    assert_eq!(Some(1), heading_level(&line3));
}

#[test]
fn test_level_to_indent() {
    let lev1 = None;
    assert_eq!(0, level_to_indent(&lev1));

    let lev2 = Some(1);
    assert_eq!(2, level_to_indent(&lev2));

    let lev3 = Some(4);
    assert_eq!(5, level_to_indent(&lev3));
}

#[test]
fn test_indent_line() {
    let line = String::from("  this is originally indented with only 2 spaces");
    assert_eq!(
        String::from("    this is originally indented with only 2 spaces"),
        indent_line(&line, 2)
    );
}

#[test]
fn test_hard_indent_org() {
    let input = "* Heading 1\n\
                 This should be indented by 2 spaces\n\
                 \n\
                 ** Heading 2\n\
                 \n\
                 This should be indented by 3 spaces\n\
                 \n\
                 * Heading 1 again\n\
                 This should again be indented by 2 spaces";
    let lines: Vec<String> = input.lines().map(String::from).collect();
    let result = hard_indent_org(&lines);
    let output = result.join("\n");
    let expected_output = "* Heading 1\n  This should be indented by 2 spaces\n\n** Heading 2\n\n   This should be indented by 3 spaces\n\n* Heading 1 again\n  This should again be indented by 2 spaces";
    assert_eq!(expected_output, output);
}

#[test]
fn test_reindent_scenario_two_levels() {
    let lines: Vec<String> = vec![
        String::from("* H1"),
        String::from("body under H1"),
        String::from(""),
        String::from("** H2"),
        String::from("body under H2"),
    ];
    let expected: Vec<String> = vec![
        String::from("* H1"),
        String::from("  body under H1"),
        String::from(""),
        String::from("** H2"),
        String::from("   body under H2"),
    ];
    assert_eq!(expected, hard_indent_org(&lines));
}

#[test]
fn test_body_without_heading_unchanged() {
    let lines: Vec<String> = vec![String::from("no heading yet")];
    let expected: Vec<String> = vec![String::from("no heading yet")];
    assert_eq!(expected, hard_indent_org(&lines));
}

#[test]
fn test_no_space_heading_still_counts() {
    let lines: Vec<String> = vec![String::from("*heading-no-space"), String::from("text")];
    let expected: Vec<String> = vec![String::from("*heading-no-space"), String::from("  text")];
    assert_eq!(expected, hard_indent_org(&lines));
}

#[test]
fn test_not_idempotent() {
    let lines: Vec<String> = vec![String::from("* H1"), String::from("body")];
    let once = hard_indent_org(&lines);
    let twice = hard_indent_org(&once);
    assert_eq!(vec![String::from("* H1"), String::from("  body")], once);
    assert_eq!(vec![String::from("* H1"), String::from("    body")], twice);
    assert_ne!(once, twice);
}

#[test]
fn test_space_only_line_is_a_body_line() {
    let lines: Vec<String> = vec![String::from("* H"), String::from("  "), String::from("")];
    let expected: Vec<String> = vec![String::from("* H"), String::from("    "), String::from("")];
    assert_eq!(expected, hard_indent_org(&lines));
}

#[test]
fn test_empty_input() {
    let lines: Vec<String> = Vec::new();
    assert_eq!(Vec::<String>::new(), hard_indent_org(&lines));
}

#[test]
fn test_heading_resets_even_to_higher_level() {
    let lines: Vec<String> = vec![
        String::from("** deep"),
        String::from("a"),
        String::from("* shallow"),
        String::from("b"),
    ];
    let expected: Vec<String> = vec![
        String::from("** deep"),
        String::from("   a"),
        String::from("* shallow"),
        String::from("  b"),
    ];
    assert_eq!(expected, hard_indent_org(&lines));
}

#[test]
fn test_execute_stdin() {
    let lines: Vec<String> = vec![String::from("* H"), String::from("b")];
    let out = execute(true, &lines).unwrap();
    assert_eq!(vec![String::from("* H"), String::from("  b")], out);
}

#[test]
fn test_execute_without_stdin_fails() {
    let lines: Vec<String> = Vec::new();
    let err = execute(false, &lines).unwrap_err();
    assert_eq!(
        "File support not implemented. Please use --stdin for now",
        err
    );
}
