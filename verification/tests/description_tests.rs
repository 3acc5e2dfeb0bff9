use matchcore::description::Description;

#[test]
fn description_single_element() {
    let description = Description::new(vec!["A B C".to_string()]);
    assert_eq!(description.render(), "A B C");
}

#[test]
fn description_two_elements() {
    let description = Description::new(vec!["A B C".to_string(), "D E F".to_string()]);
    assert_eq!(description.render(), "A B C\nD E F");
}

#[test]
fn description_indent_single_element() {
    let description = Description::new(vec!["A B C".to_string()]).indent();
    assert_eq!(description.render(), "  A B C");
}

#[test]
fn description_indent_two_elements() {
    let description = Description::new(vec!["A B C".to_string(), "D E F".to_string()]).indent();
    assert_eq!(description.render(), "  A B C\n  D E F");
}

#[test]
fn description_indent_two_elements_except_first_line() {
    let description = Description::new(vec!["A B C".to_string(), "D E F".to_string()])
        .indent_except_first_line();
    assert_eq!(description.render(), "A B C\n  D E F");
}

#[test]
fn description_indent_single_element_two_lines() {
    let description = Description::new(vec!["A B C\nD E F".to_string()]).indent();
    assert_eq!(description.render(), "  A B C\n  D E F");
}

#[test]
fn description_indent_single_element_two_lines_except_first_line() {
    let description = Description::new(vec!["A B C\nD E F".to_string()])
        .indent_except_first_line();
    assert_eq!(description.render(), "A B C\n  D E F");
}

#[test]
fn description_bullet_single_element() {
    let description = Description::new(vec!["A B C".to_string()]).bullet_list();
    assert_eq!(description.render(), "* A B C");
}

#[test]
fn description_bullet_two_elements() {
    let description = Description::new(vec!["A B C".to_string(), "D E F".to_string()])
        .bullet_list();
    assert_eq!(description.render(), "* A B C\n* D E F");
}

#[test]
fn description_bullet_single_element_two_lines() {
    let description = Description::new(vec!["A B C\nD E F".to_string()]).bullet_list();
    assert_eq!(description.render(), "* A B C\n  D E F");
}

#[test]
fn description_bullet_single_element_two_lines_indent_except_first_line() {
    let description = Description::new(vec!["A B C\nD E F".to_string()])
        .bullet_list()
        .indent_except_first_line();
    assert_eq!(description.render(), "* A B C\n    D E F");
}

#[test]
fn description_bullet_two_elements_indent_except_first_line() {
    let description = Description::new(vec!["A B C".to_string(), "D E F".to_string()])
        .bullet_list()
        .indent_except_first_line();
    assert_eq!(description.render(), "* A B C\n  * D E F");
}

#[test]
fn description_enumerate_single_element() {
    let description = Description::new(vec!["A B C".to_string()]).enumerate();
    assert_eq!(description.render(), "0. A B C");
}

#[test]
fn description_enumerate_two_elements() {
    let description = Description::new(vec!["A B C".to_string(), "D E F".to_string()])
        .enumerate();
    assert_eq!(description.render(), "0. A B C\n1. D E F");
}

#[test]
fn description_enumerate_single_element_two_lines() {
    let description = Description::new(vec!["A B C\nD E F".to_string()]).enumerate();
    assert_eq!(description.render(), "0. A B C\n   D E F");
}

#[test]
fn description_enumerate_correct_indentation_with_large_index() {
    let elements: Vec<String> = (0..11).map(|_| "A B C\nD E F".to_string()).collect();
    let description = Description::new(elements).enumerate();
    assert_eq!(
        description.render(),
        " 0. A B C\n    D E F\n 1. A B C\n    D E F\n 2. A B C\n    D E F\n 3. A B C\n    D E F\n 4. A B C\n    D E F\n 5. A B C\n    D E F\n 6. A B C\n    D E F\n 7. A B C\n    D E F\n 8. A B C\n    D E F\n 9. A B C\n    D E F\n10. A B C\n    D E F"
    );
}

#[test]
fn description_empty_renders_empty() {
    let description = Description::new(Vec::new());
    assert_eq!(description.render(), "");
}

#[test]
fn description_len_and_is_empty() {
    let description = Description::new(vec!["A".to_string(), "B".to_string()]);
    assert_eq!(description.len(), 2);
    assert!(!description.is_empty());
    let empty = Description::new(Vec::new());
    assert_eq!(empty.len(), 0);
    assert!(empty.is_empty());
}

#[test]
fn description_indentation_sizes_enumerated() {
    let elements: Vec<String> = (0..11).map(|_| "x".to_string()).collect();
    let description = Description::new(elements).enumerate().indent_except_first_line();
    let sizes = description.indentation_sizes();
    assert_eq!(sizes.first_line_indent, 0);
    assert_eq!(sizes.first_line_of_element_indent, 2);
    assert_eq!(sizes.enumeration_padding, 2);
    assert_eq!(sizes.other_line_indent, 6);
}

#[test]
fn description_single_element_still_pads_to_one_digit() {
    let description = Description::new(vec!["A B C\nD E F".to_string()]).enumerate();
    let sizes = description.indentation_sizes();
    assert_eq!(sizes.enumeration_padding, 1);
    assert_eq!(sizes.other_line_indent, 3);
}

#[test]
fn description_last_setting_wins() {
    let description = Description::new(vec!["A B C".to_string()]).bullet_list().enumerate();
    assert_eq!(description.render(), "0. A B C");
    let description = Description::new(vec!["A B C".to_string()])
        .indent()
        .indent_except_first_line();
    assert_eq!(description.render(), "A B C");
}

#[test]
fn description_text_renders_unchanged() {
    let description = Description::text("A B C\nD E F".to_string());
    assert_eq!(description.render(), "A B C\nD E F");
}
