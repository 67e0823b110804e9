use showcase::demo::demo_lines;

#[test]
fn demo_prints_three_lines_in_order() {
    assert_eq!(
        demo_lines(),
        vec![
            String::from("Config: ultra v1"),
            String::from("Pending: Awaiting review"),
            String::from("Max: 5"),
        ]
    );
}
