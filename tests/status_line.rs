use showcase::status::Status;

#[test]
fn active_line() {
    assert_eq!(Status::Active.line(), "Active");
}

#[test]
fn inactive_line() {
    assert_eq!(Status::Inactive.line(), "Inactive");
}

#[test]
fn pending_line_embeds_reason() {
    let s = Status::Pending { reason: String::from("Awaiting review") };
    assert_eq!(s.line(), "Pending: Awaiting review");
}

#[test]
fn pending_with_empty_reason() {
    let s = Status::Pending { reason: String::new() };
    assert_eq!(s.line(), "Pending: ");
}

#[test]
fn lines_of_shapes_differ() {
    let a = Status::Active.line();
    let i = Status::Inactive.line();
    let p = Status::Pending { reason: String::from("Active") }.line();
    assert_ne!(a, i);
    assert_ne!(a, p);
    assert_ne!(i, p);
}
