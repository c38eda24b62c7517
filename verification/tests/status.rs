use my_token::Status;

#[test]
fn labels_are_the_names_of_the_states() {
    assert_eq!(Status::Active.label(), "Active");
    assert_eq!(Status::Inactive.label(), "Inactive");
    assert_eq!(Status::Pending.label(), "Pending");
}

#[test]
fn states_compare_by_variant() {
    assert_eq!(Status::Active, Status::Active);
    assert_ne!(Status::Active, Status::Inactive);
    assert_ne!(Status::Inactive, Status::Pending);
}
