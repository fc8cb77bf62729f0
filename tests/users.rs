use rust_basics::user::{build_user, sample_users, User};

#[test]
fn build_user_sets_defaults_and_keeps_texts() {
    let user = build_user(
        String::from("someone@example.com"),
        String::from("someusername123"),
    );
    assert_eq!(user.email, "someone@example.com");
    assert_eq!(user.username, "someusername123");
    assert!(user.active);
    assert_eq!(user.sign_in_count, 1);
}

#[test]
fn build_user_with_empty_texts() {
    let user = build_user(String::new(), String::new());
    assert_eq!(user.email, "");
    assert_eq!(user.username, "");
    assert!(user.active);
    assert_eq!(user.sign_in_count, 1);
}

#[test]
fn changing_one_record_leaves_the_other() {
    let (immutable, mutable, two) = sample_users();
    assert_eq!(immutable.email, "someone@example.com");
    assert_eq!(immutable.username, "someusername123");
    assert_eq!(mutable.email, "anotheremail@example.com");
    assert_eq!(mutable.username, "someusername123");
    assert_eq!(two.email, "another@example.com");
    assert_eq!(two.username, "anotherusername567");
    assert!(two.active);
    assert_eq!(two.sign_in_count, 1);
}

#[test]
fn field_change_on_a_separate_value() {
    let snapshot = build_user(String::from("a@example.com"), String::from("a"));
    let mut working = User {
        username: snapshot.username.clone(),
        email: snapshot.email.clone(),
        sign_in_count: snapshot.sign_in_count,
        active: snapshot.active,
    };
    working.email = String::from("b@example.com");
    assert_eq!(snapshot.email, "a@example.com");
    assert_eq!(working.email, "b@example.com");
}
