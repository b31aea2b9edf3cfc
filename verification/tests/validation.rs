use book_manager::api::model::user::{CreateUserRequest, UpdateUserPasswordRequest};
use book_manager::api::validation::{report_of, FieldCheck};

fn registration(name: &str, email: &str, password: &str) -> CreateUserRequest {
    CreateUserRequest {
        name: name.to_string(),
        email: email.to_string(),
        password: password.to_string(),
    }
}

fn paths(report: &garde::Report) -> Vec<String> {
    report.iter().map(|(path, _)| path.to_string()).collect()
}

fn messages(report: &garde::Report) -> Vec<String> {
    report.iter().map(|(_, error)| error.message().to_string()).collect()
}

#[test]
fn a_registration_that_keeps_every_rule_is_valid() {
    assert!(registration("Yamada", "yamada@example.com", "password123").validate().is_ok());
    assert!(registration("y", "a@b", "p").validate().is_ok());
}

#[test]
fn a_registration_without_name_reports_the_name() {
    let report = registration("", "yamada@example.com", "password123").validate().unwrap_err();
    assert_eq!(paths(&report), vec!["name"]);
    assert_eq!(messages(&report), vec!["length is lower than 1"]);
}

#[test]
fn a_registration_without_password_reports_the_password() {
    let report = registration("Yamada", "yamada@example.com", "").validate().unwrap_err();
    assert_eq!(paths(&report), vec!["password"]);
}

#[test]
fn a_registration_with_a_bad_email_reports_the_email() {
    for email in ["", "abc", "abc@", "a @x.cz", "abc@.com", "a@b.com\n"] {
        let report = registration("Yamada", email, "password123").validate().unwrap_err();
        assert_eq!(paths(&report), vec!["email"], "for {email:?}");
    }
    let report = registration("Yamada", "abc", "password123").validate().unwrap_err();
    assert_eq!(messages(&report), vec!["not a valid email: value is missing `@`"]);
}

#[test]
fn a_registration_reports_every_broken_field_in_order() {
    let report = registration("", "nowhere", "").validate().unwrap_err();
    assert_eq!(paths(&report), vec!["name", "email", "password"]);
}

#[test]
fn a_name_of_one_multibyte_character_is_long_enough() {
    assert!(registration("山", "yamada@example.com", "p").validate().is_ok());
}

#[test]
fn a_password_change_with_both_passwords_is_valid() {
    let request = UpdateUserPasswordRequest {
        current_password: "current_password123".to_string(),
        new_password: "new_password456".to_string(),
    };
    assert!(request.validate().is_ok());
}

#[test]
fn a_password_change_reports_each_empty_password() {
    let request = UpdateUserPasswordRequest {
        current_password: String::new(),
        new_password: "new".to_string(),
    };
    assert_eq!(paths(&request.validate().unwrap_err()), vec!["current_password"]);

    let request = UpdateUserPasswordRequest {
        current_password: "old".to_string(),
        new_password: String::new(),
    };
    assert_eq!(paths(&request.validate().unwrap_err()), vec!["new_password"]);

    let request = UpdateUserPasswordRequest {
        current_password: String::new(),
        new_password: String::new(),
    };
    let report = request.validate().unwrap_err();
    assert_eq!(paths(&report), vec!["current_password", "new_password"]);
    assert_eq!(messages(&report), vec!["length is lower than 1", "length is lower than 1"]);
}

#[test]
fn no_checks_make_no_report() {
    assert!(report_of(Vec::new()).is_ok());
}

#[test]
fn passed_checks_make_no_report() {
    let checks = vec![
        FieldCheck { field: "a", outcome: Ok(()) },
        FieldCheck { field: "b", outcome: Ok(()) },
    ];
    assert!(report_of(checks).is_ok());
}

#[test]
fn failed_checks_are_reported_in_order_with_their_errors() {
    let checks = vec![
        FieldCheck { field: "a", outcome: Err(garde::Error::new("first")) },
        FieldCheck { field: "b", outcome: Ok(()) },
        FieldCheck { field: "c", outcome: Err(garde::Error::new("second")) },
        FieldCheck { field: "a", outcome: Err(garde::Error::new("third")) },
    ];
    let report = report_of(checks).unwrap_err();
    assert_eq!(paths(&report), vec!["a", "c", "a"]);
    assert_eq!(messages(&report), vec!["first", "second", "third"]);
}
