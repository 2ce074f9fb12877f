use diet_backend::dates::Date;
use diet_backend::validation::{
    birthdate_acceptable, check_birthdate, check_email, check_gender, check_name, check_password, check_weight,
    email_accepted, is_valid_date, registration_acceptable, validate_registration, RegisterForm,
};

#[test]
fn name_length_in_bytes() {
    assert!(check_name(&"a".repeat(100)));
    assert!(!check_name(&"a".repeat(101)));
    assert!(!check_name(&"é".repeat(51)));
    assert!(check_name(&String::new()));
}

#[test]
fn email_shape() {
    assert!(check_email(&"jane.doe@example.com".to_string()));
    assert!(!check_email(&"not an address".to_string()));
    assert!(!check_email(&"a@b".to_string()));
    let long = format!("{}@example.com", "a".repeat(250));
    assert!(!check_email(&long));
    assert!(email_accepted(&"x@y.z".to_string(), true));
    assert!(!email_accepted(&"x@y.z".to_string(), false));
}

#[test]
fn simple_checks() {
    assert!(check_gender('M') && check_gender('F'));
    assert!(!check_gender('m') && !check_gender('X'));
    assert!(check_weight(1) && !check_weight(0));
    assert!(check_password(&"p".repeat(255)) && !check_password(&"p".repeat(256)));
}

#[test]
fn birthdates() {
    let today = Date { year: 2026, month: 10, day: 18 };
    assert!(birthdate_acceptable(&Date { year: 1990, month: 2, day: 28 }, &today));
    assert!(!birthdate_acceptable(&Date { year: 2026, month: 10, day: 19 }, &today));
    assert!(!birthdate_acceptable(&Date { year: 1990, month: 2, day: 30 }, &today));
    assert!(is_valid_date(&Date { year: 2000, month: 2, day: 29 }));
    assert!(!is_valid_date(&Date { year: 1900, month: 2, day: 29 }));
    assert!(!is_valid_date(&Date { year: 2000, month: 13, day: 1 }));
    assert!(check_birthdate(&Date { year: 1990, month: 1, day: 1 }));
    assert!(!check_birthdate(&Date { year: 300000, month: 1, day: 1 }));
}

#[test]
fn registration() {
    let form = RegisterForm {
        name: "Jane".to_string(),
        birthdate: Date { year: 1990, month: 1, day: 1 },
        email: "jane@example.com".to_string(),
        password: "secret".to_string(),
        gender: 'F',
        weight: 60_000,
    };
    assert!(validate_registration(&form));
    assert!(!validate_registration(&RegisterForm { weight: 0, ..form.clone() }));
    assert!(!validate_registration(&RegisterForm { gender: 'x', ..form }));
}

#[test]
fn registration_on_a_given_day() {
    let today = Date { year: 2026, month: 10, day: 18 };
    let form = RegisterForm {
        name: "Jane".to_string(),
        birthdate: Date { year: 2026, month: 10, day: 18 },
        email: "jane@example.com".to_string(),
        password: "secret".to_string(),
        gender: 'M',
        weight: 1,
    };
    assert!(registration_acceptable(&form, &today));
    assert!(!registration_acceptable(&RegisterForm { birthdate: Date { year: 2026, month: 10, day: 19 }, ..form.clone() }, &today));
    assert!(!registration_acceptable(&RegisterForm { email: "jane@example".to_string(), ..form }, &today));
}
