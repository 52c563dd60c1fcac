use reservation::contact::{split_name, standardize_phone, validate_email, validate_guests};
use reservation::error::ReservationError;

#[test]
fn test_split_name() {
    assert_eq!(split_name("Jane Smith").unwrap(), ("Jane", "Smith"));
    assert_eq!(split_name("Richard").unwrap(), ("Richard", ""));
    assert_eq!(split_name("Richard ").unwrap(), ("Richard", ""));
    assert!(split_name("").is_err());
}

#[test]
fn test_validate_email() {
    assert!(validate_email("janesmith@provider.net").is_ok());
    assert!(validate_email("janesmith+email@provider.net").is_ok());
    assert!(validate_email("janesmith+email@provider").is_err());
    assert!(validate_email("janesmith+email@provider.").is_err());
    assert!(validate_email("janesmith+email@provider").is_err());
    assert!(validate_email("janesmith+email@.net").is_err());
}

#[test]
fn test_standardize_phone() {
    assert_eq!(standardize_phone("800-867-5309").unwrap(), "(800) 867-5309");
    assert_eq!(standardize_phone("8008675309").unwrap(), "(800) 867-5309");
    assert_eq!(standardize_phone("800 867 5309").unwrap(), "(800) 867-5309");
    assert_eq!(standardize_phone("800.867.5309").unwrap(), "(800) 867-5309");
    assert!(standardize_phone("800867530").is_err());
    assert!(standardize_phone("80086753099").is_err());
    assert!(standardize_phone("8008675309 ext 3203").is_err());
}

#[test]
fn test_validate_guests() {
    assert!(validate_guests(1).is_ok());
    assert!(validate_guests(10).is_ok());
    assert!(validate_guests(0).is_err());
    assert!(validate_guests(11).is_err());
}

#[test]
fn split_name_reports_the_name() {
    assert_eq!(split_name(""), Err(ReservationError::InvalidName(String::new())));
    assert_eq!(split_name(" Jane"), Err(ReservationError::InvalidName(" Jane".to_string())));
    assert_eq!(split_name("   "), Err(ReservationError::InvalidName("   ".to_string())));
}

#[test]
fn split_name_splits_at_the_first_whitespace_run() {
    assert_eq!(split_name("Jane   Smith").unwrap(), ("Jane", "Smith"));
    assert_eq!(split_name("Jane\tSmith").unwrap(), ("Jane", "Smith"));
    assert_eq!(split_name("Mary Ann Smith").unwrap(), ("Mary", "Ann Smith"));
    assert_eq!(split_name("Richard   ").unwrap(), ("Richard", ""));
    assert_eq!(split_name("Zoë Müller").unwrap(), ("Zoë", "Müller"));
}

#[test]
fn validate_email_names_each_fault() {
    assert_eq!(validate_email(""), Err(ReservationError::EmailRequired));
    assert_eq!(
        validate_email("janesmith"),
        Err(ReservationError::EmailMissingAt("janesmith".to_string()))
    );
    assert_eq!(
        validate_email("jane.smith"),
        Err(ReservationError::EmailMissingAt("jane.smith".to_string()))
    );
    assert_eq!(
        validate_email("janesmith+email@provider"),
        Err(ReservationError::DomainMissingDot("janesmith+email@provider".to_string()))
    );
    assert_eq!(
        validate_email("jane.smith@provider"),
        Err(ReservationError::DomainMissingDot("jane.smith@provider".to_string()))
    );
    assert_eq!(
        validate_email("janesmith+email@provider."),
        Err(ReservationError::InvalidDomain("janesmith+email@provider.".to_string()))
    );
    assert_eq!(
        validate_email("janesmith+email@.net"),
        Err(ReservationError::InvalidDomain("janesmith+email@.net".to_string()))
    );
    assert_eq!(validate_email("@"), Err(ReservationError::DomainMissingDot("@".to_string())));
    assert_eq!(validate_email("@."), Err(ReservationError::InvalidDomain("@.".to_string())));
}

#[test]
fn validate_email_checks_structure_only() {
    assert_eq!(validate_email("@a.b"), Ok(()));
    assert_eq!(validate_email("a@b@c.d"), Ok(()));
    assert_eq!(validate_email("jane@mail.provider.net"), Ok(()));
    assert_eq!(validate_email("jane@provider..net"), Ok(()));
}

#[test]
fn standardize_phone_ignores_what_is_no_digit() {
    let canonical = "(800) 867-5309".to_string();
    assert_eq!(standardize_phone("(800) 867-5309"), Ok(canonical.clone()));
    assert_eq!(standardize_phone("+800x867y5309!"), Ok(canonical.clone()));
    assert_eq!(standardize_phone("tel: 800/867/5309"), Ok(canonical.clone()));
    assert_eq!(standardize_phone("8–0–0 867 5309"), Ok(canonical));
    assert_eq!(standardize_phone("0123456789"), Ok("(012) 345-6789".to_string()));
}

#[test]
fn standardize_phone_reports_the_number() {
    assert_eq!(standardize_phone(""), Err(ReservationError::InvalidPhoneLength(String::new())));
    assert_eq!(
        standardize_phone("8008675309 ext 3203"),
        Err(ReservationError::InvalidPhoneLength("8008675309 ext 3203".to_string()))
    );
    assert_eq!(
        standardize_phone("800867530"),
        Err(ReservationError::InvalidPhoneLength("800867530".to_string()))
    );
}

#[test]
fn validate_guests_names_each_fault() {
    assert_eq!(validate_guests(0), Err(ReservationError::GuestsRequired));
    assert_eq!(validate_guests(11), Err(ReservationError::TooManyGuests(11)));
    assert_eq!(validate_guests(255), Err(ReservationError::TooManyGuests(255)));
    assert_eq!(validate_guests(5), Ok(()));
}

#[test]
fn messages_tell_what_is_wrong() {
    assert_eq!(split_name("").unwrap_err().message(), "Invalid name: ''");
    assert_eq!(split_name(" x").unwrap_err().message(), "Invalid name: ' x'");
    assert_eq!(validate_email("").unwrap_err().message(), "Email is required");
    assert_eq!(validate_email("a").unwrap_err().message(), "Email must contain an @");
    assert_eq!(validate_email("a@b").unwrap_err().message(), "Email domain must contain a .");
    assert_eq!(validate_email("a@b.").unwrap_err().message(), "Invalid email: 'a@b.'");
    assert_eq!(standardize_phone("911").unwrap_err().message(), "Invalid phone number: '911'");
    assert_eq!(validate_guests(0).unwrap_err().message(), "Guests must be greater than 0");
    assert_eq!(
        validate_guests(11).unwrap_err().message(),
        "Ambitious, are we? Try doing this manually for more than 10 guests."
    );
    assert_eq!(
        ReservationError::InvalidDay("noday".to_string()).message(),
        "Invalid day: noday"
    );
    assert_eq!(
        ReservationError::InvalidTime("notime".to_string()).message(),
        "Invalid time: notime"
    );
}
