use petstore::domain::user::{User, UserError, UserStatus};

fn jdoe(status: UserStatus) -> User {
    User::new(
        100,
        String::from("jdoe"),
        String::from("John"),
        String::from("Doe"),
        String::from("john.doe@example"),
        String::from("secure-password-42"),
        String::from("012345693"),
        status,
    )
}

#[test]
fn test_login_active() {
    assert_eq!(jdoe(UserStatus::Active).login(), Ok(()));
}

#[test]
fn test_login_inactive() {
    assert_eq!(jdoe(UserStatus::Inactive).login(), Err(UserError::Inactive));
}

#[test]
fn test_logout_active() {
    assert_eq!(jdoe(UserStatus::Active).logout(), Ok(()));
}

#[test]
fn test_logout_inactive() {
    assert_eq!(jdoe(UserStatus::Inactive).logout(), Err(UserError::Inactive));
}

#[test]
fn inactive_login_reports_message() {
    let err = jdoe(UserStatus::Inactive).login().unwrap_err();
    assert_eq!(err.message(), "User is not active");
}

#[test]
fn session_checks_leave_status_alone() {
    let user = jdoe(UserStatus::Inactive);
    assert!(user.login().is_err());
    assert!(user.logout().is_err());
    assert_eq!(user.status(), UserStatus::Inactive);
}

#[test]
fn user_fields_round_trip() {
    let user = jdoe(UserStatus::Active);
    assert_eq!(user.id(), 100);
    assert_eq!(user.username(), "jdoe");
    assert_eq!(user.first_name(), "John");
    assert_eq!(user.last_name(), "Doe");
    assert_eq!(user.email(), "john.doe@example");
    assert_eq!(user.password(), "secure-password-42");
    assert_eq!(user.phone(), "012345693");
}
