use vstd::prelude::*;

verus! {

/// Whether a user account may open and close sessions.
#[derive(Debug, PartialEq, Eq, Structural, Clone, Copy)]
pub enum UserStatus {
    Active,
    Inactive,
}

/// Why a session operation was refused.
#[derive(Debug, PartialEq, Eq, Structural, Clone, Copy)]
pub enum UserError {
    /// The account is not active.
    Inactive,
}

impl UserError {
    /// The human-readable text of the error.
    pub open spec fn spec_message(&self) -> Seq<char> {
        match self {
            UserError::Inactive => "User is not active"@,
        }
    }

    /// Renders the error as text for display at the application boundary.
    pub fn message(&self) -> (r: String)
        ensures
            r@ == self.spec_message(),
    {
        match self {
            UserError::Inactive => "User is not active".to_owned(),
        }
    }
}

/// Outcome of a session operation for an account in the given state.
pub open spec fn session_result(status: UserStatus) -> Result<(), UserError> {
    match status {
        UserStatus::Active => Ok(()),
        UserStatus::Inactive => Err(UserError::Inactive),
    }
}

/// A registered user. The profile fields are opaque text; the status is fixed
/// at construction and only inspected afterwards.
#[derive(Debug, PartialEq, Eq)]
pub struct User {
    id: i64,
    username: String,
    first_name: String,
    last_name: String,
    email: String,
    password: String,
    phone: String,
    status: UserStatus,
}

/// The abstract value of a user.
pub struct UserView {
    pub id: i64,
    pub username: Seq<char>,
    pub first_name: Seq<char>,
    pub last_name: Seq<char>,
    pub email: Seq<char>,
    pub password: Seq<char>,
    pub phone: Seq<char>,
    pub status: UserStatus,
}

impl View for User {
    type V = UserView;

    closed spec fn view(&self) -> UserView {
        UserView {
            id: self.id,
            username: self.username@,
            first_name: self.first_name@,
            last_name: self.last_name@,
            email: self.email@,
            password: self.password@,
            phone: self.phone@,
            status: self.status,
        }
    }
}

impl User {
    /// Builds a user from all of its fields.
    pub fn new(
        id: i64,
        username: String,
        first_name: String,
        last_name: String,
        email: String,
        password: String,
        phone: String,
        status: UserStatus,
    ) -> (r: User)
        ensures
            r@ == (UserView {
                id,
                username: username@,
                first_name: first_name@,
                last_name: last_name@,
                email: email@,
                password: password@,
                phone: phone@,
                status,
            }),
    {
        User { id, username, first_name, last_name, email, password, phone, status }
    }

    /// The user's identifier.
    pub fn id(&self) -> (r: i64)
        ensures
            r == self@.id,
    {
        self.id
    }

    /// The user's username.
    pub fn username(&self) -> (r: &str)
        ensures
            r@ == self@.username,
    {
        self.username.as_str()
    }

    /// The user's first name.
    pub fn first_name(&self) -> (r: &str)
        ensures
            r@ == self@.first_name,
    {
        self.first_name.as_str()
    }

    /// The user's last name.
    pub fn last_name(&self) -> (r: &str)
        ensures
            r@ == self@.last_name,
    {
        self.last_name.as_str()
    }

    /// The user's email.
    pub fn email(&self) -> (r: &str)
        ensures
            r@ == self@.email,
    {
        self.email.as_str()
    }

    /// The user's password.
    pub fn password(&self) -> (r: &str)
        ensures
            r@ == self@.password,
    {
        self.password.as_str()
    }

    /// The user's phone.
    pub fn phone(&self) -> (r: &str)
        ensures
            r@ == self@.phone,
    {
        self.phone.as_str()
    }

    /// The account's status.
    pub fn status(&self) -> (r: UserStatus)
        ensures
            r == self@.status,
    {
        self.status
    }

    /// Opens a session: allowed only for an active account.
    pub fn login(&self) -> (r: Result<(), UserError>)
        ensures
            r == session_result(self@.status),
            r is Ok <==> self@.status == UserStatus::Active,
    {
        match self.status {
            UserStatus::Active => Ok(()),
            UserStatus::Inactive => Err(UserError::Inactive),
        }
    }

    /// Closes a session: allowed only for an active account.
    pub fn logout(&self) -> (r: Result<(), UserError>)
        ensures
            r == session_result(self@.status),
            r is Ok <==> self@.status == UserStatus::Active,
    {
        match self.status {
            UserStatus::Active => Ok(()),
            UserStatus::Inactive => Err(UserError::Inactive),
        }
    }
}

} // verus!
