use vstd::prelude::*;

verus! {

/// Failures of the persistence collaborator.
#[derive(Debug)]
pub enum DbError {
    ConnectionError(String),
    QueryError(String),
    InsertionError(String),
    UpdationError(String),
    Other(String),
}

/// Reasons for which a caller is not authenticated.
#[derive(PartialEq, Eq, Structural, Clone, Copy, Debug)]
pub enum AuthError {
    /// Unknown username or wrong password; the two are never told apart.
    InvalidCredentials,
    /// No identity of the required kind in the caller's session.
    SessionMissing,
    /// Bad signature or malformed token.
    InvalidToken,
    Expired,
    InvalidIssuer,
    IssuedInFuture,
    NotYetValid,
}

/// The error taxonomy of the core.
#[derive(Debug)]
pub enum CustomError {
    DatabaseError(DbError),
    /// The hashing worker could not be reached or did not finish.
    BlockingError(String),
    /// A stored password hash could not be read or a hash could not be made.
    HashingError(String),
    ValidationError(String),
    AuthenticationError(AuthError),
}

/// HTTP status that each kind of error is reported with.
pub open spec fn status_of(e: CustomError) -> u16 {
    match e {
        CustomError::ValidationError(_) => 400,
        CustomError::AuthenticationError(_) => 401,
        _ => 500,
    }
}

impl CustomError {
    /// The HTTP status of the response that reports this error.
    pub fn status_code(&self) -> (r: u16)
        ensures
            r == status_of(*self),
    {
        match self {
            CustomError::ValidationError(_) => 400,
            CustomError::AuthenticationError(_) => 401,
            CustomError::DatabaseError(_) => 500,
            CustomError::BlockingError(_) => 500,
            CustomError::HashingError(_) => 500,
        }
    }
}

impl AuthError {
    /// A short description that reveals nothing of the internals.
    pub fn description(&self) -> (r: &'static str)
        ensures
            r@ == auth_description(*self),
    {
        match self {
            AuthError::InvalidCredentials => "invalid username or password",
            AuthError::SessionMissing => "not logged in",
            AuthError::InvalidToken => "invalid token",
            AuthError::Expired => "token expired",
            AuthError::InvalidIssuer => "token from another issuer",
            AuthError::IssuedInFuture => "token issued in the future",
            AuthError::NotYetValid => "token not yet valid",
        }
    }
}

pub open spec fn auth_description(e: AuthError) -> Seq<char> {
    match e {
        AuthError::InvalidCredentials => "invalid username or password"@,
        AuthError::SessionMissing => "not logged in"@,
        AuthError::InvalidToken => "invalid token"@,
        AuthError::Expired => "token expired"@,
        AuthError::InvalidIssuer => "token from another issuer"@,
        AuthError::IssuedInFuture => "token issued in the future"@,
        AuthError::NotYetValid => "token not yet valid"@,
    }
}

/// The text of an error kind and its detail.
pub open spec fn error_text(e: CustomError) -> Seq<char> {
    match e {
        CustomError::DatabaseError(_) => "Database Error"@,
        CustomError::BlockingError(_) => "Blocking Error"@,
        CustomError::HashingError(_) => "Hashing Error"@,
        CustomError::ValidationError(m) => "Validation Error: "@ + m@,
        CustomError::AuthenticationError(a) => "Authentication Error: "@ + auth_description(a),
    }
}

impl CustomError {
    /// The message sent to the caller: the kind, and detail only where it
    /// concerns the caller's input or credentials. Database, hashing and
    /// worker failures say no more than their kind.
    pub fn message(&self) -> (r: String)
        ensures
            r@ == error_text(*self),
    {
        match self {
            CustomError::DatabaseError(_) => String::from_str("Database Error"),
            CustomError::BlockingError(_) => String::from_str("Blocking Error"),
            CustomError::HashingError(_) => String::from_str("Hashing Error"),
            CustomError::ValidationError(m) => {
                let mut t = String::from_str("Validation Error: ");
                t.append(m.as_str());
                t
            },
            CustomError::AuthenticationError(a) => {
                let mut t = String::from_str("Authentication Error: ");
                t.append(a.description());
                t
            },
        }
    }
}

/// Errors of the customer routes.
#[derive(Debug)]
pub enum CustomerError {
    DbConnectionError(String),
    HashingError(String),
    ValidationError(String),
    BlockingError(String),
    QueryError(String),
    AuthenticationError(String),
    UserDoesNotExist(String),
}

pub open spec fn customer_error_status(e: CustomerError) -> u16 {
    match e {
        CustomerError::ValidationError(_) => 400,
        CustomerError::AuthenticationError(_) => 401,
        CustomerError::UserDoesNotExist(_) => 404,
        _ => 500,
    }
}

pub open spec fn customer_error_text(e: CustomerError) -> Seq<char> {
    match e {
        CustomerError::ValidationError(m) => "Validation Error: "@ + m@,
        CustomerError::HashingError(m) => "Hashing Error: "@ + m@,
        CustomerError::QueryError(m) => "Query Error: "@ + m@,
        CustomerError::BlockingError(m) => "Blocking Error: "@ + m@,
        CustomerError::AuthenticationError(m) => "Authentication Error: "@ + m@,
        CustomerError::DbConnectionError(m) => "Database Connection Error: "@ + m@,
        CustomerError::UserDoesNotExist(m) => "User Not Found Error: "@ + m@,
    }
}

fn prefixed(prefix: &str, m: &String) -> (r: String)
    ensures
        r@ == prefix@ + m@,
{
    let mut t = String::from_str(prefix);
    t.append(m.as_str());
    t
}

impl CustomerError {
    pub fn status_code(&self) -> (r: u16)
        ensures
            r == customer_error_status(*self),
    {
        match self {
            CustomerError::ValidationError(_) => 400,
            CustomerError::AuthenticationError(_) => 401,
            CustomerError::UserDoesNotExist(_) => 404,
            CustomerError::HashingError(_) => 500,
            CustomerError::QueryError(_) => 500,
            CustomerError::BlockingError(_) => 500,
            CustomerError::DbConnectionError(_) => 500,
        }
    }

    pub fn to_text(&self) -> (r: String)
        ensures
            r@ == customer_error_text(*self),
    {
        match self {
            CustomerError::ValidationError(m) => prefixed("Validation Error: ", m),
            CustomerError::HashingError(m) => prefixed("Hashing Error: ", m),
            CustomerError::QueryError(m) => prefixed("Query Error: ", m),
            CustomerError::BlockingError(m) => prefixed("Blocking Error: ", m),
            CustomerError::AuthenticationError(m) => prefixed("Authentication Error: ", m),
            CustomerError::DbConnectionError(m) => prefixed("Database Connection Error: ", m),
            CustomerError::UserDoesNotExist(m) => prefixed("User Not Found Error: ", m),
        }
    }
}

/// Errors of the admin routes.
#[derive(Debug)]
pub enum AdminError {
    DbConnectionError(String),
    AuthenticationError(String),
}

pub open spec fn admin_error_text(e: AdminError) -> Seq<char> {
    match e {
        AdminError::AuthenticationError(m) => "Authentication Error: "@ + m@,
        AdminError::DbConnectionError(m) => "Database Connection Error: "@ + m@,
    }
}

impl AdminError {
    pub fn status_code(&self) -> (r: u16)
        ensures
            r == (if *self is AuthenticationError {
                401u16
            } else {
                500u16
            }),
    {
        match self {
            AdminError::AuthenticationError(_) => 401,
            AdminError::DbConnectionError(_) => 500,
        }
    }

    pub fn to_text(&self) -> (r: String)
        ensures
            r@ == admin_error_text(*self),
    {
        match self {
            AdminError::AuthenticationError(m) => prefixed("Authentication Error: ", m),
            AdminError::DbConnectionError(m) => prefixed("Database Connection Error: ", m),
        }
    }
}

/// Errors of the order routes.
#[derive(Debug)]
pub enum OrderError {
    QueryError(String),
    AuthenticationError(String),
    DbConnectionError(String),
}

pub open spec fn order_error_text(e: OrderError) -> Seq<char> {
    match e {
        OrderError::QueryError(m) => "Query Error: "@ + m@,
        OrderError::AuthenticationError(m) => "Authentication Error: "@ + m@,
        OrderError::DbConnectionError(m) => "Database Connection Error: "@ + m@,
    }
}

impl OrderError {
    pub fn status_code(&self) -> (r: u16)
        ensures
            r == (if *self is AuthenticationError {
                401u16
            } else {
                500u16
            }),
    {
        match self {
            OrderError::QueryError(_) => 500,
            OrderError::AuthenticationError(_) => 401,
            OrderError::DbConnectionError(_) => 500,
        }
    }

    pub fn to_text(&self) -> (r: String)
        ensures
            r@ == order_error_text(*self),
    {
        match self {
            OrderError::QueryError(m) => prefixed("Query Error: ", m),
            OrderError::AuthenticationError(m) => prefixed("Authentication Error: ", m),
            OrderError::DbConnectionError(m) => prefixed("Database Connection Error: ", m),
        }
    }
}

} // verus!
