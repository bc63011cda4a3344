use winery_auth::error::{AppError, TokenFault};

fn all() -> Vec<AppError> {
    vec![
        AppError::DatabaseError("connection refused".to_string()),
        AppError::ValidationError("email: Invalid email address".to_string()),
        AppError::AuthenticationError("Invalid credentials".to_string()),
        AppError::TokenError(TokenFault::Invalid),
        AppError::NotFound("User not found".to_string()),
        AppError::Conflict("Email already exists".to_string()),
        AppError::InternalError("Password hashing failed: oops".to_string()),
        AppError::Unauthorized("Missing authorization token".to_string()),
        AppError::Forbidden("Access denied".to_string()),
    ]
}

#[test]
fn status_codes_follow_the_taxonomy() {
    let codes: Vec<u16> = all().iter().map(|e| e.status_code()).collect();
    assert_eq!(codes, vec![500, 400, 401, 401, 404, 409, 500, 401, 403]);
}

#[test]
fn public_messages_hide_server_detail() {
    let messages: Vec<String> = all().iter().map(|e| e.public_message()).collect();
    assert_eq!(
        messages,
        vec![
            "Database error occurred",
            "email: Invalid email address",
            "Invalid credentials",
            "Invalid or expired token",
            "User not found",
            "Email already exists",
            "Internal server error",
            "Missing authorization token",
            "Access denied",
        ]
    );
}

#[test]
fn descriptions_keep_the_detail() {
    let texts: Vec<String> = all().iter().map(|e| e.to_text()).collect();
    assert_eq!(
        texts,
        vec![
            "Database error: connection refused",
            "Validation error: email: Invalid email address",
            "Authentication failed: Invalid credentials",
            "Token error: InvalidToken",
            "Resource not found: User not found",
            "Resource already exists: Email already exists",
            "Internal server error: Password hashing failed: oops",
            "Unauthorized: Missing authorization token",
            "Forbidden: Access denied",
        ]
    );
}

#[test]
fn only_server_faults_are_logged() {
    let logged: Vec<bool> = all().iter().map(|e| e.is_logged()).collect();
    assert_eq!(logged, vec![true, false, false, false, false, false, true, false, false]);
}

#[test]
fn token_faults_are_answered_alike() {
    let faults = [TokenFault::Invalid, TokenFault::Expired, TokenFault::MalformedSubject];
    for fault in faults {
        let e = AppError::TokenError(fault);
        assert_eq!(e.status_code(), 401);
        assert_eq!(e.public_message(), "Invalid or expired token");
    }
    assert_eq!(TokenFault::Invalid.name(), "InvalidToken");
    assert_eq!(TokenFault::Expired.name(), "ExpiredSignature");
    assert_eq!(TokenFault::MalformedSubject.name(), "InvalidSubject");
    assert_eq!(AppError::TokenError(TokenFault::Expired).to_text(), "Token error: ExpiredSignature");
}

#[test]
fn fault_names_are_those_of_jsonwebtoken() {
    let name = |kind: jsonwebtoken::errors::ErrorKind| jsonwebtoken::errors::Error::from(kind).to_string();
    assert_eq!(TokenFault::Invalid.name(), name(jsonwebtoken::errors::ErrorKind::InvalidToken));
    assert_eq!(TokenFault::Expired.name(), name(jsonwebtoken::errors::ErrorKind::ExpiredSignature));
    assert_eq!(
        TokenFault::MalformedSubject.name(),
        name(jsonwebtoken::errors::ErrorKind::InvalidSubject)
    );
}
