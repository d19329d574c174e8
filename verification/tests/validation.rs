use spotitube_auth::errors::{ApiError, SpotitubeError, ValidationErrorKind};
use spotitube_auth::requests::{
    LoginUserDto, LoginUserRequest, RegisterUserDto, RegisterUserRequest,
};

fn register_request(username: Option<&str>, password: Option<&str>) -> RegisterUserRequest {
    RegisterUserRequest {
        user: RegisterUserDto {
            username: username.map(String::from),
            password: password.map(String::from),
        },
    }
}

#[test]
fn register_request_valid_accepted() {
    let r = register_request(Some("alice"), Some("password123")).validate();
    assert!(r.is_ok());
}

#[test]
fn register_request_missing_password_rejected() {
    let r = register_request(Some("alice"), None).validate();
    let err = r.unwrap_err();
    assert!(matches!(err, SpotitubeError::ValidationError(_)));
    let (status, body) = err.response_parts();
    assert_eq!(status, 422);
    assert_eq!(body.errors.len(), 1);
    assert_eq!(body.errors[0].0, "password");
    assert_eq!(body.errors[0].1, vec![String::from("password is required")]);
}

#[test]
fn register_request_empty_username_rejected() {
    let r = register_request(Some(""), Some("password123")).validate();
    let (status, body) = r.unwrap_err().response_parts();
    assert_eq!(status, 422);
    assert_eq!(body.errors.len(), 1);
    assert_eq!(body.errors[0].0, "username");
    assert_eq!(body.errors[0].1, vec![String::from("username is required")]);
}

#[test]
fn register_request_both_members_missing_rejected() {
    let r = register_request(None, None).validate();
    let (status, body) = r.unwrap_err().response_parts();
    assert_eq!(status, 422);
    assert_eq!(body.errors.len(), 2);
    assert_eq!(body.errors[0].0, "username");
    assert_eq!(body.errors[1].0, "password");
}

#[test]
fn login_request_short_password_rejected() {
    let r = LoginUserRequest {
        user: LoginUserDto {
            username: Some(String::from("alice")),
            password: Some(String::from("short")),
        },
    }
        .validate();
    let (status, body) = r.unwrap_err().response_parts();
    assert_eq!(status, 422);
    assert_eq!(body.errors[0].0, "password");
}

#[test]
fn api_error_from_str_envelope() {
    let e = ApiError::from_str("boom");
    assert_eq!(e.errors.len(), 1);
    assert_eq!(e.errors[0].0, "message");
    assert_eq!(e.errors[0].1, vec![String::from("boom")]);
}

#[test]
fn response_status_codes() {
    assert_eq!(SpotitubeError::Unauthorized.response_parts().0, 401);
    assert_eq!(SpotitubeError::InvalidUsername.response_parts().0, 400);
    assert_eq!(SpotitubeError::InvalidPassword.response_parts().0, 400);
    assert_eq!(SpotitubeError::Conflict(String::from("username is taken")).response_parts().0, 409);
    assert_eq!(SpotitubeError::NotFound(String::from("missing")).response_parts().0, 404);
    assert_eq!(SpotitubeError::Forbidden.response_parts().0, 500);
    assert_eq!(SpotitubeError::BadRequest(String::from("bad")).response_parts().0, 500);
    assert_eq!(SpotitubeError::AppStartup.response_parts().0, 500);
    assert_eq!(SpotitubeError::InternalServerError.response_parts().0, 500);
    assert_eq!(SpotitubeError::HashingFailure.response_parts().0, 500);
    assert_eq!(SpotitubeError::SigningFailure.response_parts().0, 500);
    assert_eq!(SpotitubeError::InvalidToken.response_parts().0, 500);
}

#[test]
fn response_messages_carry_reason() {
    let (status, body) = SpotitubeError::Conflict(String::from("username is taken"))
        .response_parts();
    assert_eq!(status, 409);
    assert_eq!(body.errors[0].0, "message");
    assert_eq!(body.errors[0].1, vec![String::from("username is taken")]);
    let (_, internal) = SpotitubeError::InternalServerError.response_parts();
    assert_eq!(internal.errors[0].1, vec![String::from("internal server error")]);
}

#[test]
fn validation_tree_flattens_in_order_with_custom_messages() {
    let tree = vec![
        (
            String::from("user"),
            ValidationErrorKind::Struct(vec![
                (
                    String::from("username"),
                    ValidationErrorKind::Field(vec![None, Some(String::from("too plain"))]),
                ),
                (String::from("ignored"), ValidationErrorKind::List(Vec::new())),
                (String::from("password"), ValidationErrorKind::Field(vec![None])),
            ]),
        ),
        (String::from("stray"), ValidationErrorKind::Field(vec![None])),
    ];
    let (status, body) = SpotitubeError::ValidationError(tree).response_parts();
    assert_eq!(status, 422);
    assert_eq!(body.errors.len(), 2);
    assert_eq!(body.errors[0].0, "username");
    assert_eq!(
        body.errors[0].1,
        vec![String::from("username is required"), String::from("too plain")]
    );
    assert_eq!(body.errors[1].0, "password");
    assert_eq!(body.errors[1].1, vec![String::from("password is required")]);
}
