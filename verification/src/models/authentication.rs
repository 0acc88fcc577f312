//! Shapes of the authentication endpoints that answer with one list of messages for each field.

use vstd::prelude::*;

verus! {

/// What is sent to log in with a user name.
#[derive(PartialEq, Clone, Debug)]
pub struct Login {
    pub username: String,
    pub password: String,
}

impl Login {
    pub fn new(username: &str, password: &str) -> (login: Self)
        ensures
            login.username@ == username@,
            login.password@ == password@,
    {
        Self { username: username.to_owned(), password: password.to_owned() }
    }
}

#[derive(PartialEq, Clone, Debug)]
pub enum LoginResponse {
    Jwt(String),
    RequiresTwoFactor(bool),
}

#[derive(PartialEq, Clone, Debug)]
pub struct LoginResponseError {
    pub username: Option<Vec<String>>,
    pub password: Option<Vec<String>>,
    pub non_field_errors: Option<Vec<String>>,
}

#[derive(PartialEq, Clone, Debug)]
pub struct RegisterUser {
    pub username: String,
    pub email: String,
    pub password1: String,
    pub password2: String,
    pub not_usa_citizen: bool,
    pub is_licence_agree: bool,
    pub referrer: String,
}

#[derive(PartialEq, Clone, Debug)]
pub struct RegisterUserResponse {
    pub message: Message,
    pub username: String,
    pub email: String,
    pub not_usa_citizen: bool,
    pub referrer: String,
    pub token: String,
}

#[derive(PartialEq, Clone, Debug)]
pub struct RegisterUserError {
    pub username: Option<Vec<String>>,
    pub email: Option<Vec<String>>,
    pub referrer: Option<Vec<String>>,
    pub non_field_errors: Option<Vec<String>>,
}

#[derive(PartialEq, Clone, Debug)]
pub struct Message {
    pub header: String,
    pub text: String,
}

#[derive(PartialEq, Clone, Debug)]
pub struct OtpLogin {
    pub otp_token: String,
}

#[derive(PartialEq, Clone, Debug)]
pub struct OtpLoginResponseError {
    pub otp_token: Vec<String>,
}

#[derive(PartialEq, Clone, Debug)]
pub enum OtpLoginResponse {
    Jwt(String),
    Error(OtpLoginResponseError),
}

#[derive(PartialEq, Clone, Debug)]
pub struct TokenData {
    pub jwt_token: String,
}

#[derive(PartialEq, Clone, Debug)]
pub struct NonFieldsError {
    pub non_field_errors: Vec<String>,
}

} // verus!
