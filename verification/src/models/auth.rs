//! Shapes of the authentication endpoints, in their current form.

use vstd::prelude::*;
use serde_json::Value;

verus! {

#[verifier::external_type_specification]
#[verifier::external_body]
pub struct ExValue(Value);

/// `Value::clone`; nothing is stated of the copy.
pub assume_specification[ <Value as Clone>::clone ](value: &Value) -> (copy: Value);

/// What is sent to log in with an e-mail address.
#[derive(PartialEq, Clone, Debug)]
pub struct Login {
    pub email: String,
    pub password: String,
}

impl Login {
    pub fn new(email: &str, password: &str) -> (login: Self)
        ensures
            login.email@ == email@,
            login.password@ == password@,
    {
        Self { email: email.to_owned(), password: password.to_owned() }
    }
}

/// How a login ended: with a token, or with the demand for a second factor.
#[derive(PartialEq, Clone, Debug)]
pub enum LoginResponse {
    Jwt(String),
    RequiresTwoFactor(bool),
}

#[derive(Default, Debug, Clone, PartialEq)]
pub struct LoginResponseError {
    pub type_field: String,
    pub errors: Vec<ErrorDetail>,
}

/// One reason for which a login was refused.
#[derive(Default, Debug, Clone, PartialEq)]
pub struct ErrorDetail {
    pub code: String,
    pub detail: String,
    pub attr: Value,
}

#[derive(PartialEq, Clone, Debug)]
pub struct RegisterUser {
    pub username: String,
    pub email: String,
    pub password1: String,
    pub password2: String,
    pub not_usa_citizen: bool,
    pub is_licence_agree: bool,
    pub referrer: String,
}

#[derive(PartialEq, Clone, Debug)]
pub struct RegisterUserResponse {
    pub message: Message,
    pub username: String,
    pub email: String,
    pub not_usa_citizen: bool,
    pub referrer: String,
    pub token: String,
}

#[derive(PartialEq, Clone, Debug)]
pub struct RegisterUserError {
    pub username: Option<Vec<String>>,
    pub email: Option<Vec<String>>,
    pub referrer: Option<Vec<String>>,
    pub non_field_errors: Option<Vec<String>>,
}

#[derive(PartialEq, Clone, Debug)]
pub struct Message {
    pub header: String,
    pub text: String,
}

#[derive(PartialEq, Clone, Debug)]
pub struct OtpLogin {
    pub otp_token: String,
}

#[derive(PartialEq, Clone, Debug)]
pub struct OtpLoginResponseError {
    pub error_type: String,
    pub errors: Vec<CommonError>,
}

#[derive(PartialEq, Clone, Debug)]
pub struct CommonError {
    pub code: String,
    pub detail: String,
    pub attr: String,
}

#[derive(PartialEq, Clone, Debug)]
pub enum OtpLoginResponse {
    Jwt(String),
    Error(OtpLoginResponseError),
}

#[derive(PartialEq, Clone, Debug)]
pub struct TokenData {
    pub access: String,
    pub refresh: String,
}

#[derive(PartialEq, Clone, Debug)]
pub struct RefreshToken {
    pub refresh: String,
}

#[derive(PartialEq, Clone, Debug)]
pub struct NonFieldsError {
    pub non_field_errors: Vec<String>,
}

} // verus!
