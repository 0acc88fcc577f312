//! What an interactive session decides: the entries of its menu, whose token
//! it holds, and how a login goes on.

use vstd::prelude::*;
use vstd::std_specs::convert::FromSpecImpl;
use crate::errors::RichamsterError;
use crate::models::auth::{LoginResponse, OtpLoginResponse};
use crate::richamster::common::AuthState;
use crate::richamster::user::User;

verus! {

/// The entries of the menu, in the order in which they are shown.
#[derive(Debug, PartialEq, Eq, Clone, Copy, Structural)]
pub enum MenuItems {
    Login,
    UserDetails,
    UserBalance,
    UserTransactions,
    Quit,
}

pub struct Menu;

/// The token of the session, once there is one.
pub struct JwtTokenStorage {
    pub token: Option<String>,
}

/// How a login goes on after the first answer.
#[derive(Debug, PartialEq, Eq, Clone)]
pub enum LoginStep {
    /// The login is done: this is the token.
    Token(String),
    /// The exchange wants the second factor.
    AskSecondFactor,
}

impl MenuItems {
    /// The entry that a number chooses: 1 to 4 choose the first four, every
    /// other number quits.
    pub open spec fn of_number(value: usize) -> MenuItems {
        if value == 1 {
            MenuItems::Login
        } else if value == 2 {
            MenuItems::UserDetails
        } else if value == 3 {
            MenuItems::UserBalance
        } else if value == 4 {
            MenuItems::UserTransactions
        } else {
            MenuItems::Quit
        }
    }

    /// The entries, each once, in their order.
    pub open spec fn every() -> Seq<MenuItems> {
        seq![
            MenuItems::Login,
            MenuItems::UserDetails,
            MenuItems::UserBalance,
            MenuItems::UserTransactions,
            MenuItems::Quit,
        ]
    }

    /// The entry's line in the menu.
    pub open spec fn label(self) -> Seq<char> {
        match self {
            MenuItems::Login => "1. Login"@,
            MenuItems::UserDetails => "2. User detail"@,
            MenuItems::UserBalance => "3. User balance"@,
            MenuItems::UserTransactions => "4. User transactions"@,
            MenuItems::Quit => "5. Quit"@,
        }
    }

    /// The heading under which the entry's output is shown.
    pub open spec fn title(self) -> Seq<char> {
        match self {
            MenuItems::Login => "Login"@,
            MenuItems::UserDetails => "User detail"@,
            MenuItems::UserBalance => "User balance"@,
            MenuItems::UserTransactions => "User transactions"@,
            MenuItems::Quit => ""@,
        }
    }
}

impl FromSpecImpl<usize> for MenuItems {
    open spec fn obeys_from_spec() -> bool {
        true
    }

    open spec fn from_spec(value: usize) -> MenuItems {
        MenuItems::of_number(value)
    }
}

impl From<usize> for MenuItems {
    fn from(value: usize) -> (item: MenuItems) {
        match value {
            1 => MenuItems::Login,
            2 => MenuItems::UserDetails,
            3 => MenuItems::UserBalance,
            4 => MenuItems::UserTransactions,
            _ => MenuItems::Quit,
        }
    }
}

impl Menu {
    /// The entries of the menu, in the order in which they are shown.
    pub fn items() -> (items: Vec<MenuItems>)
        ensures
            items@ == MenuItems::every(),
    {
        let mut items: Vec<MenuItems> = Vec::new();
        items.push(MenuItems::Login);
        items.push(MenuItems::UserDetails);
        items.push(MenuItems::UserBalance);
        items.push(MenuItems::UserTransactions);
        items.push(MenuItems::Quit);
        assert(items@ =~= MenuItems::every());
        items
    }

    /// The line that the menu shows for an entry.
    pub fn label(item: &MenuItems) -> (label: &'static str)
        ensures
            label@ == item.label(),
    {
        match item {
            MenuItems::Login => "1. Login",
            MenuItems::UserDetails => "2. User detail",
            MenuItems::UserBalance => "3. User balance",
            MenuItems::UserTransactions => "4. User transactions",
            MenuItems::Quit => "5. Quit",
        }
    }

    /// The heading that is shown when an entry is chosen.
    pub fn title(item: &MenuItems) -> (title: &'static str)
        ensures
            title@ == item.title(),
    {
        match item {
            MenuItems::Login => "Login",
            MenuItems::UserDetails => "User detail",
            MenuItems::UserBalance => "User balance",
            MenuItems::UserTransactions => "User transactions",
            MenuItems::Quit => "",
        }
    }
}

impl JwtTokenStorage {
    pub fn update_token(&mut self, token: String)
        ensures
            final(self).token == Some(token),
    {
        self.token = Some(token);
    }

    /// A client of the user service that presents the session's token. A
    /// session without a token has no access.
    pub fn user(&self) -> (user: Result<User, RichamsterError>)
        ensures
            match self.token {
                None => user == Err::<User, RichamsterError>(RichamsterError::UnauthorizedAccess),
                Some(token) => user matches Ok(client) && client.auth() matches AuthState::JwtTokenAuth(
                    held,
                ) && held@ == token@,
            },
    {
        match &self.token {
            None => Err(RichamsterError::UnauthorizedAccess),
            Some(token) => Ok(User::with_jwt_token(token.clone())),
        }
    }
}

/// How a login goes on after the first answer: a token ends it, the demand
/// for a second factor calls for one.
pub fn after_login(response: LoginResponse) -> (step: LoginStep)
    ensures
        match response {
            LoginResponse::Jwt(token) => step == LoginStep::Token(token),
            LoginResponse::RequiresTwoFactor(_) => step == LoginStep::AskSecondFactor,
        },
{
    match response {
        LoginResponse::Jwt(token) => LoginStep::Token(token),
        LoginResponse::RequiresTwoFactor(_) => LoginStep::AskSecondFactor,
    }
}

/// How a login ends after the second factor: with the token, or with the
/// refusal of the factor.
pub fn after_second_factor(response: OtpLoginResponse) -> (token: Result<String, RichamsterError>)
    ensures
        match response {
            OtpLoginResponse::Jwt(jwt) => token == Ok::<String, RichamsterError>(jwt),
            OtpLoginResponse::Error(e) => token == Err::<String, RichamsterError>(
                RichamsterError::Otp(e),
            ),
        },
{
    match response {
        OtpLoginResponse::Jwt(jwt) => Ok(jwt),
        OtpLoginResponse::Error(e) => Err(RichamsterError::Otp(e)),
    }
}

} // verus!
