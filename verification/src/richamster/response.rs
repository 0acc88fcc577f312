//! Reading a response by its status.
//!
//! Every endpoint has a table that says, for each status it knows, how the
//! response is to be read: as a success with a body of the endpoint's shape,
//! as a success without a body, as a failure that the status alone tells, or
//! as a refusal whose body says why. A status is looked up as the exact
//! number; one that the table does not hold is reported with the status and
//! the body as they came. Turning a body into a value is left to the caller:
//! `decode` is handed the two parsers and says which one it calls on what.

use vstd::prelude::*;
use crate::api::token::Token;
use crate::errors::RichamsterError;
use crate::models::auth::{
    LoginResponseError, NonFieldsError, OtpLoginResponseError, RegisterUserError,
};
use crate::models::exchange::NewOrderError;
use crate::models::feedback::ContactUsError;
use crate::models::withdraw::{WithdrawDetailError, WithdrawError, WithdrawFieldError};

verus! {

/// The status with which the exchange says that it did not accept the proof
/// of identity.
pub const UNAUTHORIZED: u16 = 401;

/// The shapes in which the exchange says why it refused a request.
#[derive(PartialEq, Eq, Clone, Copy, Debug, Structural)]
pub enum ErrorShape {
    Login,
    InvalidCredential,
    Otp,
    Register,
    InvalidJwtToken,
    ContactUs,
    WithdrawFields,
    WithdrawDetail,
    NewOrder,
}

/// The body of a refusal, read in its shape.
#[derive(PartialEq, Clone, Debug)]
pub enum ErrorBody {
    Login(LoginResponseError),
    InvalidCredential(LoginResponseError),
    Otp(OtpLoginResponseError),
    Register(RegisterUserError),
    InvalidJwtToken(NonFieldsError),
    ContactUs(ContactUsError),
    WithdrawFields(WithdrawFieldError),
    WithdrawDetail(WithdrawDetailError),
    NewOrder(NewOrderError),
}

/// How a response with a given status is to be read.
#[derive(PartialEq, Clone, Debug)]
pub enum Outcome {
    /// The call succeeded; the body has the endpoint's shape of success.
    Success,
    /// The call succeeded; there is no body to read.
    Empty,
    /// The exchange did not accept the proof of identity.
    Unauthorized,
    ServiceUnavailable,
    /// The exchange knows no order with the number that was asked for.
    OrderNotFound(i32),
    /// The exchange has nothing on replenishing the currency through the
    /// channel that was asked for.
    ReplenishInfoNotFound(Token, String),
    /// The exchange refused the request; the body says why, in this shape.
    Rejected(ErrorShape),
}

/// An endpoint's table: for each status that the endpoint knows, how the
/// response is to be read. Every table reads `UNAUTHORIZED` as
/// `Outcome::Unauthorized`.
#[derive(Debug)]
pub struct StatusTable {
    entries: Vec<(u16, Outcome)>,
}

/// The table that a list of entries stands for: the first entry for a status
/// is the one that counts.
pub open spec fn table_of(entries: Seq<(u16, Outcome)>) -> Map<u16, Outcome>
    decreases entries.len(),
{
    if entries.len() == 0 {
        Map::empty()
    } else {
        let before = table_of(entries.drop_last());
        if before.contains_key(entries.last().0) {
            before
        } else {
            before.insert(entries.last().0, entries.last().1)
        }
    }
}

/// What a parser's result becomes where the status means success.
pub open spec fn accepted<T>(parsed: Result<T, serde_json::Error>) -> Result<
    Option<T>,
    RichamsterError,
> {
    match parsed {
        Ok(value) => Ok(Some(value)),
        Err(e) => Err(RichamsterError::Serde(e)),
    }
}

/// What a parser's result becomes where the status means success and every
/// success has a body.
pub open spec fn with_body<T>(parsed: Result<T, serde_json::Error>) -> Result<T, RichamsterError> {
    match parsed {
        Ok(value) => Ok(value),
        Err(e) => Err(RichamsterError::Serde(e)),
    }
}

/// What a parser's result becomes where the status means a refusal.
pub open spec fn rejected(parsed: Result<ErrorBody, serde_json::Error>) -> RichamsterError {
    match parsed {
        Ok(body) => body.error(),
        Err(e) => RichamsterError::Serde(e),
    }
}

impl ErrorBody {
    /// The shape that the body was read in.
    pub open spec fn shape(self) -> ErrorShape {
        match self {
            ErrorBody::Login(_) => ErrorShape::Login,
            ErrorBody::InvalidCredential(_) => ErrorShape::InvalidCredential,
            ErrorBody::Otp(_) => ErrorShape::Otp,
            ErrorBody::Register(_) => ErrorShape::Register,
            ErrorBody::InvalidJwtToken(_) => ErrorShape::InvalidJwtToken,
            ErrorBody::ContactUs(_) => ErrorShape::ContactUs,
            ErrorBody::WithdrawFields(_) => ErrorShape::WithdrawFields,
            ErrorBody::WithdrawDetail(_) => ErrorShape::WithdrawDetail,
            ErrorBody::NewOrder(_) => ErrorShape::NewOrder,
        }
    }

    /// The failure that carries the body.
    pub open spec fn error(self) -> RichamsterError {
        match self {
            ErrorBody::Login(e) => RichamsterError::Login(e),
            ErrorBody::InvalidCredential(e) => RichamsterError::InvalidCredential(e),
            ErrorBody::Otp(e) => RichamsterError::Otp(e),
            ErrorBody::Register(e) => RichamsterError::Register(e),
            ErrorBody::InvalidJwtToken(e) => RichamsterError::InvalidJwtToken(e),
            ErrorBody::ContactUs(e) => RichamsterError::ContactUs(e),
            ErrorBody::WithdrawFields(e) => RichamsterError::WithdrawError(
                WithdrawError::Fields(e),
            ),
            ErrorBody::WithdrawDetail(e) => RichamsterError::WithdrawError(
                WithdrawError::Detail(e),
            ),
            ErrorBody::NewOrder(e) => RichamsterError::NewOrderError(e),
        }
    }

    pub fn get_shape(&self) -> (shape: ErrorShape)
        ensures
            shape == self.shape(),
    {
        match self {
            ErrorBody::Login(_) => ErrorShape::Login,
            ErrorBody::InvalidCredential(_) => ErrorShape::InvalidCredential,
            ErrorBody::Otp(_) => ErrorShape::Otp,
            ErrorBody::Register(_) => ErrorShape::Register,
            ErrorBody::InvalidJwtToken(_) => ErrorShape::InvalidJwtToken,
            ErrorBody::ContactUs(_) => ErrorShape::ContactUs,
            ErrorBody::WithdrawFields(_) => ErrorShape::WithdrawFields,
            ErrorBody::WithdrawDetail(_) => ErrorShape::WithdrawDetail,
            ErrorBody::NewOrder(_) => ErrorShape::NewOrder,
        }
    }

    /// Wraps the body in the failure that belongs to its shape.
    pub fn into_error(self) -> (error: RichamsterError)
        ensures
            error == self.error(),
    {
        match self {
            ErrorBody::Login(e) => RichamsterError::Login(e),
            ErrorBody::InvalidCredential(e) => RichamsterError::InvalidCredential(e),
            ErrorBody::Otp(e) => RichamsterError::Otp(e),
            ErrorBody::Register(e) => RichamsterError::Register(e),
            ErrorBody::InvalidJwtToken(e) => RichamsterError::InvalidJwtToken(e),
            ErrorBody::ContactUs(e) => RichamsterError::ContactUs(e),
            ErrorBody::WithdrawFields(e) => RichamsterError::WithdrawError(
                WithdrawError::Fields(e),
            ),
            ErrorBody::WithdrawDetail(e) => RichamsterError::WithdrawError(
                WithdrawError::Detail(e),
            ),
            ErrorBody::NewOrder(e) => RichamsterError::NewOrderError(e),
        }
    }
}

impl Outcome {
    /// Whether the status alone tells the failure.
    pub open spec fn is_failure(self) -> bool {
        self is Unauthorized || self is ServiceUnavailable || self is OrderNotFound
            || self is ReplenishInfoNotFound
    }

    /// The failure that the status alone tells.
    pub open spec fn failure(self) -> RichamsterError
        recommends
            self.is_failure(),
    {
        match self {
            Outcome::ServiceUnavailable => RichamsterError::ServiceUnavailable,
            Outcome::OrderNotFound(id) => RichamsterError::OrderNotFound(id),
            Outcome::ReplenishInfoNotFound(token, channel) => RichamsterError::ReplenishInfoNotFound(
                token,
                channel,
            ),
            _ => RichamsterError::UnauthorizedAccess,
        }
    }
}

impl View for StatusTable {
    type V = Map<u16, Outcome>;

    closed spec fn view(&self) -> Map<u16, Outcome> {
        table_of(self.entries@)
    }
}

impl StatusTable {
    #[verifier::type_invariant]
    spec fn starts_with_unauthorized(&self) -> bool {
        self.entries@.len() > 0 && self.entries@[0] == (UNAUTHORIZED, Outcome::Unauthorized)
    }

    /// What every table holds: `UNAUTHORIZED` is read as
    /// `Outcome::Unauthorized`.
    pub open spec fn wf(&self) -> bool {
        self@.contains_key(UNAUTHORIZED) && self@[UNAUTHORIZED] == Outcome::Unauthorized
    }

    /// How a response with the given status is to be read, if the table
    /// knows the status.
    pub open spec fn outcome(&self, status: u16) -> Option<Outcome> {
        if self@.contains_key(status) {
            Some(self@[status])
        } else {
            None
        }
    }

    /// The table that knows `UNAUTHORIZED` and nothing else.
    pub fn new() -> (table: Self)
        ensures
            table@ == Map::<u16, Outcome>::empty().insert(UNAUTHORIZED, Outcome::Unauthorized),
            table.wf(),
    {
        let mut entries: Vec<(u16, Outcome)> = Vec::new();
        entries.push((UNAUTHORIZED, Outcome::Unauthorized));
        proof {
            reveal_with_fuel(table_of, 2);
            assert(entries@.drop_last() =~= Seq::empty());
            assert(table_of(entries@) =~= Map::<u16, Outcome>::empty().insert(
                UNAUTHORIZED,
                Outcome::Unauthorized,
            ));
        }
        StatusTable { entries }
    }

    /// The table with one more status. A status that the table knows keeps
    /// its reading.
    pub fn with(self, status: u16, outcome: Outcome) -> (table: Self)
        ensures
            table@ == if self@.contains_key(status) {
                self@
            } else {
                self@.insert(status, outcome)
            },
            table.wf(),
    {
        proof {
            use_type_invariant(&self);
            lemma_first_entry_counts(self.entries@);
        }
        let mut entries = self.entries;
        let ghost before = entries@;
        entries.push((status, outcome));
        proof {
            assert(entries@.drop_last() =~= before);
        }
        StatusTable { entries }
    }

    /// Looks the exact status up.
    pub fn lookup(&self, status: u16) -> (found: Option<&Outcome>)
        ensures
            match found {
                Some(outcome) => self.outcome(status) == Some(*outcome),
                None => self.outcome(status) is None,
            },
            self.wf(),
    {
        proof {
            use_type_invariant(self);
            lemma_first_entry_counts(self.entries@);
        }
        let mut i: usize = 0;
        while i < self.entries.len()
            invariant
                i <= self.entries@.len(),
                self.wf(),
                forall|j: int| 0 <= j < i ==> (#[trigger] self.entries@[j]).0 != status,
            decreases self.entries@.len() - i,
        {
            if self.entries[i].0 == status {
                proof {
                    lemma_first_match(self.entries@, status, i as int);
                }
                return Some(&self.entries[i].1);
            }
            i = i + 1;
        }
        proof {
            lemma_no_match(self.entries@, status);
        }
        None
    }
}

/// The first entry of a list is in its table.
pub proof fn lemma_first_entry_counts(entries: Seq<(u16, Outcome)>)
    requires
        entries.len() > 0,
    ensures
        table_of(entries).contains_key(entries[0].0),
        table_of(entries)[entries[0].0] == entries[0].1,
    decreases entries.len(),
{
    if entries.len() == 1 {
        reveal_with_fuel(table_of, 2);
        assert(entries.drop_last() =~= Seq::empty());
    } else {
        lemma_first_entry_counts(entries.drop_last());
        assert(entries.drop_last()[0] == entries[0]);
    }
}

/// A status is read as its first entry says.
pub proof fn lemma_first_match(entries: Seq<(u16, Outcome)>, status: u16, i: int)
    requires
        0 <= i < entries.len(),
        entries[i].0 == status,
        forall|j: int| 0 <= j < i ==> (#[trigger] entries[j]).0 != status,
    ensures
        table_of(entries).contains_key(status),
        table_of(entries)[status] == entries[i].1,
    decreases entries.len(),
{
    if i == entries.len() - 1 {
        lemma_no_match(entries.drop_last(), status);
    } else {
        lemma_first_match(entries.drop_last(), status, i);
    }
}

/// A status without an entry is not in the table.
pub proof fn lemma_no_match(entries: Seq<(u16, Outcome)>, status: u16)
    requires
        forall|j: int| 0 <= j < entries.len() ==> (#[trigger] entries[j]).0 != status,
    ensures
        !table_of(entries).contains_key(status),
    decreases entries.len(),
{
    if entries.len() > 0 {
        lemma_no_match(entries.drop_last(), status);
    }
}

/// Reads a response. The status is looked up in the endpoint's table; what
/// is found there decides what becomes of the body:
/// - no entry: the failure carries the status and the body, unchanged;
/// - `Success`: the body goes to `parse_success`, and what it returns is the
///   result, its error as `RichamsterError::Serde`;
/// - `Empty`: the result is `Ok(None)`, and the body is not read;
/// - `Rejected`: the body goes to `parse_error` with the shape, and what it
///   returns is wrapped in the failure of its shape;
/// - otherwise the failure is the one that the entry tells.
pub fn decode<T, S, E>(
    status: u16,
    body: String,
    table: &StatusTable,
    parse_success: S,
    parse_error: E,
) -> (decoded: Result<Option<T>, RichamsterError>) where
    S: FnOnce(&String) -> Result<T, serde_json::Error>,
    E: FnOnce(ErrorShape, &String) -> Result<ErrorBody, serde_json::Error>,

    requires
        call_requires(parse_success, (&body,)),
        forall|shape: ErrorShape| call_requires(parse_error, (shape, &body)),
    ensures
        table.wf(),
        status == UNAUTHORIZED ==> decoded matches Err(RichamsterError::UnauthorizedAccess),
        match table.outcome(status) {
            None => decoded == Err::<Option<T>, RichamsterError>(
                RichamsterError::UnsupportedResponseCode(status, body),
            ),
            Some(Outcome::Success) => exists|parsed: Result<T, serde_json::Error>|
                call_ensures(parse_success, (&body,), parsed) && decoded == accepted(parsed),
            Some(Outcome::Empty) => decoded == Ok::<Option<T>, RichamsterError>(None),
            Some(Outcome::Rejected(shape)) => exists|parsed: Result<ErrorBody, serde_json::Error>|
                call_ensures(parse_error, (shape, &body), parsed) && decoded == Err::<
                    Option<T>,
                    RichamsterError,
                >(rejected(parsed)),
            Some(told) => decoded == Err::<Option<T>, RichamsterError>(told.failure()),
        },
{
    match table.lookup(status) {
        None => Err(RichamsterError::UnsupportedResponseCode(status, body)),
        Some(Outcome::Success) => {
            let parsed = parse_success(&body);
            let ghost returned = parsed;
            let decoded = match parsed {
                Ok(value) => Ok(Some(value)),
                Err(e) => Err(RichamsterError::Serde(e)),
            };
            assert(call_ensures(parse_success, (&body,), returned) && decoded == accepted(
                returned,
            ));
            decoded
        },
        Some(Outcome::Empty) => Ok(None),
        Some(Outcome::Rejected(shape)) => {
            let parsed = parse_error(*shape, &body);
            let ghost returned = parsed;
            let decoded = match parsed {
                Ok(read) => Err(read.into_error()),
                Err(e) => Err(RichamsterError::Serde(e)),
            };
            assert(call_ensures(parse_error, (*shape, &body), returned) && decoded == Err::<
                Option<T>,
                RichamsterError,
            >(rejected(returned)));
            decoded
        },
        Some(Outcome::Unauthorized) => Err(RichamsterError::UnauthorizedAccess),
        Some(Outcome::ServiceUnavailable) => Err(RichamsterError::ServiceUnavailable),
        Some(Outcome::OrderNotFound(id)) => Err(RichamsterError::OrderNotFound(*id)),
        Some(Outcome::ReplenishInfoNotFound(token, channel)) => Err(
            RichamsterError::ReplenishInfoNotFound(*token, channel.clone()),
        ),
    }
}

/// Reads a response of an endpoint whose every success has a body: as
/// `decode` does, but a status that the table reads as `Empty` is reported
/// like one that the table does not hold.
pub fn decode_body<T, S, E>(
    status: u16,
    body: String,
    table: &StatusTable,
    parse_success: S,
    parse_error: E,
) -> (decoded: Result<T, RichamsterError>) where
    S: FnOnce(&String) -> Result<T, serde_json::Error>,
    E: FnOnce(ErrorShape, &String) -> Result<ErrorBody, serde_json::Error>,

    requires
        call_requires(parse_success, (&body,)),
        forall|shape: ErrorShape| call_requires(parse_error, (shape, &body)),
    ensures
        table.wf(),
        status == UNAUTHORIZED ==> decoded matches Err(RichamsterError::UnauthorizedAccess),
        match table.outcome(status) {
            None => decoded == Err::<T, RichamsterError>(
                RichamsterError::UnsupportedResponseCode(status, body),
            ),
            Some(Outcome::Empty) => decoded == Err::<T, RichamsterError>(
                RichamsterError::UnsupportedResponseCode(status, body),
            ),
            Some(Outcome::Success) => exists|parsed: Result<T, serde_json::Error>|
                call_ensures(parse_success, (&body,), parsed) && decoded == with_body(parsed),
            Some(Outcome::Rejected(shape)) => exists|parsed: Result<ErrorBody, serde_json::Error>|
                call_ensures(parse_error, (shape, &body), parsed) && decoded == Err::<
                    T,
                    RichamsterError,
                >(rejected(parsed)),
            Some(told) => decoded == Err::<T, RichamsterError>(told.failure()),
        },
{
    match table.lookup(status) {
        None => Err(RichamsterError::UnsupportedResponseCode(status, body)),
        Some(Outcome::Empty) => Err(RichamsterError::UnsupportedResponseCode(status, body)),
        Some(Outcome::Success) => {
            let parsed = parse_success(&body);
            let ghost returned = parsed;
            let decoded = match parsed {
                Ok(value) => Ok(value),
                Err(e) => Err(RichamsterError::Serde(e)),
            };
            assert(call_ensures(parse_success, (&body,), returned) && decoded == with_body(
                returned,
            ));
            decoded
        },
        Some(Outcome::Rejected(shape)) => {
            let parsed = parse_error(*shape, &body);
            let ghost returned = parsed;
            let decoded = match parsed {
                Ok(read) => Err(read.into_error()),
                Err(e) => Err(RichamsterError::Serde(e)),
            };
            assert(call_ensures(parse_error, (*shape, &body), returned) && decoded == Err::<
                T,
                RichamsterError,
            >(rejected(returned)));
            decoded
        },
        Some(Outcome::Unauthorized) => Err(RichamsterError::UnauthorizedAccess),
        Some(Outcome::ServiceUnavailable) => Err(RichamsterError::ServiceUnavailable),
        Some(Outcome::OrderNotFound(id)) => Err(RichamsterError::OrderNotFound(*id)),
        Some(Outcome::ReplenishInfoNotFound(token, channel)) => Err(
            RichamsterError::ReplenishInfoNotFound(*token, channel.clone()),
        ),
    }
}

/// Every table reads `UNAUTHORIZED` as a failure of the proof of identity,
/// whatever else it holds.
pub proof fn lemma_unauthorized_in_every_table(table: StatusTable)
    requires
        table.wf(),
    ensures
        table.outcome(UNAUTHORIZED) == Some(Outcome::Unauthorized),
        Outcome::Unauthorized.failure() == RichamsterError::UnauthorizedAccess,
{
}

} // verus!
