//! The feedback service.

use vstd::prelude::*;
use crate::api::address::url_string;
use crate::api::{Api, FeedbackApi, Method, RequestData};
use crate::errors::RichamsterError;
use crate::richamster::common::{header_views, AuthState};
use crate::richamster::request::{endpoint, plans, standard_outcomes, target, Call, Request};
use crate::richamster::response::StatusTable;

verus! {

pub struct Feedback;

impl Feedback {
    /// The call that lists the messengers through which the exchange can be
    /// reached. It carries no proof of identity.
    pub fn messengers_list() -> (call: Result<Call, RichamsterError>)
        ensures
            plans(
                call,
                target(Api::Feedback(FeedbackApi::Messengers), None, Seq::empty()),
                Method::GET,
                AuthState::Unauthorized,
                None,
                standard_outcomes(),
            ),
    {
        let RequestData(url, method) = match endpoint(Api::Feedback(FeedbackApi::Messengers)) {
            Ok(found) => found,
            Err(e) => {
                return Err(e);
            },
        };
        let request = Request::new(url_string(&url), method);
        assert(header_views(request.headers@) =~= Seq::empty());
        Ok(Call { request, outcomes: StatusTable::standard() })
    }
}

} // verus!
