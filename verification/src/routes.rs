//! What the HTTP routes answer: the health check, and the steps of a
//! subscription.

use vstd::prelude::*;

verus! {

/// The fields of a subscription form.
#[derive(Clone, Debug)]
pub struct FormData {
    email: String,
    name: String,
}

impl FormData {
    /// A form with the given fields.
    pub fn new(email: String, name: String) -> (form: FormData)
        ensures
            form.email_view() == email@,
            form.name_view() == name@,
    {
        FormData { email, name }
    }

    /// The subscriber's e-mail address.
    pub closed spec fn email_view(&self) -> Seq<char> {
        self.email@
    }

    /// The subscriber's name.
    pub closed spec fn name_view(&self) -> Seq<char> {
        self.name@
    }

    /// The subscriber's e-mail address.
    pub fn email(&self) -> (email: &String)
        ensures
            email@ == self.email_view(),
    {
        &self.email
    }

    /// The subscriber's name.
    pub fn name(&self) -> (name: &String)
        ensures
            name@ == self.name_view(),
    {
        &self.name
    }
}

/// The answers that the routes give, each with an empty body.
#[derive(Clone, Copy, Debug, PartialEq, Eq, Structural)]
pub enum Response {
    /// `200 OK`.
    Success,
    /// The status with which the form reader rejected the request's body:
    /// `400` for a body that is not a complete form, `411`, `413` or `415`
    /// for a body of unknown length, too large or of the wrong content type.
    FormRejected(u16),
    /// `500 Internal Server Error`.
    InternalServerError,
}

impl Response {
    /// The HTTP status code of the answer.
    pub fn status_code(&self) -> (code: u16)
        ensures
            code == (match self {
                Response::Success => 200u16,
                Response::FormRejected(status) => *status,
                Response::InternalServerError => 500u16,
            }),
    {
        match self {
            Response::Success => 200,
            Response::FormRejected(status) => *status,
            Response::InternalServerError => 500,
        }
    }
}

/// The answer to a health check: always `200 OK` with an empty body.
pub fn health_check() -> (response: Response)
    ensures
        response == Response::Success,
{
    Response::Success
}

/// What a subscription request leads to once its body has been read.
pub enum SubscribeStep {
    /// Store a subscriber with this e-mail address and name, then call
    /// `subscribe_finish` with whether it was stored.
    Insert { email: String, name: String },
    /// Answer at once.
    Respond(Response),
}

/// The first step of a subscription, given the form read from the request's
/// body or the status with which the form reader rejected the body: a
/// rejected body is answered with that status; a complete form is stored.
pub fn subscribe_start(form: Result<FormData, u16>) -> (step: SubscribeStep)
    ensures
        match form {
            Err(status) => step == SubscribeStep::Respond(Response::FormRejected(status)),
            Ok(f) => match step {
                SubscribeStep::Insert { email, name } => email@ == f.email_view() && name@
                    == f.name_view(),
                SubscribeStep::Respond(_) => false,
            },
        },
{
    match form {
        Err(status) => SubscribeStep::Respond(Response::FormRejected(status)),
        Ok(f) => SubscribeStep::Insert { email: f.email, name: f.name },
    }
}

/// The answer once the subscriber has been stored, or storing failed:
/// `200 OK`, or `500 Internal Server Error`.
pub fn subscribe_finish(stored: bool) -> (response: Response)
    ensures
        response == (if stored {
            Response::Success
        } else {
            Response::InternalServerError
        }),
{
    if stored {
        Response::Success
    } else {
        Response::InternalServerError
    }
}

} // verus!
