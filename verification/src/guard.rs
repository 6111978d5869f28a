//! The authentication gate: a pipeline stage that lets a request through to the handler
//! it wraps only when the request's authentication check says so.
//!
//! The guard decides once per request. An allowed request goes to the inner handler
//! unchanged; a denied one is answered with a redirect; a check that could not be
//! completed is answered with an error page.

use vstd::prelude::*;
use vstd::string::{StrSliceExecFns, StringSliceAdditionalSpecFns};

verus! {

/// Status code of the redirect that answers a denied request ("Found").
pub const FOUND: u16 = 302;

/// Status code of the answer to a check that failed ("Internal Server Error").
pub const INTERNAL_SERVER_ERROR: u16 = 500;

/// Body of the error response when the cause of a failed check could not be rendered.
pub const GENERIC_ERROR_BODY: &'static str = "Internal Server Error";

/// Outcome of the authentication check for one request.
#[derive(Debug, PartialEq, Eq)]
pub enum AuthVerdict<E> {
    /// The request may proceed.
    Allowed,
    /// Credentials are absent or invalid. This is not an error.
    Denied,
    /// The check itself could not be completed; carries the cause.
    CheckFailed(E),
}

impl<E> AuthVerdict<E> {
    /// The verdict that an authenticator's answer stands for.
    pub open spec fn of(check: Result<bool, E>) -> AuthVerdict<E> {
        match check {
            Ok(true) => AuthVerdict::Allowed,
            Ok(false) => AuthVerdict::Denied,
            Err(cause) => AuthVerdict::CheckFailed(cause),
        }
    }

    /// Reads an authenticator's answer as a verdict.
    pub fn from_check(check: Result<bool, E>) -> (verdict: AuthVerdict<E>)
        ensures
            verdict == Self::of(check),
    {
        match check {
            Ok(true) => AuthVerdict::Allowed,
            Ok(false) => AuthVerdict::Denied,
            Err(cause) => AuthVerdict::CheckFailed(cause),
        }
    }
}

/// A response that the guard produces itself, as plain values.
#[derive(Debug, Clone, PartialEq, Eq)]
pub struct GateResponse {
    /// The status code.
    pub status: u16,
    /// The value of the `Location` header, if the response has one.
    pub location: Option<String>,
    /// The body; empty where the response has none.
    pub body: Vec<u8>,
}

/// What a [`GateResponse`] holds.
pub struct GateResponseView {
    /// The status code.
    pub status: u16,
    /// The value of the `Location` header, if there is one.
    pub location: Option<Seq<char>>,
    /// The bytes of the body.
    pub body: Seq<u8>,
}

impl View for GateResponse {
    type V = GateResponseView;

    open spec fn view(&self) -> GateResponseView {
        GateResponseView {
            status: self.status,
            location: match self.location {
                Some(target) => Some(target@),
                None => None,
            },
            body: self.body@,
        }
    }
}

/// The redirect to `target`: status "Found", the target as `Location`, no body.
pub open spec fn redirect_view(target: Seq<char>) -> GateResponseView {
    GateResponseView { status: FOUND, location: Some(target), body: Seq::empty() }
}

/// The error response: status "Internal Server Error", no `Location`, and as body the
/// rendered cause, or the generic body where the cause could not be rendered.
pub open spec fn failure_view(rendered: Option<Seq<u8>>) -> GateResponseView {
    GateResponseView {
        status: INTERNAL_SERVER_ERROR,
        location: None,
        body: match rendered {
            Some(body) => body,
            None => GENERIC_ERROR_BODY.spec_bytes(),
        },
    }
}

/// The bytes of a rendered cause, if there are any.
pub open spec fn rendered_view(rendered: Option<Vec<u8>>) -> Option<Seq<u8>> {
    match rendered {
        Some(body) => Some(body@),
        None => None,
    }
}

impl GateResponse {
    /// The response that sends a denied request to `target`.
    pub fn redirect(target: &str) -> (response: GateResponse)
        ensures
            response@ == redirect_view(target@),
    {
        GateResponse { status: FOUND, location: Some(target.to_owned()), body: Vec::new() }
    }

    /// The response to a failed check, given the rendered cause. Rendering may have
    /// failed too (`None`): the response then carries the generic body.
    pub fn failure(rendered: Option<Vec<u8>>) -> (response: GateResponse)
        ensures
            response@ == failure_view(rendered_view(rendered)),
    {
        let body = match rendered {
            Some(body) => body,
            None => GENERIC_ERROR_BODY.as_bytes_vec(),
        };
        GateResponse { status: INTERNAL_SERVER_ERROR, location: None, body }
    }
}

/// How the guard dealt with a request.
#[derive(Debug, PartialEq, Eq)]
pub enum GateOutcome<Req, T> {
    /// The request went to the inner handler; this is what the handler returned.
    Forwarded(T),
    /// The guard answered by itself. The request comes back untouched, with the response.
    Responded(Req, GateResponse),
}

/// A guard that enables route and scope authentication gating.
#[derive(Debug)]
pub struct Auth {
    /// Where to redirect the user to if they fail an authentication check.
    pub redirect_to: &'static str,
}

impl Auth {
    /// Wraps `service` in a gate that redirects to this guard's target.
    pub fn new_transform<S>(&self, service: S) -> (gate: AuthMiddleware<S>)
        ensures
            gate.redirect_target() == self.redirect_to@,
            gate.wrapped() == service,
    {
        AuthMiddleware { redirect_to: self.redirect_to, service }
    }
}

/// Middleware for checking user authentication status and redirecting depending on the
/// result.
pub struct AuthMiddleware<S> {
    /// Where to redirect to.
    redirect_to: &'static str,
    /// The service provided.
    service: S,
}

impl<S> AuthMiddleware<S> {
    /// The path that denied requests are sent to.
    pub closed spec fn redirect_target(&self) -> Seq<char> {
        self.redirect_to@
    }

    /// The inner handler.
    pub closed spec fn wrapped(&self) -> S {
        self.service
    }

    /// The path that denied requests are sent to.
    pub fn redirect_to(&self) -> (target: &'static str)
        ensures
            target@ == self.redirect_target(),
    {
        self.redirect_to
    }

    /// The inner handler.
    pub fn service(&self) -> (service: &S)
        ensures
            *service == self.wrapped(),
    {
        &self.service
    }

    /// Passes one request through the guard.
    ///
    /// `check` is the authenticator's answer for `req`. `inner` invokes the inner handler;
    /// `render` turns the cause of a failed check into an error body, or `None` if it
    /// cannot.
    ///
    /// The request reaches the inner handler exactly when the check says `Ok(true)`: the
    /// handler then gets the request as it came in and its result is handed back as it
    /// is. Otherwise the request is handed back with the guard's own response: on
    /// `Ok(false)` the redirect to the configured path, on `Err` the error response with
    /// whatever `render` made of the cause.
    pub fn call<Req, T, E, H, R>(
        &self,
        req: Req,
        check: Result<bool, E>,
        inner: H,
        render: R,
    ) -> (outcome: GateOutcome<Req, T>) where
        H: FnOnce(&S, Req) -> T,
        R: FnOnce(E) -> Option<Vec<u8>>,

        requires
            check == Ok::<bool, E>(true) ==> call_requires(inner, (&self.wrapped(), req)),
            check matches Err(cause) ==> call_requires(render, (cause,)),
        ensures
            outcome is Forwarded <==> AuthVerdict::of(check) is Allowed,
            AuthVerdict::of(check) is Denied ==> (outcome matches GateOutcome::Responded(
                _,
                response,
            ) && response.status == FOUND && response@.location == Some(
                self.redirect_target(),
            )),
            AuthVerdict::of(check) is CheckFailed ==> (outcome matches GateOutcome::Responded(
                _,
                response,
            ) && response.status == INTERNAL_SERVER_ERROR),
            match check {
                Ok(true) => outcome matches GateOutcome::Forwarded(response) && call_ensures(
                    inner,
                    (&self.wrapped(), req),
                    response,
                ),
                Ok(false) => outcome matches GateOutcome::Responded(back, response) && back
                    == req && response@ == redirect_view(self.redirect_target()),
                Err(cause) => outcome matches GateOutcome::Responded(back, response) && back
                    == req && exists|rendered: Option<Vec<u8>>|
                    call_ensures(render, (cause,), rendered) && response@ == failure_view(
                        rendered_view(rendered),
                    ),
            },
    {
        match AuthVerdict::from_check(check) {
            AuthVerdict::Allowed => GateOutcome::Forwarded(inner(&self.service, req)),
            AuthVerdict::Denied => GateOutcome::Responded(
                req,
                GateResponse::redirect(self.redirect_to),
            ),
            AuthVerdict::CheckFailed(cause) => {
                let rendered = render(cause);
                GateOutcome::Responded(req, GateResponse::failure(rendered))
            },
        }
    }
}

} // verus!
