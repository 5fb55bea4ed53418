//! The authorization gate: the states that a request passes through on its
//! way to a protected operation, and what moves it from one to the next.
//!
//! It decides and performs nothing. Each step takes what happened
//! last and names the work to do next: read the header, ask the repository,
//! run the verification on a worker, look up the owner of the resource. The
//! caller does that work, however long it takes, and comes back with the
//! outcome. A request ends authorized or rejected, and stays so.

use crate::authentication::{AuthError, Credentials, Denial, Fault, Identity, StoredCredential, UserId};
use crate::create_cookie::{extract_cookie, header_credentials};
use crate::routes::lair_insertion::{
    basic_authentication, basic_credentials, ErrorResponse, PublishError,
};
use vstd::prelude::*;

verus! {

/// How a request carries its credentials.
#[derive(Debug, Clone, Copy, PartialEq, Eq, Structural)]
pub enum Scheme {
    /// `Authorization: Basic <base64(username:password)>`.
    Basic,
    /// `Authorization: <scheme> <token>`.
    Token,
    /// A login form, which holds the credentials as they are.
    Form,
}

/// What the protected operation touches.
#[derive(Debug, Clone, Copy, PartialEq, Eq, Structural)]
pub enum Scope {
    /// The account of the caller alone: any verified identity may go on.
    Account,
    /// A resource that exists: only its owner may go on.
    Resource,
}

/// Why a request was turned down.
#[derive(Debug, Clone, Copy, PartialEq, Eq, Structural)]
pub enum GateError {
    /// The request was not authenticated.
    Auth(AuthError),
    /// The verified identity does not own the resource, or there is no such
    /// resource.
    NotOwner,
}

/// What a request in the state `Verifying` waits for.
pub enum Pending {
    /// What the repository holds for the username of these credentials.
    Repository(Credentials),
    /// The outcome of the verification.
    Verdict,
    /// The owner of the resource, to compare with this identity.
    Owner(Identity),
}

/// Where a request stands.
pub enum GateState {
    Unauthenticated,
    Extracting,
    Verifying(Pending),
    Authorized(Identity),
    Rejected(GateError),
}

/// What happened since the last step.
pub enum GateEvent {
    /// A request arrived.
    Request,
    /// The value of the `Authorization` header was read; `None` where the
    /// request has none.
    Header(Option<Vec<u8>>),
    /// The login form was read.
    Form(Credentials),
    /// The repository answered; `None` for an unknown username.
    Stored(Option<StoredCredential>),
    /// The repository did not answer.
    RepositoryUnavailable,
    /// The verification ran and returned this.
    Verified(Result<Identity, AuthError>),
    /// The worker pool did not run the verification.
    DispatchFailed,
    /// The owner of the resource was looked up; `None` where there is no
    /// such resource.
    Owner(Option<UserId>),
}

/// What to do next.
pub enum GateAction {
    /// Read the `Authorization` header and come back with `Header`.
    ReadHeader,
    /// Read the login form and come back with `Form`.
    ReadForm,
    /// Ask the repository for this username and come back with `Stored`.
    FetchStored(String),
    /// Verify these credentials against what the repository holds, on a
    /// worker, and come back with `Verified`.
    Verify(Credentials, Option<StoredCredential>),
    /// Look up the owner of the resource and come back with `Owner`.
    FetchOwner,
    /// Go on to the protected operation as this identity.
    Proceed(Identity),
    /// Answer the client with this error and perform nothing.
    Reject(GateError),
    /// The request has ended: there is nothing to do.
    Ignore,
}

/// The authorization gate of one request.
pub struct AuthorizationGate {
    scheme: Scheme,
    scope: Scope,
    state: GateState,
}

impl GateError {
    /// The answer to the client. A request turned down for want of
    /// ownership is answered exactly as one that failed to authenticate:
    /// the answer tells a client who is not the owner nothing of the
    /// resource, not even whether it exists.
    pub open spec fn response(self) -> ErrorResponse {
        match self {
            GateError::Auth(e) => PublishError::of(e).response(),
            GateError::NotOwner => PublishError::AuthError(
                AuthError::InvalidCredentials(Denial::WrongCredentials),
            ).response(),
        }
    }

    /// The answer to the client.
    pub fn error_response(&self) -> (r: ErrorResponse)
        ensures
            r == self.response(),
    {
        match self {
            GateError::Auth(e) => PublishError::from_auth(*e).error_response(),
            GateError::NotOwner => PublishError::AuthError(
                AuthError::InvalidCredentials(Denial::WrongCredentials),
            ).error_response(),
        }
    }
}

/// The view of an optional header value.
pub open spec fn value_view(header: Option<Vec<u8>>) -> Option<Seq<u8>> {
    match header {
        Some(value) => Some(value@),
        None => None,
    }
}

/// What a header holds under a scheme. A request that is to bring a form
/// is not read by its header.
pub open spec fn extraction(scheme: Scheme, header: Option<Seq<u8>>) -> Result<
    (Seq<char>, Seq<char>),
    AuthError,
> {
    match scheme {
        Scheme::Basic => basic_credentials(header),
        Scheme::Token => header_credentials(header),
        Scheme::Form => Err(AuthError::UnexpectedError(Fault::OutOfOrder)),
    }
}

/// Where the credentials of a request are read from.
pub open spec fn source(scheme: Scheme) -> GateAction {
    match scheme {
        Scheme::Form => GateAction::ReadForm,
        _ => GateAction::ReadHeader,
    }
}

/// Whether a state ends the request.
pub open spec fn is_terminal(state: GateState) -> bool {
    state is Authorized || state is Rejected
}

/// The state and the action of a rejection.
pub open spec fn rejects(state: GateState, action: GateAction, error: GateError) -> bool {
    state == GateState::Rejected(error) && action == GateAction::Reject(error)
}

/// The state and the action of an authorization.
pub open spec fn authorizes(state: GateState, action: GateAction, identity: Identity) -> bool {
    state == GateState::Authorized(identity) && action == GateAction::Proceed(identity)
}

/// Whether `event` moves a request of this scheme and scope from `before`
/// to `after`, with `action` to do next. For every `before` and `event`
/// there is one `after` and one `action`, up to the views of the texts in
/// them.
pub open spec fn moves(
    scheme: Scheme,
    scope: Scope,
    before: GateState,
    event: GateEvent,
    after: GateState,
    action: GateAction,
) -> bool {
    match (before, event) {
        (GateState::Authorized(_), _) | (GateState::Rejected(_), _) => {
            after == before && action == GateAction::Ignore
        },
        (GateState::Unauthenticated, GateEvent::Request) => {
            after == GateState::Extracting && action == source(scheme)
        },
        (GateState::Extracting, GateEvent::Form(credentials)) => if scheme == Scheme::Form {
            &&& after == GateState::Verifying(Pending::Repository(credentials))
            &&& action matches GateAction::FetchStored(username)
            &&& username@ == credentials.username@
        } else {
            rejects(after, action, GateError::Auth(AuthError::UnexpectedError(Fault::OutOfOrder)))
        },
        (GateState::Extracting, GateEvent::Header(header)) => match extraction(
            scheme,
            value_view(header),
        ) {
            Ok(pair) => {
                &&& after matches GateState::Verifying(Pending::Repository(credentials))
                &&& credentials@ == pair
                &&& action matches GateAction::FetchStored(username)
                &&& username@ == pair.0
            },
            Err(e) => rejects(after, action, GateError::Auth(e)),
        },
        (GateState::Verifying(Pending::Repository(credentials)), GateEvent::Stored(stored)) => {
            &&& after == GateState::Verifying(Pending::Verdict)
            &&& action == GateAction::Verify(credentials, stored)
        },
        (GateState::Verifying(Pending::Repository(_)), GateEvent::RepositoryUnavailable) => {
            rejects(
                after,
                action,
                GateError::Auth(AuthError::UnexpectedError(Fault::RepositoryUnavailable)),
            )
        },
        (GateState::Verifying(Pending::Verdict), GateEvent::Verified(Ok(identity))) => match scope {
            Scope::Account => authorizes(after, action, identity),
            Scope::Resource => {
                &&& after == GateState::Verifying(Pending::Owner(identity))
                &&& action == GateAction::FetchOwner
            },
        },
        (GateState::Verifying(Pending::Verdict), GateEvent::Verified(Err(e))) => {
            rejects(after, action, GateError::Auth(e))
        },
        (GateState::Verifying(Pending::Verdict), GateEvent::DispatchFailed) => {
            rejects(
                after,
                action,
                GateError::Auth(AuthError::UnexpectedError(Fault::DispatchFailed)),
            )
        },
        (GateState::Verifying(Pending::Owner(identity)), GateEvent::Owner(owner)) => {
            if owner == Some(identity@) {
                authorizes(after, action, identity)
            } else {
                rejects(after, action, GateError::NotOwner)
            }
        },
        (GateState::Verifying(Pending::Owner(_)), GateEvent::RepositoryUnavailable) => {
            rejects(
                after,
                action,
                GateError::Auth(AuthError::UnexpectedError(Fault::RepositoryUnavailable)),
            )
        },
        _ => rejects(after, action, GateError::Auth(AuthError::UnexpectedError(Fault::OutOfOrder))),
    }
}

impl AuthorizationGate {
    /// How the request carries its credentials.
    pub closed spec fn scheme(&self) -> Scheme {
        self.scheme
    }

    /// What the protected operation touches.
    pub closed spec fn scope(&self) -> Scope {
        self.scope
    }

    /// Where the request stands.
    pub closed spec fn state(&self) -> GateState {
        self.state
    }

    /// The authorization gate of a request that has not arrived yet.
    pub fn new(scheme: Scheme, scope: Scope) -> (gate: AuthorizationGate)
        ensures
            gate.scheme() == scheme,
            gate.scope() == scope,
            gate.state() == GateState::Unauthenticated,
    {
        AuthorizationGate { scheme, scope, state: GateState::Unauthenticated }
    }

    /// Where the request stands.
    pub fn current(&self) -> (state: &GateState)
        ensures
            *state == self.state(),
    {
        &self.state
    }

    /// Takes what happened and says what to do next.
    pub fn step(self, event: GateEvent) -> (next: (AuthorizationGate, GateAction))
        ensures
            next.0.scheme() == self.scheme(),
            next.0.scope() == self.scope(),
            moves(self.scheme(), self.scope(), self.state(), event, next.0.state(), next.1),
    {
        let scheme = self.scheme;
        let scope = self.scope;
        let (state, action) = match (self.state, event) {
            (GateState::Authorized(identity), _) => (
                GateState::Authorized(identity),
                GateAction::Ignore,
            ),
            (GateState::Rejected(error), _) => (GateState::Rejected(error), GateAction::Ignore),
            (GateState::Unauthenticated, GateEvent::Request) => (
                GateState::Extracting,
                match scheme {
                    Scheme::Form => GateAction::ReadForm,
                    _ => GateAction::ReadHeader,
                },
            ),
            (GateState::Extracting, GateEvent::Form(credentials)) => match scheme {
                Scheme::Form => {
                    let username = credentials.username.clone();
                    (
                        GateState::Verifying(Pending::Repository(credentials)),
                        GateAction::FetchStored(username),
                    )
                },
                _ => reject(GateError::Auth(AuthError::UnexpectedError(Fault::OutOfOrder))),
            },
            (GateState::Extracting, GateEvent::Header(header)) => {
                match extract(scheme, &header) {
                    Ok(credentials) => {
                        let username = credentials.username.clone();
                        (
                            GateState::Verifying(Pending::Repository(credentials)),
                            GateAction::FetchStored(username),
                        )
                    },
                    Err(e) => reject(GateError::Auth(e)),
                }
            },
            (GateState::Verifying(Pending::Repository(credentials)), GateEvent::Stored(stored)) => (
                GateState::Verifying(Pending::Verdict),
                GateAction::Verify(credentials, stored),
            ),
            (GateState::Verifying(Pending::Repository(_)), GateEvent::RepositoryUnavailable) => {
                reject(GateError::Auth(AuthError::UnexpectedError(Fault::RepositoryUnavailable)))
            },
            (GateState::Verifying(Pending::Verdict), GateEvent::Verified(Ok(identity))) => {
                match scope {
                    Scope::Account => (
                        GateState::Authorized(identity),
                        GateAction::Proceed(identity),
                    ),
                    Scope::Resource => (
                        GateState::Verifying(Pending::Owner(identity)),
                        GateAction::FetchOwner,
                    ),
                }
            },
            (GateState::Verifying(Pending::Verdict), GateEvent::Verified(Err(e))) => reject(
                GateError::Auth(e),
            ),
            (GateState::Verifying(Pending::Verdict), GateEvent::DispatchFailed) => reject(
                GateError::Auth(AuthError::UnexpectedError(Fault::DispatchFailed)),
            ),
            (GateState::Verifying(Pending::Owner(identity)), GateEvent::Owner(owner)) => {
                if owns(&identity, owner) {
                    (GateState::Authorized(identity), GateAction::Proceed(identity))
                } else {
                    reject(GateError::NotOwner)
                }
            },
            (GateState::Verifying(Pending::Owner(_)), GateEvent::RepositoryUnavailable) => reject(
                GateError::Auth(AuthError::UnexpectedError(Fault::RepositoryUnavailable)),
            ),
            _ => reject(GateError::Auth(AuthError::UnexpectedError(Fault::OutOfOrder))),
        };
        (AuthorizationGate { scheme, scope, state }, action)
    }
}

/// Whether `identity` is the owner that was looked up.
pub fn owns(identity: &Identity, owner: Option<UserId>) -> (b: bool)
    ensures
        b == (owner == Some(identity@)),
{
    match owner {
        Some(id) => id == identity.account(),
        None => false,
    }
}

/// The state and the action of a rejection.
fn reject(error: GateError) -> (next: (GateState, GateAction))
    ensures
        rejects(next.0, next.1, error),
{
    (GateState::Rejected(error), GateAction::Reject(error))
}

/// Reads the credentials that a header holds under a scheme.
fn extract(scheme: Scheme, header: &Option<Vec<u8>>) -> (r: Result<Credentials, AuthError>)
    ensures
        crate::authentication::viewed(r) == extraction(scheme, value_view(*header)),
{
    let value: Option<&[u8]> = match header {
        Some(bytes) => Some(bytes.as_slice()),
        None => None,
    };
    match scheme {
        Scheme::Basic => basic_authentication(value),
        Scheme::Token => match extract_cookie(value) {
            Ok(info) => Ok(Credentials { username: info.name, password: info.password }),
            Err(e) => Err(e),
        },
        Scheme::Form => Err(AuthError::UnexpectedError(Fault::OutOfOrder)),
    }
}

/// A request becomes authorized only by a verification that succeeded: in
/// one step from the outcome of the verification, where the operation is
/// the caller's own, or from the owner of the resource being the verified
/// identity. Nothing else leads there.
pub proof fn lemma_authorized_was_verified(
    scheme: Scheme,
    scope: Scope,
    before: GateState,
    event: GateEvent,
    after: GateState,
    action: GateAction,
)
    requires
        moves(scheme, scope, before, event, after, action),
        after is Authorized,
    ensures
        ({
            let identity = after->Authorized_0;
            ||| before == after
            ||| {
                &&& scope == Scope::Account
                &&& before == GateState::Verifying(Pending::Verdict)
                &&& event == GateEvent::Verified(Ok(identity))
            }
            ||| {
                &&& before == GateState::Verifying(Pending::Owner(identity))
                &&& event == GateEvent::Owner(Some(identity@))
            }
        }),
{
}

/// A request that has ended stays as it ended, whatever comes after: there
/// is no second try.
pub proof fn lemma_ended_stays_ended(
    scheme: Scheme,
    scope: Scope,
    before: GateState,
    event: GateEvent,
    after: GateState,
    action: GateAction,
)
    requires
        moves(scheme, scope, before, event, after, action),
        is_terminal(before),
    ensures
        after == before,
        action == GateAction::Ignore,
{
}

/// An identity that does not own the resource is rejected, and so is any
/// identity where there is no such resource; the action is to answer, not
/// to go on.
pub proof fn lemma_stranger_is_rejected(
    scheme: Scheme,
    scope: Scope,
    identity: Identity,
    owner: Option<UserId>,
    after: GateState,
    action: GateAction,
)
    requires
        moves(
            scheme,
            scope,
            GateState::Verifying(Pending::Owner(identity)),
            GateEvent::Owner(owner),
            after,
            action,
        ),
        owner != Some(identity@),
    ensures
        after == GateState::Rejected(GateError::NotOwner),
        action == GateAction::Reject(GateError::NotOwner),
{
}

/// The protected operation is gone on to only in the state `Authorized`,
/// as the identity of that state.
pub proof fn lemma_proceeds_as_authorized(
    scheme: Scheme,
    scope: Scope,
    before: GateState,
    event: GateEvent,
    after: GateState,
    action: GateAction,
)
    requires
        moves(scheme, scope, before, event, after, action),
        action is Proceed,
    ensures
        after == GateState::Authorized(action->Proceed_0),
{
}

/// A request for a resource is never authorized straight from the
/// verification: the owner is looked up first.
pub proof fn lemma_resource_needs_owner(
    scheme: Scheme,
    before: GateState,
    event: GateEvent,
    after: GateState,
    action: GateAction,
)
    requires
        moves(scheme, Scope::Resource, before, event, after, action),
        after is Authorized,
        before != after,
    ensures
        before is Verifying,
        before->Verifying_0 is Owner,
        event is Owner,
{
}

/// Want of ownership is answered as a failure to authenticate is, and
/// unlike a fault of the server.
pub proof fn lemma_not_owner_answers_as_denial(denial: Denial, fault: Fault)
    ensures
        GateError::NotOwner.response() == GateError::Auth(
            AuthError::InvalidCredentials(denial),
        ).response(),
        GateError::NotOwner.response() != GateError::Auth(
            AuthError::UnexpectedError(fault),
        ).response(),
        GateError::NotOwner != GateError::Auth(AuthError::InvalidCredentials(denial)),
{
}

} // verus!
