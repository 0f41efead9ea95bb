//! The error families of the backend and the table that gives each error its
//! message.
//!
//! Every family is a closed set of variants. Each variant has one shape, and
//! the message depends on the shape alone, so two families never word the same
//! condition differently.

use crate::model::GolemError;
use crate::text::{decimal, join, joined, u16_to_string};
use vstd::prelude::*;
use vstd::string::*;

verus! {

/// What a backend error amounts to, whichever family it came from.
pub enum ErrorShape {
    /// The request never completed.
    RequestFailure { details: Seq<char> },
    /// A header of the request could not be built.
    InvalidHeaderValue { details: Seq<char> },
    /// The backend answered with a status that its interface does not name.
    UnexpectedStatus { code: u16 },
    /// Status 404.
    NotFound { message: Seq<char> },
    /// Status 400, with one text per rejected field.
    BadRequest { errors: Seq<Seq<char>> },
    /// Status 403, where it means that a limit was hit.
    LimitExceeded { error: Seq<char> },
    /// Status 500.
    Internal { error: Seq<char> },
    /// Status 409 for a component.
    AlreadyExists { component_id: Seq<char> },
    /// Status 504 for a component.
    GatewayTimeout,
    /// Status 403 at login: the account may not be created.
    LoginRestricted,
    /// Status 500 at login.
    LoginInternal { error: Seq<char> },
    /// Status 401 at login: a service that login depends on failed.
    LoginExternal { error: Seq<char> },
}

/// The guidance shown when login is refused because no address is whitelisted.
pub open spec fn login_restricted_text() -> Seq<char> {
    "At the moment account creation is restricted.\nNone of your verified emails is whitelisted.\nPlease contact us to create an account.\n"@
}

/// The message of each shape.
pub open spec fn unified_message(shape: ErrorShape) -> Seq<char> {
    match shape {
        ErrorShape::RequestFailure { details } => "Unexpected request failure: "@ + details,
        ErrorShape::InvalidHeaderValue { details } => "Unexpected invalid header value: "@
            + details,
        ErrorShape::UnexpectedStatus { code } => "Unexpected status: "@ + decimal(code as nat),
        ErrorShape::NotFound { message } => "Not found: "@ + message,
        ErrorShape::BadRequest { errors } => "Invalid API call: "@ + joined(errors, ", "@),
        ErrorShape::LimitExceeded { error } => "Limit Exceeded: "@ + error,
        ErrorShape::Internal { error } => "Internal server error: "@ + error,
        ErrorShape::AlreadyExists { component_id } => component_id + " already exists"@,
        ErrorShape::GatewayTimeout => "Gateway Timeout"@,
        ErrorShape::LoginRestricted => login_restricted_text(),
        ErrorShape::LoginInternal { error } => "Internal server error on Login: "@ + error,
        ErrorShape::LoginExternal { error } => "External service call error on Login: "@ + error,
    }
}

/// No shape has an empty message.
pub proof fn lemma_unified_message_nonempty(shape: ErrorShape)
    ensures
        unified_message(shape).len() > 0,
{
    reveal_strlit("Unexpected request failure: ");
    reveal_strlit("Unexpected invalid header value: ");
    reveal_strlit("Unexpected status: ");
    reveal_strlit("Not found: ");
    reveal_strlit("Invalid API call: ");
    reveal_strlit("Limit Exceeded: ");
    reveal_strlit("Internal server error: ");
    reveal_strlit(" already exists");
    reveal_strlit("Gateway Timeout");
    reveal_strlit(
        "At the moment account creation is restricted.\nNone of your verified emails is whitelisted.\nPlease contact us to create an account.\n",
    );
    reveal_strlit("Internal server error on Login: ");
    reveal_strlit("External service call error on Login: ");
}

fn prefixed(prefix: &str, body: &str) -> (res: GolemError)
    ensures
        res@ == prefix@ + body@,
{
    let mut message = String::from_str(prefix);
    message.append(body);
    GolemError(message)
}

fn request_failure(details: String) -> (res: GolemError)
    ensures
        res@ == unified_message(ErrorShape::RequestFailure { details: details@ }),
{
    prefixed("Unexpected request failure: ", details.as_str())
}

fn invalid_header_value(details: String) -> (res: GolemError)
    ensures
        res@ == unified_message(ErrorShape::InvalidHeaderValue { details: details@ }),
{
    prefixed("Unexpected invalid header value: ", details.as_str())
}

fn unexpected_status(code: u16) -> (res: GolemError)
    ensures
        res@ == unified_message(ErrorShape::UnexpectedStatus { code }),
{
    let digits = u16_to_string(code);
    prefixed("Unexpected status: ", digits.as_str())
}

fn not_found(message: String) -> (res: GolemError)
    ensures
        res@ == unified_message(ErrorShape::NotFound { message: message@ }),
{
    prefixed("Not found: ", message.as_str())
}

fn bad_request(errors: Vec<String>) -> (res: GolemError)
    ensures
        res@ == unified_message(ErrorShape::BadRequest { errors: errors.deep_view() }),
{
    let all = join(&errors, ", ");
    prefixed("Invalid API call: ", all.as_str())
}

fn limit_exceeded(error: String) -> (res: GolemError)
    ensures
        res@ == unified_message(ErrorShape::LimitExceeded { error: error@ }),
{
    prefixed("Limit Exceeded: ", error.as_str())
}

fn internal(error: String) -> (res: GolemError)
    ensures
        res@ == unified_message(ErrorShape::Internal { error: error@ }),
{
    prefixed("Internal server error: ", error.as_str())
}

fn already_exists(component_id: String) -> (res: GolemError)
    ensures
        res@ == unified_message(ErrorShape::AlreadyExists { component_id: component_id@ }),
{
    let mut message = component_id;
    message.append(" already exists");
    GolemError(message)
}

fn gateway_timeout() -> (res: GolemError)
    ensures
        res@ == unified_message(ErrorShape::GatewayTimeout),
{
    GolemError(String::from_str("Gateway Timeout"))
}

fn login_restricted() -> (res: GolemError)
    ensures
        res@ == unified_message(ErrorShape::LoginRestricted),
{
    GolemError(
        String::from_str(
            "At the moment account creation is restricted.\nNone of your verified emails is whitelisted.\nPlease contact us to create an account.\n",
        ),
    )
}

fn login_internal(error: String) -> (res: GolemError)
    ensures
        res@ == unified_message(ErrorShape::LoginInternal { error: error@ }),
{
    prefixed("Internal server error on Login: ", error.as_str())
}

fn login_external(error: String) -> (res: GolemError)
    ensures
        res@ == unified_message(ErrorShape::LoginExternal { error: error@ }),
{
    prefixed("External service call error on Login: ", error.as_str())
}

/// What the accounts interface can fail with.
#[derive(Clone, PartialEq, Eq, Debug)]
pub enum AccountError {
    RequestFailure(String),
    InvalidHeaderValue(String),
    UnexpectedStatus(u16),
    Status404 { message: String },
    Status400 { errors: Vec<String> },
    Status500 { error: String },
}

impl AccountError {
    /// The shape of each variant.
    pub open spec fn shape(self) -> ErrorShape {
        match self {
            AccountError::RequestFailure(details) => ErrorShape::RequestFailure {
                details: details@,
            },
            AccountError::InvalidHeaderValue(details) => ErrorShape::InvalidHeaderValue {
                details: details@,
            },
            AccountError::UnexpectedStatus(code) => ErrorShape::UnexpectedStatus { code },
            AccountError::Status404 { message } => ErrorShape::NotFound { message: message@ },
            AccountError::Status400 { errors } => ErrorShape::BadRequest {
                errors: errors.deep_view(),
            },
            AccountError::Status500 { error } => ErrorShape::Internal { error: error@ },
        }
    }
}

/// A text built at run time is known by its characters, not as a value, so
/// the conversion is described by the view of its result, in `from`'s own
/// contract.
impl vstd::std_specs::convert::FromSpecImpl<AccountError> for GolemError {
    open spec fn obeys_from_spec() -> bool {
        false
    }

    open spec fn from_spec(v: AccountError) -> GolemError {
        choose|e: GolemError| e@ == unified_message(v.shape())
    }
}

impl From<AccountError> for GolemError {
    /// The message of the error's shape.
    fn from(value: AccountError) -> (res: GolemError)
        ensures
            res@ == unified_message(value.shape()),
            res@.len() > 0,
    {
        proof {
            lemma_unified_message_nonempty(value.shape());
        }
        match value {
            AccountError::RequestFailure(details) => request_failure(details),
            AccountError::InvalidHeaderValue(details) => invalid_header_value(details),
            AccountError::UnexpectedStatus(code) => unexpected_status(code),
            AccountError::Status404 { message } => not_found(message),
            AccountError::Status400 { errors } => bad_request(errors),
            AccountError::Status500 { error } => internal(error),
        }
    }
}

/// What the tokens interface can fail with.
#[derive(Clone, PartialEq, Eq, Debug)]
pub enum TokenError {
    RequestFailure(String),
    InvalidHeaderValue(String),
    UnexpectedStatus(u16),
    Status404 { message: String },
    Status400 { errors: Vec<String> },
    Status500 { error: String },
}

impl TokenError {
    /// The shape of each variant.
    pub open spec fn shape(self) -> ErrorShape {
        match self {
            TokenError::RequestFailure(details) => ErrorShape::RequestFailure {
                details: details@,
            },
            TokenError::InvalidHeaderValue(details) => ErrorShape::InvalidHeaderValue {
                details: details@,
            },
            TokenError::UnexpectedStatus(code) => ErrorShape::UnexpectedStatus { code },
            TokenError::Status404 { message } => ErrorShape::NotFound { message: message@ },
            TokenError::Status400 { errors } => ErrorShape::BadRequest {
                errors: errors.deep_view(),
            },
            TokenError::Status500 { error } => ErrorShape::Internal { error: error@ },
        }
    }
}

/// A text built at run time is known by its characters, not as a value, so
/// the conversion is described by the view of its result, in `from`'s own
/// contract.
impl vstd::std_specs::convert::FromSpecImpl<TokenError> for GolemError {
    open spec fn obeys_from_spec() -> bool {
        false
    }

    open spec fn from_spec(v: TokenError) -> GolemError {
        choose|e: GolemError| e@ == unified_message(v.shape())
    }
}

impl From<TokenError> for GolemError {
    /// The message of the error's shape.
    fn from(value: TokenError) -> (res: GolemError)
        ensures
            res@ == unified_message(value.shape()),
            res@.len() > 0,
    {
        proof {
            lemma_unified_message_nonempty(value.shape());
        }
        match value {
            TokenError::RequestFailure(details) => request_failure(details),
            TokenError::InvalidHeaderValue(details) => invalid_header_value(details),
            TokenError::UnexpectedStatus(code) => unexpected_status(code),
            TokenError::Status404 { message } => not_found(message),
            TokenError::Status400 { errors } => bad_request(errors),
            TokenError::Status500 { error } => internal(error),
        }
    }
}

/// What the components interface can fail with.
#[derive(Clone, PartialEq, Eq, Debug)]
pub enum ComponentError {
    RequestFailure(String),
    InvalidHeaderValue(String),
    UnexpectedStatus(u16),
    Status504,
    Status404 { message: String },
    Status403 { error: String },
    Status400 { errors: Vec<String> },
    Status500 { error: String },
    Status409 { component_id: String },
}

impl ComponentError {
    /// The shape of each variant.
    pub open spec fn shape(self) -> ErrorShape {
        match self {
            ComponentError::RequestFailure(details) => ErrorShape::RequestFailure {
                details: details@,
            },
            ComponentError::InvalidHeaderValue(details) => ErrorShape::InvalidHeaderValue {
                details: details@,
            },
            ComponentError::UnexpectedStatus(code) => ErrorShape::UnexpectedStatus { code },
            ComponentError::Status504 => ErrorShape::GatewayTimeout,
            ComponentError::Status404 { message } => ErrorShape::NotFound { message: message@ },
            ComponentError::Status403 { error } => ErrorShape::LimitExceeded { error: error@ },
            ComponentError::Status400 { errors } => ErrorShape::BadRequest {
                errors: errors.deep_view(),
            },
            ComponentError::Status500 { error } => ErrorShape::Internal { error: error@ },
            ComponentError::Status409 { component_id } => ErrorShape::AlreadyExists {
                component_id: component_id@,
            },
        }
    }
}

/// A text built at run time is known by its characters, not as a value, so
/// the conversion is described by the view of its result, in `from`'s own
/// contract.
impl vstd::std_specs::convert::FromSpecImpl<ComponentError> for GolemError {
    open spec fn obeys_from_spec() -> bool {
        false
    }

    open spec fn from_spec(v: ComponentError) -> GolemError {
        choose|e: GolemError| e@ == unified_message(v.shape())
    }
}

impl From<ComponentError> for GolemError {
    /// The message of the error's shape.
    fn from(value: ComponentError) -> (res: GolemError)
        ensures
            res@ == unified_message(value.shape()),
            res@.len() > 0,
    {
        proof {
            lemma_unified_message_nonempty(value.shape());
        }
        match value {
            ComponentError::RequestFailure(details) => request_failure(details),
            ComponentError::InvalidHeaderValue(details) => invalid_header_value(details),
            ComponentError::UnexpectedStatus(code) => unexpected_status(code),
            ComponentError::Status504 => gateway_timeout(),
            ComponentError::Status404 { message } => not_found(message),
            ComponentError::Status403 { error } => limit_exceeded(error),
            ComponentError::Status400 { errors } => bad_request(errors),
            ComponentError::Status500 { error } => internal(error),
            ComponentError::Status409 { component_id } => already_exists(component_id),
        }
    }
}

/// What login can fail with.
#[derive(Clone, PartialEq, Eq, Debug)]
pub enum LoginError {
    RequestFailure(String),
    InvalidHeaderValue(String),
    UnexpectedStatus(u16),
    Status403 { error: String },
    Status500 { error: String },
    Status401 { error: String },
}

impl LoginError {
    /// The shape of each variant.
    pub open spec fn shape(self) -> ErrorShape {
        match self {
            LoginError::RequestFailure(details) => ErrorShape::RequestFailure {
                details: details@,
            },
            LoginError::InvalidHeaderValue(details) => ErrorShape::InvalidHeaderValue {
                details: details@,
            },
            LoginError::UnexpectedStatus(code) => ErrorShape::UnexpectedStatus { code },
            LoginError::Status403 { .. } => ErrorShape::LoginRestricted,
            LoginError::Status500 { error } => ErrorShape::LoginInternal { error: error@ },
            LoginError::Status401 { error } => ErrorShape::LoginExternal { error: error@ },
        }
    }
}

/// A text built at run time is known by its characters, not as a value, so
/// the conversion is described by the view of its result, in `from`'s own
/// contract.
impl vstd::std_specs::convert::FromSpecImpl<LoginError> for GolemError {
    open spec fn obeys_from_spec() -> bool {
        false
    }

    open spec fn from_spec(v: LoginError) -> GolemError {
        choose|e: GolemError| e@ == unified_message(v.shape())
    }
}

impl From<LoginError> for GolemError {
    /// The message of the error's shape.
    fn from(value: LoginError) -> (res: GolemError)
        ensures
            res@ == unified_message(value.shape()),
            res@.len() > 0,
    {
        proof {
            lemma_unified_message_nonempty(value.shape());
        }
        match value {
            LoginError::RequestFailure(details) => request_failure(details),
            LoginError::InvalidHeaderValue(details) => invalid_header_value(details),
            LoginError::UnexpectedStatus(code) => unexpected_status(code),
            LoginError::Status403 { .. } => login_restricted(),
            LoginError::Status500 { error } => login_internal(error),
            LoginError::Status401 { error } => login_external(error),
        }
    }
}

/// What the projects interface can fail with.
#[derive(Clone, PartialEq, Eq, Debug)]
pub enum ProjectError {
    RequestFailure(String),
    InvalidHeaderValue(String),
    UnexpectedStatus(u16),
    Status404 { message: String },
    Status400 { errors: Vec<String> },
    Status403 { error: String },
    Status500 { error: String },
}

impl ProjectError {
    /// The shape of each variant.
    pub open spec fn shape(self) -> ErrorShape {
        match self {
            ProjectError::RequestFailure(details) => ErrorShape::RequestFailure {
                details: details@,
            },
            ProjectError::InvalidHeaderValue(details) => ErrorShape::InvalidHeaderValue {
                details: details@,
            },
            ProjectError::UnexpectedStatus(code) => ErrorShape::UnexpectedStatus { code },
            ProjectError::Status404 { message } => ErrorShape::NotFound { message: message@ },
            ProjectError::Status400 { errors } => ErrorShape::BadRequest {
                errors: errors.deep_view(),
            },
            ProjectError::Status403 { error } => ErrorShape::LimitExceeded { error: error@ },
            ProjectError::Status500 { error } => ErrorShape::Internal { error: error@ },
        }
    }
}

/// A text built at run time is known by its characters, not as a value, so
/// the conversion is described by the view of its result, in `from`'s own
/// contract.
impl vstd::std_specs::convert::FromSpecImpl<ProjectError> for GolemError {
    open spec fn obeys_from_spec() -> bool {
        false
    }

    open spec fn from_spec(v: ProjectError) -> GolemError {
        choose|e: GolemError| e@ == unified_message(v.shape())
    }
}

impl From<ProjectError> for GolemError {
    /// The message of the error's shape.
    fn from(value: ProjectError) -> (res: GolemError)
        ensures
            res@ == unified_message(value.shape()),
            res@.len() > 0,
    {
        proof {
            lemma_unified_message_nonempty(value.shape());
        }
        match value {
            ProjectError::RequestFailure(details) => request_failure(details),
            ProjectError::InvalidHeaderValue(details) => invalid_header_value(details),
            ProjectError::UnexpectedStatus(code) => unexpected_status(code),
            ProjectError::Status404 { message } => not_found(message),
            ProjectError::Status400 { errors } => bad_request(errors),
            ProjectError::Status403 { error } => limit_exceeded(error),
            ProjectError::Status500 { error } => internal(error),
        }
    }
}

/// What the grants interface can fail with.
#[derive(Clone, PartialEq, Eq, Debug)]
pub enum GrantError {
    RequestFailure(String),
    InvalidHeaderValue(String),
    UnexpectedStatus(u16),
    Status404 { message: String },
    Status400 { errors: Vec<String> },
    Status500 { error: String },
}

impl GrantError {
    /// The shape of each variant.
    pub open spec fn shape(self) -> ErrorShape {
        match self {
            GrantError::RequestFailure(details) => ErrorShape::RequestFailure {
                details: details@,
            },
            GrantError::InvalidHeaderValue(details) => ErrorShape::InvalidHeaderValue {
                details: details@,
            },
            GrantError::UnexpectedStatus(code) => ErrorShape::UnexpectedStatus { code },
            GrantError::Status404 { message } => ErrorShape::NotFound { message: message@ },
            GrantError::Status400 { errors } => ErrorShape::BadRequest {
                errors: errors.deep_view(),
            },
            GrantError::Status500 { error } => ErrorShape::Internal { error: error@ },
        }
    }
}

/// A text built at run time is known by its characters, not as a value, so
/// the conversion is described by the view of its result, in `from`'s own
/// contract.
impl vstd::std_specs::convert::FromSpecImpl<GrantError> for GolemError {
    open spec fn obeys_from_spec() -> bool {
        false
    }

    open spec fn from_spec(v: GrantError) -> GolemError {
        choose|e: GolemError| e@ == unified_message(v.shape())
    }
}

impl From<GrantError> for GolemError {
    /// The message of the error's shape.
    fn from(value: GrantError) -> (res: GolemError)
        ensures
            res@ == unified_message(value.shape()),
            res@.len() > 0,
    {
        proof {
            lemma_unified_message_nonempty(value.shape());
        }
        match value {
            GrantError::RequestFailure(details) => request_failure(details),
            GrantError::InvalidHeaderValue(details) => invalid_header_value(details),
            GrantError::UnexpectedStatus(code) => unexpected_status(code),
            GrantError::Status404 { message } => not_found(message),
            GrantError::Status400 { errors } => bad_request(errors),
            GrantError::Status500 { error } => internal(error),
        }
    }
}

/// What the project policies interface can fail with.
#[derive(Clone, PartialEq, Eq, Debug)]
pub enum ProjectPolicyError {
    RequestFailure(String),
    InvalidHeaderValue(String),
    UnexpectedStatus(u16),
    Status404 { message: String },
    Status400 { errors: Vec<String> },
    Status403 { error: String },
    Status500 { error: String },
}

impl ProjectPolicyError {
    /// The shape of each variant.
    pub open spec fn shape(self) -> ErrorShape {
        match self {
            ProjectPolicyError::RequestFailure(details) => ErrorShape::RequestFailure {
                details: details@,
            },
            ProjectPolicyError::InvalidHeaderValue(details) => ErrorShape::InvalidHeaderValue {
                details: details@,
            },
            ProjectPolicyError::UnexpectedStatus(code) => ErrorShape::UnexpectedStatus { code },
            ProjectPolicyError::Status404 { message } => ErrorShape::NotFound { message: message@ },
            ProjectPolicyError::Status400 { errors } => ErrorShape::BadRequest {
                errors: errors.deep_view(),
            },
            ProjectPolicyError::Status403 { error } => ErrorShape::LimitExceeded { error: error@ },
            ProjectPolicyError::Status500 { error } => ErrorShape::Internal { error: error@ },
        }
    }
}

/// A text built at run time is known by its characters, not as a value, so
/// the conversion is described by the view of its result, in `from`'s own
/// contract.
impl vstd::std_specs::convert::FromSpecImpl<ProjectPolicyError> for GolemError {
    open spec fn obeys_from_spec() -> bool {
        false
    }

    open spec fn from_spec(v: ProjectPolicyError) -> GolemError {
        choose|e: GolemError| e@ == unified_message(v.shape())
    }
}

impl From<ProjectPolicyError> for GolemError {
    /// The message of the error's shape.
    fn from(value: ProjectPolicyError) -> (res: GolemError)
        ensures
            res@ == unified_message(value.shape()),
            res@.len() > 0,
    {
        proof {
            lemma_unified_message_nonempty(value.shape());
        }
        match value {
            ProjectPolicyError::RequestFailure(details) => request_failure(details),
            ProjectPolicyError::InvalidHeaderValue(details) => invalid_header_value(details),
            ProjectPolicyError::UnexpectedStatus(code) => unexpected_status(code),
            ProjectPolicyError::Status404 { message } => not_found(message),
            ProjectPolicyError::Status400 { errors } => bad_request(errors),
            ProjectPolicyError::Status403 { error } => limit_exceeded(error),
            ProjectPolicyError::Status500 { error } => internal(error),
        }
    }
}

/// What the project grants interface can fail with.
#[derive(Clone, PartialEq, Eq, Debug)]
pub enum ProjectGrantError {
    RequestFailure(String),
    InvalidHeaderValue(String),
    UnexpectedStatus(u16),
    Status404 { message: String },
    Status400 { errors: Vec<String> },
    Status403 { error: String },
    Status500 { error: String },
}

impl ProjectGrantError {
    /// The shape of each variant.
    pub open spec fn shape(self) -> ErrorShape {
        match self {
            ProjectGrantError::RequestFailure(details) => ErrorShape::RequestFailure {
                details: details@,
            },
            ProjectGrantError::InvalidHeaderValue(details) => ErrorShape::InvalidHeaderValue {
                details: details@,
            },
            ProjectGrantError::UnexpectedStatus(code) => ErrorShape::UnexpectedStatus { code },
            ProjectGrantError::Status404 { message } => ErrorShape::NotFound { message: message@ },
            ProjectGrantError::Status400 { errors } => ErrorShape::BadRequest {
                errors: errors.deep_view(),
            },
            ProjectGrantError::Status403 { error } => ErrorShape::LimitExceeded { error: error@ },
            ProjectGrantError::Status500 { error } => ErrorShape::Internal { error: error@ },
        }
    }
}

/// A text built at run time is known by its characters, not as a value, so
/// the conversion is described by the view of its result, in `from`'s own
/// contract.
impl vstd::std_specs::convert::FromSpecImpl<ProjectGrantError> for GolemError {
    open spec fn obeys_from_spec() -> bool {
        false
    }

    open spec fn from_spec(v: ProjectGrantError) -> GolemError {
        choose|e: GolemError| e@ == unified_message(v.shape())
    }
}

impl From<ProjectGrantError> for GolemError {
    /// The message of the error's shape.
    fn from(value: ProjectGrantError) -> (res: GolemError)
        ensures
            res@ == unified_message(value.shape()),
            res@.len() > 0,
    {
        proof {
            lemma_unified_message_nonempty(value.shape());
        }
        match value {
            ProjectGrantError::RequestFailure(details) => request_failure(details),
            ProjectGrantError::InvalidHeaderValue(details) => invalid_header_value(details),
            ProjectGrantError::UnexpectedStatus(code) => unexpected_status(code),
            ProjectGrantError::Status404 { message } => not_found(message),
            ProjectGrantError::Status400 { errors } => bad_request(errors),
            ProjectGrantError::Status403 { error } => limit_exceeded(error),
            ProjectGrantError::Status500 { error } => internal(error),
        }
    }
}

/// What the gateway deployments interface can fail with.
#[derive(Clone, PartialEq, Eq, Debug)]
pub enum DeploymentError {
    RequestFailure(String),
    InvalidHeaderValue(String),
    UnexpectedStatus(u16),
    Status404 { message: String },
    Status400 { errors: Vec<String> },
    Status403 { error: String },
    Status500 { error: String },
}

impl DeploymentError {
    /// The shape of each variant.
    pub open spec fn shape(self) -> ErrorShape {
        match self {
            DeploymentError::RequestFailure(details) => ErrorShape::RequestFailure {
                details: details@,
            },
            DeploymentError::InvalidHeaderValue(details) => ErrorShape::InvalidHeaderValue {
                details: details@,
            },
            DeploymentError::UnexpectedStatus(code) => ErrorShape::UnexpectedStatus { code },
            DeploymentError::Status404 { message } => ErrorShape::NotFound { message: message@ },
            DeploymentError::Status400 { errors } => ErrorShape::BadRequest {
                errors: errors.deep_view(),
            },
            DeploymentError::Status403 { error } => ErrorShape::LimitExceeded { error: error@ },
            DeploymentError::Status500 { error } => ErrorShape::Internal { error: error@ },
        }
    }
}

/// A text built at run time is known by its characters, not as a value, so
/// the conversion is described by the view of its result, in `from`'s own
/// contract.
impl vstd::std_specs::convert::FromSpecImpl<DeploymentError> for GolemError {
    open spec fn obeys_from_spec() -> bool {
        false
    }

    open spec fn from_spec(v: DeploymentError) -> GolemError {
        choose|e: GolemError| e@ == unified_message(v.shape())
    }
}

impl From<DeploymentError> for GolemError {
    /// The message of the error's shape.
    fn from(value: DeploymentError) -> (res: GolemError)
        ensures
            res@ == unified_message(value.shape()),
            res@.len() > 0,
    {
        proof {
            lemma_unified_message_nonempty(value.shape());
        }
        match value {
            DeploymentError::RequestFailure(details) => request_failure(details),
            DeploymentError::InvalidHeaderValue(details) => invalid_header_value(details),
            DeploymentError::UnexpectedStatus(code) => unexpected_status(code),
            DeploymentError::Status404 { message } => not_found(message),
            DeploymentError::Status400 { errors } => bad_request(errors),
            DeploymentError::Status403 { error } => limit_exceeded(error),
            DeploymentError::Status500 { error } => internal(error),
        }
    }
}

} // verus!
