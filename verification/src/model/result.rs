//! The one result and the one error that every command ends in.

use crate::clients::gateway::deployment::{deployment_views, ApiDeployment, ApiDeploymentView};
use vstd::prelude::*;

verus! {

/// What a command can hand to the renderer for serialisation.
#[derive(PartialEq, Eq, Debug)]
pub enum Payload {
    Deployment(ApiDeployment),
    Deployments(Vec<ApiDeployment>),
    Text(String),
}

/// A payload with its texts as sequences of characters.
pub enum PayloadView {
    Deployment(ApiDeploymentView),
    Deployments(Seq<ApiDeploymentView>),
    Text(Seq<char>),
}

impl View for Payload {
    type V = PayloadView;

    open spec fn view(&self) -> PayloadView {
        match self {
            Payload::Deployment(deployment) => PayloadView::Deployment(deployment@),
            Payload::Deployments(deployments) => PayloadView::Deployments(
                deployment_views(deployments@),
            ),
            Payload::Text(text) => PayloadView::Text(text@),
        }
    }
}

/// What a command ends in when it succeeds: a payload that the renderer
/// serialises in the selected format, or a text that it prints as it is.
#[derive(PartialEq, Eq, Debug)]
pub enum GolemResult {
    Payload(Payload),
    Str(String),
}

/// A result with its texts as sequences of characters.
pub enum GolemResultView {
    Payload(PayloadView),
    Str(Seq<char>),
}

impl View for GolemResult {
    type V = GolemResultView;

    open spec fn view(&self) -> GolemResultView {
        match self {
            GolemResult::Payload(payload) => GolemResultView::Payload(payload@),
            GolemResult::Str(text) => GolemResultView::Str(text@),
        }
    }
}

impl GolemResult {
    /// The failure with the given message.
    pub fn err(s: String) -> (res: Result<GolemResult, GolemError>)
        ensures
            res matches Err(e) && e.0 == s,
    {
        Err(GolemError(s))
    }
}

/// A failure, reduced to the message that is shown for it.
#[derive(PartialEq, Eq, Debug)]
pub struct GolemError(pub String);

impl Clone for GolemError {
    fn clone(&self) -> (res: GolemError)
        ensures
            res@ == self@,
    {
        GolemError(self.0.clone())
    }
}

impl View for GolemError {
    type V = Seq<char>;

    open spec fn view(&self) -> Seq<char> {
        self.0@
    }
}

impl GolemError {
    /// The message, as it is shown.
    pub fn to_string(&self) -> (res: String)
        ensures
            res@ == self@,
    {
        self.0.clone()
    }

    /// The message, borrowed.
    pub fn description(&self) -> (res: &str)
        ensures
            res@ == self@,
    {
        self.0.as_str()
    }
}

} // verus!
