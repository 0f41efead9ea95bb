//! The deployment commands: what each asks of the backend and what it makes
//! of the answer.
//!
//! A command resolves its project reference, makes one call to the
//! deployments interface and ends. A failed resolution ends the command
//! before any call.

use crate::clients::gateway::deployment::{
    deployment_views, ApiDeployment, ApiDeploymentView, ApiSite, ApiSiteView, DeploymentClient,
};
use crate::clients::project::{
    answered, concluded, lookup_outcome, planned, remembered, ProjectClient, ResolutionView,
    Resolver,
};
use crate::errors::{unified_message, DeploymentError, ErrorShape, ProjectError};
use crate::model::project_ref::{ProjectRef, ProjectRefView};
use crate::model::result::{GolemResultView, PayloadView};
use crate::model::{GolemError, GolemResult, Payload, ProjectId};
use uuid::Uuid;
use vstd::prelude::*;

verus! {

/// A deployment command, as the argument parser delivers it.
#[derive(Debug)]
pub enum DeploymentSubcommand {
    /// Show the deployments of a definition.
    Get { project_ref: ProjectRef, definition_id: String },
    /// Deploy a definition to a site.
    Add { project_ref: ProjectRef, definition_id: String, host: String, subdomain: String },
    /// Remove a definition's deployment from a site.
    Delete { project_ref: ProjectRef, site: String, definition_id: String },
}

/// A command with its texts as sequences of characters.
pub enum DeploymentSubcommandView {
    Get { project_ref: ProjectRefView, definition_id: Seq<char> },
    Add {
        project_ref: ProjectRefView,
        definition_id: Seq<char>,
        host: Seq<char>,
        subdomain: Seq<char>,
    },
    Delete { project_ref: ProjectRefView, site: Seq<char>, definition_id: Seq<char> },
}

impl View for DeploymentSubcommand {
    type V = DeploymentSubcommandView;

    open spec fn view(&self) -> DeploymentSubcommandView {
        match self {
            DeploymentSubcommand::Get { project_ref, definition_id } => {
                DeploymentSubcommandView::Get {
                    project_ref: project_ref@,
                    definition_id: definition_id@,
                }
            },
            DeploymentSubcommand::Add { project_ref, definition_id, host, subdomain } => {
                DeploymentSubcommandView::Add {
                    project_ref: project_ref@,
                    definition_id: definition_id@,
                    host: host@,
                    subdomain: subdomain@,
                }
            },
            DeploymentSubcommand::Delete { project_ref, site, definition_id } => {
                DeploymentSubcommandView::Delete {
                    project_ref: project_ref@,
                    site: site@,
                    definition_id: definition_id@,
                }
            },
        }
    }
}

/// The one call that a command makes to the deployments interface.
#[derive(PartialEq, Eq, Debug)]
pub enum DeploymentRequest {
    Get { project_id: ProjectId, definition_id: String },
    Update(ApiDeployment),
    Delete { project_id: ProjectId, definition_id: String, site: String },
}

/// A request with its texts as sequences of characters.
pub enum DeploymentRequestView {
    Get { project_id: Uuid, definition_id: Seq<char> },
    Update(ApiDeploymentView),
    Delete { project_id: Uuid, definition_id: Seq<char>, site: Seq<char> },
}

impl View for DeploymentRequest {
    type V = DeploymentRequestView;

    open spec fn view(&self) -> DeploymentRequestView {
        match self {
            DeploymentRequest::Get { project_id, definition_id } => DeploymentRequestView::Get {
                project_id: project_id.0,
                definition_id: definition_id@,
            },
            DeploymentRequest::Update(deployment) => DeploymentRequestView::Update(deployment@),
            DeploymentRequest::Delete { project_id, definition_id, site } => {
                DeploymentRequestView::Delete {
                    project_id: project_id.0,
                    definition_id: definition_id@,
                    site: site@,
                }
            },
        }
    }
}

/// The backend's answer to a request, by the operation that was called.
#[derive(PartialEq, Eq, Debug)]
pub enum DeploymentResponse {
    Get(Result<Vec<ApiDeployment>, DeploymentError>),
    Update(Result<ApiDeployment, DeploymentError>),
    Delete(Result<String, DeploymentError>),
}

/// An answer with its texts as sequences of characters and its error as a shape.
pub enum DeploymentResponseView {
    Get(Result<Seq<ApiDeploymentView>, ErrorShape>),
    Update(Result<ApiDeploymentView, ErrorShape>),
    Delete(Result<Seq<char>, ErrorShape>),
}

impl View for DeploymentResponse {
    type V = DeploymentResponseView;

    open spec fn view(&self) -> DeploymentResponseView {
        match self {
            DeploymentResponse::Get(outcome) => DeploymentResponseView::Get(
                match outcome {
                    Ok(deployments) => Ok(deployment_views(deployments@)),
                    Err(e) => Err(e.shape()),
                },
            ),
            DeploymentResponse::Update(outcome) => DeploymentResponseView::Update(
                match outcome {
                    Ok(deployment) => Ok(deployment@),
                    Err(e) => Err(e.shape()),
                },
            ),
            DeploymentResponse::Delete(outcome) => DeploymentResponseView::Delete(
                match outcome {
                    Ok(confirmation) => Ok(confirmation@),
                    Err(e) => Err(e.shape()),
                },
            ),
        }
    }
}

impl DeploymentSubcommandView {
    /// The project reference that the command carries.
    pub open spec fn project_ref(self) -> ProjectRefView {
        match self {
            DeploymentSubcommandView::Get { project_ref, .. } => project_ref,
            DeploymentSubcommandView::Add { project_ref, .. } => project_ref,
            DeploymentSubcommandView::Delete { project_ref, .. } => project_ref,
        }
    }

    /// The call that the command makes once its project is known. `Get` and
    /// `Delete` pass their arguments on. `Add` sends the deployment of its
    /// definition to the site made of its host and subdomain.
    pub open spec fn request(self, project_id: Uuid) -> DeploymentRequestView {
        match self {
            DeploymentSubcommandView::Get { definition_id, .. } => DeploymentRequestView::Get {
                project_id,
                definition_id,
            },
            DeploymentSubcommandView::Add { definition_id, host, subdomain, .. } => {
                DeploymentRequestView::Update(
                    ApiDeploymentView {
                        api_definition_id: definition_id,
                        project_id,
                        site: ApiSiteView { host, subdomain },
                    },
                )
            },
            DeploymentSubcommandView::Delete { site, definition_id, .. } => {
                DeploymentRequestView::Delete { project_id, definition_id, site }
            },
        }
    }

    /// What the command does after its reference has been resolved: on a
    /// failure it ends with that failure and makes no call; otherwise it
    /// makes its one call.
    pub open spec fn after_resolution(self, resolution: Result<Uuid, Seq<char>>) -> Result<
        DeploymentRequestView,
        Seq<char>,
    > {
        match resolution {
            Ok(project_id) => Ok(self.request(project_id)),
            Err(message) => Err(message),
        }
    }
}

/// Whether an answer is one that the interface gives to the request: the
/// answer of the request's operation, called with the request's arguments.
pub open spec fn answers<C: DeploymentClient>(
    client: &C,
    request: DeploymentRequestView,
    response: DeploymentResponse,
) -> bool {
    match request {
        DeploymentRequestView::Get { project_id, definition_id } => {
            &&& response matches DeploymentResponse::Get(outcome)
            &&& exists|d: &str|
                d@ == definition_id && call_ensures(
                    C::get,
                    (client, &ProjectId(project_id), d),
                    outcome,
                )
        },
        DeploymentRequestView::Update(deployment) => {
            &&& response matches DeploymentResponse::Update(outcome)
            &&& exists|sent: ApiDeployment|
                sent@ == deployment && call_ensures(C::update, (client, sent), outcome)
        },
        DeploymentRequestView::Delete { project_id, definition_id, site } => {
            &&& response matches DeploymentResponse::Delete(outcome)
            &&& exists|d: &str, s: &str|
                d@ == definition_id && s@ == site && call_ensures(
                    C::delete,
                    (client, &ProjectId(project_id), d, s),
                    outcome,
                )
        },
    }
}

/// What a command ends in, given the backend's answer: the answer's value
/// as a payload, or the message of the answer's error.
pub open spec fn finished(response: DeploymentResponseView) -> Result<GolemResultView, Seq<char>> {
    match response {
        DeploymentResponseView::Get(Ok(deployments)) => Ok(
            GolemResultView::Payload(PayloadView::Deployments(deployments)),
        ),
        DeploymentResponseView::Update(Ok(deployment)) => Ok(
            GolemResultView::Payload(PayloadView::Deployment(deployment)),
        ),
        DeploymentResponseView::Delete(Ok(confirmation)) => Ok(
            GolemResultView::Payload(PayloadView::Text(confirmation)),
        ),
        DeploymentResponseView::Get(Err(shape)) => Err(unified_message(shape)),
        DeploymentResponseView::Update(Err(shape)) => Err(unified_message(shape)),
        DeploymentResponseView::Delete(Err(shape)) => Err(unified_message(shape)),
    }
}

/// Whether a command's end is the one described: the same result, or a
/// failure with the same message.
pub open spec fn ends_as(
    end: Result<GolemResult, GolemError>,
    described: Result<GolemResultView, Seq<char>>,
) -> bool {
    match described {
        Ok(result) => end matches Ok(r) && r@ == result,
        Err(message) => end matches Err(e) && e@ == message,
    }
}

/// A command whose resolution failed ends with the resolution's failure,
/// and there is no request that it makes.
pub proof fn lemma_failed_resolution_makes_no_call(
    command: DeploymentSubcommandView,
    message: Seq<char>,
)
    ensures
        command.after_resolution(Err(message)) == Err::<DeploymentRequestView, Seq<char>>(message),
{
}

/// An answer that carries a backend error ends the command with the
/// message of that error's shape, whichever operation was called.
pub proof fn lemma_backend_error_is_normalised(response: DeploymentResponseView, shape: ErrorShape)
    requires
        response == DeploymentResponseView::Get(Err(shape)) || response
            == DeploymentResponseView::Update(Err(shape)) || response
            == DeploymentResponseView::Delete(Err(shape)),
    ensures
        finished(response) == Err::<GolemResultView, Seq<char>>(unified_message(shape)),
{
}

impl DeploymentSubcommand {
    /// The project reference that the command carries.
    pub fn project_ref(&self) -> (res: &ProjectRef)
        ensures
            res@ == self@.project_ref(),
    {
        match self {
            DeploymentSubcommand::Get { project_ref, .. } => project_ref,
            DeploymentSubcommand::Add { project_ref, .. } => project_ref,
            DeploymentSubcommand::Delete { project_ref, .. } => project_ref,
        }
    }

    /// The call that the command makes once its project is known.
    pub fn request(self, project_id: ProjectId) -> (res: DeploymentRequest)
        ensures
            res@ == self@.request(project_id.0),
    {
        match self {
            DeploymentSubcommand::Get { project_ref: _, definition_id } => DeploymentRequest::Get {
                project_id,
                definition_id,
            },
            DeploymentSubcommand::Add { project_ref: _, definition_id, host, subdomain } => {
                DeploymentRequest::Update(
                    ApiDeployment {
                        api_definition_id: definition_id,
                        project_id: project_id.0,
                        site: ApiSite { host, subdomain },
                    },
                )
            },
            DeploymentSubcommand::Delete { project_ref: _, site, definition_id } => {
                DeploymentRequest::Delete { project_id, definition_id, site }
            },
        }
    }

    /// What the command does after its reference has been resolved.
    pub fn after_resolution(self, resolution: Result<ProjectId, GolemError>) -> (res: Result<
        DeploymentRequest,
        GolemError,
    >)
        ensures
            match resolution {
                Ok(project_id) => res matches Ok(request) && request@ == self@.request(
                    project_id.0,
                ),
                Err(failure) => res matches Err(e) && e@ == failure@,
            },
    {
        match resolution {
            Ok(project_id) => Ok(self.request(project_id)),
            Err(failure) => Err(failure),
        }
    }
}

impl DeploymentRequest {
    /// Makes the request's one call on a deployments interface and returns
    /// the interface's answer.
    pub fn send<C: DeploymentClient>(self, client: &C) -> (res: DeploymentResponse)
        ensures
            answers(client, self@, res),
    {
        match self {
            DeploymentRequest::Get { project_id, definition_id } => {
                let d = definition_id.as_str();
                let outcome = client.get(&project_id, d);
                assert(call_ensures(C::get, (client, &project_id, d), outcome));
                DeploymentResponse::Get(outcome)
            },
            DeploymentRequest::Update(deployment) => {
                let ghost sent = deployment;
                let outcome = client.update(deployment);
                assert(call_ensures(C::update, (client, sent), outcome));
                DeploymentResponse::Update(outcome)
            },
            DeploymentRequest::Delete { project_id, definition_id, site } => {
                let d = definition_id.as_str();
                let s = site.as_str();
                let outcome = client.delete(&project_id, d, s);
                assert(call_ensures(C::delete, (client, &project_id, d, s), outcome));
                DeploymentResponse::Delete(outcome)
            },
        }
    }
}

impl DeploymentResponse {
    /// What the command ends in, given this answer.
    pub fn finish(self) -> (res: Result<GolemResult, GolemError>)
        ensures
            ends_as(res, finished(self@)),
            res matches Err(e) ==> e@.len() > 0,
    {
        match self {
            DeploymentResponse::Get(Ok(deployments)) => Ok(
                GolemResult::Payload(Payload::Deployments(deployments)),
            ),
            DeploymentResponse::Update(Ok(deployment)) => Ok(
                GolemResult::Payload(Payload::Deployment(deployment)),
            ),
            DeploymentResponse::Delete(Ok(confirmation)) => Ok(
                GolemResult::Payload(Payload::Text(confirmation)),
            ),
            DeploymentResponse::Get(Err(e)) => Err(GolemError::from(e)),
            DeploymentResponse::Update(Err(e)) => Err(GolemError::from(e)),
            DeploymentResponse::Delete(Err(e)) => Err(GolemError::from(e)),
        }
    }
}

/// Something that carries out deployment commands.
pub trait DeploymentHandler {
    fn handle(&mut self, command: DeploymentSubcommand) -> Result<GolemResult, GolemError>;
}

/// Carries out deployment commands against a deployments interface and a
/// projects interface.
pub struct DeploymentHandlerLive<'p, C: DeploymentClient, P: ProjectClient> {
    pub client: C,
    pub projects: &'p P,
    pub resolver: Resolver,
}

/// How a command ends, given the project that its reference resolved to or
/// the failure of the resolution: a failure ends it at once; otherwise the
/// interface's answer to its one request ends it.
pub open spec fn ends_after<C: DeploymentClient>(
    client: &C,
    command: DeploymentSubcommandView,
    resolution: Result<Uuid, Seq<char>>,
    end: Result<GolemResult, GolemError>,
) -> bool {
    match command.after_resolution(resolution) {
        Err(message) => end matches Err(e) && e@ == message,
        Ok(request) => exists|response: DeploymentResponse| #[trigger]
            answers(client, request, response) && ends_as(end, finished(response@)),
    }
}

impl<'p, C: DeploymentClient, P: ProjectClient> DeploymentHandler for DeploymentHandlerLive<
    'p,
    C,
    P,
> {
    /// Carries out one command: at most one lookup of the project, then at
    /// most one call, then the end.
    ///
    /// Where the reference needs no lookup, the command ends as the answer
    /// to its request makes it end. Where it needs one, the projects
    /// interface's answer to that lookup decides the project, or ends the
    /// command with the lookup's failure and without a request.
    fn handle(&mut self, command: DeploymentSubcommand) -> (res: Result<GolemResult, GolemError>)
        ensures
            match planned(old(self).resolver@, command@.project_ref()) {
                ResolutionView::Resolved(id) => {
                    &&& ends_after(&old(self).client, command@, Ok(id), res)
                    &&& final(self).resolver@ == old(self).resolver@
                },
                ResolutionView::Lookup(lookup) => exists|
                    outcome: Result<Vec<ProjectId>, ProjectError>,
                |
                    {
                        &&& #[trigger] answered(old(self).projects, lookup, outcome)
                        &&& ends_after(
                            &old(self).client,
                            command@,
                            concluded(lookup, lookup_outcome(outcome)),
                            res,
                        )
                        &&& final(self).resolver@ == remembered(
                            old(self).resolver@,
                            lookup,
                            lookup_outcome(outcome),
                        )
                    },
            },
            res matches Err(e) ==> e@.len() > 0,
            final(self).client == old(self).client,
            final(self).projects == old(self).projects,
    {
        let resolution = self.resolver.resolve(self.projects, command.project_ref());
        match command.after_resolution(resolution) {
            Err(failure) => Err(failure),
            Ok(request) => {
                let response = request.send(&self.client);
                let ghost given = response;
                let res = response.finish();
                assert(answers(&self.client, request@, given));
                res
            },
        }
    }
}

} // verus!
