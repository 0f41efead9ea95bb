//! Deployments of an API definition to a site, and the interface that
//! reads, writes and removes them.

use crate::errors::DeploymentError;
use crate::model::ProjectId;
use uuid::Uuid;
use vstd::prelude::*;

verus! {

/// Where a deployment is served: a subdomain of a host.
#[derive(PartialEq, Eq, Debug)]
pub struct ApiSite {
    pub host: String,
    pub subdomain: String,
}

/// A site with its texts as sequences of characters.
pub struct ApiSiteView {
    pub host: Seq<char>,
    pub subdomain: Seq<char>,
}

impl View for ApiSite {
    type V = ApiSiteView;

    open spec fn view(&self) -> ApiSiteView {
        ApiSiteView { host: self.host@, subdomain: self.subdomain@ }
    }
}

impl Clone for ApiSite {
    fn clone(&self) -> (res: ApiSite)
        ensures
            res@ == self@,
    {
        ApiSite { host: self.host.clone(), subdomain: self.subdomain.clone() }
    }
}

/// An API definition of a project, served at a site.
#[derive(PartialEq, Eq, Debug)]
pub struct ApiDeployment {
    pub api_definition_id: String,
    pub project_id: Uuid,
    pub site: ApiSite,
}

/// A deployment with its texts as sequences of characters.
pub struct ApiDeploymentView {
    pub api_definition_id: Seq<char>,
    pub project_id: Uuid,
    pub site: ApiSiteView,
}

impl View for ApiDeployment {
    type V = ApiDeploymentView;

    open spec fn view(&self) -> ApiDeploymentView {
        ApiDeploymentView {
            api_definition_id: self.api_definition_id@,
            project_id: self.project_id,
            site: self.site@,
        }
    }
}

impl Clone for ApiDeployment {
    fn clone(&self) -> (res: ApiDeployment)
        ensures
            res@ == self@,
    {
        ApiDeployment {
            api_definition_id: self.api_definition_id.clone(),
            project_id: self.project_id,
            site: self.site.clone(),
        }
    }
}

/// The views of a list of deployments, in the list's order.
pub open spec fn deployment_views(deployments: Seq<ApiDeployment>) -> Seq<ApiDeploymentView> {
    deployments.map_values(|d: ApiDeployment| d@)
}

/// The backend's deployments interface. Each operation is one call. None
/// resolves a project reference: the caller hands over the identifier.
pub trait DeploymentClient {
    /// The deployments of a definition in a project.
    fn get(&self, project_id: &ProjectId, definition_id: &str) -> Result<
        Vec<ApiDeployment>,
        DeploymentError,
    >;

    /// Creates or replaces a deployment and returns it as the backend stored it.
    fn update(&self, deployment: ApiDeployment) -> Result<ApiDeployment, DeploymentError>;

    /// Removes a definition's deployment from a site and returns the backend's confirmation.
    fn delete(&self, project_id: &ProjectId, definition_id: &str, site: &str) -> Result<
        String,
        DeploymentError,
    >;
}

} // verus!
