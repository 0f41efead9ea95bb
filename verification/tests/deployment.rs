use golem_cli::clients::gateway::deployment::{ApiDeployment, ApiSite, DeploymentClient};
use golem_cli::clients::project::{ProjectClient, ProjectLookup, Resolver};
use golem_cli::errors::{DeploymentError, ProjectError};
use golem_cli::gateway::deployment::{
    DeploymentHandler, DeploymentHandlerLive, DeploymentRequest, DeploymentResponse,
    DeploymentSubcommand,
};
use golem_cli::model::{GolemError, GolemResult, Payload, ProjectId, ProjectRef};
use std::cell::RefCell;
use uuid::Uuid;

fn id(n: u128) -> Uuid {
    Uuid::from_u128(n)
}

struct Projects {
    answer: RefCell<Option<Result<Vec<ProjectId>, ProjectError>>>,
    asked: RefCell<Vec<ProjectLookup>>,
}

fn projects(answer: Option<Result<Vec<ProjectId>, ProjectError>>) -> Projects {
    Projects { answer: RefCell::new(answer), asked: RefCell::new(Vec::new()) }
}

impl ProjectClient for Projects {
    fn find(&self, lookup: &ProjectLookup) -> Result<Vec<ProjectId>, ProjectError> {
        self.asked.borrow_mut().push(lookup.clone());
        self.answer.borrow_mut().take().unwrap()
    }
}

struct Deployments {
    calls: RefCell<Vec<String>>,
    stored: RefCell<Vec<ApiDeployment>>,
    failure: RefCell<Option<DeploymentError>>,
}

fn deployments(failure: Option<DeploymentError>) -> Deployments {
    Deployments {
        calls: RefCell::new(Vec::new()),
        stored: RefCell::new(Vec::new()),
        failure: RefCell::new(failure),
    }
}

impl DeploymentClient for Deployments {
    fn get(
        &self,
        project_id: &ProjectId,
        definition_id: &str,
    ) -> Result<Vec<ApiDeployment>, DeploymentError> {
        self.calls.borrow_mut().push(format!("get {} {}", project_id.0, definition_id));
        match self.failure.borrow_mut().take() {
            Some(e) => Err(e),
            None => Ok(self.stored.borrow().clone()),
        }
    }

    fn update(&self, deployment: ApiDeployment) -> Result<ApiDeployment, DeploymentError> {
        self.calls.borrow_mut().push("update".to_string());
        match self.failure.borrow_mut().take() {
            Some(e) => Err(e),
            None => {
                self.stored.borrow_mut().push(deployment.clone());
                Ok(deployment)
            }
        }
    }

    fn delete(
        &self,
        project_id: &ProjectId,
        definition_id: &str,
        site: &str,
    ) -> Result<String, DeploymentError> {
        self.calls
            .borrow_mut()
            .push(format!("delete {} {} {}", project_id.0, definition_id, site));
        match self.failure.borrow_mut().take() {
            Some(e) => Err(e),
            None => Ok("deleted".to_string()),
        }
    }
}

fn add_command() -> DeploymentSubcommand {
    DeploymentSubcommand::Add {
        project_ref: ProjectRef::Default,
        definition_id: "def-1".to_string(),
        host: "api.example.com".to_string(),
        subdomain: "tenant1".to_string(),
    }
}

fn expected_deployment(p: Uuid) -> ApiDeployment {
    ApiDeployment {
        api_definition_id: "def-1".to_string(),
        project_id: p,
        site: ApiSite { host: "api.example.com".to_string(), subdomain: "tenant1".to_string() },
    }
}

#[test]
fn add_to_the_default_project_succeeds() {
    let p = id(0x50);
    let projects = projects(Some(Ok(vec![ProjectId(p)])));
    let mut handler = DeploymentHandlerLive {
        client: deployments(None),
        projects: &projects,
        resolver: Resolver::new(),
    };
    let end = handler.handle(add_command());
    assert_eq!(end, Ok(GolemResult::Payload(Payload::Deployment(expected_deployment(p)))));
    assert_eq!(*projects.asked.borrow(), vec![ProjectLookup::Default]);
    assert_eq!(*handler.client.calls.borrow(), vec!["update".to_string()]);
    assert_eq!(*handler.client.stored.borrow(), vec![expected_deployment(p)]);
    assert_eq!(handler.resolver.default_project, Some(ProjectId(p)));
}

#[test]
fn add_rejected_by_the_backend_is_an_invalid_api_call() {
    let p = id(0x50);
    let projects = projects(Some(Ok(vec![ProjectId(p)])));
    let mut handler = DeploymentHandlerLive {
        client: deployments(Some(DeploymentError::Status400 {
            errors: vec!["site.host invalid".to_string()],
        })),
        projects: &projects,
        resolver: Resolver::new(),
    };
    let end = handler.handle(add_command());
    assert_eq!(end, Err(GolemError("Invalid API call: site.host invalid".to_string())));
    assert_eq!(*handler.client.calls.borrow(), vec!["update".to_string()]);
}

#[test]
fn delete_in_an_unknown_project_never_reaches_the_backend() {
    let projects = projects(Some(Err(ProjectError::Status404 {
        message: "project ghost does not exist".to_string(),
    })));
    let mut handler = DeploymentHandlerLive {
        client: deployments(None),
        projects: &projects,
        resolver: Resolver::new(),
    };
    let end = handler.handle(DeploymentSubcommand::Delete {
        project_ref: ProjectRef::Name("ghost".to_string()),
        site: "tenant1.api.example.com".to_string(),
        definition_id: "def-1".to_string(),
    });
    assert_eq!(end, Err(GolemError("Not found: project ghost does not exist".to_string())));
    assert_eq!(*projects.asked.borrow(), vec![ProjectLookup::ByName("ghost".to_string())]);
    assert!(handler.client.calls.borrow().is_empty());
}

#[test]
fn delete_in_a_project_that_matches_nothing_never_reaches_the_backend() {
    let projects = projects(Some(Ok(vec![])));
    let mut handler = DeploymentHandlerLive {
        client: deployments(None),
        projects: &projects,
        resolver: Resolver::new(),
    };
    let end = handler.handle(DeploymentSubcommand::Delete {
        project_ref: ProjectRef::Name("ghost".to_string()),
        site: "s".to_string(),
        definition_id: "d".to_string(),
    });
    match end {
        Err(e) => assert!(e.0.starts_with("Not found: ")),
        Ok(_) => panic!("the command succeeded"),
    }
    assert!(handler.client.calls.borrow().is_empty());
}

#[test]
fn delete_passes_its_arguments_on() {
    let projects = projects(None);
    let mut handler = DeploymentHandlerLive {
        client: deployments(None),
        projects: &projects,
        resolver: Resolver::new(),
    };
    let end = handler.handle(DeploymentSubcommand::Delete {
        project_ref: ProjectRef::Id(ProjectId(id(9))),
        site: "tenant1.api.example.com".to_string(),
        definition_id: "def-1".to_string(),
    });
    assert_eq!(end, Ok(GolemResult::Payload(Payload::Text("deleted".to_string()))));
    assert!(projects.asked.borrow().is_empty());
    assert_eq!(
        *handler.client.calls.borrow(),
        vec![format!("delete {} def-1 tenant1.api.example.com", id(9))]
    );
}

#[test]
fn get_returns_the_deployments() {
    let p = id(2);
    let projects = projects(Some(Ok(vec![ProjectId(p)])));
    let client = deployments(None);
    client.stored.borrow_mut().push(expected_deployment(p));
    let mut handler = DeploymentHandlerLive { client, projects: &projects, resolver: Resolver::new() };
    let end = handler.handle(DeploymentSubcommand::Get {
        project_ref: ProjectRef::Name("main".to_string()),
        definition_id: "def-1".to_string(),
    });
    assert_eq!(end, Ok(GolemResult::Payload(Payload::Deployments(vec![expected_deployment(p)]))));
    assert_eq!(*handler.client.calls.borrow(), vec![format!("get {} def-1", p)]);
}

#[test]
fn get_failure_is_normalised() {
    let projects = projects(None);
    let mut handler = DeploymentHandlerLive {
        client: deployments(Some(DeploymentError::UnexpectedStatus(503))),
        projects: &projects,
        resolver: Resolver::new(),
    };
    let end = handler.handle(DeploymentSubcommand::Get {
        project_ref: ProjectRef::Id(ProjectId(id(1))),
        definition_id: "d".to_string(),
    });
    assert_eq!(end, Err(GolemError("Unexpected status: 503".to_string())));
}

#[test]
fn the_request_of_each_command() {
    let p = ProjectId(id(0x50));
    assert_eq!(
        add_command().request(p.clone()),
        DeploymentRequest::Update(expected_deployment(p.0))
    );
    let get = DeploymentSubcommand::Get {
        project_ref: ProjectRef::Default,
        definition_id: "d".to_string(),
    };
    assert_eq!(
        get.request(p.clone()),
        DeploymentRequest::Get { project_id: p.clone(), definition_id: "d".to_string() }
    );
    let delete = DeploymentSubcommand::Delete {
        project_ref: ProjectRef::Default,
        site: "s".to_string(),
        definition_id: "d".to_string(),
    };
    assert_eq!(
        delete.request(p.clone()),
        DeploymentRequest::Delete {
            project_id: p,
            definition_id: "d".to_string(),
            site: "s".to_string()
        }
    );
}

#[test]
fn a_failed_resolution_makes_no_request() {
    let failure = GolemError("Not found: project ghost".to_string());
    assert_eq!(add_command().after_resolution(Err(failure.clone())), Err(failure));
    assert_eq!(
        add_command().after_resolution(Ok(ProjectId(id(1)))),
        Ok(DeploymentRequest::Update(expected_deployment(id(1))))
    );
}

#[test]
fn the_project_ref_of_each_command() {
    assert_eq!(*add_command().project_ref(), ProjectRef::Default);
    let get = DeploymentSubcommand::Get {
        project_ref: ProjectRef::Name("n".to_string()),
        definition_id: "d".to_string(),
    };
    assert_eq!(*get.project_ref(), ProjectRef::Name("n".to_string()));
    let delete = DeploymentSubcommand::Delete {
        project_ref: ProjectRef::Id(ProjectId(id(1))),
        site: "s".to_string(),
        definition_id: "d".to_string(),
    };
    assert_eq!(*delete.project_ref(), ProjectRef::Id(ProjectId(id(1))));
}

#[test]
fn each_answer_ends_the_command() {
    assert_eq!(
        DeploymentResponse::Get(Ok(vec![])).finish(),
        Ok(GolemResult::Payload(Payload::Deployments(vec![])))
    );
    assert_eq!(
        DeploymentResponse::Update(Ok(expected_deployment(id(1)))).finish(),
        Ok(GolemResult::Payload(Payload::Deployment(expected_deployment(id(1)))))
    );
    assert_eq!(
        DeploymentResponse::Delete(Ok("gone".to_string())).finish(),
        Ok(GolemResult::Payload(Payload::Text("gone".to_string())))
    );
    assert_eq!(
        DeploymentResponse::Delete(Err(DeploymentError::Status404 {
            message: "deployment".to_string()
        }))
        .finish(),
        Err(GolemError("Not found: deployment".to_string()))
    );
    assert_eq!(
        DeploymentResponse::Get(Err(DeploymentError::Status500 { error: "e".to_string() }))
            .finish(),
        Err(GolemError("Internal server error: e".to_string()))
    );
}

#[test]
fn send_calls_the_operation_of_the_request() {
    let client = deployments(None);
    let response = DeploymentRequest::Update(expected_deployment(id(1))).send(&client);
    assert_eq!(response, DeploymentResponse::Update(Ok(expected_deployment(id(1)))));
    let response = DeploymentRequest::Get {
        project_id: ProjectId(id(1)),
        definition_id: "def-1".to_string(),
    }
    .send(&client);
    assert_eq!(response, DeploymentResponse::Get(Ok(vec![expected_deployment(id(1))])));
    let response = DeploymentRequest::Delete {
        project_id: ProjectId(id(1)),
        definition_id: "def-1".to_string(),
        site: "s".to_string(),
    }
    .send(&client);
    assert_eq!(response, DeploymentResponse::Delete(Ok("deleted".to_string())));
    assert_eq!(client.calls.borrow().len(), 3);
}
