use golem_cli::clients::project::{ProjectClient, ProjectLookup, Resolution, Resolver};
use golem_cli::clients::{token_header, CloudAuthentication, Token, TokenSecret, UnsafeToken};
use golem_cli::errors::ProjectError;
use golem_cli::model::{AccountId, GolemError, ProjectId, ProjectRef};
use std::cell::RefCell;
use uuid::Uuid;

fn id(n: u128) -> Uuid {
    Uuid::from_u128(n)
}

struct ScriptedProjects {
    answers: RefCell<Vec<Result<Vec<ProjectId>, ProjectError>>>,
    asked: RefCell<Vec<ProjectLookup>>,
}

fn scripted(answers: Vec<Result<Vec<ProjectId>, ProjectError>>) -> ScriptedProjects {
    ScriptedProjects { answers: RefCell::new(answers), asked: RefCell::new(Vec::new()) }
}

impl ProjectClient for ScriptedProjects {
    fn find(&self, lookup: &ProjectLookup) -> Result<Vec<ProjectId>, ProjectError> {
        self.asked.borrow_mut().push(lookup.clone());
        self.answers.borrow_mut().remove(0)
    }
}

#[test]
fn header_is_bearer_and_the_secret() {
    let secret = TokenSecret { value: Uuid::parse_str("550e8400-e29b-41d4-a716-446655440000").unwrap() };
    assert_eq!(token_header(&secret), "bearer 550e8400-e29b-41d4-a716-446655440000");
    let auth = CloudAuthentication(UnsafeToken {
        data: Token { id: id(1), account_id: "acc-7".to_string() },
        secret,
    });
    assert_eq!(auth.header(), "bearer 550e8400-e29b-41d4-a716-446655440000");
    assert_eq!(auth.account_id(), AccountId { id: "acc-7".to_string() });
}

#[test]
fn an_identifier_resolves_without_a_lookup() {
    let projects = scripted(vec![]);
    let mut resolver = Resolver::new();
    assert_eq!(
        resolver.plan(&ProjectRef::Id(ProjectId(id(5)))),
        Resolution::Resolved(ProjectId(id(5)))
    );
    let resolved = resolver.resolve(&projects, &ProjectRef::Id(ProjectId(id(5))));
    assert_eq!(resolved, Ok(ProjectId(id(5))));
    assert!(projects.asked.borrow().is_empty());
    assert_eq!(resolver.default_project, None);
}

#[test]
fn a_name_takes_one_lookup_by_that_name() {
    let projects = scripted(vec![Ok(vec![ProjectId(id(8))])]);
    let mut resolver = Resolver::new();
    assert_eq!(
        resolver.plan(&ProjectRef::Name("main".to_string())),
        Resolution::Lookup(ProjectLookup::ByName("main".to_string()))
    );
    let resolved = resolver.resolve(&projects, &ProjectRef::Name("main".to_string()));
    assert_eq!(resolved, Ok(ProjectId(id(8))));
    assert_eq!(*projects.asked.borrow(), vec![ProjectLookup::ByName("main".to_string())]);
    assert_eq!(resolver.default_project, None);
}

#[test]
fn a_name_that_the_backend_does_not_know_is_not_found() {
    let projects = scripted(vec![Err(ProjectError::Status404 {
        message: "no project named ghost".to_string(),
    })]);
    let mut resolver = Resolver::new();
    let resolved = resolver.resolve(&projects, &ProjectRef::Name("ghost".to_string()));
    assert_eq!(resolved, Err(GolemError("Not found: no project named ghost".to_string())));
    assert_eq!(projects.asked.borrow().len(), 1);
}

#[test]
fn a_name_with_no_match_is_not_found() {
    let projects = scripted(vec![Ok(vec![])]);
    let mut resolver = Resolver::new();
    let resolved = resolver.resolve(&projects, &ProjectRef::Name("ghost".to_string()));
    assert_eq!(resolved, Err(GolemError("Not found: project ghost".to_string())));
    assert_eq!(projects.asked.borrow().len(), 1);
}

#[test]
fn of_several_matches_the_first_is_taken() {
    let projects = scripted(vec![Ok(vec![ProjectId(id(3)), ProjectId(id(1)), ProjectId(id(2))])]);
    let mut resolver = Resolver::new();
    let resolved = resolver.resolve(&projects, &ProjectRef::Name("twin".to_string()));
    assert_eq!(resolved, Ok(ProjectId(id(3))));
}

#[test]
fn a_backend_error_keeps_its_kind() {
    let projects = scripted(vec![
        Err(ProjectError::Status500 { error: "db".to_string() }),
        Err(ProjectError::RequestFailure("timed out".to_string())),
        Err(ProjectError::Status403 { error: "too many".to_string() }),
    ]);
    let mut resolver = Resolver::new();
    let name = ProjectRef::Name("p".to_string());
    assert_eq!(
        resolver.resolve(&projects, &name),
        Err(GolemError("Internal server error: db".to_string()))
    );
    assert_eq!(
        resolver.resolve(&projects, &name),
        Err(GolemError("Unexpected request failure: timed out".to_string()))
    );
    assert_eq!(
        resolver.resolve(&projects, &name),
        Err(GolemError("Limit Exceeded: too many".to_string()))
    );
}

#[test]
fn the_default_is_looked_up_once() {
    let projects = scripted(vec![Ok(vec![ProjectId(id(77))])]);
    let mut resolver = Resolver::new();
    assert_eq!(resolver.plan(&ProjectRef::Default), Resolution::Lookup(ProjectLookup::Default));
    assert_eq!(resolver.resolve(&projects, &ProjectRef::Default), Ok(ProjectId(id(77))));
    assert_eq!(resolver.default_project, Some(ProjectId(id(77))));
    assert_eq!(resolver.plan(&ProjectRef::Default), Resolution::Resolved(ProjectId(id(77))));
    assert_eq!(resolver.resolve(&projects, &ProjectRef::Default), Ok(ProjectId(id(77))));
    assert_eq!(*projects.asked.borrow(), vec![ProjectLookup::Default]);
}

#[test]
fn a_known_default_is_not_looked_up() {
    let projects = scripted(vec![]);
    let mut resolver = Resolver { default_project: Some(ProjectId(id(4))) };
    assert_eq!(resolver.resolve(&projects, &ProjectRef::Default), Ok(ProjectId(id(4))));
    assert!(projects.asked.borrow().is_empty());
}

#[test]
fn a_missing_default_is_a_failure_and_is_not_remembered() {
    let projects = scripted(vec![Ok(vec![]), Ok(vec![ProjectId(id(6))])]);
    let mut resolver = Resolver::new();
    assert_eq!(
        resolver.resolve(&projects, &ProjectRef::Default),
        Err(GolemError("Not found: default project".to_string()))
    );
    assert_eq!(resolver.default_project, None);
    assert_eq!(resolver.resolve(&projects, &ProjectRef::Default), Ok(ProjectId(id(6))));
    assert_eq!(projects.asked.borrow().len(), 2);
}

#[test]
fn a_lookup_by_name_does_not_set_the_default() {
    let mut resolver = Resolver::new();
    let found = resolver.conclude(
        &ProjectLookup::ByName("p".to_string()),
        Ok(vec![ProjectId(id(1))]),
    );
    assert_eq!(found, Ok(ProjectId(id(1))));
    assert_eq!(resolver.default_project, None);
    let found = resolver.conclude(&ProjectLookup::Default, Ok(vec![ProjectId(id(2))]));
    assert_eq!(found, Ok(ProjectId(id(2))));
    assert_eq!(resolver.default_project, Some(ProjectId(id(2))));
}
