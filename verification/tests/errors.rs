use golem_cli::errors::{
    AccountError, ComponentError, DeploymentError, GrantError, LoginError, ProjectError,
    ProjectGrantError, ProjectPolicyError, TokenError,
};
use golem_cli::model::{GolemError, GolemResult};

fn text(s: &str) -> String {
    s.to_string()
}

#[test]
fn account_errors_follow_the_table() {
    assert_eq!(
        GolemError::from(AccountError::RequestFailure(text("connection refused"))).0,
        "Unexpected request failure: connection refused"
    );
    assert_eq!(
        GolemError::from(AccountError::InvalidHeaderValue(text("bad byte"))).0,
        "Unexpected invalid header value: bad byte"
    );
    assert_eq!(
        GolemError::from(AccountError::UnexpectedStatus(418)).0,
        "Unexpected status: 418"
    );
    assert_eq!(
        GolemError::from(AccountError::Status404 { message: text("no such account") }).0,
        "Not found: no such account"
    );
    assert_eq!(
        GolemError::from(AccountError::Status400 {
            errors: vec![text("name empty"), text("email invalid")]
        })
        .0,
        "Invalid API call: name empty, email invalid"
    );
    assert_eq!(
        GolemError::from(AccountError::Status500 { error: text("boom") }).0,
        "Internal server error: boom"
    );
}

#[test]
fn token_errors_follow_the_table() {
    assert_eq!(
        GolemError::from(TokenError::RequestFailure(text("timeout"))).0,
        "Unexpected request failure: timeout"
    );
    assert_eq!(
        GolemError::from(TokenError::InvalidHeaderValue(text("x"))).0,
        "Unexpected invalid header value: x"
    );
    assert_eq!(GolemError::from(TokenError::UnexpectedStatus(302)).0, "Unexpected status: 302");
    assert_eq!(
        GolemError::from(TokenError::Status404 { message: text("token") }).0,
        "Not found: token"
    );
    assert_eq!(
        GolemError::from(TokenError::Status400 { errors: vec![text("only one")] }).0,
        "Invalid API call: only one"
    );
    assert_eq!(
        GolemError::from(TokenError::Status500 { error: text("db down") }).0,
        "Internal server error: db down"
    );
}

#[test]
fn component_errors_follow_the_table() {
    assert_eq!(
        GolemError::from(ComponentError::RequestFailure(text("reset"))).0,
        "Unexpected request failure: reset"
    );
    assert_eq!(
        GolemError::from(ComponentError::InvalidHeaderValue(text("h"))).0,
        "Unexpected invalid header value: h"
    );
    assert_eq!(
        GolemError::from(ComponentError::UnexpectedStatus(502)).0,
        "Unexpected status: 502"
    );
    assert_eq!(GolemError::from(ComponentError::Status504).0, "Gateway Timeout");
    assert_eq!(
        GolemError::from(ComponentError::Status404 { message: text("component c1") }).0,
        "Not found: component c1"
    );
    assert_eq!(
        GolemError::from(ComponentError::Status403 { error: text("too many components") }).0,
        "Limit Exceeded: too many components"
    );
    assert_eq!(
        GolemError::from(ComponentError::Status400 { errors: vec![text("a"), text("b"), text("c")] })
            .0,
        "Invalid API call: a, b, c"
    );
    assert_eq!(
        GolemError::from(ComponentError::Status500 { error: text("oops") }).0,
        "Internal server error: oops"
    );
    assert_eq!(
        GolemError::from(ComponentError::Status409 { component_id: text("c-42") }).0,
        "c-42 already exists"
    );
}

#[test]
fn login_errors_follow_the_table() {
    assert_eq!(
        GolemError::from(LoginError::RequestFailure(text("dns"))).0,
        "Unexpected request failure: dns"
    );
    assert_eq!(
        GolemError::from(LoginError::InvalidHeaderValue(text("v"))).0,
        "Unexpected invalid header value: v"
    );
    assert_eq!(GolemError::from(LoginError::UnexpectedStatus(429)).0, "Unexpected status: 429");
    assert_eq!(
        GolemError::from(LoginError::Status403 { error: text("ignored") }).0,
        "At the moment account creation is restricted.\nNone of your verified emails is whitelisted.\nPlease contact us to create an account.\n"
    );
    assert_eq!(
        GolemError::from(LoginError::Status500 { error: text("down") }).0,
        "Internal server error on Login: down"
    );
    assert_eq!(
        GolemError::from(LoginError::Status401 { error: text("github said no") }).0,
        "External service call error on Login: github said no"
    );
}

#[test]
fn project_errors_follow_the_table() {
    assert_eq!(
        GolemError::from(ProjectError::RequestFailure(text("r"))).0,
        "Unexpected request failure: r"
    );
    assert_eq!(
        GolemError::from(ProjectError::InvalidHeaderValue(text("i"))).0,
        "Unexpected invalid header value: i"
    );
    assert_eq!(GolemError::from(ProjectError::UnexpectedStatus(0)).0, "Unexpected status: 0");
    assert_eq!(
        GolemError::from(ProjectError::Status404 { message: text("p") }).0,
        "Not found: p"
    );
    assert_eq!(
        GolemError::from(ProjectError::Status400 { errors: vec![] }).0,
        "Invalid API call: "
    );
    assert_eq!(
        GolemError::from(ProjectError::Status403 { error: text("quota") }).0,
        "Limit Exceeded: quota"
    );
    assert_eq!(
        GolemError::from(ProjectError::Status500 { error: text("e") }).0,
        "Internal server error: e"
    );
}

#[test]
fn grant_errors_follow_the_table() {
    assert_eq!(
        GolemError::from(GrantError::RequestFailure(text("r"))).0,
        "Unexpected request failure: r"
    );
    assert_eq!(
        GolemError::from(GrantError::InvalidHeaderValue(text("i"))).0,
        "Unexpected invalid header value: i"
    );
    assert_eq!(GolemError::from(GrantError::UnexpectedStatus(65535)).0, "Unexpected status: 65535");
    assert_eq!(GolemError::from(GrantError::Status404 { message: text("g") }).0, "Not found: g");
    assert_eq!(
        GolemError::from(GrantError::Status400 { errors: vec![text("role unknown")] }).0,
        "Invalid API call: role unknown"
    );
    assert_eq!(
        GolemError::from(GrantError::Status500 { error: text("e") }).0,
        "Internal server error: e"
    );
}

#[test]
fn project_policy_errors_follow_the_table() {
    assert_eq!(
        GolemError::from(ProjectPolicyError::RequestFailure(text("r"))).0,
        "Unexpected request failure: r"
    );
    assert_eq!(
        GolemError::from(ProjectPolicyError::InvalidHeaderValue(text("i"))).0,
        "Unexpected invalid header value: i"
    );
    assert_eq!(
        GolemError::from(ProjectPolicyError::UnexpectedStatus(100)).0,
        "Unexpected status: 100"
    );
    assert_eq!(
        GolemError::from(ProjectPolicyError::Status404 { message: text("policy") }).0,
        "Not found: policy"
    );
    assert_eq!(
        GolemError::from(ProjectPolicyError::Status400 { errors: vec![text("x"), text("y")] }).0,
        "Invalid API call: x, y"
    );
    assert_eq!(
        GolemError::from(ProjectPolicyError::Status403 { error: text("l") }).0,
        "Limit Exceeded: l"
    );
    assert_eq!(
        GolemError::from(ProjectPolicyError::Status500 { error: text("e") }).0,
        "Internal server error: e"
    );
}

#[test]
fn project_grant_errors_follow_the_table() {
    assert_eq!(
        GolemError::from(ProjectGrantError::RequestFailure(text("r"))).0,
        "Unexpected request failure: r"
    );
    assert_eq!(
        GolemError::from(ProjectGrantError::InvalidHeaderValue(text("i"))).0,
        "Unexpected invalid header value: i"
    );
    assert_eq!(
        GolemError::from(ProjectGrantError::UnexpectedStatus(9)).0,
        "Unexpected status: 9"
    );
    assert_eq!(
        GolemError::from(ProjectGrantError::Status404 { message: text("grant") }).0,
        "Not found: grant"
    );
    assert_eq!(
        GolemError::from(ProjectGrantError::Status400 { errors: vec![text("x")] }).0,
        "Invalid API call: x"
    );
    assert_eq!(
        GolemError::from(ProjectGrantError::Status403 { error: text("l") }).0,
        "Limit Exceeded: l"
    );
    assert_eq!(
        GolemError::from(ProjectGrantError::Status500 { error: text("e") }).0,
        "Internal server error: e"
    );
}

#[test]
fn deployment_errors_follow_the_table() {
    assert_eq!(
        GolemError::from(DeploymentError::RequestFailure(text("r"))).0,
        "Unexpected request failure: r"
    );
    assert_eq!(
        GolemError::from(DeploymentError::InvalidHeaderValue(text("i"))).0,
        "Unexpected invalid header value: i"
    );
    assert_eq!(
        GolemError::from(DeploymentError::UnexpectedStatus(409)).0,
        "Unexpected status: 409"
    );
    assert_eq!(
        GolemError::from(DeploymentError::Status404 { message: text("deployment") }).0,
        "Not found: deployment"
    );
    assert_eq!(
        GolemError::from(DeploymentError::Status400 { errors: vec![text("site.host invalid")] }).0,
        "Invalid API call: site.host invalid"
    );
    assert_eq!(
        GolemError::from(DeploymentError::Status403 { error: text("l") }).0,
        "Limit Exceeded: l"
    );
    assert_eq!(
        GolemError::from(DeploymentError::Status500 { error: text("e") }).0,
        "Internal server error: e"
    );
}

#[test]
fn the_same_condition_reads_the_same_in_every_family() {
    let a = GolemError::from(AccountError::Status404 { message: text("thing") });
    let p = GolemError::from(ProjectError::Status404 { message: text("thing") });
    let c = GolemError::from(ComponentError::Status404 { message: text("thing") });
    assert_eq!(a, p);
    assert_eq!(p, c);
    let again = GolemError::from(AccountError::Status404 { message: text("thing") });
    assert_eq!(a, again);
}

#[test]
fn no_normalised_message_is_empty() {
    assert!(!GolemError::from(ProjectError::Status404 { message: text("") }).0.is_empty());
    assert!(!GolemError::from(ProjectError::Status400 { errors: vec![] }).0.is_empty());
    assert!(!GolemError::from(ComponentError::Status409 { component_id: text("") }).0.is_empty());
    assert!(!GolemError::from(LoginError::Status403 { error: text("") }).0.is_empty());
    assert!(!GolemError::from(ComponentError::Status504).0.is_empty());
}

#[test]
fn into_gives_the_same_error_as_from() {
    let e: GolemError = TokenError::Status500 { error: text("e") }.into();
    assert_eq!(e, GolemError(text("Internal server error: e")));
}

#[test]
fn golem_error_shows_its_message() {
    let e = GolemError(text("Not found: x"));
    assert_eq!(e.to_string(), "Not found: x");
    assert_eq!(e.description(), "Not found: x");
    assert_eq!(e.clone(), e);
}

#[test]
fn err_wraps_the_message() {
    match GolemResult::err(text("failed")) {
        Err(e) => assert_eq!(e, GolemError(text("failed"))),
        Ok(_) => panic!("err returned a result"),
    }
}
