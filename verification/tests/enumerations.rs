use golem_cli::model::{Format, ProjectAction, Role};
use std::str::FromStr;

#[test]
fn format_parsing() {
    assert_eq!(Format::from_str("json"), Ok(Format::Json));
    assert_eq!(Format::from_str("yaml"), Ok(Format::Yaml));
    assert_eq!(
        Format::from_str("JSON"),
        Err("Unknown format: JSON. Expected one of \"json\", \"yaml\"".to_string())
    );
    assert_eq!(
        Format::from_str(""),
        Err("Unknown format: . Expected one of \"json\", \"yaml\"".to_string())
    );
    assert_eq!(
        Format::from_str("json "),
        Err("Unknown format: json . Expected one of \"json\", \"yaml\"".to_string())
    );
}

#[test]
fn format_parses_through_the_std_trait() {
    assert_eq!("yaml".parse::<Format>(), Ok(Format::Yaml));
    assert_eq!(<Format as FromStr>::from_str("json"), Ok(Format::Json));
    assert!("Yaml".parse::<Format>().is_err());
}

#[test]
fn format_names_round_trip() {
    assert_eq!(Format::all(), vec![Format::Json, Format::Yaml]);
    assert_eq!(Format::names(), vec!["json".to_string(), "yaml".to_string()]);
    for f in Format::all() {
        assert_eq!(Format::from_str(&f.to_string()), Ok(f));
        assert_eq!(f.as_str(), f.to_string());
    }
    assert_eq!(Format::Json.to_string(), "json");
    assert_eq!(Format::Yaml.to_string(), "yaml");
}

#[test]
fn role_parsing() {
    assert_eq!(Role::from_str("Admin"), Ok(Role::Admin));
    assert_eq!(
        Role::from_str("admin"),
        Err("Unknown role: admin. Expected one of \"Admin\", \"WhitelistAdmin\", \"MarketingAdmin\", \"ViewProject\", \"DeleteProject\", \"CreateProject\", \"InstanceServer\"".to_string())
    );
    assert_eq!(Role::from_str("WhitelistAdmin"), Ok(Role::WhitelistAdmin));
    assert_eq!(Role::from_str("MarketingAdmin"), Ok(Role::MarketingAdmin));
    assert_eq!(Role::from_str("ViewProject"), Ok(Role::ViewProject));
    assert_eq!(Role::from_str("DeleteProject"), Ok(Role::DeleteProject));
    assert_eq!(Role::from_str("CreateProject"), Ok(Role::CreateProject));
    assert_eq!(Role::from_str("InstanceServer"), Ok(Role::InstanceServer));
    assert!(Role::from_str("ViewComponent").is_err());
}

#[test]
fn role_names_round_trip() {
    let all = Role::all();
    assert_eq!(all.len(), 7);
    assert_eq!(
        Role::names(),
        vec![
            "Admin".to_string(),
            "WhitelistAdmin".to_string(),
            "MarketingAdmin".to_string(),
            "ViewProject".to_string(),
            "DeleteProject".to_string(),
            "CreateProject".to_string(),
            "InstanceServer".to_string()
        ]
    );
    for r in all {
        assert_eq!(Role::from_str(&r.to_string()), Ok(r));
        assert_eq!(r.to_string().parse::<Role>(), Ok(r));
    }
}

#[test]
fn role_failure_lists_all_seven_names() {
    let message = Role::from_str("Root").unwrap_err();
    for name in Role::names() {
        assert!(message.contains(&format!("\"{}\"", name)));
    }
    assert!(message.starts_with("Unknown role: Root. Expected one of "));
}

#[test]
fn action_parsing() {
    assert_eq!(ProjectAction::from_str("ViewComponent"), Ok(ProjectAction::ViewComponent));
    assert_eq!(ProjectAction::from_str("CreateComponent"), Ok(ProjectAction::CreateComponent));
    assert_eq!(ProjectAction::from_str("UpdateComponent"), Ok(ProjectAction::UpdateComponent));
    assert_eq!(ProjectAction::from_str("DeleteComponent"), Ok(ProjectAction::DeleteComponent));
    assert_eq!(ProjectAction::from_str("ViewInstance"), Ok(ProjectAction::ViewInstance));
    assert_eq!(ProjectAction::from_str("CreateInstance"), Ok(ProjectAction::CreateInstance));
    assert_eq!(ProjectAction::from_str("UpdateInstance"), Ok(ProjectAction::UpdateInstance));
    assert_eq!(ProjectAction::from_str("DeleteInstance"), Ok(ProjectAction::DeleteInstance));
    assert_eq!(ProjectAction::from_str("ViewProjectGrants"), Ok(ProjectAction::ViewProjectGrants));
    assert_eq!(
        ProjectAction::from_str("CreateProjectGrants"),
        Ok(ProjectAction::CreateProjectGrants)
    );
    assert_eq!(
        ProjectAction::from_str("DeleteProjectGrants"),
        Ok(ProjectAction::DeleteProjectGrants)
    );
    assert_eq!(
        ProjectAction::from_str("viewcomponent"),
        Err("Unknown action: viewcomponent. Expected one of \"ViewComponent\", \"CreateComponent\", \"UpdateComponent\", \"DeleteComponent\", \"ViewInstance\", \"CreateInstance\", \"UpdateInstance\", \"DeleteInstance\", \"ViewProjectGrants\", \"CreateProjectGrants\", \"DeleteProjectGrants\"".to_string())
    );
}

#[test]
fn action_names_round_trip() {
    let all = ProjectAction::all();
    assert_eq!(all.len(), 11);
    for a in all {
        assert_eq!(ProjectAction::from_str(a.as_str()), Ok(a));
        assert_eq!(a.to_string().parse::<ProjectAction>(), Ok(a));
    }
    assert_eq!(ProjectAction::ViewProjectGrants.to_string(), "ViewProjectGrants");
}
