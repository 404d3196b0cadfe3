use figgit::commands::{
    delete_workspace, import_source, import_workspace, new_workspace, status, update_workspace,
    use_workspace, view_workspace, UpdateOutcome,
};
use figgit::config::Config;
use figgit::git::Source;
use figgit::model::ConfigError;

#[test]
fn test_new_workspace_creates_config() {
    let mut config = Config::default();
    config
        .add_workspace("test", "Test User", "test@example.com")
        .unwrap();

    assert!(config.get_workspace("test").is_ok());
}

#[test]
fn test_update_workspace_modifies_existing() {
    let mut config = Config::default();
    config
        .add_workspace("test", "Test User", "test@example.com")
        .unwrap();
    config
        .update_workspace("test", Some("New Name"), None)
        .unwrap();

    let workspace = config.get_workspace("test").unwrap();
    assert_eq!(workspace.name, "New Name");
    assert_eq!(workspace.email, "test@example.com");
}

#[test]
fn test_delete_workspace_removes_config() {
    let mut config = Config::default();
    config
        .add_workspace("test", "Test User", "test@example.com")
        .unwrap();
    config.delete_workspace("test").unwrap();

    assert!(config.get_workspace("test").is_err());
}

#[test]
fn test_import_workspace_duplicate_name() {
    // Test that importing with a duplicate workspace name fails
    let mut config = Config::default();
    config
        .add_workspace("existing", "Existing User", "existing@example.com")
        .unwrap();

    // Attempting to add another workspace with the same name should fail
    let result = config.add_workspace("existing", "New User", "new@example.com");
    assert!(
        result.is_err(),
        "Should fail when workspace name already exists"
    );
}

#[test]
fn update_reports_when_there_is_nothing_to_change() {
    let mut config = Config::default();
    config
        .add_workspace("test", "Test User", "test@example.com")
        .unwrap();
    let no_changes =
        vec!["No changes specified. Use --name and/or --email to update the workspace.".to_string()];
    assert_eq!(
        update_workspace(&mut config, "test", None, None, Vec::new(), false),
        Ok((UpdateOutcome::NoChanges, no_changes.clone()))
    );
    assert_eq!(
        update_workspace(&mut config, "absent", None, None, Vec::new(), false),
        Ok((UpdateOutcome::NoChanges, no_changes))
    );
    let workspace = config.get_workspace("test").unwrap();
    assert_eq!(workspace.name, "Test User");
    assert_eq!(workspace.email, "test@example.com");

    assert_eq!(
        update_workspace(&mut config, "test", None, Some("new@example.com"), Vec::new(), false),
        Ok((
            UpdateOutcome::Updated,
            vec![
                "✓ Updated workspace 'test'".to_string(),
                "  Name:  Test User".to_string(),
                "  Email: new@example.com".to_string(),
            ]
        ))
    );
    assert_eq!(config.get_workspace("test").unwrap().email, "new@example.com");
    assert_eq!(
        update_workspace(&mut config, "absent", Some("Name"), None, Vec::new(), false),
        Err(ConfigError::WorkspaceNotFound)
    );
    assert_eq!(config.workspaces.len(), 1);
}

#[test]
fn update_takes_patterns_along() {
    let mut config = Config::default();
    config
        .add_workspace("test", "Test User", "test@example.com")
        .unwrap();
    let shown = vec![
        "✓ Updated workspace 'test'".to_string(),
        "  Name:  Test User".to_string(),
        "  Email: test@example.com".to_string(),
    ];
    assert_eq!(
        update_workspace(&mut config, "test", None, None, vec!["a/*".to_string()], false),
        Ok((UpdateOutcome::Updated, shown.clone()))
    );
    assert_eq!(config.get_workspace("test").unwrap().patterns, vec!["a/*"]);
    assert_eq!(
        update_workspace(
            &mut config,
            "test",
            Some("New Name"),
            None,
            vec!["a/*".to_string(), "b/*".to_string()],
            false
        ),
        Ok((
            UpdateOutcome::Updated,
            vec![
                "✓ Updated workspace 'test'".to_string(),
                "  Name:  New Name".to_string(),
                "  Email: test@example.com".to_string(),
            ]
        ))
    );
    assert_eq!(config.get_workspace("test").unwrap().patterns, vec!["a/*", "b/*"]);
    assert_eq!(
        update_workspace(&mut config, "test", None, None, Vec::new(), true).map(|r| r.0),
        Ok(UpdateOutcome::Updated)
    );
    assert!(config.get_workspace("test").unwrap().patterns.is_empty());
    assert_eq!(
        update_workspace(&mut config, "absent", None, None, vec!["a/*".to_string()], false),
        Err(ConfigError::WorkspaceNotFound)
    );
    assert_eq!(
        update_workspace(&mut config, "absent", None, None, Vec::new(), true),
        Err(ConfigError::WorkspaceNotFound)
    );
}

#[test]
fn import_prefers_the_path_then_the_global_flag() {
    assert_eq!(
        import_source(true, Some("/srv/repo")),
        Source::Repository("/srv/repo".to_string())
    );
    assert_eq!(
        import_source(false, Some("/srv/repo")),
        Source::Repository("/srv/repo".to_string())
    );
    assert_eq!(import_source(true, None), Source::Global);
    assert_eq!(import_source(false, None), Source::Local);
}

#[test]
fn new_and_import_confirm_what_they_added() {
    let mut config = Config::default();
    assert_eq!(
        new_workspace(&mut config, "work", "John Doe", "john@work.com"),
        Ok(vec![
            "✓ Created workspace 'work'".to_string(),
            "  Name:  John Doe".to_string(),
            "  Email: john@work.com".to_string(),
        ])
    );
    assert_eq!(
        import_workspace(&mut config, "home", "Jane Doe", "jane@home.org"),
        Ok(vec![
            "✓ Imported workspace 'home'".to_string(),
            "  Name:  Jane Doe".to_string(),
            "  Email: jane@home.org".to_string(),
        ])
    );
    assert_eq!(config.workspace_names(), vec!["home", "work"]);
    assert_eq!(
        new_workspace(&mut config, "home", "X", "x@y"),
        Err(ConfigError::DuplicateWorkspace)
    );
    assert_eq!(
        import_workspace(&mut config, "work", "X", "x@y"),
        Err(ConfigError::DuplicateWorkspace)
    );
    assert_eq!(config.get_workspace("home").unwrap().name, "Jane Doe");
    assert_eq!(config.get_workspace("work").unwrap().email, "john@work.com");
}

#[test]
fn delete_and_use_confirm_or_refuse() {
    let mut config = Config::default();
    config.add_workspace("work", "John Doe", "john@work.com").unwrap();
    assert_eq!(
        use_workspace(&config, "work"),
        Ok((
            "John Doe".to_string(),
            "john@work.com".to_string(),
            vec![
                "✓ Applied workspace 'work' to local git config".to_string(),
                "  Name:  John Doe".to_string(),
                "  Email: john@work.com".to_string(),
            ]
        ))
    );
    assert_eq!(use_workspace(&config, "home"), Err(ConfigError::WorkspaceNotFound));
    assert_eq!(
        delete_workspace(&mut config, "home"),
        Err(ConfigError::WorkspaceNotFound)
    );
    assert_eq!(
        delete_workspace(&mut config, "work"),
        Ok("✓ Deleted workspace 'work'".to_string())
    );
    assert!(config.workspaces.is_empty());
}

#[test]
fn view_shows_one_workspace_or_all() {
    let mut config = Config::default();
    let empty = vec![
        "No workspaces configured.".to_string(),
        "Use 'figgit new <workspace> --name <name> --email <email>' to create one.".to_string(),
    ];
    assert_eq!(view_workspace(&config, None), Ok(empty.clone()));
    assert_eq!(view_workspace(&config, Some("work")), Ok(empty));

    config.add_workspace("work", "John Doe", "john@work.com").unwrap();
    config.add_workspace("personal", "Jane Doe", "jane@personal.com").unwrap();
    config
        .update_workspace_patterns("work", vec!["github.com/company/*".to_string()], false)
        .unwrap();
    assert_eq!(
        view_workspace(&config, Some("work")),
        Ok(vec![
            "Workspace: work".to_string(),
            "  Name:  John Doe".to_string(),
            "  Email: john@work.com".to_string(),
        ])
    );
    assert_eq!(
        view_workspace(&config, Some("home")),
        Err(ConfigError::WorkspaceNotFound)
    );
    assert_eq!(
        view_workspace(&config, None),
        Ok(vec![
            "Configured workspaces:".to_string(),
            "".to_string(),
            "  personal:".to_string(),
            "    Name:  Jane Doe".to_string(),
            "    Email: jane@personal.com".to_string(),
            "".to_string(),
            "  work:".to_string(),
            "    Name:  John Doe".to_string(),
            "    Email: john@work.com".to_string(),
            "".to_string(),
        ])
    );
}

#[test]
fn status_names_the_matching_workspace() {
    let mut config = Config::default();
    config.add_workspace("work", "John Doe", "john@work.com").unwrap();
    config.add_workspace("personal", "Jane Doe", "jane@personal.com").unwrap();

    let found = status(
        &config,
        Some(("Jane Doe".to_string(), "jane@personal.com".to_string())),
    );
    assert_eq!(found.current_name.as_deref(), Some("Jane Doe"));
    assert_eq!(found.current_email.as_deref(), Some("jane@personal.com"));
    assert_eq!(found.matching_workspace.as_deref(), Some("personal"));
    assert_eq!(found.available_workspaces, vec!["personal", "work"]);

    let stranger = status(
        &config,
        Some(("Unknown".to_string(), "unknown@example.com".to_string())),
    );
    assert_eq!(stranger.current_name.as_deref(), Some("Unknown"));
    assert_eq!(stranger.matching_workspace, None);
    assert_eq!(stranger.available_workspaces, vec!["personal", "work"]);

    let unread = status(&config, None);
    assert_eq!(unread.current_name, None);
    assert_eq!(unread.current_email, None);
    assert_eq!(unread.matching_workspace, None);
    assert_eq!(unread.available_workspaces, vec!["personal", "work"]);
}
