use figgit::config::{Config, StoredFile, WorkspaceConfig};
use figgit::model::{ConfigError, PersistError};

#[test]
fn test_add_workspace() {
    let mut config = Config::default();
    config
        .add_workspace("work", "John Doe", "john@work.com")
        .unwrap();

    assert_eq!(config.workspaces.len(), 1);
    let workspace = config.get_workspace("work").unwrap();
    assert_eq!(workspace.name, "John Doe");
    assert_eq!(workspace.email, "john@work.com");
}

#[test]
fn test_add_duplicate_workspace() {
    let mut config = Config::default();
    config
        .add_workspace("work", "John Doe", "john@work.com")
        .unwrap();

    let result = config.add_workspace("work", "Jane Doe", "jane@work.com");
    assert!(result.is_err());
}

#[test]
fn test_update_workspace() {
    let mut config = Config::default();
    config
        .add_workspace("work", "John Doe", "john@work.com")
        .unwrap();

    config
        .update_workspace("work", Some("Jane Doe"), None)
        .unwrap();
    let workspace = config.get_workspace("work").unwrap();
    assert_eq!(workspace.name, "Jane Doe");
    assert_eq!(workspace.email, "john@work.com");

    config
        .update_workspace("work", None, Some("jane@work.com"))
        .unwrap();
    let workspace = config.get_workspace("work").unwrap();
    assert_eq!(workspace.name, "Jane Doe");
    assert_eq!(workspace.email, "jane@work.com");
}

#[test]
fn test_update_nonexistent_workspace() {
    let mut config = Config::default();
    let result = config.update_workspace("work", Some("John Doe"), None);
    assert!(result.is_err());
}

#[test]
fn test_delete_workspace() {
    let mut config = Config::default();
    config
        .add_workspace("work", "John Doe", "john@work.com")
        .unwrap();

    config.delete_workspace("work").unwrap();
    assert_eq!(config.workspaces.len(), 0);
}

#[test]
fn test_delete_nonexistent_workspace() {
    let mut config = Config::default();
    let result = config.delete_workspace("work");
    assert!(result.is_err());
}

#[test]
fn test_find_matching_workspace() {
    let mut config = Config::default();
    config
        .add_workspace("work", "John Doe", "john@work.com")
        .unwrap();
    config
        .add_workspace("personal", "John Smith", "john@personal.com")
        .unwrap();

    let result = config.find_matching_workspace("John Doe", "john@work.com");
    assert!(result.is_some());
    let (name, _) = result.unwrap();
    assert_eq!(name, "work");

    let result = config.find_matching_workspace("Unknown", "unknown@example.com");
    assert!(result.is_none());
}

#[test]
fn test_update_workspace_patterns_append() {
    let mut config = Config::default();
    config
        .add_workspace("work", "John Doe", "john@work.com")
        .unwrap();

    // Append patterns
    config
        .update_workspace_patterns("work", vec!["github.com/company/*".to_string()], false)
        .unwrap();

    let workspace = config.get_workspace("work").unwrap();
    assert_eq!(workspace.patterns.len(), 1);
    assert_eq!(workspace.patterns[0], "github.com/company/*");

    // Append more patterns
    config
        .update_workspace_patterns(
            "work",
            vec![
                "gitlab.company.com/*".to_string(),
                "bitbucket.org/company/*".to_string(),
            ],
            false,
        )
        .unwrap();

    let workspace = config.get_workspace("work").unwrap();
    assert_eq!(workspace.patterns.len(), 3);
    assert!(workspace
        .patterns
        .contains(&"github.com/company/*".to_string()));
    assert!(workspace
        .patterns
        .contains(&"gitlab.company.com/*".to_string()));
    assert!(workspace
        .patterns
        .contains(&"bitbucket.org/company/*".to_string()));
}

#[test]
fn test_update_workspace_patterns_no_duplicates() {
    let mut config = Config::default();
    config
        .add_workspace("work", "John Doe", "john@work.com")
        .unwrap();

    // Add pattern twice
    config
        .update_workspace_patterns("work", vec!["github.com/company/*".to_string()], false)
        .unwrap();
    config
        .update_workspace_patterns("work", vec!["github.com/company/*".to_string()], false)
        .unwrap();

    let workspace = config.get_workspace("work").unwrap();
    assert_eq!(workspace.patterns.len(), 1);
}

#[test]
fn test_update_workspace_patterns_reset() {
    let mut config = Config::default();
    config
        .add_workspace("work", "John Doe", "john@work.com")
        .unwrap();

    // Add initial patterns
    config
        .update_workspace_patterns(
            "work",
            vec![
                "github.com/old/*".to_string(),
                "gitlab.com/old/*".to_string(),
            ],
            false,
        )
        .unwrap();

    let workspace = config.get_workspace("work").unwrap();
    assert_eq!(workspace.patterns.len(), 2);

    // Reset with new patterns
    config
        .update_workspace_patterns("work", vec!["github.com/new/*".to_string()], true)
        .unwrap();

    let workspace = config.get_workspace("work").unwrap();
    assert_eq!(workspace.patterns.len(), 1);
    assert_eq!(workspace.patterns[0], "github.com/new/*");
}

#[test]
fn add_refuses_a_duplicate_and_keeps_the_first() {
    let mut config = Config::default();
    config
        .add_workspace("work", "John Doe", "john@work.com")
        .unwrap();
    let result = config.add_workspace("work", "Jane Doe", "jane@work.com");
    assert_eq!(result, Err(ConfigError::DuplicateWorkspace));
    assert_eq!(config.workspaces.len(), 1);
    let workspace = config.get_workspace("work").unwrap();
    assert_eq!(workspace.name, "John Doe");
    assert_eq!(workspace.email, "john@work.com");
    assert!(workspace.patterns.is_empty());
}

#[test]
fn update_of_an_absent_name_changes_nothing() {
    let mut config = Config::default();
    config
        .add_workspace("work", "John Doe", "john@work.com")
        .unwrap();
    let result = config.update_workspace("home", Some("Jane Doe"), Some("jane@home.org"));
    assert_eq!(result, Err(ConfigError::WorkspaceNotFound));
    assert_eq!(config.workspaces.len(), 1);
    let workspace = config.get_workspace("work").unwrap();
    assert_eq!(workspace.name, "John Doe");
    assert_eq!(workspace.email, "john@work.com");
}

#[test]
fn update_without_fields_keeps_the_workspace() {
    let mut config = Config::default();
    config
        .add_workspace("work", "John Doe", "john@work.com")
        .unwrap();
    config
        .update_workspace_patterns("work", vec!["github.com/company/*".to_string()], false)
        .unwrap();
    assert_eq!(config.update_workspace("work", None, None), Ok(()));
    let workspace = config.get_workspace("work").unwrap();
    assert_eq!(workspace.name, "John Doe");
    assert_eq!(workspace.email, "john@work.com");
    assert_eq!(workspace.patterns, vec!["github.com/company/*".to_string()]);
}

#[test]
fn get_and_delete_report_an_absent_name() {
    let mut config = Config::default();
    assert_eq!(
        config.get_workspace("work").err(),
        Some(ConfigError::WorkspaceNotFound)
    );
    assert_eq!(
        config.delete_workspace("work"),
        Err(ConfigError::WorkspaceNotFound)
    );
    assert_eq!(
        config.update_workspace_patterns("work", vec!["a/*".to_string()], true),
        Err(ConfigError::WorkspaceNotFound)
    );
}

#[test]
fn create_two_then_delete_one() {
    let mut config = Config::default();
    assert!(config.workspaces.is_empty());
    config
        .add_workspace("work", "John Doe", "john@work.com")
        .unwrap();
    config
        .add_workspace("personal", "Jane Doe", "jane@personal.com")
        .unwrap();
    assert_eq!(config.workspaces.len(), 2);

    config.delete_workspace("work").unwrap();
    assert_eq!(config.workspaces.len(), 1);
    assert!(config.get_workspace("work").is_err());
    let personal = config.get_workspace("personal").unwrap();
    assert_eq!(personal.name, "Jane Doe");
    assert_eq!(personal.email, "jane@personal.com");
}

#[test]
fn workspaces_are_kept_in_the_order_of_names() {
    let mut config = Config::default();
    for name in ["work", "alpha", "zeta", "Work", "personal", "álpha", "wor"] {
        config.add_workspace(name, "Someone", "someone@example.com").unwrap();
    }
    assert_eq!(
        config.workspace_names(),
        vec!["Work", "alpha", "personal", "wor", "work", "zeta", "álpha"]
    );
    let mut sorted = config.workspace_names();
    sorted.sort();
    assert_eq!(config.workspace_names(), sorted);
}

#[test]
fn the_first_match_is_the_smallest_name() {
    let mut config = Config::default();
    config.add_workspace("work", "John Doe", "john@work.com").unwrap();
    config.add_workspace("office", "John Doe", "john@work.com").unwrap();
    config.add_workspace("home", "John Doe", "john@home.org").unwrap();
    let (name, workspace) = config
        .find_matching_workspace("John Doe", "john@work.com")
        .unwrap();
    assert_eq!(name, "office");
    assert_eq!(workspace.email, "john@work.com");
    assert!(config.find_matching_workspace("John Doe", "john@office.com").is_none());
    assert!(config.find_matching_workspace("john doe", "john@work.com").is_none());
}

#[test]
fn reset_keeps_repeated_patterns_and_append_does_not() {
    let mut config = Config::default();
    config.add_workspace("work", "John Doe", "john@work.com").unwrap();
    config
        .update_workspace_patterns(
            "work",
            vec!["a/*".to_string(), "b/*".to_string(), "a/*".to_string()],
            false,
        )
        .unwrap();
    assert_eq!(
        config.get_workspace("work").unwrap().patterns,
        vec!["a/*".to_string(), "b/*".to_string()]
    );
    config
        .update_workspace_patterns(
            "work",
            vec!["c/*".to_string(), "c/*".to_string()],
            true,
        )
        .unwrap();
    assert_eq!(
        config.get_workspace("work").unwrap().patterns,
        vec!["c/*".to_string(), "c/*".to_string()]
    );
    config
        .update_workspace_patterns("work", vec!["b/*".to_string(), "c/*".to_string()], false)
        .unwrap();
    assert_eq!(
        config.get_workspace("work").unwrap().patterns,
        vec!["c/*".to_string(), "c/*".to_string(), "b/*".to_string()]
    );
    config.update_workspace_patterns("work", Vec::new(), true).unwrap();
    assert!(config.get_workspace("work").unwrap().patterns.is_empty());
}

#[test]
fn a_store_is_rebuilt_from_its_entries() {
    let mut config = Config::default();
    config.add_workspace("work", "John Doe", "john@work.com").unwrap();
    config.add_workspace("personal", "Jane Doe", "jane@personal.com").unwrap();
    config
        .update_workspace_patterns("work", vec!["github.com/company/*".to_string()], false)
        .unwrap();

    let rebuilt = Config::from_entries(&config.workspaces).unwrap();
    assert_eq!(rebuilt.workspaces, config.workspaces);

    let mut shuffled = config.workspaces.clone();
    shuffled.reverse();
    let rebuilt = Config::from_entries(&shuffled).unwrap();
    assert_eq!(rebuilt.workspaces, config.workspaces);
    assert!(rebuilt.is_well_formed());

    shuffled.push(shuffled[0].clone());
    assert_eq!(
        Config::from_entries(&shuffled).err(),
        Some(ConfigError::DuplicateWorkspace)
    );
    assert!(Config::from_entries(&Vec::new()).unwrap().workspaces.is_empty());
}

#[test]
fn only_a_sorted_store_is_well_formed() {
    let workspace = WorkspaceConfig {
        name: "John Doe".to_string(),
        email: "john@work.com".to_string(),
        patterns: Vec::new(),
    };
    assert!(Config::default().is_well_formed());
    let one = Config { workspaces: vec![("work".to_string(), workspace.clone())] };
    assert!(one.is_well_formed());
    let sorted = Config {
        workspaces: vec![
            ("a".to_string(), workspace.clone()),
            ("b".to_string(), workspace.clone()),
            ("c".to_string(), workspace.clone()),
        ],
    };
    assert!(sorted.is_well_formed());
    let unsorted = Config {
        workspaces: vec![
            ("a".to_string(), workspace.clone()),
            ("c".to_string(), workspace.clone()),
            ("b".to_string(), workspace.clone()),
        ],
    };
    assert!(!unsorted.is_well_formed());
    let repeated = Config {
        workspaces: vec![
            ("a".to_string(), workspace.clone()),
            ("a".to_string(), workspace.clone()),
        ],
    };
    assert!(!repeated.is_well_formed());
    assert_eq!(workspace.duplicate(), workspace);
}

#[test]
fn insert_keeps_the_workspace_as_given() {
    let mut config = Config::default();
    let workspace = WorkspaceConfig {
        name: "John Doe".to_string(),
        email: "john@work.com".to_string(),
        patterns: vec!["a/*".to_string(), "a/*".to_string()],
    };
    assert_eq!(config.insert_workspace("work".to_string(), workspace.clone()), Ok(()));
    assert_eq!(config.get_workspace("work"), Ok(&workspace));
    assert_eq!(
        config.insert_workspace("work".to_string(), workspace.clone()),
        Err(ConfigError::DuplicateWorkspace)
    );
    assert_eq!(config.workspaces.len(), 1);
}

#[test]
fn loading_without_a_file_gives_an_empty_store() {
    let config = Config::load(&StoredFile::Missing).unwrap();
    assert!(config.workspaces.is_empty());
    assert_eq!(
        Config::load(&StoredFile::Unreadable).err(),
        Some(PersistError::Read)
    );
    assert_eq!(
        Config::load(&StoredFile::Unparsable).err(),
        Some(PersistError::Parse)
    );
    let workspace = WorkspaceConfig {
        name: "John Doe".to_string(),
        email: "john@work.com".to_string(),
        patterns: vec!["a/*".to_string()],
    };
    let parsed = StoredFile::Parsed(vec![
        ("work".to_string(), workspace.clone()),
        ("home".to_string(), workspace.clone()),
    ]);
    let config = Config::load(&parsed).unwrap();
    assert_eq!(config.workspace_names(), vec!["home", "work"]);
    assert_eq!(config.get_workspace("work"), Ok(&workspace));
    let twice = StoredFile::Parsed(vec![
        ("work".to_string(), workspace.clone()),
        ("work".to_string(), workspace.clone()),
    ]);
    assert_eq!(Config::load(&twice).err(), Some(PersistError::Parse));
}

#[test]
fn what_was_saved_is_loaded_again() {
    let mut config = Config::default();
    assert_eq!(config.save(), StoredFile::Parsed(Vec::new()));
    config.add_workspace("work", "John Doe", "john@work.com").unwrap();
    config.add_workspace("personal", "Jane Doe", "jane@personal.com").unwrap();
    config
        .update_workspace_patterns(
            "personal",
            vec!["github.com/jane/*".to_string(), "gitlab.com/jane/*".to_string()],
            false,
        )
        .unwrap();
    let saved = config.save();
    assert_eq!(saved, StoredFile::Parsed(config.workspaces.clone()));
    let loaded = Config::load(&saved).unwrap();
    assert_eq!(loaded.workspaces, config.workspaces);
    assert_eq!(loaded.workspaces.len(), 2);
    assert_eq!(
        loaded.get_workspace("personal").unwrap().patterns,
        vec!["github.com/jane/*", "gitlab.com/jane/*"]
    );
}
