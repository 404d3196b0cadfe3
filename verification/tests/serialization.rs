use figgit::config::{Config, StoredFile, WorkspaceConfig};

fn to_document(config: &Config) -> toml::Table {
    let entries = match config.save() {
        StoredFile::Parsed(entries) => entries,
        other => panic!("nothing to write: {:?}", other),
    };
    let mut workspaces = toml::Table::new();
    for (name, workspace) in &entries {
        let mut table = toml::Table::new();
        table.insert("name".to_string(), toml::Value::String(workspace.name.clone()));
        table.insert("email".to_string(), toml::Value::String(workspace.email.clone()));
        if !workspace.patterns.is_empty() {
            let patterns = workspace
                .patterns
                .iter()
                .map(|p| toml::Value::String(p.clone()))
                .collect();
            table.insert("patterns".to_string(), toml::Value::Array(patterns));
        }
        workspaces.insert(name.clone(), toml::Value::Table(table));
    }
    let mut document = toml::Table::new();
    document.insert("workspaces".to_string(), toml::Value::Table(workspaces));
    document
}

fn from_document(document: &toml::Table) -> Config {
    let mut entries = Vec::new();
    if let Some(workspaces) = document.get("workspaces") {
        for (name, value) in workspaces.as_table().unwrap() {
            let patterns = match value.get("patterns") {
                Some(list) => list
                    .as_array()
                    .unwrap()
                    .iter()
                    .map(|p| p.as_str().unwrap().to_string())
                    .collect(),
                None => Vec::new(),
            };
            entries.push((
                name.clone(),
                WorkspaceConfig {
                    name: value.get("name").unwrap().as_str().unwrap().to_string(),
                    email: value.get("email").unwrap().as_str().unwrap().to_string(),
                    patterns,
                },
            ));
        }
    }
    Config::load(&StoredFile::Parsed(entries)).unwrap()
}

#[test]
fn test_serialization() {
    let mut config = Config::default();
    config
        .add_workspace("work", "John Doe", "john@work.com")
        .unwrap();

    let serialized = toml::to_string(&to_document(&config)).unwrap();
    let deserialized: Config = from_document(&toml::from_str(&serialized).unwrap());

    assert_eq!(config.workspaces.len(), deserialized.workspaces.len());
    let workspace = deserialized.get_workspace("work").unwrap();
    assert_eq!(workspace.name, "John Doe");
    assert_eq!(workspace.email, "john@work.com");
}

#[test]
fn test_patterns_serialization() {
    let mut config = Config::default();
    config
        .add_workspace("work", "John Doe", "john@work.com")
        .unwrap();
    config
        .update_workspace_patterns("work", vec!["github.com/company/*".to_string()], false)
        .unwrap();

    let serialized = toml::to_string(&to_document(&config)).unwrap();
    let deserialized: Config = from_document(&toml::from_str(&serialized).unwrap());

    let workspace = deserialized.get_workspace("work").unwrap();
    assert_eq!(workspace.patterns.len(), 1);
    assert_eq!(workspace.patterns[0], "github.com/company/*");
}

#[test]
fn a_store_survives_the_file_format() {
    let mut config = Config::default();
    config.add_workspace("work", "John \"JD\" Doe", "john@work.com").unwrap();
    config.add_workspace("personal", "Zoë\tDoe", "zoe@personal.com").unwrap();
    config.add_workspace("a.b c", "", "").unwrap();
    config
        .update_workspace_patterns(
            "work",
            vec!["github.com/company/*".to_string(), "x\ny".to_string(), "'".to_string()],
            false,
        )
        .unwrap();

    let serialized = toml::to_string_pretty(&to_document(&config)).unwrap();
    let deserialized = from_document(&toml::from_str(&serialized).unwrap());
    assert_eq!(deserialized.workspaces, config.workspaces);

    let empty = toml::to_string_pretty(&to_document(&Config::default())).unwrap();
    let deserialized = from_document(&toml::from_str(&empty).unwrap());
    assert!(deserialized.workspaces.is_empty());
    assert!(from_document(&toml::from_str("").unwrap()).workspaces.is_empty());
}
