use zcad::action::ActionType;
use zcad::command_registry::CommandRegistry;

#[test]
fn test_lookup() {
    let registry = CommandRegistry::new();

    assert_eq!(registry.lookup("LINE"), Some(ActionType::DrawLine));
    assert_eq!(registry.lookup("line"), Some(ActionType::DrawLine));

    assert_eq!(registry.lookup("L"), Some(ActionType::DrawLine));
    assert_eq!(registry.lookup("l"), Some(ActionType::DrawLine));

    assert_eq!(registry.lookup("NOTEXIST"), None);
}

#[test]
fn test_complete() {
    let registry = CommandRegistry::new();

    let completions = registry.complete("DIM");
    assert!(completions.contains(&"DIMENSION".to_string()));
    assert!(completions.contains(&"DIMRADIUS".to_string()));
    assert!(completions.contains(&"DIMDIAMETER".to_string()));
}

#[test]
fn test_alias() {
    let mut registry = CommandRegistry::new();

    registry.add_alias("LL", "LINE");
    assert_eq!(registry.lookup("LL"), Some(ActionType::DrawLine));

    registry.remove_alias("LL");
    assert_eq!(registry.lookup("LL"), None);
}

#[test]
fn complete_is_sorted_and_exact() {
    let registry = CommandRegistry::new();
    let completions = registry.complete("dim");
    assert_eq!(
        completions,
        vec!["DIMDIAMETER".to_string(), "DIMENSION".to_string(), "DIMRADIUS".to_string()]
    );
    let all = registry.complete("");
    assert_eq!(all.len(), 17);
    let mut sorted = all.clone();
    sorted.sort();
    assert_eq!(all, sorted);
    assert!(registry.complete("XYZ").is_empty());
}

#[test]
fn shortcuts_and_names() {
    let registry = CommandRegistry::new();
    assert_eq!(registry.lookup("pl"), Some(ActionType::DrawPolyline));
    assert_eq!(registry.lookup("."), Some(ActionType::DrawPoint));
    assert_eq!(registry.lookup("dimaligned"), Some(ActionType::DrawDimension));
    assert_eq!(registry.lookup("delete"), Some(ActionType::Erase));
    assert_eq!(registry.get_command_name(ActionType::DrawCircle), Some("CIRCLE"));
    assert_eq!(registry.get_command_name(ActionType::NoAction), None);
    assert_eq!(registry.get_all_commands().len(), 17);
    assert_eq!(registry.get_all_shortcuts().len(), 27);
}

#[test]
fn alias_rules() {
    let mut registry = CommandRegistry::new();
    // an alias may not shadow a full command name
    registry.add_alias("circle", "LINE");
    assert_eq!(registry.lookup("CIRCLE"), Some(ActionType::DrawCircle));
    // an alias for an unknown command is ignored
    registry.add_alias("QQ", "NOSUCH");
    assert_eq!(registry.lookup("QQ"), None);
    // shortcuts win over aliases of the same name
    registry.add_alias("c", "LINE");
    assert_eq!(registry.lookup("C"), Some(ActionType::DrawCircle));
    // aliases are case-insensitive
    registry.add_alias("ln", "line");
    assert_eq!(registry.lookup("LN"), Some(ActionType::DrawLine));
}

#[test]
fn register_new_command() {
    let mut registry = CommandRegistry::default();
    registry.register(ActionType::Scale, "enlarge", &["en", "Big"]);
    assert_eq!(registry.lookup("ENLARGE"), Some(ActionType::Scale));
    assert_eq!(registry.lookup("big"), Some(ActionType::Scale));
    assert_eq!(registry.get_command_name(ActionType::Scale), Some("ENLARGE"));
    // the former full name still works
    assert_eq!(registry.lookup("SCALE"), Some(ActionType::Scale));
}

#[test]
fn listed_commands_are_distinct_and_found() {
    let registry = CommandRegistry::new();
    let all = registry.get_all_commands();
    for (i, (name, action)) in all.iter().enumerate() {
        assert_eq!(registry.lookup(name), Some(*action));
        assert_eq!(name.to_uppercase(), *name);
        for (other, _) in all.iter().skip(i + 1) {
            assert_ne!(name, other);
        }
    }
    assert!(all.iter().all(|(n, _)| *n != "L"));
    let shortcuts = registry.get_all_shortcuts();
    for (name, _) in &all {
        assert!(shortcuts.iter().all(|(s, _)| s != name));
    }
}
