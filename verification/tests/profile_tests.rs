use cccs::menu::menu_text;
use cccs::Profile;

fn create_test_profile(name: &str, is_active: bool) -> Profile {
    Profile {
        name: name.to_string(),
        path: format!("{}.settings.json", name),
        content: "{}".to_string(),
        is_active,
    }
}

#[test]
fn test_app_structure() {
    assert!(true);
}

#[test]
fn test_profile_creation() {
    let profile = create_test_profile("test", true);
    assert_eq!(profile.name, "test");
    assert!(profile.is_active);
}

#[test]
fn test_menu_text_generation() {
    let active_profile = create_test_profile("active", true);
    let inactive_profile = create_test_profile("inactive", false);

    let active_text = menu_text(&active_profile);
    let inactive_text = menu_text(&inactive_profile);

    assert_eq!(active_text, "✅ active");
    assert_eq!(inactive_text, "　  inactive");
}

#[test]
fn profile_duplicate_keeps_every_field() {
    let profile = create_test_profile("work", true);
    let copy = profile.duplicate();
    assert_eq!(copy.name, "work");
    assert_eq!(copy.path, "work.settings.json");
    assert_eq!(copy.content, "{}");
    assert!(copy.is_active);
}
