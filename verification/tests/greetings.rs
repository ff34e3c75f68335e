//! Tests for the greeting roster: seeding, the renaming pass, and the
//! greeting lines.

use npc_names::GreetPlugin;

#[test]
fn seeding_order() {
    let mut g = GreetPlugin::new();
    g.add_people();
    let names: Vec<&str> = g.people.iter().map(|p| p.name.as_str()).collect();
    assert_eq!(names, vec!["Elaina Proctor", "Renzo Hume", "Zayna Nieves"]);
}

#[test]
fn renaming_pass_touches_only_elaina() {
    let mut g = GreetPlugin::new();
    g.add_people();
    g.update_people();
    let names: Vec<&str> = g.people.iter().map(|p| p.name.as_str()).collect();
    assert_eq!(names, vec!["Elaina Hume", "Renzo Hume", "Zayna Nieves"]);

    // A second pass finds nobody to rename.
    g.update_people();
    let names: Vec<&str> = g.people.iter().map(|p| p.name.as_str()).collect();
    assert_eq!(names, vec!["Elaina Hume", "Renzo Hume", "Zayna Nieves"]);
}

#[test]
fn renaming_pass_on_empty_roster() {
    let mut g = GreetPlugin::new();
    g.update_people();
    assert!(g.people.is_empty());
}

#[test]
fn greeting_lines() {
    let mut g = GreetPlugin::new();
    assert!(g.greet_people().is_empty());
    g.add_people();
    assert_eq!(
        g.greet_people(),
        vec![
            "Hello Elaina Proctor".to_string(),
            "Hello Renzo Hume".to_string(),
            "Hello Zayna Nieves".to_string()
        ]
    );
}
