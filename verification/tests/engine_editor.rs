use finalengine::engine_editor::{EditorMode, EditorPanel, EditorShell};

#[test]
fn default_editor_contains_required_panels() {
    let editor = EditorShell::full_editor_defaults();
    let panel_ids = editor
        .panels
        .iter()
        .map(|panel| panel.id.as_str())
        .collect::<Vec<_>>();

    assert!(panel_ids.contains(&"scene_hierarchy"));
    assert!(panel_ids.contains(&"inspector"));
    assert!(panel_ids.contains(&"asset_browser"));
    assert!(panel_ids.contains(&"viewport"));
}

#[test]
fn default_editor_lists_panels_in_order_with_titles() {
    let editor = EditorShell::full_editor_defaults();
    let ids: Vec<&str> = editor.panels.iter().map(|p| p.id.as_str()).collect();
    let titles: Vec<&str> = editor.panels.iter().map(|p| p.title.as_str()).collect();
    assert_eq!(
        ids,
        vec!["scene_hierarchy", "inspector", "asset_browser", "viewport", "console"]
    );
    assert_eq!(
        titles,
        vec!["Scene Hierarchy", "Inspector", "Asset Browser", "Viewport", "Console"]
    );
    assert_eq!(editor.mode, EditorMode::Edit);
}

#[test]
fn editor_switches_between_play_and_edit() {
    let mut editor = EditorShell::full_editor_defaults();
    editor.enter_play_mode();
    assert_eq!(editor.mode, EditorMode::Play);
    assert_eq!(editor.panels.len(), 5);
    editor.enter_edit_mode();
    assert_eq!(editor.mode, EditorMode::Edit);
}

#[test]
fn editor_panel_keeps_id_and_title() {
    let panel = EditorPanel::new("profiler", "Profiler");
    assert_eq!(panel.id, "profiler");
    assert_eq!(panel.title, "Profiler");
}
