//! Editor shell state and panel registry.

use vstd::prelude::*;
use vstd::string::StringExecFns;

verus! {

/// Whether the editor edits the scene or plays it.
#[derive(Debug, Clone, Copy, PartialEq, Eq, Structural)]
pub enum EditorMode {
    Edit,
    Play,
}

/// A dockable editor panel.
#[derive(Debug, Clone)]
pub struct EditorPanel {
    pub id: String,
    pub title: String,
}

impl EditorPanel {
    pub fn new(id: &str, title: &str) -> (panel: Self)
        ensures
            panel.id@ == id@,
            panel.title@ == title@,
    {
        EditorPanel { id: String::from_str(id), title: String::from_str(title) }
    }
}

/// The editor's mode and its panels, in layout order.
#[derive(Debug, Clone)]
pub struct EditorShell {
    pub mode: EditorMode,
    pub panels: Vec<EditorPanel>,
}

/// The ids of the panels of the full editor, in order.
pub open spec fn default_panel_ids() -> Seq<Seq<char>> {
    seq![
        "scene_hierarchy"@,
        "inspector"@,
        "asset_browser"@,
        "viewport"@,
        "console"@,
    ]
}

/// The titles of the panels of the full editor, in order.
pub open spec fn default_panel_titles() -> Seq<Seq<char>> {
    seq!["Scene Hierarchy"@, "Inspector"@, "Asset Browser"@, "Viewport"@, "Console"@]
}

impl EditorShell {
    /// The ids of the shell's panels, in order.
    pub open spec fn panel_ids(&self) -> Seq<Seq<char>> {
        self.panels@.map_values(|p: EditorPanel| p.id@)
    }

    /// The titles of the shell's panels, in order.
    pub open spec fn panel_titles(&self) -> Seq<Seq<char>> {
        self.panels@.map_values(|p: EditorPanel| p.title@)
    }

    /// The full editor layout, in edit mode.
    pub fn full_editor_defaults() -> (shell: Self)
        ensures
            shell.mode == EditorMode::Edit,
            shell.panel_ids() == default_panel_ids(),
            shell.panel_titles() == default_panel_titles(),
    {
        let mut panels: Vec<EditorPanel> = Vec::new();
        panels.push(EditorPanel::new("scene_hierarchy", "Scene Hierarchy"));
        panels.push(EditorPanel::new("inspector", "Inspector"));
        panels.push(EditorPanel::new("asset_browser", "Asset Browser"));
        panels.push(EditorPanel::new("viewport", "Viewport"));
        panels.push(EditorPanel::new("console", "Console"));
        let shell = EditorShell { mode: EditorMode::Edit, panels };
        assert(shell.panel_ids() =~= default_panel_ids());
        assert(shell.panel_titles() =~= default_panel_titles());
        shell
    }

    pub fn enter_play_mode(&mut self)
        ensures
            final(self).mode == EditorMode::Play,
            final(self).panels@ == old(self).panels@,
    {
        self.mode = EditorMode::Play;
    }

    pub fn enter_edit_mode(&mut self)
        ensures
            final(self).mode == EditorMode::Edit,
            final(self).panels@ == old(self).panels@,
    {
        self.mode = EditorMode::Edit;
    }
}

} // verus!
