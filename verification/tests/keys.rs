use super_lazygit_tui::keys::{binding_matches_key, canonicalize_action_id, canonicalize_keybinding};

#[test]
fn canonical_action_ids_ignore_separators_and_case() {
    assert_eq!(canonicalize_action_id("Enter-Repo_Mode"), "enterrepomode");
}

#[test]
fn space_binding_matches_a_space_press() {
    assert_eq!(canonicalize_keybinding(" "), Some("space".to_string()));
    assert!(binding_matches_key("Space", " ", ""));
}
