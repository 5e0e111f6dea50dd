use gpt_shell::utils::{
    bots_editor_plan, editor_plan, home_of, EditorPlan, Exhausted, AGENTS_DIR_NAME,
    BOTS_FILE_NAME, CONFIG_DIR_NAME, CONFIG_FILE_NAME,
};

fn plan(candidates: &[&str], exhausted: Exhausted) -> EditorPlan {
    EditorPlan { candidates: candidates.iter().map(|s| s.to_string()).collect(), exhausted }
}

#[test]
fn the_home_is_home_or_else_the_user_profile() {
    assert_eq!(home_of(Some("/home/u".to_string()), Some("C:\\Users\\u".to_string())), Some("/home/u".to_string()));
    assert_eq!(home_of(None, Some("C:\\Users\\u".to_string())), Some("C:\\Users\\u".to_string()));
    assert_eq!(home_of(Some("/home/u".to_string()), None), Some("/home/u".to_string()));
    assert_eq!(home_of(None, None), None);
}

#[test]
fn the_names_of_the_files() {
    assert_eq!(CONFIG_DIR_NAME, ".gpt-shell");
    assert_eq!(CONFIG_FILE_NAME, "config.toml");
    assert_eq!(BOTS_FILE_NAME, "bots.toml");
    assert_eq!(AGENTS_DIR_NAME, "agents");
}

#[test]
fn the_named_editor_is_the_only_one_tried() {
    assert_eq!(editor_plan(false, Some("emacs".to_string())), plan(&["emacs"], Exhausted::Fail));
    assert_eq!(bots_editor_plan(false, Some("emacs".to_string())), plan(&["emacs"], Exhausted::Fail));
}

#[test]
fn without_a_named_editor_the_common_ones_are_tried() {
    let expected = plan(&["code", "vim", "nano", "gedit", "xdg-open"], Exhausted::Fail);
    assert_eq!(editor_plan(false, None), expected);
    assert_eq!(bots_editor_plan(false, None), expected);
}

#[test]
fn windows_has_its_own_editors() {
    let expected = plan(&["code", "C:\\Windows\\System32\\notepad.exe"], Exhausted::Report);
    assert_eq!(editor_plan(true, None), expected);
    assert_eq!(editor_plan(true, Some("emacs".to_string())), expected);
    let bots = plan(&["code", "notepad++", "notepad"], Exhausted::Fail);
    assert_eq!(bots_editor_plan(true, None), bots);
    assert_eq!(bots_editor_plan(true, Some("emacs".to_string())), bots);
}
