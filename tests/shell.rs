use crust::shell::ShellManager;

#[test]
fn flags_are_true_in_any_case() {
    assert!(ShellManager::is_bool_flag_set(Some("true".to_string())));
    assert!(ShellManager::is_bool_flag_set(Some("TRUE".to_string())));
    assert!(ShellManager::is_background_mode(Some("True".to_string())));
    assert!(!ShellManager::is_shell_invoke(Some("1".to_string())));
    assert!(!ShellManager::is_shell_invoke(None));
    assert!(!ShellManager::is_bool_flag_set(Some("truex".to_string())));
}
