use crust::response::CrustResult;

#[test]
fn create_cmd_result() {
    let result = CrustResult::new("stdout", "stderr", 2);

    assert_eq!(result.retcode(), 2);
    assert_eq!(result.stdout(), "stdout");
    assert_eq!(result.stderr(), "stderr");

    assert!(!result.is_success());
}

#[test]
fn create_cmd_result_default() {
    let result = CrustResult::default();

    assert_eq!(result.retcode(), 0);
    assert_eq!(result.stdout(), "");
    assert_eq!(result.stderr(), "");
    assert!(result.is_success());
}
