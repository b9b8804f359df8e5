use water::appcore::{start_appcore, CoreGrant, CoreLauncher, LaunchError, APP_CORE_STACK_BYTES};

#[test]
fn second_start_is_refused() {
    let mut launcher = CoreLauncher::new();
    assert!(!launcher.is_started());
    assert_eq!(start_appcore(&mut launcher), Ok(CoreGrant { stack_bytes: 8192 }));
    assert!(launcher.is_started());
    assert_eq!(start_appcore(&mut launcher), Err(LaunchError::AlreadyStarted));
    assert_eq!(start_appcore(&mut launcher), Err(LaunchError::AlreadyStarted));
    assert!(launcher.is_started());
    assert_eq!(APP_CORE_STACK_BYTES, 8192);
}
