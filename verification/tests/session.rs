use chouten::session::{advance, Stage};

#[test]
fn a_fully_successful_run_reaches_resolution() {
    let mut s = Stage::Uninitialized;
    s = advance(s, true);
    assert_eq!(s, Stage::Bootstrapped);
    s = advance(s, true);
    assert_eq!(s, Stage::CapabilitiesInjected);
    s = advance(s, true);
    assert_eq!(s, Stage::PluginLoaded);
    s = advance(s, true);
    assert_eq!(s, Stage::Dispatched);
    s = advance(s, true);
    assert_eq!(s, Stage::Resolved);
}

#[test]
fn any_failed_step_is_fatal() {
    assert_eq!(advance(Stage::Uninitialized, false), Stage::Failed);
    assert_eq!(advance(Stage::Bootstrapped, false), Stage::Failed);
    assert_eq!(advance(Stage::CapabilitiesInjected, false), Stage::Failed);
    assert_eq!(advance(Stage::PluginLoaded, false), Stage::Failed);
    assert_eq!(advance(Stage::Dispatched, false), Stage::Failed);
}
