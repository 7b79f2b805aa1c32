//! The startup plan: fail fast on a missing connection string, exit
//! with status 1 on a failed connection, serve only after success.
use service_bootstrap::bootstrap::{plan_after_config, plan_after_connect, BootAction};

#[test]
fn missing_config_aborts_before_any_network_activity() {
    let action = plan_after_config(None);
    assert!(matches!(action, BootAction::ExitConfigMissing));
}

#[test]
fn present_config_opens_pool_with_fixed_bound() {
    let action = plan_after_config(Some(String::from("postgres://db.example/app")));
    match action {
        BootAction::OpenPool { url, max_connections } => {
            assert_eq!(url, "postgres://db.example/app");
            assert_eq!(max_connections, 10);
        }
        other => panic!("expected a pool-opening action, got {:?}", other),
    }
}

#[test]
fn failed_connect_exits_with_status_one() {
    let action = plan_after_connect(false);
    match action {
        BootAction::ExitConnectFailed { code } => assert_eq!(code, 1),
        other => panic!("expected a failure exit, got {:?}", other),
    }
}

#[test]
fn successful_connect_binds_the_fixed_address() {
    let action = plan_after_connect(true);
    match action {
        BootAction::BindAndServe { addr } => assert_eq!(addr, "0.0.0.0:8080"),
        other => panic!("expected a serve action, got {:?}", other),
    }
}
