use cygnus::cli::auth::{UserInfoCollector, UserInfoPlan};
use cygnus::common::path::JludPath;
use cygnus::config::common::CommonConfig;
use cygnus::config::interface::InterfaceConfig;
use cygnus::config::user::UserConfig;
use cygnus::context::common::CommonContext;
use cygnus::context::user::UserContext;

#[test]
fn interface_defaults_match_observed_deployment() {
    assert_eq!(InterfaceConfig::default_local_address(), "0.0.0.0");
    assert_eq!(InterfaceConfig::default_local_port(), 0);
    assert_eq!(InterfaceConfig::default_remote_address(), "10.100.61.3");
    assert_eq!(InterfaceConfig::default_remote_port(), 61440);
    assert_eq!(InterfaceConfig::default_timeout(), 5);
}

#[test]
fn common_config_defaults() {
    assert_eq!(CommonConfig::default_retry_interval(), 5);
    let config = CommonConfig::default();
    assert_eq!(config.retry, None);
    assert_eq!(config.retry_interval, 5);
    assert!(!UserConfig::default().save_user);
}

#[test]
fn common_context_starts_zeroed() {
    let ctx = CommonContext::new(CommonConfig::default());
    assert_eq!(ctx.salt, vec![0; 4]);
    assert_eq!(ctx.client_ip, vec![0; 4]);
    assert_eq!(ctx.md5a, vec![0; 16]);
    assert_eq!(ctx.tail, vec![0; 16]);
    assert_eq!(ctx.tail_2, vec![0; 4]);
    assert_eq!(ctx.keep_alive_version, (0, 0));
}

#[test]
fn user_context_starts_empty() {
    let ctx = UserContext::new(UserConfig::default());
    assert!(ctx.username.is_empty());
    assert!(ctx.password.is_empty());
}

#[test]
fn jlud_path_holds_both_locations() {
    let path = JludPath::new("config.toml".to_string(), "jlud.passwd".to_string());
    assert_eq!(path.config, "config.toml");
    assert_eq!(path.user, "jlud.passwd");
}

#[test]
fn user_info_plan_follows_save_flag() {
    let collector = UserInfoCollector::new();
    assert_eq!(collector.plan(true), UserInfoPlan::LoadThenPromptFallback);
    assert_eq!(collector.plan(false), UserInfoPlan::PromptOnly);
}
