use wald::types::config::Config;
use wald::types::manifest::{DepthPolicy, FilterPolicy, LfsPolicy};

#[test]
fn test_default_config() {
    let config = Config::default();
    assert_eq!(config.default_lfs, LfsPolicy::Minimal);
    assert_eq!(config.default_depth, DepthPolicy::Depth(100));
}

#[test]
fn default_config_has_no_filter() {
    assert_eq!(Config::default().default_filter, FilterPolicy::NoFilter);
}
