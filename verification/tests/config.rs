use floating_ui::config::ComputePositionConfig;
use floating_ui::placement::{Placement, Strategy};

#[test]
fn config_builders() {
    let config: ComputePositionConfig<&str, Vec<u8>> = ComputePositionConfig::new("platform");
    assert_eq!(config.placement, None);
    assert_eq!(config.strategy, None);
    assert!(config.middleware.is_none());
    let config = config
        .placement(Placement::LeftStart)
        .strategy(Strategy::Fixed)
        .middleware(vec![1, 2])
        .platform("other");
    assert_eq!(config.platform, "other");
    assert_eq!(config.placement, Some(Placement::LeftStart));
    assert_eq!(config.strategy, Some(Strategy::Fixed));
    assert_eq!(config.middleware, Some(vec![1, 2]));
}
