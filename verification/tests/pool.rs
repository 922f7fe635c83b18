use pleme_database::PoolConfig;

#[test]
fn pool_config_defaults() {
    let c = PoolConfig::default();
    assert_eq!(c.max_connections, 20);
    assert_eq!(c.min_connections, 5);
    assert_eq!(c.acquire_timeout_secs, 30);
    assert_eq!(c.idle_timeout_secs, 600);
    assert_eq!(c.max_lifetime_secs, 1800);
    assert!(c.test_before_acquire);
    assert!(c.min_connections <= c.max_connections);
}
