use dominion::config::{
    default_method, default_protocol, default_smtp_port, default_stagger, format_duration,
    skip_protocol, skip_stagger, Config, HttpConfig, MailConfig,
};
use dominion::duration::Duration;

#[test]
fn config_defaults() {
    assert_eq!(default_smtp_port(), 25);
    assert_eq!(MailConfig::default().smtp_port, 25);
    assert_eq!(default_protocol(), "http");
    assert_eq!(default_method(), "GET");
    assert!(skip_protocol(&String::new()));
    assert!(skip_protocol(&"http".to_string()));
    assert!(!skip_protocol(&"https".to_string()));
    assert!(skip_stagger(&default_stagger()));
    assert!(!skip_stagger(&Duration::new(0, 1)));
    let cfg = Config::default();
    assert_eq!(cfg.watch.len(), 2);
    assert_eq!(cfg.watch[0].variation_ppm, 250_000);
    for w in &cfg.watch {
        assert_eq!((w.protocol.as_str(), w.method.as_str()), ("http", "GET"));
        assert!(w.headers.is_empty() && w.ignore.is_empty());
    }
    assert_eq!(format_duration(&cfg.heartbeat), "10m");
    assert_eq!(HttpConfig { user_agent: Some(String::new()) }.user_agent_or("d/1"), "d/1");
    assert_eq!(HttpConfig { user_agent: Some("ua".to_string()) }.user_agent_or("d/1"), "ua");
}
