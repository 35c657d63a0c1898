use dominion::duration::Duration;
use dominion::schedule::{draw_initial_delay, draw_next_delay, initial_delay, next_delay};

#[test]
fn delays_follow_draws() {
    assert_eq!(initial_delay(&Duration::from_secs(10), 0x8000_0000), Duration::from_secs(5));
    assert_eq!(initial_delay(&Duration::from_secs(10), 0), Duration::from_secs(0));
    assert_eq!(next_delay(&Duration::from_secs(100), 500_000, 0x8000_0000), Duration::from_secs(125));
    assert_eq!(next_delay(&Duration::from_secs(100), 0, u32::MAX), Duration::from_secs(100));
    assert_eq!(next_delay(&Duration::from_secs(u64::MAX), 1_000_000, u32::MAX), Duration::from_secs(u64::MAX));
    let d = draw_initial_delay(&Duration::from_secs(3));
    assert!(d.secs < 3 || d == Duration::from_secs(3));
    let d = draw_next_delay(&Duration::from_secs(60), 250_000);
    assert!(d.secs >= 60 && d.secs <= 75);
}

