use zeroclaw::status::SurvivalStatus;

#[test]
fn thriving_above_80_percent() {
    assert_eq!(SurvivalStatus::from_balance(90_000, 100_000), SurvivalStatus::Thriving);
    assert_eq!(SurvivalStatus::from_balance(150_000, 100_000), SurvivalStatus::Thriving);
    assert_eq!(SurvivalStatus::from_balance(80_001, 100_000), SurvivalStatus::Thriving);
}

#[test]
fn stable_between_40_and_80_percent() {
    assert_eq!(SurvivalStatus::from_balance(79_999, 100_000), SurvivalStatus::Stable);
    assert_eq!(SurvivalStatus::from_balance(50_000, 100_000), SurvivalStatus::Stable);
    assert_eq!(SurvivalStatus::from_balance(40_001, 100_000), SurvivalStatus::Stable);
}

#[test]
fn struggling_between_10_and_40_percent() {
    assert_eq!(SurvivalStatus::from_balance(39_999, 100_000), SurvivalStatus::Struggling);
    assert_eq!(SurvivalStatus::from_balance(20_000, 100_000), SurvivalStatus::Struggling);
    assert_eq!(SurvivalStatus::from_balance(10_001, 100_000), SurvivalStatus::Struggling);
}

#[test]
fn critical_between_0_and_10_percent() {
    assert_eq!(SurvivalStatus::from_balance(9_999, 100_000), SurvivalStatus::Critical);
    assert_eq!(SurvivalStatus::from_balance(5_000, 100_000), SurvivalStatus::Critical);
    assert_eq!(SurvivalStatus::from_balance(1, 100_000), SurvivalStatus::Critical);
}

#[test]
fn bankrupt_at_zero_or_negative() {
    assert_eq!(SurvivalStatus::from_balance(0, 100_000), SurvivalStatus::Bankrupt);
    assert_eq!(SurvivalStatus::from_balance(-10_000, 100_000), SurvivalStatus::Bankrupt);
}

#[test]
fn is_operational() {
    assert!(SurvivalStatus::Thriving.is_operational());
    assert!(SurvivalStatus::Stable.is_operational());
    assert!(SurvivalStatus::Struggling.is_operational());
    assert!(SurvivalStatus::Critical.is_operational());
    assert!(!SurvivalStatus::Bankrupt.is_operational());
}

#[test]
fn needs_intervention() {
    assert!(!SurvivalStatus::Thriving.needs_intervention());
    assert!(!SurvivalStatus::Stable.needs_intervention());
    assert!(!SurvivalStatus::Struggling.needs_intervention());
    assert!(SurvivalStatus::Critical.needs_intervention());
    assert!(SurvivalStatus::Bankrupt.needs_intervention());
}

#[test]
fn display_format() {
    assert_eq!(SurvivalStatus::Thriving.to_string(), "Thriving");
    assert_eq!(SurvivalStatus::Bankrupt.to_string(), "Bankrupt");
}

#[test]
fn bucket_edges_fall_on_the_upper_side() {
    assert_eq!(SurvivalStatus::from_balance(10_000, 100_000), SurvivalStatus::Struggling);
    assert_eq!(SurvivalStatus::from_balance(40_000, 100_000), SurvivalStatus::Stable);
    assert_eq!(SurvivalStatus::from_balance(80_000, 100_000), SurvivalStatus::Thriving);
    assert_eq!(SurvivalStatus::from_balance(3, 30), SurvivalStatus::Struggling);
    assert_eq!(SurvivalStatus::from_balance(2, 30), SurvivalStatus::Critical);
}

#[test]
fn landmark_balances() {
    assert_eq!(SurvivalStatus::from_balance(0, 1_000), SurvivalStatus::Bankrupt);
    assert_eq!(SurvivalStatus::from_balance(1_000, 1_000), SurvivalStatus::Thriving);
    assert_eq!(SurvivalStatus::from_balance(-1, 1_000), SurvivalStatus::Bankrupt);
}

#[test]
fn scenario_balances() {
    assert_eq!(SurvivalStatus::from_balance(90_000, 100_000), SurvivalStatus::Thriving);
    assert_eq!(SurvivalStatus::from_balance(5_000, 100_000), SurvivalStatus::Critical);
    assert_eq!(SurvivalStatus::from_balance(0, 100_000), SurvivalStatus::Bankrupt);
}

#[test]
fn non_positive_initial_balance() {
    assert_eq!(SurvivalStatus::from_balance(0, 0), SurvivalStatus::Bankrupt);
    assert_eq!(SurvivalStatus::from_balance(-5, 0), SurvivalStatus::Bankrupt);
    assert_eq!(SurvivalStatus::from_balance(5, 0), SurvivalStatus::Thriving);
    assert_eq!(SurvivalStatus::from_balance(5, -100), SurvivalStatus::Thriving);
}

#[test]
fn extreme_balances_do_not_overflow() {
    assert_eq!(SurvivalStatus::from_balance(i64::MAX, 1), SurvivalStatus::Thriving);
    assert_eq!(SurvivalStatus::from_balance(1, i64::MAX), SurvivalStatus::Critical);
    assert_eq!(SurvivalStatus::from_balance(i64::MIN, i64::MAX), SurvivalStatus::Bankrupt);
}

#[test]
fn default_is_stable() {
    assert_eq!(SurvivalStatus::default(), SurvivalStatus::Stable);
}

#[test]
fn emoji_and_colors() {
    assert_eq!(SurvivalStatus::Thriving.emoji(), "\u{1F31F}");
    assert_eq!(SurvivalStatus::Bankrupt.emoji(), "\u{1F480}");
    assert_eq!(SurvivalStatus::Thriving.ansi_color(), "\x1b[32m");
    assert_eq!(SurvivalStatus::Critical.ansi_color(), "\x1b[31m");
    assert_eq!(SurvivalStatus::Stable.to_string(), "Stable");
}
