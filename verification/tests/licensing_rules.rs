use convertix::errors::LicensingError;
use convertix::licensing::activation::ActivationResponse;
use convertix::licensing::credits::CreditWallet;
use convertix::licensing::feature_gates::{FeatureGate, GateConfig};
use convertix::licensing::license::{
    license_from_activation, tier_of, validate_clock, LicenseState, LicensingCore,
};
use convertix::licensing::tier::Tier;
use convertix::licensing::usage::{month_key, UsageStore};

fn pro_license() -> LicenseState {
    license_from_activation(
        &ActivationResponse {
            user_id: "user-1".to_string(),
            tier: Tier::Pro,
            expires_at_ms: None,
            org_id: None,
            grace_period_days: 14,
            invoice_id: None,
            invoice_email_sent: false,
        },
        "hash".to_string(),
        1_000,
    )
}

fn core_with(license: Option<LicenseState>) -> LicensingCore {
    LicensingCore {
        license,
        usage: UsageStore::new(),
        credits: CreditWallet::new(),
        gates: GateConfig::default().as_map(),
    }
}

#[test]
fn tiers_render_and_rank() {
    assert_eq!(Tier::Free.as_str(), "free");
    assert_eq!(Tier::Pro.as_str(), "pro");
    assert_eq!(Tier::Premium.as_str(), "premium");
    assert!(Tier::Free.rank() < Tier::Pro.rank());
    assert!(Tier::Pro.rank() < Tier::Premium.rank());
}

#[test]
fn wallet_tracks_balance_and_pending_delta() {
    let mut wallet = CreditWallet::new();
    assert_eq!(wallet.balance, 0);
    wallet.add(100);
    assert_eq!(wallet.balance, 100);
    assert_eq!(wallet.pending_delta, 100);
    wallet.consume(30).unwrap();
    assert_eq!(wallet.balance, 70);
    assert_eq!(wallet.pending_delta, 70);
    let err = wallet.consume(71).unwrap_err();
    assert!(matches!(err, LicensingError::InsufficientCredits));
    assert_eq!(err.message(), "insufficient credits");
    assert_eq!(wallet.balance, 70);
}

#[test]
fn wallet_sync_settles_the_pending_delta() {
    let mut wallet = CreditWallet::new();
    assert!(wallet.sync_request_amount().is_none());
    wallet.add(10);
    wallet.consume(25 - 10).unwrap_err();
    wallet.consume(4).unwrap();
    assert_eq!(wallet.sync_request_amount(), Some(6));
    wallet.apply_sync(777);
    assert_eq!(wallet.pending_delta, 0);
    assert_eq!(wallet.last_sync_ms, Some(777));
    assert_eq!(wallet.balance, 6);
}

#[test]
fn usage_counters_saturate_and_stay_separate() {
    let mut usage = UsageStore::new();
    assert_eq!(usage.get_count("2024-01", "images"), 0);
    usage.increment("2024-01", "images", 2);
    usage.increment("2024-01", "images", 3);
    usage.increment("2024-01", "other", 1);
    usage.increment("2024-02", "images", 7);
    assert_eq!(usage.get_count("2024-01", "images"), 5);
    assert_eq!(usage.get_count("2024-01", "other"), 1);
    assert_eq!(usage.get_count("2024-02", "images"), 7);
    usage.increment("2024-01", "images", u32::MAX);
    assert_eq!(usage.get_count("2024-01", "images"), u32::MAX);
}

#[test]
fn usage_limits_refuse_overruns() {
    let mut usage = UsageStore::new();
    usage.increment("2024-01", "gen", 4);
    assert!(usage.enforce_limit("2024-01", "gen", 5, 1).is_ok());
    let err = usage.enforce_limit("2024-01", "gen", 5, 2).unwrap_err();
    assert!(matches!(err, LicensingError::UsageLimitExceeded));
    assert_eq!(err.message(), "usage limit exceeded");
}

#[test]
fn month_keys_pad_the_month() {
    assert_eq!(month_key(2024, 3), "2024-03");
    assert_eq!(month_key(2024, 11), "2024-11");
    assert_eq!(month_key(1999, 10), "1999-10");
}

#[test]
fn clock_rollback_is_detected_with_a_minute_of_slack() {
    let license = pro_license();
    // Validated at 1000; anything at or above the floor passes.
    assert!(validate_clock(Some(&license), 0).is_ok());
    let mut late = license.clone();
    late.last_validated_ms = 10_000_000;
    assert!(validate_clock(Some(&late), 10_000_000 - 60_000).is_ok());
    let err = validate_clock(Some(&late), 10_000_000 - 60_001).unwrap_err();
    assert_eq!(err.message(), "license invalid: clock rollback detected");
    assert!(validate_clock(None, 0).is_ok());
}

#[test]
fn the_default_gates_are_published() {
    let gates = GateConfig::default();
    assert_eq!(gates.gates.len(), 4);
    let map = gates.as_map();
    assert_eq!(map.len(), 4);
    assert_eq!(map[0].0, "pdf.basic");
    assert_eq!(map[1].0, "pdf.advanced");
    assert_eq!(map[2].0, "image.ai");
    assert_eq!(map[3].0, "noteflow.generations");
    assert_eq!(map[3].1.monthly_limit, Some(5));
}

#[test]
fn activation_installs_the_reported_license() {
    let license = pro_license();
    assert_eq!(license.user_id, "user-1");
    assert!(matches!(license.tier, Tier::Pro));
    assert_eq!(license.activation_hash, "hash");
    assert_eq!(license.activated_at_ms, 1_000);
    assert_eq!(license.last_validated_ms, 1_000);
    assert_eq!(license.grace_period_days, 14);
    assert!(matches!(tier_of(Some(&license)), Tier::Pro));
    assert!(matches!(tier_of(None), Tier::Free));
}

#[test]
fn gate_check_requires_the_tier() {
    let mut core = core_with(None);
    let err = core.check_gate("pdf.advanced", 0, false, 1_000, "2024-01").unwrap_err();
    assert_eq!(err.message(), "license invalid: tier too low");
    let mut licensed = core_with(Some(pro_license()));
    assert!(licensed.check_gate("pdf.advanced", 0, false, 2_000, "2024-01").is_ok());
}

#[test]
fn gate_check_rejects_unknown_features() {
    let mut core = core_with(None);
    let err = core.check_gate("no.such.feature", 0, false, 1_000, "2024-01").unwrap_err();
    assert_eq!(err.message(), "invalid input: unknown feature");
}

#[test]
fn gate_check_enforces_offline_policy() {
    let mut core = core_with(Some(pro_license()));
    assert!(core.check_gate("image.ai", 1, false, 2_000, "2024-01").is_ok());
    let err = core.check_gate("image.ai", 1, true, 2_000, "2024-01").unwrap_err();
    assert!(matches!(err, LicensingError::OfflineValidationRequired));
    assert_eq!(err.message(), "offline and validation required");
}

#[test]
fn gate_check_meters_limited_features() {
    let mut core = core_with(None);
    assert!(core.check_gate("noteflow.generations", 3, false, 1_000, "2024-01").is_ok());
    assert_eq!(core.usage.get_count("2024-01", "other_generations"), 3);
    let err = core.check_gate("noteflow.generations", 3, false, 1_000, "2024-01").unwrap_err();
    assert!(matches!(err, LicensingError::UsageLimitExceeded));
    // The refused increment left the counter unchanged.
    assert_eq!(core.usage.get_count("2024-01", "other_generations"), 3);
    assert!(core.check_gate("noteflow.generations", 2, false, 1_000, "2024-01").is_ok());
    assert_eq!(core.usage.get_count("2024-01", "other_generations"), 5);
}

#[test]
fn gate_check_detects_clock_rollback_first() {
    let mut late = pro_license();
    late.last_validated_ms = 10_000_000;
    let mut core = core_with(Some(late));
    let err = core.check_gate("pdf.basic", 0, false, 1_000, "2024-01").unwrap_err();
    assert_eq!(err.message(), "license invalid: clock rollback detected");
}

#[test]
fn consume_credits_reports_the_remaining_balance() {
    let mut core = core_with(None);
    core.credits.add(50);
    assert_eq!(core.consume_credits(20).unwrap(), 30);
    let err = core.consume_credits(31).unwrap_err();
    assert!(matches!(err, LicensingError::InsufficientCredits));
}

#[test]
fn gate_check_demands_a_license_where_required() {
    let gate = FeatureGate {
        feature: "pdf.licensed-basic".to_string(),
        min_tier: Tier::Free,
        offline_allowed: true,
        requires_license: true,
        usage_key: None,
        monthly_limit: None,
    };
    let mut core = LicensingCore {
        license: None,
        usage: UsageStore::new(),
        credits: CreditWallet::new(),
        gates: vec![("pdf.licensed-basic".to_string(), gate)],
    };
    let err = core.check_gate("pdf.licensed-basic", 0, false, 1_000, "2024-01").unwrap_err();
    assert!(matches!(err, LicensingError::LicenseMissing));
    assert_eq!(err.message(), "license not found");
}
