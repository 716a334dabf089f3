//! The license record and the feature admission rules: the decisions the
//! licensing service makes from its in-memory state.  Loading, saving,
//! encryption and every network exchange happen outside the library.

use vstd::prelude::*;
use vstd::string::StringExecFns;
use crate::errors::LicensingError;
use crate::licensing::activation::ActivationResponse;
use crate::licensing::feature_gates::{FeatureGate, GateView};
use crate::licensing::tier::{Tier, spec_tier_rank};
use crate::licensing::usage::{
    UsageStore, assoc_idx, assoc_distinct, count_of, sat_add, lemma_assoc_witness, lemma_assoc_none,
};
use crate::model::clone_opt_string;

verus! {

/// The installed license.
#[derive(Debug)]
pub struct LicenseState {
    pub user_id: String,
    pub tier: Tier,
    pub activation_hash: String,
    pub activated_at_ms: u64,
    pub last_validated_ms: u64,
    pub expires_at_ms: Option<u64>,
    pub org_id: Option<String>,
    pub grace_period_days: u32,
}

/// The mathematical value of a license.
pub struct LicenseView {
    pub user_id: Seq<char>,
    pub tier: Tier,
    pub activation_hash: Seq<char>,
    pub activated_at_ms: u64,
    pub last_validated_ms: u64,
    pub expires_at_ms: Option<u64>,
    pub org_id: Option<Seq<char>>,
    pub grace_period_days: u32,
}

impl View for LicenseState {
    type V = LicenseView;

    open spec fn view(&self) -> LicenseView {
        LicenseView {
            user_id: self.user_id@,
            tier: self.tier,
            activation_hash: self.activation_hash@,
            activated_at_ms: self.activated_at_ms,
            last_validated_ms: self.last_validated_ms,
            expires_at_ms: self.expires_at_ms,
            org_id: self.org_id.deep_view(),
            grace_period_days: self.grace_period_days,
        }
    }
}

impl Clone for LicenseState {
    fn clone(&self) -> (r: Self)
        ensures
            r@ == self@,
    {
        LicenseState {
            user_id: self.user_id.clone(),
            tier: self.tier,
            activation_hash: self.activation_hash.clone(),
            activated_at_ms: self.activated_at_ms,
            last_validated_ms: self.last_validated_ms,
            expires_at_ms: self.expires_at_ms,
            org_id: clone_opt_string(&self.org_id),
            grace_period_days: self.grace_period_days,
        }
    }
}

/// Whether the process believes it is offline, and whether the offline
/// grace period has run out.
#[derive(Clone, Copy, PartialEq, Eq, Structural, Debug)]
pub struct OfflineStatus {
    pub is_offline: bool,
    pub grace_expired: bool,
}

/// Subtraction that stops at zero.
pub open spec fn sat_sub(a: u64, b: u64) -> u64 {
    if a < b {
        0
    } else {
        (a - b) as u64
    }
}

/// A clock reading is a rollback when it stands more than a minute
/// before the last successful validation.
pub open spec fn clock_rolled_back(license: Option<LicenseView>, now_ms: u64) -> bool {
    match license {
        Option::Some(l) => now_ms < sat_sub(l.last_validated_ms, 60000),
        Option::None => false,
    }
}

/// Rejects a clock reading that stands before the license's last
/// validation, allowing a minute of slack.
pub fn validate_clock(license: Option<&LicenseState>, now_ms: u64) -> (r: Result<(), LicensingError>)
    ensures
        r is Ok <==> !clock_rolled_back(
            match license {
                Option::Some(l) => Option::Some(l@),
                Option::None => Option::None,
            },
            now_ms,
        ),
        r matches Err(e) ==> e matches LicensingError::LicenseInvalid(m)
            && m@ == "clock rollback detected"@,
{
    if let Option::Some(l) = license {
        let floor = if l.last_validated_ms < 60000 {
            0
        } else {
            l.last_validated_ms - 60000
        };
        if now_ms < floor {
            return Err(LicensingError::LicenseInvalid(String::from_str("clock rollback detected")));
        }
    }
    Ok(())
}

/// The tier in force: the license's tier, or the free tier without one.
pub fn tier_of(license: Option<&LicenseState>) -> (r: Tier)
    ensures
        match license {
            Option::Some(l) => r == l.tier,
            Option::None => r == Tier::Free,
        },
{
    match license {
        Option::Some(l) => l.tier,
        Option::None => Tier::Free,
    }
}

/// The license record an accepted activation installs.
pub fn license_from_activation(response: &ActivationResponse, activation_hash: String, now_ms: u64) -> (r: LicenseState)
    ensures
        r@.user_id == response.user_id@,
        r@.tier == response.tier,
        r@.activation_hash == activation_hash@,
        r@.activated_at_ms == now_ms,
        r@.last_validated_ms == now_ms,
        r@.expires_at_ms == response.expires_at_ms,
        r@.org_id == response.org_id.deep_view(),
        r@.grace_period_days == response.grace_period_days,
{
    LicenseState {
        user_id: response.user_id.clone(),
        tier: response.tier,
        activation_hash,
        activated_at_ms: now_ms,
        last_validated_ms: now_ms,
        expires_at_ms: response.expires_at_ms,
        org_id: clone_opt_string(&response.org_id),
        grace_period_days: response.grace_period_days,
    }
}

/// The licensing service's in-memory state: the installed license, the
/// usage registry, the credit wallet, and the gates keyed by feature.
pub struct LicensingCore {
    pub license: Option<LicenseState>,
    pub usage: UsageStore,
    pub credits: crate::licensing::credits::CreditWallet,
    pub gates: Vec<(String, FeatureGate)>,
}

/// The installed license as a mathematical value.
pub open spec fn license_view(l: Option<LicenseState>) -> Option<LicenseView> {
    match l {
        Option::Some(s) => Option::Some(s@),
        Option::None => Option::None,
    }
}

/// The policy a feature check consults, decided by the first matching
/// feature key.
pub open spec fn gate_lookup(gates: Seq<(Seq<char>, GateView)>, feature: Seq<char>) -> Option<GateView> {
    let i = assoc_idx(gates, feature);
    if i == -1 {
        Option::None
    } else {
        Option::Some(gates[i].1)
    }
}

impl LicensingCore {
    /// The gates as a mathematical value.
    pub open spec fn gates_view(&self) -> Seq<(Seq<char>, GateView)> {
        self.gates.deep_view()
    }

    /// The state's invariant: gate keys unique, usage registry sound.
    pub open spec fn wf(&self) -> bool {
        &&& assoc_distinct(self.gates_view())
        &&& self.usage.wf()
    }

    /// The tier in force.
    pub fn get_tier(&self) -> (r: Tier)
        ensures
            match license_view(self.license) {
                Option::Some(l) => r == l.tier,
                Option::None => r == Tier::Free,
            },
    {
        tier_of(self.license.as_ref())
    }

    /// Spends credits and reports the remaining balance.
    pub fn consume_credits(&mut self, amount: i64) -> (r: Result<i64, LicensingError>)
        requires
            i64::MIN <= old(self).credits.balance - amount <= i64::MAX,
            i64::MIN <= old(self).credits.pending_delta - amount <= i64::MAX,
        ensures
            final(self).license == old(self).license,
            final(self).usage == old(self).usage,
            final(self).gates == old(self).gates,
            r is Ok <==> old(self).credits.balance - amount >= 0,
            r matches Ok(b) ==> {
                &&& final(self).credits.balance == old(self).credits.balance - amount
                &&& final(self).credits.pending_delta == old(self).credits.pending_delta - amount
                &&& b == final(self).credits.balance
            },
            r matches Err(e) ==> e is InsufficientCredits && final(self).credits == old(self).credits,
    {
        match self.credits.consume(amount) {
            Err(e) => Err(e),
            Ok(u) => Ok(self.credits.balance),
        }
    }

    fn find_gate(&self, feature: &str) -> (r: Option<FeatureGate>)
        ensures
            match r {
                Some(g) => gate_lookup(self.gates_view(), feature@) matches Option::Some(gv) && g@ == gv,
                None => gate_lookup(self.gates_view(), feature@) is None,
            },
    {
        let mut i: usize = 0;
        while i < self.gates.len()
            invariant
                i <= self.gates@.len(),
                forall|m: int| 0 <= m < i ==> self.gates_view()[m].0 != feature@,
            decreases self.gates@.len() - i,
        {
            if self.gates[i].0 == feature.to_owned() {
                proof {
                    assert(self.gates_view()[i as int] == self.gates@[i as int].deep_view());
                    lemma_assoc_witness(self.gates_view(), feature@, i as int);
                }
                return Some(self.gates[i].1.clone());
            }
            proof {
                assert(self.gates_view()[i as int] == self.gates@[i as int].deep_view());
            }
            i = i + 1;
        }
        proof {
            lemma_assoc_none(self.gates_view(), feature@);
        }
        None
    }

    /// Checks one feature gate, in order: the clock must not have
    /// rolled back, the feature must be known, the tier sufficient, a
    /// license present where one is demanded, the feature allowed
    /// offline when offline — and a metered feature must stay within
    /// its monthly limit, in which case its counter is advanced.
    pub fn check_gate(&mut self, feature: &str, amount: u32, offline: bool, now_ms: u64, month_key: &str) -> (r: Result<(), LicensingError>)
        requires
            old(self).wf(),
        ensures
            final(self).wf(),
            final(self).license == old(self).license,
            final(self).credits == old(self).credits,
            final(self).gates == old(self).gates,
            clock_rolled_back(license_view(old(self).license), now_ms) ==> (
                r matches Err(e) && e matches LicensingError::LicenseInvalid(m)
                && m@ == "clock rollback detected"@ && final(self).usage == old(self).usage),
            !clock_rolled_back(license_view(old(self).license), now_ms) ==> ({
                let found = gate_lookup(old(self).gates_view(), feature@);
                let tier = match license_view(old(self).license) {
                    Option::Some(l) => l.tier,
                    Option::None => Tier::Free,
                };
                match found {
                    Option::None => r matches Err(e) && e matches LicensingError::InvalidInput(m)
                        && m@ == "unknown feature"@ && final(self).usage == old(self).usage,
                    Option::Some(g) => {
                        if spec_tier_rank(g.min_tier) > spec_tier_rank(tier) {
                            r matches Err(e) && e matches LicensingError::LicenseInvalid(m)
                                && m@ == "tier too low"@ && final(self).usage == old(self).usage
                        } else if g.requires_license && license_view(old(self).license) is None {
                            r matches Err(e) && e is LicenseMissing && final(self).usage == old(self).usage
                        } else if offline && !g.offline_allowed {
                            r matches Err(e) && e is OfflineValidationRequired && final(self).usage == old(self).usage
                        } else if g.usage_key is Some && g.monthly_limit is Some {
                            let key = g.usage_key->0;
                            let limit = g.monthly_limit->0;
                            let current = count_of(old(self).usage.view_of(), month_key@, key);
                            if sat_add(current, amount) > limit {
                                r matches Err(e) && e is UsageLimitExceeded && final(self).usage == old(self).usage
                            } else {
                                &&& r is Ok
                                &&& count_of(final(self).usage.view_of(), month_key@, key) == sat_add(current, amount)
                                &&& (forall|m2: Seq<char>, k2: Seq<char>| !(m2 == month_key@ && k2 == key)
                                    ==> #[trigger] count_of(final(self).usage.view_of(), m2, k2)
                                        == count_of(old(self).usage.view_of(), m2, k2))
                                &&& final(self).usage.last_sync_ms == old(self).usage.last_sync_ms
                            }
                        } else {
                            r is Ok && final(self).usage == old(self).usage
                        }
                    },
                }
            }),
    {
        validate_clock(self.license.as_ref(), now_ms)?;
        let gate = match self.find_gate(feature) {
            Option::None => {
                return Err(LicensingError::InvalidInput(String::from_str("unknown feature")));
            },
            Option::Some(g) => g,
        };
        let tier = tier_of(self.license.as_ref());
        if gate.min_tier.rank() > tier.rank() {
            return Err(LicensingError::LicenseInvalid(String::from_str("tier too low")));
        }
        if gate.requires_license && self.license.is_none() {
            return Err(LicensingError::LicenseMissing);
        }
        if offline && !gate.offline_allowed {
            return Err(LicensingError::OfflineValidationRequired);
        }
        if let Option::Some(key) = &gate.usage_key {
            if let Option::Some(limit) = gate.monthly_limit {
                self.usage.enforce_limit(month_key, key.as_str(), limit, amount)?;
                self.usage.increment(month_key, key.as_str(), amount);
            }
        }
        Ok(())
    }
}

} // verus!
