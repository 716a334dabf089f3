//! Feature gates: which tier a feature demands, whether it works
//! offline or without a license, and its optional monthly meter.

use vstd::prelude::*;
use vstd::string::StringExecFns;
use crate::licensing::tier::Tier;
use crate::model::clone_opt_string;

verus! {

/// The policy of one feature.
#[derive(Debug)]
pub struct FeatureGate {
    pub feature: String,
    pub min_tier: Tier,
    pub offline_allowed: bool,
    pub requires_license: bool,
    pub usage_key: Option<String>,
    pub monthly_limit: Option<u32>,
}

/// The mathematical value of a gate.
pub struct GateView {
    pub feature: Seq<char>,
    pub min_tier: Tier,
    pub offline_allowed: bool,
    pub requires_license: bool,
    pub usage_key: Option<Seq<char>>,
    pub monthly_limit: Option<u32>,
}

impl View for FeatureGate {
    type V = GateView;

    open spec fn view(&self) -> GateView {
        GateView {
            feature: self.feature@,
            min_tier: self.min_tier,
            offline_allowed: self.offline_allowed,
            requires_license: self.requires_license,
            usage_key: self.usage_key.deep_view(),
            monthly_limit: self.monthly_limit,
        }
    }
}

impl DeepView for FeatureGate {
    type V = GateView;

    open spec fn deep_view(&self) -> GateView {
        self.view()
    }
}

impl Clone for FeatureGate {
    fn clone(&self) -> (r: Self)
        ensures
            r@ == self@,
    {
        FeatureGate {
            feature: self.feature.clone(),
            min_tier: self.min_tier,
            offline_allowed: self.offline_allowed,
            requires_license: self.requires_license,
            usage_key: clone_opt_string(&self.usage_key),
            monthly_limit: self.monthly_limit,
        }
    }
}

/// The built-in set of feature policies.
#[derive(Debug)]
pub struct GateConfig {
    pub gates: Vec<FeatureGate>,
}

/// The built-in gate for basic document work: free, offline, unmetered.
pub open spec fn gate_pdf_basic() -> GateView {
    GateView {
        feature: "pdf.basic"@,
        min_tier: Tier::Free,
        offline_allowed: true,
        requires_license: false,
        usage_key: Option::None,
        monthly_limit: Option::None,
    }
}

/// The built-in gate for advanced document work: a licensed paid tier.
pub open spec fn gate_pdf_advanced() -> GateView {
    GateView {
        feature: "pdf.advanced"@,
        min_tier: Tier::Pro,
        offline_allowed: true,
        requires_license: true,
        usage_key: Option::None,
        monthly_limit: Option::None,
    }
}

/// The built-in gate for image work: a licensed paid tier, online only,
/// metered without a ceiling.
pub open spec fn gate_image_ai() -> GateView {
    GateView {
        feature: "image.ai"@,
        min_tier: Tier::Pro,
        offline_allowed: false,
        requires_license: true,
        usage_key: Option::Some("images"@),
        monthly_limit: Option::None,
    }
}

/// The built-in gate for note generation: free but metered with a
/// small monthly ceiling.
pub open spec fn gate_noteflow() -> GateView {
    GateView {
        feature: "noteflow.generations"@,
        min_tier: Tier::Free,
        offline_allowed: true,
        requires_license: false,
        usage_key: Option::Some("other_generations"@),
        monthly_limit: Option::Some(5),
    }
}

impl GateConfig {
    /// The built-in gate set.
    pub fn default() -> (r: Self)
        ensures
            r.gates.deep_view() == seq![gate_pdf_basic(), gate_pdf_advanced(), gate_image_ai(), gate_noteflow()],
    {
        let mut gates: Vec<FeatureGate> = Vec::new();
        gates.push(FeatureGate {
            feature: String::from_str("pdf.basic"),
            min_tier: Tier::Free,
            offline_allowed: true,
            requires_license: false,
            usage_key: Option::None,
            monthly_limit: Option::None,
        });
        gates.push(FeatureGate {
            feature: String::from_str("pdf.advanced"),
            min_tier: Tier::Pro,
            offline_allowed: true,
            requires_license: true,
            usage_key: Option::None,
            monthly_limit: Option::None,
        });
        gates.push(FeatureGate {
            feature: String::from_str("image.ai"),
            min_tier: Tier::Pro,
            offline_allowed: false,
            requires_license: true,
            usage_key: Option::Some(String::from_str("images")),
            monthly_limit: Option::None,
        });
        gates.push(FeatureGate {
            feature: String::from_str("noteflow.generations"),
            min_tier: Tier::Free,
            offline_allowed: true,
            requires_license: false,
            usage_key: Option::Some(String::from_str("other_generations")),
            monthly_limit: Option::Some(5),
        });
        proof {
            assert(gates.deep_view() =~= seq![
                gate_pdf_basic(), gate_pdf_advanced(), gate_image_ai(), gate_noteflow(),
            ]);
        }
        GateConfig { gates }
    }

    /// The gates keyed by feature name, in declaration order.
    pub fn as_map(&self) -> (r: Vec<(String, FeatureGate)>)
        ensures
            r.deep_view().len() == self.gates.deep_view().len(),
            forall|i: int| 0 <= i < r.deep_view().len() ==> {
                &&& (#[trigger] r.deep_view()[i]).0 == self.gates.deep_view()[i].feature
                &&& r.deep_view()[i].1 == self.gates.deep_view()[i]
            },
    {
        let mut r: Vec<(String, FeatureGate)> = Vec::new();
        let mut i: usize = 0;
        while i < self.gates.len()
            invariant
                i <= self.gates@.len(),
                r.deep_view().len() == i,
                forall|m: int| 0 <= m < i ==> {
                    &&& (#[trigger] r.deep_view()[m]).0 == self.gates.deep_view()[m].feature
                    &&& r.deep_view()[m].1 == self.gates.deep_view()[m]
                },
            decreases self.gates@.len() - i,
        {
            let ghost pre_vec = r@;
            let ghost pre_dv = r.deep_view();
            let g = self.gates[i].clone();
            r.push((g.feature.clone(), g));
            proof {
                assert forall|m: int| 0 <= m < i + 1 implies {
                    &&& (#[trigger] r.deep_view()[m]).0 == self.gates.deep_view()[m].feature
                    &&& r.deep_view()[m].1 == self.gates.deep_view()[m]
                } by {
                    assert(r.deep_view()[m] == r@[m].deep_view());
                    if m < i {
                        assert(r@[m] == pre_vec[m]);
                        assert(pre_dv[m] == pre_vec[m].deep_view());
                    }
                }
            }
            i = i + 1;
        }
        r
    }
}

} // verus!
