//! The settings of a run: where the recording server is, and which encode
//! profile each recording gets.

use crate::epgstation_api::model::RuleId;
use vstd::prelude::*;

verus! {

/// One entry of the ordered rule list. It names an encode profile and the
/// recordings that get it: those made by one of the recording rules in
/// `rules`, where that is present, and those with or without a recording
/// rule, as `no_rule` says, where that is present.
#[derive(Debug)]
pub struct EncodeRule {
    pub encode_mode: String,
    pub rules: Option<Vec<RuleId>>,
    pub no_rule: Option<bool>,
}

/// What an [`EncodeRule`] holds, with texts and lists as sequences.
pub struct EncodeRuleView {
    pub encode_mode: Seq<char>,
    pub rules: Option<Seq<RuleId>>,
    pub no_rule: Option<bool>,
}

impl View for EncodeRule {
    type V = EncodeRuleView;

    open spec fn view(&self) -> EncodeRuleView {
        EncodeRuleView {
            encode_mode: self.encode_mode@,
            rules: match self.rules {
                Some(ids) => Some(ids@),
                None => None,
            },
            no_rule: self.no_rule,
        }
    }
}

/// The values of a list of encode rules, in the same order.
pub open spec fn encode_rules_view(rules: Seq<EncodeRule>) -> Seq<EncodeRuleView> {
    rules.map_values(|rule: EncodeRule| rule@)
}

/// The settings of a run.
#[derive(Debug)]
pub struct Config {
    pub epgstation_url: String,
    pub default_encode_mode: String,
    pub encode_rule: Vec<EncodeRule>,
}

/// What a [`Config`] holds, with texts and lists as sequences.
pub struct ConfigView {
    pub epgstation_url: Seq<char>,
    pub default_encode_mode: Seq<char>,
    pub encode_rule: Seq<EncodeRuleView>,
}

impl View for Config {
    type V = ConfigView;

    open spec fn view(&self) -> ConfigView {
        ConfigView {
            epgstation_url: self.epgstation_url@,
            default_encode_mode: self.default_encode_mode@,
            encode_rule: encode_rules_view(self.encode_rule@),
        }
    }
}

impl ConfigView {
    /// The settings that a new settings file starts with: a server on this
    /// machine, one profile for the recordings of three recording rules,
    /// another for the recordings without a rule, and a third for the rest.
    pub open spec fn initial() -> ConfigView {
        ConfigView {
            epgstation_url: "http://localhost:8888"@,
            default_encode_mode: "H.264"@,
            encode_rule: seq![
                EncodeRuleView {
                    encode_mode: "H.265"@,
                    rules: Some(seq![1u64, 2u64, 3u64]),
                    no_rule: None,
                },
                EncodeRuleView { encode_mode: "AV1"@, rules: None, no_rule: Some(true) },
            ],
        }
    }
}

/// The settings that are written where no settings file exists yet.
pub fn default_config() -> (config: Config)
    ensures
        config@ == ConfigView::initial(),
{
    let mut ids: Vec<RuleId> = Vec::new();
    ids.push(1);
    ids.push(2);
    ids.push(3);
    assert(ids@ =~= seq![1u64, 2u64, 3u64]);
    let mut encode_rule: Vec<EncodeRule> = Vec::new();
    encode_rule.push(
        EncodeRule { encode_mode: "H.265".to_owned(), rules: Some(ids), no_rule: None },
    );
    encode_rule.push(
        EncodeRule { encode_mode: "AV1".to_owned(), rules: None, no_rule: Some(true) },
    );
    assert(encode_rules_view(encode_rule@) =~= ConfigView::initial().encode_rule);
    Config {
        epgstation_url: "http://localhost:8888".to_owned(),
        default_encode_mode: "H.264".to_owned(),
        encode_rule,
    }
}

} // verus!
