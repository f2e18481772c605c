//! The bounded Quick Raid contract: one fixed-seed evidence audit that
//! yields one evidence card, one deterministic experiment run and a
//! non-portable paper bundle preview, with every ranking, reward, score,
//! economic and finality flag locked to false.
//!
//! Identifiers are UUIDs held as their 128-bit value (0 is the nil UUID) and
//! instants are nanoseconds since the Unix epoch. Digests over the contract
//! records are `sha256:` labels of their canonical JSON text (object keys in
//! sorted order, no insignificant white space).

use vstd::prelude::*;
use crate::digest::{digest_label, digest_label_of, random_uuid, uuid_parse, uuid_parse_of};
use crate::json::{json_text, push_json_text, JsonValue};
use crate::text::{
    find_sep, lemma_next_sep_bounds, next_sep, trim, trim_bounds,
    bounded_subject, chars_eq, chars_eq_str, chars_of, decimal, decimal_u128, is_bounded_subject,
    is_digest_text, is_trimmed, json_string, push_chars, push_json_string, push_str, str_eq,
    string_from_chars, text_is_trimmed, uuid_chars, uuid_text, valid_digest_label, push_decimal,
};

verus! {

pub const QUICK_RAID_MODE: &'static str = "quick_raid";
pub const QUICK_RAID_SCENARIO_V1: &'static str = "evidence-audit-quick-v1";
pub const QUICK_RAID_SESSION_V1: &'static str = "hepta.paper_raid.quick_raid_session.v1";
pub const QUICK_RAID_EVENT_V1: &'static str = "hepta.paper_raid.quick_raid_event.v1";
pub const QUICK_RAID_ACTION_V1: &'static str = "hepta.paper_raid.quick_raid_action.v1";
pub const QUICK_RAID_VIEW_V1: &'static str = "hepta.paper_raid.quick_raid_player_view.v1";
pub const QUICK_RAID_BRIEF_V1: &'static str = "hepta.paper_raid.quick_raid_brief.v1";
pub const QUICK_RAID_EVIDENCE_CARD_V1: &'static str = "hepta.paper_raid.quick_raid_evidence_card.v1";
pub const QUICK_RAID_RUN_V1: &'static str = "hepta.paper_raid.quick_raid_run.v1";
pub const QUICK_RAID_PAPER_BUNDLE_V1: &'static str = "hepta.paper_raid.quick_raid_paper_bundle.v1";
pub const QUICK_RAID_AUTHORITY_KIND: &'static str = "hepta_challenge_pack_projection_v1";
pub const QUICK_RAID_PACK_ID: &'static str = "paper-raid-evidence-audit-quick-seeded-v1";
pub const QUICK_RAID_RULESET_VERSION: &'static str = "paper-raid-evidence-audit-quick-v1";
pub const QUICK_RAID_FIXED_SEED: u64 = 17;
pub const QUICK_RAID_DURATION_MINUTES: i64 = 15;
pub const QUICK_RAID_DURATION_SECONDS: u32 = 900;
pub const JSON_SAFE_U64_MAX: u64 = 9_007_199_254_740_991;
/// The stable logical challenge key (not a player-controlled challenge id).
pub const QUICK_RAID_CHALLENGE_KEY: &'static str = "evidence-audit-quick";
pub const QUICK_RAID_ELIGIBILITY_V1: &'static str = "hepta.paper_raid.quick_raid_eligibility.v1";
pub const QUICK_RAID_AUTHORITY_V1: &'static str = "hepta.paper_raid.quick_raid_authority.v1";
/// 15 minutes in nanoseconds.
pub const QUICK_RAID_DURATION_NANOS: i128 = 900_000_000_000;

#[derive(Debug, Clone, Copy, PartialEq, Eq)]
pub enum QuickRaidError {
    InvalidContract(&'static str),
    AuthorityEscape,
    ChallengeUnavailable,
    OwnerMismatch,
    StaleVersion,
    Expired,
    NotExpired,
    Terminal,
    InvalidTransition,
    VersionExhausted,
}

/// `Ok` when no error was found, else the first error.
pub open spec fn quick_result(e: Option<QuickRaidError>) -> Result<(), QuickRaidError> {
    match e {
        Some(e) => Err(e),
        None => Ok(()),
    }
}

pub open spec fn digest_error(s: Seq<char>) -> Option<QuickRaidError> {
    if is_digest_text(s) {
        None
    } else {
        Some(QuickRaidError::InvalidContract("digest"))
    }
}

pub fn valid_digest(value: &str) -> (r: Result<(), QuickRaidError>)
    ensures
        r == quick_result(digest_error(value@)),
{
    if valid_digest_label(value) {
        Ok(())
    } else {
        Err(QuickRaidError::InvalidContract("digest"))
    }
}

#[derive(Debug, Clone, PartialEq, Eq)]
pub struct QuickRaidEligibilityV1 {
    pub schema: String,
    pub authority_kind: String,
    pub activation_eligible: bool,
    pub qualification_eligible: bool,
    pub scientific_finality_eligible: bool,
    pub ranking_eligible: bool,
    pub reward_eligible: bool,
    pub score_eligible: bool,
    pub economic_eligible: bool,
    pub completion_portable: bool,
}

impl QuickRaidEligibilityV1 {
    pub open spec fn escapes(self) -> bool {
        self.activation_eligible || self.qualification_eligible
            || self.scientific_finality_eligible || self.ranking_eligible || self.reward_eligible
            || self.score_eligible || self.economic_eligible || self.completion_portable
    }

    pub open spec fn spec_error(self) -> Option<QuickRaidError> {
        if self.schema@ != QUICK_RAID_ELIGIBILITY_V1@ || self.authority_kind@
            != QUICK_RAID_AUTHORITY_KIND@ {
            Some(QuickRaidError::InvalidContract("eligibility identity"))
        } else if self.escapes() {
            Some(QuickRaidError::AuthorityEscape)
        } else {
            None
        }
    }

    /// The only eligibility a Quick Raid carries: no authority at all.
    pub open spec fn is_locked(self) -> bool {
        self.spec_error() is None
    }

    pub fn locked() -> (r: Self)
        ensures
            r.is_locked(),
    {
        QuickRaidEligibilityV1 {
            schema: QUICK_RAID_ELIGIBILITY_V1.to_owned(),
            authority_kind: QUICK_RAID_AUTHORITY_KIND.to_owned(),
            activation_eligible: false,
            qualification_eligible: false,
            scientific_finality_eligible: false,
            ranking_eligible: false,
            reward_eligible: false,
            score_eligible: false,
            economic_eligible: false,
            completion_portable: false,
        }
    }

    pub fn validate(&self) -> (r: Result<(), QuickRaidError>)
        ensures
            r == quick_result(self.spec_error()),
    {
        if !str_eq(self.schema.as_str(), QUICK_RAID_ELIGIBILITY_V1) || !str_eq(
            self.authority_kind.as_str(),
            QUICK_RAID_AUTHORITY_KIND,
        ) {
            return Err(QuickRaidError::InvalidContract("eligibility identity"));
        }
        if self.activation_eligible || self.qualification_eligible
            || self.scientific_finality_eligible || self.ranking_eligible || self.reward_eligible
            || self.score_eligible || self.economic_eligible || self.completion_portable {
            return Err(QuickRaidError::AuthorityEscape);
        }
        Ok(())
    }
}

#[derive(Debug, Clone, Copy, PartialEq, Eq, Structural)]
pub enum QuickRaidEvidenceChoiceV1 {
    FlagCitationGap,
    AcceptAsSufficient,
}

impl QuickRaidEvidenceChoiceV1 {
    pub open spec fn spec_code(self) -> &'static str {
        match self {
            QuickRaidEvidenceChoiceV1::FlagCitationGap => "flag_citation_gap",
            QuickRaidEvidenceChoiceV1::AcceptAsSufficient => "accept_as_sufficient",
        }
    }

    pub fn code(self) -> (r: &'static str)
        ensures
            r == self.spec_code(),
    {
        match self {
            QuickRaidEvidenceChoiceV1::FlagCitationGap => "flag_citation_gap",
            QuickRaidEvidenceChoiceV1::AcceptAsSufficient => "accept_as_sufficient",
        }
    }
}

#[derive(Debug, Clone, Copy, PartialEq, Eq, Structural)]
pub enum QuickRaidExperimentChoiceV1 {
    RecheckBaseline,
    RunCandidate,
}

impl QuickRaidExperimentChoiceV1 {
    pub open spec fn spec_code(self) -> &'static str {
        match self {
            QuickRaidExperimentChoiceV1::RecheckBaseline => "recheck_baseline",
            QuickRaidExperimentChoiceV1::RunCandidate => "run_candidate",
        }
    }

    pub fn code(self) -> (r: &'static str)
        ensures
            r == self.spec_code(),
    {
        match self {
            QuickRaidExperimentChoiceV1::RecheckBaseline => "recheck_baseline",
            QuickRaidExperimentChoiceV1::RunCandidate => "run_candidate",
        }
    }
}

#[derive(Debug, Clone, Copy, PartialEq, Eq, Structural)]
pub enum QuickRaidConclusionV1 {
    ReviseClaim,
    RetainWithCaveat,
}

impl QuickRaidConclusionV1 {
    pub open spec fn spec_code(self) -> &'static str {
        match self {
            QuickRaidConclusionV1::ReviseClaim => "revise_claim",
            QuickRaidConclusionV1::RetainWithCaveat => "retain_with_caveat",
        }
    }

    pub fn code(self) -> (r: &'static str)
        ensures
            r == self.spec_code(),
    {
        match self {
            QuickRaidConclusionV1::ReviseClaim => "revise_claim",
            QuickRaidConclusionV1::RetainWithCaveat => "retain_with_caveat",
        }
    }
}

} // verus!

verus! {

/// Appends a UUID as a quoted JSON string.
fn push_json_uuid(out: &mut Vec<char>, u: u128)
    ensures
        final(out)@ == old(out)@ + json_string(uuid_text(u)),
{
    let s = string_from_chars(&uuid_chars(u));
    push_json_string(out, s.as_str());
}


#[derive(Debug, Clone, PartialEq, Eq)]
pub struct QuickRaidAuthorityV1 {
    pub schema: String,
    pub authority_kind: String,
    pub challenge_key: String,
    pub challenge_id: u128,
    pub challenge_snapshot_hash: String,
    pub pack_id: String,
    pub ruleset_version: String,
    pub ruleset_hash: String,
    pub seed: u64,
    pub duration_seconds: u32,
    pub authority_hash: String,
}

/// The canonical JSON text of an authority whose `authority_hash` is `hash`.
pub open spec fn authority_json(a: QuickRaidAuthorityV1, hash: Seq<char>) -> Seq<char> {
    "{\"authority_hash\":"@ + json_string(hash) + ",\"authority_kind\":"@ + json_string(
        a.authority_kind@,
    ) + ",\"challenge_id\":"@ + json_string(uuid_text(a.challenge_id)) + ",\"challenge_key\":"@
        + json_string(a.challenge_key@) + ",\"challenge_snapshot_hash\":"@ + json_string(
        a.challenge_snapshot_hash@,
    ) + ",\"duration_seconds\":"@ + decimal(a.duration_seconds as nat) + ",\"pack_id\":"@
        + json_string(a.pack_id@) + ",\"ruleset_hash\":"@ + json_string(a.ruleset_hash@)
        + ",\"ruleset_version\":"@ + json_string(a.ruleset_version@) + ",\"schema\":"@
        + json_string(a.schema@) + ",\"seed\":"@ + decimal(a.seed as nat) + "}"@
}

fn authority_json_chars(a: &QuickRaidAuthorityV1, hash: &str) -> (r: Vec<char>)
    ensures
        r@ == authority_json(*a, hash@),
{
    let mut out: Vec<char> = Vec::new();
    push_str(&mut out, "{\"authority_hash\":");
    push_json_string(&mut out, hash);
    push_str(&mut out, ",\"authority_kind\":");
    push_json_string(&mut out, a.authority_kind.as_str());
    push_str(&mut out, ",\"challenge_id\":");
    push_json_uuid(&mut out, a.challenge_id);
    push_str(&mut out, ",\"challenge_key\":");
    push_json_string(&mut out, a.challenge_key.as_str());
    push_str(&mut out, ",\"challenge_snapshot_hash\":");
    push_json_string(&mut out, a.challenge_snapshot_hash.as_str());
    push_str(&mut out, ",\"duration_seconds\":");
    push_decimal(&mut out, a.duration_seconds as u64);
    push_str(&mut out, ",\"pack_id\":");
    push_json_string(&mut out, a.pack_id.as_str());
    push_str(&mut out, ",\"ruleset_hash\":");
    push_json_string(&mut out, a.ruleset_hash.as_str());
    push_str(&mut out, ",\"ruleset_version\":");
    push_json_string(&mut out, a.ruleset_version.as_str());
    push_str(&mut out, ",\"schema\":");
    push_json_string(&mut out, a.schema.as_str());
    push_str(&mut out, ",\"seed\":");
    push_decimal(&mut out, a.seed);
    push_str(&mut out, "}");
    assert(out@ =~= authority_json(*a, hash@));
    out
}

impl QuickRaidAuthorityV1 {
    /// The digest that `authority_hash` must hold: over the authority with an
    /// empty `authority_hash`.
    pub open spec fn canonical_hash(self) -> Seq<char> {
        digest_label_of(authority_json(self, ""@))
    }

    pub open spec fn identity_ok(self) -> bool {
        &&& self.schema@ == QUICK_RAID_AUTHORITY_V1@
        &&& self.authority_kind@ == QUICK_RAID_AUTHORITY_KIND@
        &&& self.challenge_key@ == QUICK_RAID_CHALLENGE_KEY@
        &&& self.pack_id@ == QUICK_RAID_PACK_ID@
        &&& self.ruleset_version@ == QUICK_RAID_RULESET_VERSION@
        &&& self.seed == QUICK_RAID_FIXED_SEED
        &&& self.duration_seconds == QUICK_RAID_DURATION_SECONDS
    }

    pub open spec fn spec_error(self) -> Option<QuickRaidError> {
        if !self.identity_ok() {
            Some(QuickRaidError::InvalidContract("authority identity"))
        } else if self.challenge_id == 0 {
            Some(QuickRaidError::InvalidContract("nil UUID"))
        } else if !is_digest_text(self.challenge_snapshot_hash@) || !is_digest_text(
            self.ruleset_hash@,
        ) || !is_digest_text(self.authority_hash@) {
            Some(QuickRaidError::InvalidContract("digest"))
        } else if self.canonical_hash() != self.authority_hash@ {
            Some(QuickRaidError::InvalidContract("authority hash"))
        } else {
            None
        }
    }

    pub open spec fn valid(self) -> bool {
        self.spec_error() is None
    }

    fn canonical_hash_chars(&self) -> (r: Vec<char>)
        ensures
            r@ == self.canonical_hash(),
    {
        digest_label(&authority_json_chars(self, ""))
    }

    pub fn validate(&self) -> (r: Result<(), QuickRaidError>)
        ensures
            r == quick_result(self.spec_error()),
    {
        if !str_eq(self.schema.as_str(), QUICK_RAID_AUTHORITY_V1) || !str_eq(
            self.authority_kind.as_str(),
            QUICK_RAID_AUTHORITY_KIND,
        ) || !str_eq(self.challenge_key.as_str(), QUICK_RAID_CHALLENGE_KEY) || !str_eq(
            self.pack_id.as_str(),
            QUICK_RAID_PACK_ID,
        ) || !str_eq(self.ruleset_version.as_str(), QUICK_RAID_RULESET_VERSION) || self.seed
            != QUICK_RAID_FIXED_SEED || self.duration_seconds != QUICK_RAID_DURATION_SECONDS {
            return Err(QuickRaidError::InvalidContract("authority identity"));
        }
        if self.challenge_id == 0 {
            return Err(QuickRaidError::InvalidContract("nil UUID"));
        }
        valid_digest(self.challenge_snapshot_hash.as_str())?;
        valid_digest(self.ruleset_hash.as_str())?;
        valid_digest(self.authority_hash.as_str())?;
        let expected = self.canonical_hash_chars();
        if !chars_eq_str(&expected, self.authority_hash.as_str()) {
            return Err(QuickRaidError::InvalidContract("authority hash"));
        }
        Ok(())
    }
}

#[derive(Debug, Clone, PartialEq, Eq)]
pub struct QuickRaidEvidenceCardV1 {
    pub schema: String,
    pub evidence_card_id: String,
    pub seed: u64,
    pub claim: String,
    pub observation: String,
    pub citation: String,
    pub source_digest: String,
}

/// The text whose digest identifies the fixed evidence source.
pub open spec fn evidence_source_text() -> Seq<char> {
    "quick-raid/evidence-audit/seed-17/source-observation-v1"@
}

/// The canonical JSON text of an evidence card.
pub open spec fn card_json(c: QuickRaidEvidenceCardV1) -> Seq<char> {
    "{\"citation\":"@ + json_string(c.citation@) + ",\"claim\":"@ + json_string(c.claim@)
        + ",\"evidence_card_id\":"@ + json_string(c.evidence_card_id@) + ",\"observation\":"@
        + json_string(c.observation@) + ",\"schema\":"@ + json_string(c.schema@) + ",\"seed\":"@
        + decimal(c.seed as nat) + ",\"source_digest\":"@ + json_string(c.source_digest@) + "}"@
}

fn card_json_chars(c: &QuickRaidEvidenceCardV1) -> (r: Vec<char>)
    ensures
        r@ == card_json(*c),
{
    let mut out: Vec<char> = Vec::new();
    push_str(&mut out, "{\"citation\":");
    push_json_string(&mut out, c.citation.as_str());
    push_str(&mut out, ",\"claim\":");
    push_json_string(&mut out, c.claim.as_str());
    push_str(&mut out, ",\"evidence_card_id\":");
    push_json_string(&mut out, c.evidence_card_id.as_str());
    push_str(&mut out, ",\"observation\":");
    push_json_string(&mut out, c.observation.as_str());
    push_str(&mut out, ",\"schema\":");
    push_json_string(&mut out, c.schema.as_str());
    push_str(&mut out, ",\"seed\":");
    push_decimal(&mut out, c.seed);
    push_str(&mut out, ",\"source_digest\":");
    push_json_string(&mut out, c.source_digest.as_str());
    push_str(&mut out, "}");
    assert(out@ =~= card_json(*c));
    out
}

impl QuickRaidEvidenceCardV1 {
    /// The one evidence card of the fixed seed.
    pub open spec fn is_fixed(self) -> bool {
        &&& self.schema@ == QUICK_RAID_EVIDENCE_CARD_V1@
        &&& self.evidence_card_id@ == "evidence-card-seed-17"@
        &&& self.seed == QUICK_RAID_FIXED_SEED
        &&& self.claim@ == "The candidate retrieval change improves evidence-supported precision."@
        &&& self.observation@
            == "The supplied citation covers the baseline but not the claimed improvement."@
        &&& self.citation@ == "quick://evidence-audit/seed-17/observation-01"@
        &&& self.source_digest@ == digest_label_of(evidence_source_text())
    }

    pub open spec fn spec_error(self) -> Option<QuickRaidError> {
        if !self.is_fixed() {
            Some(QuickRaidError::InvalidContract("fixed EvidenceCard"))
        } else {
            digest_error(self.source_digest@)
        }
    }

    pub fn fixed() -> (r: Self)
        ensures
            r.is_fixed(),
            is_digest_text(r.source_digest@),
    {
        let source = chars_of("quick-raid/evidence-audit/seed-17/source-observation-v1");
        let source_digest = string_from_chars(&digest_label(&source));
        QuickRaidEvidenceCardV1 {
            schema: QUICK_RAID_EVIDENCE_CARD_V1.to_owned(),
            evidence_card_id: "evidence-card-seed-17".to_owned(),
            seed: QUICK_RAID_FIXED_SEED,
            claim: "The candidate retrieval change improves evidence-supported precision.".to_owned(),
            observation: "The supplied citation covers the baseline but not the claimed improvement.".to_owned(),
            citation: "quick://evidence-audit/seed-17/observation-01".to_owned(),
            source_digest,
        }
    }

    pub fn validate(&self) -> (r: Result<(), QuickRaidError>)
        ensures
            r == quick_result(self.spec_error()),
    {
        let expected = Self::fixed();
        if !str_eq(self.schema.as_str(), expected.schema.as_str()) || !str_eq(
            self.evidence_card_id.as_str(),
            expected.evidence_card_id.as_str(),
        ) || self.seed != expected.seed || !str_eq(self.claim.as_str(), expected.claim.as_str())
            || !str_eq(self.observation.as_str(), expected.observation.as_str()) || !str_eq(
            self.citation.as_str(),
            expected.citation.as_str(),
        ) || !str_eq(self.source_digest.as_str(), expected.source_digest.as_str()) {
            return Err(QuickRaidError::InvalidContract("fixed EvidenceCard"));
        }
        valid_digest(self.source_digest.as_str())
    }
}

} // verus!

verus! {

#[derive(Debug, Clone, PartialEq, Eq)]
pub struct QuickRaidMetricV1 {
    pub name: String,
    pub baseline_bps: u32,
    pub candidate_bps: u32,
}

#[derive(Debug, Clone, PartialEq, Eq)]
pub struct QuickRaidExperimentRunV1 {
    pub schema: String,
    pub run_id: u128,
    pub seed: u64,
    pub choice: QuickRaidExperimentChoiceV1,
    pub result: String,
    pub metrics: Vec<QuickRaidMetricV1>,
    pub run_hash: String,
}

pub open spec fn metric_json(m: QuickRaidMetricV1) -> Seq<char> {
    "{\"baseline_bps\":"@ + decimal(m.baseline_bps as nat) + ",\"candidate_bps\":"@ + decimal(
        m.candidate_bps as nat,
    ) + ",\"name\":"@ + json_string(m.name@) + "}"@
}

/// Metric objects separated by commas.
pub open spec fn metric_list_json(ms: Seq<QuickRaidMetricV1>) -> Seq<char>
    decreases ms.len(),
{
    if ms.len() == 0 {
        Seq::<char>::empty()
    } else if ms.len() == 1 {
        metric_json(ms[0])
    } else {
        metric_list_json(ms.drop_last()) + ","@ + metric_json(ms.last())
    }
}

/// The canonical JSON text of a run whose `run_hash` is `hash`.
pub open spec fn run_json(r: QuickRaidExperimentRunV1, hash: Seq<char>) -> Seq<char> {
    "{\"choice\":"@ + json_string(r.choice.spec_code()@) + ",\"metrics\":["@ + metric_list_json(
        r.metrics@,
    ) + "],\"result\":"@ + json_string(r.result@) + ",\"run_hash\":"@ + json_string(hash)
        + ",\"run_id\":"@ + json_string(uuid_text(r.run_id)) + ",\"schema\":"@ + json_string(
        r.schema@,
    ) + ",\"seed\":"@ + decimal(r.seed as nat) + "}"@
}

fn push_metric_json(out: &mut Vec<char>, m: &QuickRaidMetricV1)
    ensures
        final(out)@ == old(out)@ + metric_json(*m),
{
    let ghost before = out@;
    push_str(out, "{\"baseline_bps\":");
    push_decimal(out, m.baseline_bps as u64);
    push_str(out, ",\"candidate_bps\":");
    push_decimal(out, m.candidate_bps as u64);
    push_str(out, ",\"name\":");
    push_json_string(out, m.name.as_str());
    push_str(out, "}");
    assert(out@ =~= before + metric_json(*m));
}

fn run_json_chars(r: &QuickRaidExperimentRunV1, hash: &str) -> (o: Vec<char>)
    ensures
        o@ == run_json(*r, hash@),
{
    let mut out: Vec<char> = Vec::new();
    push_str(&mut out, "{\"choice\":");
    push_json_string(&mut out, r.choice.code());
    push_str(&mut out, ",\"metrics\":[");
    let ghost before = out@;
    let mut i: usize = 0;
    assert(r.metrics@.take(0) =~= Seq::<QuickRaidMetricV1>::empty());
    assert(out@ =~= before + metric_list_json(r.metrics@.take(0)));
    while i < r.metrics.len()
        invariant
            i <= r.metrics@.len(),
            out@ == before + metric_list_json(r.metrics@.take(i as int)),
        decreases r.metrics.len() - i,
    {
        assert(r.metrics@.take(i + 1).drop_last() =~= r.metrics@.take(i as int));
        assert(r.metrics@.take(i + 1).last() == r.metrics@[i as int]);
        if i > 0 {
            push_str(&mut out, ",");
        }
        push_metric_json(&mut out, &r.metrics[i]);
        i = i + 1;
        assert(out@ =~= before + metric_list_json(r.metrics@.take(i as int)));
    }
    assert(r.metrics@.take(r.metrics@.len() as int) =~= r.metrics@);
    push_str(&mut out, "],\"result\":");
    push_json_string(&mut out, r.result.as_str());
    push_str(&mut out, ",\"run_hash\":");
    push_json_string(&mut out, hash);
    push_str(&mut out, ",\"run_id\":");
    push_json_uuid(&mut out, r.run_id);
    push_str(&mut out, ",\"schema\":");
    push_json_string(&mut out, r.schema.as_str());
    push_str(&mut out, ",\"seed\":");
    push_decimal(&mut out, r.seed);
    push_str(&mut out, "}");
    assert(out@ =~= run_json(*r, hash@));
    out
}

/// The result text that a fixed-seed run reports for a choice.
pub open spec fn run_result_for(choice: QuickRaidExperimentChoiceV1) -> Seq<char> {
    match choice {
        QuickRaidExperimentChoiceV1::RecheckBaseline => "baseline_reproduced"@,
        QuickRaidExperimentChoiceV1::RunCandidate => "candidate_improvement_observed"@,
    }
}

/// The candidate precision (basis points) a fixed-seed run measures for a choice.
pub open spec fn candidate_bps_for(choice: QuickRaidExperimentChoiceV1) -> u32 {
    match choice {
        QuickRaidExperimentChoiceV1::RecheckBaseline => 7400,
        QuickRaidExperimentChoiceV1::RunCandidate => 7800,
    }
}

/// What a fixed-seed run measures: the baseline precision is 74.00%; the
/// candidate run measures 78.00%, strictly above it, and reports an
/// improvement; a baseline recheck measures the baseline again and reports
/// it reproduced. So a run reports an improvement exactly when its
/// candidate precision exceeds its baseline.
pub proof fn lemma_fixed_seed_measurements(run: QuickRaidExperimentRunV1)
    requires
        run.is_deterministic_body(),
    ensures
        run.metrics@[0].baseline_bps == 7400,
        run.choice == QuickRaidExperimentChoiceV1::RunCandidate ==> run.metrics@[0].candidate_bps
            == 7800 && run.result@ == "candidate_improvement_observed"@,
        run.choice == QuickRaidExperimentChoiceV1::RecheckBaseline ==> run.metrics@[0].candidate_bps
            == run.metrics@[0].baseline_bps && run.result@ == "baseline_reproduced"@,
        (run.result@ == "candidate_improvement_observed"@) <==> run.metrics@[0].candidate_bps
            > run.metrics@[0].baseline_bps,
{
    reveal_strlit("candidate_improvement_observed");
    reveal_strlit("baseline_reproduced");
    assert("baseline_reproduced"@.len() != "candidate_improvement_observed"@.len());
    assert("baseline_reproduced"@ != "candidate_improvement_observed"@);
}

impl QuickRaidExperimentRunV1 {
    pub open spec fn canonical_hash(self) -> Seq<char> {
        digest_label_of(run_json(self, ""@))
    }

    /// Everything but the hash is what the fixed seed produces for this run's id and choice.
    pub open spec fn is_deterministic_body(self) -> bool {
        &&& self.schema@ == QUICK_RAID_RUN_V1@
        &&& self.seed == QUICK_RAID_FIXED_SEED
        &&& self.result@ == run_result_for(self.choice)
        &&& self.metrics@.len() == 1
        &&& self.metrics@[0].name@ == "evidence_supported_precision"@
        &&& self.metrics@[0].baseline_bps == 7400
        &&& self.metrics@[0].candidate_bps == candidate_bps_for(self.choice)
    }

    pub open spec fn spec_error(self) -> Option<QuickRaidError> {
        if self.schema@ != QUICK_RAID_RUN_V1@ || self.seed != QUICK_RAID_FIXED_SEED
            || self.metrics@.len() != 1 || self.metrics@[0].name@
            != "evidence_supported_precision"@ {
            Some(QuickRaidError::InvalidContract("experiment run identity"))
        } else if self.run_id == 0 {
            Some(QuickRaidError::InvalidContract("nil UUID"))
        } else if !is_digest_text(self.run_hash@) {
            Some(QuickRaidError::InvalidContract("digest"))
        } else if self.canonical_hash() != self.run_hash@ {
            Some(QuickRaidError::InvalidContract("run hash"))
        } else if !self.is_deterministic_body() {
            Some(QuickRaidError::InvalidContract("deterministic experiment run"))
        } else {
            None
        }
    }

    pub open spec fn valid(self) -> bool {
        self.spec_error() is None
    }

    /// The run that the fixed seed produces for `choice`, with its canonical hash.
    pub fn deterministic(run_id: u128, choice: QuickRaidExperimentChoiceV1) -> (r: Self)
        ensures
            r.run_id == run_id,
            r.choice == choice,
            r.is_deterministic_body(),
            r.run_hash@ == r.canonical_hash(),
            is_digest_text(r.run_hash@),
            run_id != 0 ==> r.valid(),
            r.metrics@[0].baseline_bps == 7400,
            choice == QuickRaidExperimentChoiceV1::RunCandidate ==> r.metrics@[0].candidate_bps == 7800,
            choice == QuickRaidExperimentChoiceV1::RecheckBaseline ==> r.metrics@[0].candidate_bps == 7400,
    {
        let mut metrics: Vec<QuickRaidMetricV1> = Vec::new();
        let candidate: u32 = match choice {
            QuickRaidExperimentChoiceV1::RecheckBaseline => 7400,
            QuickRaidExperimentChoiceV1::RunCandidate => 7800,
        };
        metrics.push(
            QuickRaidMetricV1 {
                name: "evidence_supported_precision".to_owned(),
                baseline_bps: 7400,
                candidate_bps: candidate,
            },
        );
        let result: &'static str = match choice {
            QuickRaidExperimentChoiceV1::RecheckBaseline => "baseline_reproduced",
            QuickRaidExperimentChoiceV1::RunCandidate => "candidate_improvement_observed",
        };
        let mut run = QuickRaidExperimentRunV1 {
            schema: QUICK_RAID_RUN_V1.to_owned(),
            run_id,
            seed: QUICK_RAID_FIXED_SEED,
            choice,
            result: result.to_owned(),
            metrics,
            run_hash: String::new(),
        };
        let hash = digest_label(&run_json_chars(&run, ""));
        run.run_hash = string_from_chars(&hash);
        proof {
            assert(run_json(run, ""@) == run_json(
                QuickRaidExperimentRunV1 { run_hash: run.run_hash, ..run },
                ""@,
            ));
        }
        run
    }

    pub fn validate(&self) -> (r: Result<(), QuickRaidError>)
        ensures
            r == quick_result(self.spec_error()),
    {
        if !str_eq(self.schema.as_str(), QUICK_RAID_RUN_V1) || self.seed != QUICK_RAID_FIXED_SEED
            || self.metrics.len() != 1 || !str_eq(
            self.metrics[0].name.as_str(),
            "evidence_supported_precision",
        ) {
            return Err(QuickRaidError::InvalidContract("experiment run identity"));
        }
        if self.run_id == 0 {
            return Err(QuickRaidError::InvalidContract("nil UUID"));
        }
        valid_digest(self.run_hash.as_str())?;
        let expected = digest_label(&run_json_chars(self, ""));
        if !chars_eq_str(&expected, self.run_hash.as_str()) {
            return Err(QuickRaidError::InvalidContract("run hash"));
        }
        let (want_result, want_candidate): (&'static str, u32) = match self.choice {
            QuickRaidExperimentChoiceV1::RecheckBaseline => ("baseline_reproduced", 7400),
            QuickRaidExperimentChoiceV1::RunCandidate => ("candidate_improvement_observed", 7800),
        };
        if !str_eq(self.result.as_str(), want_result) || self.metrics[0].baseline_bps != 7400
            || self.metrics[0].candidate_bps != want_candidate {
            return Err(QuickRaidError::InvalidContract("deterministic experiment run"));
        }
        Ok(())
    }
}

} // verus!

verus! {

#[derive(Debug, Clone, PartialEq, Eq)]
pub struct QuickRaidPaperBundleV1 {
    pub schema: String,
    pub authority: QuickRaidAuthorityV1,
    pub session_id: u128,
    pub seed: u64,
    pub evidence_card: QuickRaidEvidenceCardV1,
    pub experiment_run: QuickRaidExperimentRunV1,
    pub conclusion: QuickRaidConclusionV1,
    pub finality: String,
    pub portable: bool,
    pub paper_bundle_hash: String,
}

/// The canonical JSON text of a bundle whose `paper_bundle_hash` is `hash`.
pub open spec fn bundle_json(b: QuickRaidPaperBundleV1, hash: Seq<char>) -> Seq<char> {
    "{\"authority\":"@ + authority_json(b.authority, b.authority.authority_hash@)
        + ",\"conclusion\":"@ + json_string(b.conclusion.spec_code()@) + ",\"evidence_card\":"@
        + card_json(b.evidence_card) + ",\"experiment_run\":"@ + run_json(
        b.experiment_run,
        b.experiment_run.run_hash@,
    ) + ",\"finality\":"@ + json_string(b.finality@) + ",\"paper_bundle_hash\":"@ + json_string(
        hash,
    ) + ",\"portable\":"@ + (if b.portable {
        "true"@
    } else {
        "false"@
    }) + ",\"schema\":"@ + json_string(b.schema@) + ",\"seed\":"@ + decimal(b.seed as nat)
        + ",\"session_id\":"@ + json_string(uuid_text(b.session_id)) + "}"@
}

fn bundle_json_chars(b: &QuickRaidPaperBundleV1, hash: &str) -> (r: Vec<char>)
    ensures
        r@ == bundle_json(*b, hash@),
{
    let mut out: Vec<char> = Vec::new();
    push_str(&mut out, "{\"authority\":");
    push_chars(&mut out, &authority_json_chars(&b.authority, b.authority.authority_hash.as_str()));
    push_str(&mut out, ",\"conclusion\":");
    push_json_string(&mut out, b.conclusion.code());
    push_str(&mut out, ",\"evidence_card\":");
    push_chars(&mut out, &card_json_chars(&b.evidence_card));
    push_str(&mut out, ",\"experiment_run\":");
    push_chars(&mut out, &run_json_chars(&b.experiment_run, b.experiment_run.run_hash.as_str()));
    push_str(&mut out, ",\"finality\":");
    push_json_string(&mut out, b.finality.as_str());
    push_str(&mut out, ",\"paper_bundle_hash\":");
    push_json_string(&mut out, hash);
    push_str(&mut out, ",\"portable\":");
    if b.portable {
        push_str(&mut out, "true");
    } else {
        push_str(&mut out, "false");
    }
    push_str(&mut out, ",\"schema\":");
    push_json_string(&mut out, b.schema.as_str());
    push_str(&mut out, ",\"seed\":");
    push_decimal(&mut out, b.seed);
    push_str(&mut out, ",\"session_id\":");
    push_json_uuid(&mut out, b.session_id);
    push_str(&mut out, "}");
    assert(out@ =~= bundle_json(*b, hash@));
    out
}

impl QuickRaidPaperBundleV1 {
    pub open spec fn canonical_hash(self) -> Seq<char> {
        digest_label_of(bundle_json(self, ""@))
    }

    pub open spec fn spec_error(self) -> Option<QuickRaidError> {
        if self.schema@ != QUICK_RAID_PAPER_BUNDLE_V1@ || self.seed != QUICK_RAID_FIXED_SEED
            || self.finality@ != "none"@ || self.portable {
            Some(QuickRaidError::AuthorityEscape)
        } else if self.session_id == 0 {
            Some(QuickRaidError::InvalidContract("nil UUID"))
        } else if self.authority.spec_error() is Some {
            self.authority.spec_error()
        } else if self.evidence_card.spec_error() is Some {
            self.evidence_card.spec_error()
        } else if self.experiment_run.spec_error() is Some {
            self.experiment_run.spec_error()
        } else if !is_digest_text(self.paper_bundle_hash@) {
            Some(QuickRaidError::InvalidContract("digest"))
        } else if self.canonical_hash() != self.paper_bundle_hash@ {
            Some(QuickRaidError::InvalidContract("paper bundle hash"))
        } else {
            None
        }
    }

    pub open spec fn valid(self) -> bool {
        self.spec_error() is None
    }

    #[verifier::rlimit(40)]
    pub fn validate(&self) -> (r: Result<(), QuickRaidError>)
        ensures
            r == quick_result(self.spec_error()),
    {
        if !str_eq(self.schema.as_str(), QUICK_RAID_PAPER_BUNDLE_V1) || self.seed
            != QUICK_RAID_FIXED_SEED || !str_eq(self.finality.as_str(), "none") || self.portable {
            return Err(QuickRaidError::AuthorityEscape);
        }
        if self.session_id == 0 {
            return Err(QuickRaidError::InvalidContract("nil UUID"));
        }
        self.authority.validate()?;
        self.evidence_card.validate()?;
        self.experiment_run.validate()?;
        valid_digest(self.paper_bundle_hash.as_str())?;
        let expected = digest_label(&bundle_json_chars(self, ""));
        if !chars_eq_str(&expected, self.paper_bundle_hash.as_str()) {
            return Err(QuickRaidError::InvalidContract("paper bundle hash"));
        }
        Ok(())
    }

    /// The bundle for a published run: the fixed evidence card, no finality,
    /// not portable, sealed with its canonical hash.
    pub open spec fn is_built_from(
        self,
        authority: QuickRaidAuthorityV1,
        session_id: u128,
        experiment_run: QuickRaidExperimentRunV1,
        conclusion: QuickRaidConclusionV1,
    ) -> bool {
        &&& self.schema@ == QUICK_RAID_PAPER_BUNDLE_V1@
        &&& self.authority == authority
        &&& self.session_id == session_id
        &&& self.seed == QUICK_RAID_FIXED_SEED
        &&& self.evidence_card.is_fixed()
        &&& same_run(self.experiment_run, experiment_run)
        &&& self.conclusion == conclusion
        &&& self.finality@ == "none"@
        &&& !self.portable
        &&& self.paper_bundle_hash@ == self.canonical_hash()
    }

    #[verifier::rlimit(40)]
    pub fn build(
        authority: QuickRaidAuthorityV1,
        session_id: u128,
        experiment_run: QuickRaidExperimentRunV1,
        conclusion: QuickRaidConclusionV1,
    ) -> (r: Result<Self, QuickRaidError>)
        ensures
            authority.spec_error() is Some ==> r == Err::<Self, QuickRaidError>(
                authority.spec_error()->0,
            ),
            authority.spec_error() is None && experiment_run.spec_error() is Some ==> r == Err::<
                Self,
                QuickRaidError,
            >(experiment_run.spec_error()->0),
            authority.spec_error() is None && experiment_run.spec_error() is None ==> (
            session_id == 0 ==> r == Err::<Self, QuickRaidError>(
                QuickRaidError::InvalidContract("nil UUID"),
            )) && (session_id != 0 ==> (r matches Ok(b) && b.valid() && b.is_built_from(
                authority,
                session_id,
                experiment_run,
                conclusion,
            ))),
    {
        authority.validate()?;
        experiment_run.validate()?;
        let mut bundle = QuickRaidPaperBundleV1 {
            schema: QUICK_RAID_PAPER_BUNDLE_V1.to_owned(),
            authority,
            session_id,
            seed: QUICK_RAID_FIXED_SEED,
            evidence_card: QuickRaidEvidenceCardV1::fixed(),
            experiment_run,
            conclusion,
            finality: "none".to_owned(),
            portable: false,
            paper_bundle_hash: String::new(),
        };
        let hash = digest_label(&bundle_json_chars(&bundle, ""));
        let ghost unsealed = bundle;
        bundle.paper_bundle_hash = string_from_chars(&hash);
        assert(bundle_json(bundle, ""@) == bundle_json(unsealed, ""@));
        assert(bundle.evidence_card.spec_error() is None);
        assert(bundle.canonical_hash() == bundle.paper_bundle_hash@);
        bundle.validate()?;
        Ok(bundle)
    }
}

} // verus!

verus! {

/// The value after `pack_id=` in the first `;`-separated part of a
/// description (from index `from` on) whose trimmed text begins with `pack_id=`.
pub open spec fn pack_id_from(s: Seq<char>, from: int) -> Option<Seq<char>>
    decreases s.len() - from,
    when 0 <= from <= s.len()
{
    let e = next_sep(s, from, ';');
    let p = trim(s.subrange(from, e));
    if p.len() >= 8 && p.take(8) == "pack_id="@ {
        Some(p.skip(8))
    } else if e < s.len() {
        proof {
            lemma_next_sep_bounds(s, from, ';');
        }
        pack_id_from(s, e + 1)
    } else {
        None
    }
}

/// The pack id a catalog description declares.
pub fn described_pack_id(description: &str) -> (r: Option<Vec<char>>)
    ensures
        match r {
            Some(v) => pack_id_from(description@, 0) == Some(v@),
            None => pack_id_from(description@, 0) is None,
        },
{
    let s = chars_of(description);
    let prefix = chars_of("pack_id=");
    proof {
        reveal_strlit("pack_id=");
    }
    let mut from: usize = 0;
    loop
        invariant
            s@ == description@,
            prefix@ == "pack_id="@,
            prefix@.len() == 8,
            from <= s@.len(),
            pack_id_from(s@, 0) == pack_id_from(s@, from as int),
        decreases s@.len() - from,
    {
        let e = find_sep(&s, from, ';');
        proof {
            lemma_next_sep_bounds(s@, from as int, ';');
        }
        let (a, b) = trim_bounds(&s, from, e);
        let ghost part = s@.subrange(a as int, b as int);
        if b - a >= 8 {
            let mut k: usize = 0;
            let mut same = true;
            while k < 8
                invariant
                    a + 8 <= b <= s@.len(),
                    k <= 8,
                    prefix@.len() == 8,
                    same == (forall|j: int| 0 <= j < k ==> s@[a + j] == prefix@[j]),
                decreases 8 - k,
            {
                if s[a + k] != prefix[k] {
                    same = false;
                }
                k = k + 1;
            }
            assert(same == (part.take(8) == prefix@)) by {
                if same {
                    assert(part.take(8) =~= prefix@);
                } else {
                    let j = choose|j: int| 0 <= j < 8 && s@[a + j] != prefix@[j];
                    assert(part.take(8)[j] != prefix@[j]);
                }
            }
            if same {
                let mut out: Vec<char> = Vec::new();
                let mut k: usize = a + 8;
                while k < b
                    invariant
                        a + 8 <= k <= b <= s@.len(),
                        out@ == s@.subrange(a + 8, k as int),
                    decreases b - k,
                {
                    out.push(s[k]);
                    k = k + 1;
                    assert(out@ =~= s@.subrange(a + 8, k as int));
                }
                assert(out@ =~= part.skip(8));
                return Some(out);
            }
        }
        if e >= s.len() {
            return None;
        }
        from = e + 1;
    }
}

/// The text of an optional JSON value that is a string.
pub open spec fn opt_str(o: Option<JsonValue>) -> Option<Seq<char>> {
    match o {
        Some(v) => v.spec_as_str(),
        None => None,
    }
}

/// The UUID a catalog field holds in canonical text, if it holds one that is not nil.
pub open spec fn canonical_uuid_of(o: Option<JsonValue>) -> Option<u128> {
    match opt_str(o) {
        Some(t) => match uuid_parse_of(t) {
            Some(u) => if u != 0 && uuid_text(u) == t {
                Some(u)
            } else {
                None
            },
            None => None,
        },
        None => None,
    }
}

/// The UUID a field holds in canonical text, if it holds one that is not nil.
pub fn canonical_uuid_value(value: Option<&JsonValue>) -> (r: Option<u128>)
    ensures
        r == canonical_uuid_of(
            match value {
                Some(v) => Some(*v),
                None => None,
            },
        ),
{
    let text = match value {
        Some(v) => match v.as_str() {
            Some(t) => t,
            None => return None,
        },
        None => return None,
    };
    let parsed = match uuid_parse(text) {
        Some(u) => u,
        None => return None,
    };
    if parsed == 0 || !chars_eq_str(&uuid_chars(parsed), text) {
        return None;
    }
    Some(parsed)
}

fn canonical_uuid(value: Option<&JsonValue>) -> (r: Result<u128, QuickRaidError>)
    ensures
        match canonical_uuid_of(
            match value {
                Some(v) => Some(*v),
                None => None,
            },
        ) {
            Some(u) => r == Ok::<u128, QuickRaidError>(u),
            None => r == Err::<u128, QuickRaidError>(QuickRaidError::ChallengeUnavailable),
        },
{
    match canonical_uuid_value(value) {
        Some(u) => Ok(u),
        None => Err(QuickRaidError::ChallengeUnavailable),
    }
}

/// The modifiers list holds the fixed-seed modifier.
pub open spec fn has_fixed_seed_modifier(o: Option<JsonValue>) -> bool {
    match o {
        Some(JsonValue::Array(items)) => exists|i: int|
            0 <= i < items@.len() && (#[trigger] items@[i]).spec_as_str() == Some(
                "quick-raid-fixed-seed"@,
            ),
        _ => false,
    }
}

pub open spec fn is_object_value(o: Option<JsonValue>) -> bool {
    match o {
        Some(JsonValue::Object(_)) => true,
        _ => false,
    }
}

pub open spec fn nested(o: Option<JsonValue>, key: Seq<char>) -> Option<JsonValue> {
    match o {
        Some(v) => v.spec_get(key),
        None => None,
    }
}

/// Why a catalog challenge cannot back a Quick Raid, in the order the checks run.
pub open spec fn catalog_error(c: JsonValue) -> Option<QuickRaidError> {
    let ruleset = c.spec_get("ruleset"@);
    let gameplay = nested(ruleset, "gameplay"@);
    if canonical_uuid_of(c.spec_get("challenge_id"@)) is None {
        Some(QuickRaidError::ChallengeUnavailable)
    } else if opt_str(c.spec_get("status"@)) != Some("open"@) {
        Some(QuickRaidError::ChallengeUnavailable)
    } else if opt_str(c.spec_get("ruleset_enforcement"@)) != Some("authoritative_v1"@) {
        Some(QuickRaidError::ChallengeUnavailable)
    } else if !is_object_value(ruleset) {
        Some(QuickRaidError::ChallengeUnavailable)
    } else if opt_str(nested(ruleset, "template"@)) != Some("evidence-audit"@) {
        Some(QuickRaidError::ChallengeUnavailable)
    } else if !(match nested(ruleset, "duration_seconds"@) {
        Some(v) => v.spec_as_u64() == Some(900u64),
        None => false,
    }) {
        Some(QuickRaidError::ChallengeUnavailable)
    } else if !is_object_value(gameplay) {
        Some(QuickRaidError::ChallengeUnavailable)
    } else if !has_fixed_seed_modifier(nested(gameplay, "modifiers"@)) {
        Some(QuickRaidError::ChallengeUnavailable)
    } else if !(match opt_str(c.spec_get("description"@)) {
        Some(d) => pack_id_from(d, 0) == Some(QUICK_RAID_PACK_ID@),
        None => false,
    }) {
        Some(QuickRaidError::ChallengeUnavailable)
    } else if opt_str(c.spec_get("ruleset_version"@)) != Some(QUICK_RAID_RULESET_VERSION@) {
        Some(QuickRaidError::ChallengeUnavailable)
    } else if opt_str(c.spec_get("ruleset_hash"@)) is None {
        Some(QuickRaidError::ChallengeUnavailable)
    } else if !is_digest_text(opt_str(c.spec_get("ruleset_hash"@))->0) {
        Some(QuickRaidError::InvalidContract("digest"))
    } else {
        None
    }
}

impl QuickRaidAuthorityV1 {
    /// The authority projected from an accepted catalog challenge.
    pub open spec fn is_projection_of(self, c: JsonValue) -> bool {
        &&& self.identity_ok()
        &&& Some(self.challenge_id) == canonical_uuid_of(c.spec_get("challenge_id"@))
        &&& self.challenge_snapshot_hash@ == digest_label_of(json_text(c))
        &&& Some(self.ruleset_hash@) == opt_str(c.spec_get("ruleset_hash"@))
        &&& self.authority_hash@ == self.canonical_hash()
    }

    /// Projects the fixed Quick Raid authority out of a catalog challenge:
    /// the challenge must be open, authoritative, the evidence-audit template
    /// of 900 seconds with the fixed-seed modifier, and declare the fixed pack
    /// and ruleset version.
    pub fn from_catalog(challenge: &JsonValue) -> (r: Result<Self, QuickRaidError>)
        ensures
            match catalog_error(*challenge) {
                Some(e) => r == Err::<Self, QuickRaidError>(e),
                None => r matches Ok(a) && a.valid() && a.is_projection_of(*challenge),
            },
    {
        let challenge_id = canonical_uuid(challenge.get("challenge_id"))?;
        let status_ok = match challenge.get("status") {
            Some(v) => match v.as_str() {
                Some(t) => str_eq(t, "open"),
                None => false,
            },
            None => false,
        };
        if !status_ok {
            return Err(QuickRaidError::ChallengeUnavailable);
        }
        let enforcement_ok = match challenge.get("ruleset_enforcement") {
            Some(v) => match v.as_str() {
                Some(t) => str_eq(t, "authoritative_v1"),
                None => false,
            },
            None => false,
        };
        if !enforcement_ok {
            return Err(QuickRaidError::ChallengeUnavailable);
        }
        let ruleset = match challenge.get("ruleset") {
            Some(v) => if v.is_object() {
                v
            } else {
                return Err(QuickRaidError::ChallengeUnavailable);
            },
            None => return Err(QuickRaidError::ChallengeUnavailable),
        };
        let template_ok = match ruleset.get("template") {
            Some(v) => match v.as_str() {
                Some(t) => str_eq(t, "evidence-audit"),
                None => false,
            },
            None => false,
        };
        if !template_ok {
            return Err(QuickRaidError::ChallengeUnavailable);
        }
        let duration_ok = match ruleset.get("duration_seconds") {
            Some(v) => match v.as_u64() {
                Some(n) => n == 900,
                None => false,
            },
            None => false,
        };
        if !duration_ok {
            return Err(QuickRaidError::ChallengeUnavailable);
        }
        let gameplay = match ruleset.get("gameplay") {
            Some(v) => if v.is_object() {
                v
            } else {
                return Err(QuickRaidError::ChallengeUnavailable);
            },
            None => return Err(QuickRaidError::ChallengeUnavailable),
        };
        let modifier_ok = match gameplay.get("modifiers") {
            Some(JsonValue::Array(items)) => {
                let mut found = false;
                let mut i: usize = 0;
                while i < items.len()
                    invariant
                        i <= items@.len(),
                        found == exists|j: int|
                            0 <= j < i && (#[trigger] items@[j]).spec_as_str() == Some(
                                "quick-raid-fixed-seed"@,
                            ),
                    decreases items.len() - i,
                {
                    let hit = match items[i].as_str() {
                        Some(t) => str_eq(t, "quick-raid-fixed-seed"),
                        None => false,
                    };
                    if hit {
                        found = true;
                    }
                    i = i + 1;
                }
                found
            },
            _ => false,
        };
        if !modifier_ok {
            return Err(QuickRaidError::ChallengeUnavailable);
        }
        let pack_ok = match challenge.get("description") {
            Some(v) => match v.as_str() {
                Some(d) => match described_pack_id(d) {
                    Some(p) => chars_eq_str(&p, QUICK_RAID_PACK_ID),
                    None => false,
                },
                None => false,
            },
            None => false,
        };
        if !pack_ok {
            return Err(QuickRaidError::ChallengeUnavailable);
        }
        let version_ok = match challenge.get("ruleset_version") {
            Some(v) => match v.as_str() {
                Some(t) => str_eq(t, QUICK_RAID_RULESET_VERSION),
                None => false,
            },
            None => false,
        };
        if !version_ok {
            return Err(QuickRaidError::ChallengeUnavailable);
        }
        let ruleset_hash: String = match challenge.get("ruleset_hash") {
            Some(v) => match v.as_str() {
                Some(t) => t.to_owned(),
                None => return Err(QuickRaidError::ChallengeUnavailable),
            },
            None => return Err(QuickRaidError::ChallengeUnavailable),
        };
        valid_digest(ruleset_hash.as_str())?;
        let mut snapshot_text: Vec<char> = Vec::new();
        push_json_text(&mut snapshot_text, challenge);
        let snapshot = digest_label(&snapshot_text);
        let mut authority = QuickRaidAuthorityV1 {
            schema: QUICK_RAID_AUTHORITY_V1.to_owned(),
            authority_kind: QUICK_RAID_AUTHORITY_KIND.to_owned(),
            challenge_key: QUICK_RAID_CHALLENGE_KEY.to_owned(),
            challenge_id,
            challenge_snapshot_hash: string_from_chars(&snapshot),
            pack_id: QUICK_RAID_PACK_ID.to_owned(),
            ruleset_version: QUICK_RAID_RULESET_VERSION.to_owned(),
            ruleset_hash,
            seed: QUICK_RAID_FIXED_SEED,
            duration_seconds: QUICK_RAID_DURATION_SECONDS,
            authority_hash: String::new(),
        };
        let hash = digest_label(&authority_json_chars(&authority, ""));
        let ghost unsealed = authority;
        authority.authority_hash = string_from_chars(&hash);
        assert(authority_json(authority, ""@) == authority_json(unsealed, ""@));
        authority.validate()?;
        Ok(authority)
    }
}

} // verus!

verus! {

impl QuickRaidAuthorityV1 {
    /// A field-for-field copy.
    pub fn copy(&self) -> (r: Self)
        ensures
            r == *self,
    {
        QuickRaidAuthorityV1 {
            schema: self.schema.clone(),
            authority_kind: self.authority_kind.clone(),
            challenge_key: self.challenge_key.clone(),
            challenge_id: self.challenge_id,
            challenge_snapshot_hash: self.challenge_snapshot_hash.clone(),
            pack_id: self.pack_id.clone(),
            ruleset_version: self.ruleset_version.clone(),
            ruleset_hash: self.ruleset_hash.clone(),
            seed: self.seed,
            duration_seconds: self.duration_seconds,
            authority_hash: self.authority_hash.clone(),
        }
    }
}

impl QuickRaidExperimentRunV1 {
    /// A field-for-field copy.
    pub fn copy(&self) -> (r: Self)
        ensures
            r.schema == self.schema,
            r.run_id == self.run_id,
            r.seed == self.seed,
            r.choice == self.choice,
            r.result == self.result,
            r.metrics@ == self.metrics@,
            r.run_hash == self.run_hash,
    {
        let mut metrics: Vec<QuickRaidMetricV1> = Vec::new();
        let mut i: usize = 0;
        while i < self.metrics.len()
            invariant
                i <= self.metrics@.len(),
                metrics@ == self.metrics@.take(i as int),
            decreases self.metrics.len() - i,
        {
            let m = &self.metrics[i];
            metrics.push(
                QuickRaidMetricV1 {
                    name: m.name.clone(),
                    baseline_bps: m.baseline_bps,
                    candidate_bps: m.candidate_bps,
                },
            );
            i = i + 1;
            assert(metrics@ =~= self.metrics@.take(i as int));
        }
        assert(metrics@ =~= self.metrics@);
        QuickRaidExperimentRunV1 {
            schema: self.schema.clone(),
            run_id: self.run_id,
            seed: self.seed,
            choice: self.choice,
            result: self.result.clone(),
            metrics,
            run_hash: self.run_hash.clone(),
        }
    }
}

/// Two runs hold the same values.
pub open spec fn same_run(a: QuickRaidExperimentRunV1, b: QuickRaidExperimentRunV1) -> bool {
    &&& a.schema@ == b.schema@
    &&& a.run_id == b.run_id
    &&& a.seed == b.seed
    &&& a.choice == b.choice
    &&& a.result@ == b.result@
    &&& a.metrics@.len() == b.metrics@.len()
    &&& forall|i: int|
        0 <= i < a.metrics@.len() ==> (#[trigger] a.metrics@[i]).name@ == b.metrics@[i].name@
            && a.metrics@[i].baseline_bps == b.metrics@[i].baseline_bps
            && a.metrics@[i].candidate_bps == b.metrics@[i].candidate_bps
    &&& a.run_hash@ == b.run_hash@
}

fn runs_equal(a: &QuickRaidExperimentRunV1, b: &QuickRaidExperimentRunV1) -> (r: bool)
    ensures
        r == same_run(*a, *b),
{
    if !str_eq(a.schema.as_str(), b.schema.as_str()) || a.run_id != b.run_id || a.seed != b.seed
        || a.choice != b.choice || !str_eq(a.result.as_str(), b.result.as_str()) || a.metrics.len()
        != b.metrics.len() || !str_eq(a.run_hash.as_str(), b.run_hash.as_str()) {
        return false;
    }
    let mut i: usize = 0;
    while i < a.metrics.len()
        invariant
            i <= a.metrics@.len(),
            a.metrics@.len() == b.metrics@.len(),
            forall|j: int|
                0 <= j < i ==> (#[trigger] a.metrics@[j]).name@ == b.metrics@[j].name@
                    && a.metrics@[j].baseline_bps == b.metrics@[j].baseline_bps
                    && a.metrics@[j].candidate_bps == b.metrics@[j].candidate_bps,
        decreases a.metrics.len() - i,
    {
        if !str_eq(a.metrics[i].name.as_str(), b.metrics[i].name.as_str())
            || a.metrics[i].baseline_bps != b.metrics[i].baseline_bps
            || a.metrics[i].candidate_bps != b.metrics[i].candidate_bps {
            return false;
        }
        i = i + 1;
    }
    true
}

#[derive(Debug, Clone, Copy, PartialEq, Eq, Structural)]
pub enum QuickRaidStageV1 {
    EvidenceReview,
    ExperimentRun,
    PaperBundleReady,
    Completed,
    Abandoned,
    Expired,
}

impl QuickRaidStageV1 {
    pub open spec fn terminal(self) -> bool {
        self is Completed || self is Abandoned || self is Expired
    }

    pub fn is_terminal(self) -> (r: bool)
        ensures
            r == self.terminal(),
    {
        match self {
            QuickRaidStageV1::Completed | QuickRaidStageV1::Abandoned
            | QuickRaidStageV1::Expired => true,
            _ => false,
        }
    }
}

#[derive(Debug, Clone, Copy, PartialEq, Eq, Structural)]
pub enum QuickRaidTerminalReasonV1 {
    Completed,
    PlayerAbandoned,
    Expired,
}

#[derive(Debug, Clone, PartialEq, Eq)]
pub enum QuickRaidBrowserActionV1 {
    ReviewEvidence { choice: QuickRaidEvidenceChoiceV1 },
    RunExperiment { choice: QuickRaidExperimentChoiceV1 },
    PublishPaper { conclusion: QuickRaidConclusionV1 },
    Abandon,
}

#[derive(Debug, Clone, PartialEq, Eq)]
pub struct QuickRaidActionRequestV1 {
    pub schema: String,
    pub event_id: u128,
    pub session_id: u128,
    pub subject_id: String,
    pub player_id: u128,
    pub binding_id: u128,
    pub expected_version: u64,
    pub request_hash: String,
    pub action: QuickRaidBrowserActionV1,
}

#[derive(Debug, Clone, Copy, PartialEq, Eq, Structural)]
pub enum QuickRaidActorKindV1 {
    Browser,
    Server,
}

#[derive(Debug, Clone, Copy, PartialEq, Eq, Structural)]
pub enum QuickRaidEventKindV1 {
    EvidenceReviewed,
    ExperimentRun,
    PaperPublished,
    Abandoned,
    Expired,
}

#[derive(Debug, Clone, PartialEq, Eq)]
pub struct QuickRaidEventV1 {
    pub schema: String,
    pub event_id: u128,
    pub session_id: u128,
    pub actor_kind: QuickRaidActorKindV1,
    pub event_kind: QuickRaidEventKindV1,
    pub from_version: u64,
    pub to_version: u64,
    pub request_hash: String,
    pub choice_code: Option<String>,
    pub result_hash: Option<String>,
    pub occurred_at: i128,
}

/// The text inside an optional string.
pub open spec fn opt_text(o: Option<String>) -> Option<Seq<char>> {
    match o {
        Some(s) => Some(s@),
        None => None,
    }
}

impl QuickRaidEventV1 {
    pub open spec fn has_fields(
        self,
        event_id: u128,
        session_id: u128,
        actor: QuickRaidActorKindV1,
        kind: QuickRaidEventKindV1,
        from_version: u64,
        to_version: u64,
        request_hash: Seq<char>,
        choice: Option<Seq<char>>,
        result: Option<Seq<char>>,
        occurred_at: i128,
    ) -> bool {
        &&& self.schema@ == QUICK_RAID_EVENT_V1@
        &&& self.event_id == event_id
        &&& self.session_id == session_id
        &&& self.actor_kind == actor
        &&& self.event_kind == kind
        &&& self.from_version == from_version
        &&& self.to_version == to_version
        &&& self.request_hash@ == request_hash
        &&& opt_text(self.choice_code) == choice
        &&& opt_text(self.result_hash) == result
        &&& self.occurred_at == occurred_at
    }
}

/// Why an action request envelope is malformed.
pub open spec fn action_request_error(r: QuickRaidActionRequestV1) -> Option<QuickRaidError> {
    if r.schema@ != QUICK_RAID_ACTION_V1@ || r.event_id == 0 || r.session_id == 0 || r.player_id
        == 0 || r.binding_id == 0 || r.expected_version == 0 || r.expected_version
        > JSON_SAFE_U64_MAX || r.subject_id@.len() == 0 || !is_trimmed(r.subject_id@) {
        Some(QuickRaidError::InvalidContract("action envelope"))
    } else {
        digest_error(r.request_hash@)
    }
}

fn validate_action_request(request: &QuickRaidActionRequestV1) -> (r: Result<(), QuickRaidError>)
    ensures
        r == quick_result(action_request_error(*request)),
{
    if !str_eq(request.schema.as_str(), QUICK_RAID_ACTION_V1) || request.event_id == 0
        || request.session_id == 0 || request.player_id == 0 || request.binding_id == 0
        || request.expected_version == 0 || request.expected_version > JSON_SAFE_U64_MAX
        || request.subject_id.as_str().is_empty() || !text_is_trimmed(request.subject_id.as_str()) {
        return Err(QuickRaidError::InvalidContract("action envelope"));
    }
    valid_digest(request.request_hash.as_str())
}

} // verus!

verus! {

#[derive(Debug, Clone, PartialEq, Eq)]
pub struct QuickRaidSessionV1 {
    pub schema: String,
    pub session_id: u128,
    pub subject_id: String,
    pub player_id: u128,
    pub binding_id: u128,
    pub mode: String,
    pub scenario_id: String,
    pub authority: QuickRaidAuthorityV1,
    pub eligibility: QuickRaidEligibilityV1,
    pub stage: QuickRaidStageV1,
    pub version: u64,
    pub evidence_card: QuickRaidEvidenceCardV1,
    pub evidence_choice: Option<QuickRaidEvidenceChoiceV1>,
    pub experiment_choice: Option<QuickRaidExperimentChoiceV1>,
    pub experiment_run: Option<QuickRaidExperimentRunV1>,
    pub conclusion: Option<QuickRaidConclusionV1>,
    pub paper_bundle: Option<QuickRaidPaperBundleV1>,
    pub created_at: i128,
    pub expires_at: i128,
    pub updated_at: i128,
    pub terminal_at: Option<i128>,
    pub terminal_reason: Option<QuickRaidTerminalReasonV1>,
}

/// The terminal reason that belongs to a terminal stage.
pub open spec fn quick_reason_for(stage: QuickRaidStageV1) -> QuickRaidTerminalReasonV1 {
    match stage {
        QuickRaidStageV1::Completed => QuickRaidTerminalReasonV1::Completed,
        QuickRaidStageV1::Abandoned => QuickRaidTerminalReasonV1::PlayerAbandoned,
        _ => QuickRaidTerminalReasonV1::Expired,
    }
}

impl QuickRaidSessionV1 {
    /// The first error of the recorded run, if there is a run.
    pub open spec fn run_error(self) -> Option<QuickRaidError> {
        match self.experiment_run {
            Some(run) => if run.spec_error() is Some {
                run.spec_error()
            } else if self.experiment_choice != Some(run.choice) {
                Some(QuickRaidError::InvalidContract("experiment choice binding"))
            } else {
                None
            },
            None => None,
        }
    }

    /// The first error of the published bundle, if there is a bundle.
    pub open spec fn bundle_error(self) -> Option<QuickRaidError> {
        match self.paper_bundle {
            Some(b) => if b.spec_error() is Some {
                b.spec_error()
            } else if b.session_id != self.session_id || !(match self.experiment_run {
                Some(run) => same_run(run, b.experiment_run),
                None => false,
            }) || self.conclusion != Some(b.conclusion) {
                Some(QuickRaidError::InvalidContract("bundle binding"))
            } else {
                None
            },
            None => None,
        }
    }

    pub open spec fn stage_shape_ok(self) -> bool {
        match self.stage {
            QuickRaidStageV1::EvidenceReview => self.evidence_choice is None
                && self.experiment_choice is None && self.experiment_run is None
                && self.conclusion is None,
            QuickRaidStageV1::ExperimentRun => self.evidence_choice is Some
                && self.experiment_choice is None && self.experiment_run is None
                && self.conclusion is None,
            QuickRaidStageV1::PaperBundleReady => self.evidence_choice is Some
                && self.experiment_choice is Some && self.experiment_run is Some
                && self.conclusion is None,
            QuickRaidStageV1::Completed => self.evidence_choice is Some
                && self.experiment_choice is Some && self.experiment_run is Some
                && self.conclusion is Some && self.paper_bundle is Some,
            _ => true,
        }
    }

    /// The first way in which a session breaks its contract, in the order
    /// `validate` checks them.
    pub open spec fn spec_error(self) -> Option<QuickRaidError> {
        if self.schema@ != QUICK_RAID_SESSION_V1@ || self.mode@ != QUICK_RAID_MODE@
            || self.scenario_id@ != QUICK_RAID_SCENARIO_V1@ {
            Some(QuickRaidError::InvalidContract("session identity"))
        } else if self.session_id == 0 || self.player_id == 0 || self.binding_id == 0 {
            Some(QuickRaidError::InvalidContract("nil UUID"))
        } else if !is_bounded_subject(self.subject_id@) {
            Some(QuickRaidError::InvalidContract("subject id"))
        } else if self.version == 0 || self.version > JSON_SAFE_U64_MAX {
            Some(QuickRaidError::InvalidContract("version"))
        } else if self.expires_at != self.created_at + QUICK_RAID_DURATION_NANOS || self.updated_at
            < self.created_at {
            Some(QuickRaidError::InvalidContract("timestamps"))
        } else if self.authority.spec_error() is Some {
            self.authority.spec_error()
        } else if self.eligibility.spec_error() is Some {
            self.eligibility.spec_error()
        } else if self.evidence_card.spec_error() is Some {
            self.evidence_card.spec_error()
        } else if (self.paper_bundle is Some) != (self.stage == QuickRaidStageV1::Completed) {
            Some(QuickRaidError::InvalidContract("paper bundle stage binding"))
        } else if self.run_error() is Some {
            self.run_error()
        } else if self.bundle_error() is Some {
            self.bundle_error()
        } else if !self.stage_shape_ok() {
            Some(QuickRaidError::InvalidContract("stage shape"))
        } else if self.stage.terminal() && (self.terminal_at != Some(self.updated_at)
            || self.terminal_reason != Some(quick_reason_for(self.stage))) {
            Some(QuickRaidError::InvalidContract("terminal binding"))
        } else if !self.stage.terminal() && (self.terminal_at is Some
            || self.terminal_reason is Some) {
            Some(QuickRaidError::InvalidContract("active terminal binding"))
        } else {
            None
        }
    }

    pub open spec fn valid(self) -> bool {
        self.spec_error() is None
    }

    #[verifier::rlimit(40)]
    pub fn validate(&self) -> (r: Result<(), QuickRaidError>)
        ensures
            r == quick_result(self.spec_error()),
    {
        if !str_eq(self.schema.as_str(), QUICK_RAID_SESSION_V1) || !str_eq(
            self.mode.as_str(),
            QUICK_RAID_MODE,
        ) || !str_eq(self.scenario_id.as_str(), QUICK_RAID_SCENARIO_V1) {
            return Err(QuickRaidError::InvalidContract("session identity"));
        }
        if self.session_id == 0 || self.player_id == 0 || self.binding_id == 0 {
            return Err(QuickRaidError::InvalidContract("nil UUID"));
        }
        if !bounded_subject(self.subject_id.as_str()) {
            return Err(QuickRaidError::InvalidContract("subject id"));
        }
        if self.version == 0 || self.version > JSON_SAFE_U64_MAX {
            return Err(QuickRaidError::InvalidContract("version"));
        }
        let expires_ok = self.created_at <= i128::MAX - QUICK_RAID_DURATION_NANOS
            && self.expires_at == self.created_at + QUICK_RAID_DURATION_NANOS;
        if !expires_ok || self.updated_at < self.created_at {
            return Err(QuickRaidError::InvalidContract("timestamps"));
        }
        self.authority.validate()?;
        self.eligibility.validate()?;
        self.evidence_card.validate()?;
        if self.paper_bundle.is_some() != (self.stage == QuickRaidStageV1::Completed) {
            return Err(QuickRaidError::InvalidContract("paper bundle stage binding"));
        }
        if let Some(run) = &self.experiment_run {
            run.validate()?;
            let choice_ok = match self.experiment_choice {
                Some(c) => c == run.choice,
                None => false,
            };
            if !choice_ok {
                return Err(QuickRaidError::InvalidContract("experiment choice binding"));
            }
        }
        if let Some(bundle) = &self.paper_bundle {
            bundle.validate()?;
            let run_ok = match &self.experiment_run {
                Some(run) => runs_equal(run, &bundle.experiment_run),
                None => false,
            };
            let conclusion_ok = match self.conclusion {
                Some(c) => c == bundle.conclusion,
                None => false,
            };
            if bundle.session_id != self.session_id || !run_ok || !conclusion_ok {
                return Err(QuickRaidError::InvalidContract("bundle binding"));
            }
        }
        let shape = match self.stage {
            QuickRaidStageV1::EvidenceReview => self.evidence_choice.is_none()
                && self.experiment_choice.is_none() && self.experiment_run.is_none()
                && self.conclusion.is_none(),
            QuickRaidStageV1::ExperimentRun => self.evidence_choice.is_some()
                && self.experiment_choice.is_none() && self.experiment_run.is_none()
                && self.conclusion.is_none(),
            QuickRaidStageV1::PaperBundleReady => self.evidence_choice.is_some()
                && self.experiment_choice.is_some() && self.experiment_run.is_some()
                && self.conclusion.is_none(),
            QuickRaidStageV1::Completed => self.evidence_choice.is_some()
                && self.experiment_choice.is_some() && self.experiment_run.is_some()
                && self.conclusion.is_some() && self.paper_bundle.is_some(),
            _ => true,
        };
        if !shape {
            return Err(QuickRaidError::InvalidContract("stage shape"));
        }
        if self.stage.is_terminal() {
            let reason = match self.stage {
                QuickRaidStageV1::Completed => QuickRaidTerminalReasonV1::Completed,
                QuickRaidStageV1::Abandoned => QuickRaidTerminalReasonV1::PlayerAbandoned,
                _ => QuickRaidTerminalReasonV1::Expired,
            };
            let at_ok = match self.terminal_at {
                Some(at) => at == self.updated_at,
                None => false,
            };
            let reason_ok = match self.terminal_reason {
                Some(r) => r == reason,
                None => false,
            };
            if !at_ok || !reason_ok {
                return Err(QuickRaidError::InvalidContract("terminal binding"));
            }
        } else if self.terminal_at.is_some() || self.terminal_reason.is_some() {
            return Err(QuickRaidError::InvalidContract("active terminal binding"));
        }
        Ok(())
    }
}

} // verus!

verus! {

/// A browser action is legal at a stage.
pub open spec fn quick_action_allowed(stage: QuickRaidStageV1, action: QuickRaidBrowserActionV1) -> bool {
    match action {
        QuickRaidBrowserActionV1::ReviewEvidence { .. } => stage == QuickRaidStageV1::EvidenceReview,
        QuickRaidBrowserActionV1::RunExperiment { .. } => stage == QuickRaidStageV1::ExperimentRun,
        QuickRaidBrowserActionV1::PublishPaper { .. } => stage
            == QuickRaidStageV1::PaperBundleReady,
        QuickRaidBrowserActionV1::Abandon => !stage.terminal(),
    }
}

impl QuickRaidSessionV1 {
    pub open spec fn new_error(
        session_id: u128,
        subject_id: Seq<char>,
        player_id: u128,
        binding_id: u128,
        authority: QuickRaidAuthorityV1,
    ) -> Option<QuickRaidError> {
        if authority.spec_error() is Some {
            authority.spec_error()
        } else if session_id == 0 || player_id == 0 || binding_id == 0 {
            Some(QuickRaidError::InvalidContract("nil UUID"))
        } else if !is_bounded_subject(subject_id) {
            Some(QuickRaidError::InvalidContract("subject id"))
        } else {
            None
        }
    }

    /// A fresh session at evidence review, version 1, expiring 15 minutes after `now`.
    pub open spec fn is_fresh(
        self,
        session_id: u128,
        subject_id: Seq<char>,
        player_id: u128,
        binding_id: u128,
        authority: QuickRaidAuthorityV1,
        now: i128,
    ) -> bool {
        &&& self.schema@ == QUICK_RAID_SESSION_V1@
        &&& self.session_id == session_id
        &&& self.subject_id@ == subject_id
        &&& self.player_id == player_id
        &&& self.binding_id == binding_id
        &&& self.mode@ == QUICK_RAID_MODE@
        &&& self.scenario_id@ == QUICK_RAID_SCENARIO_V1@
        &&& self.authority == authority
        &&& self.eligibility.is_locked()
        &&& self.stage == QuickRaidStageV1::EvidenceReview
        &&& self.version == 1
        &&& self.evidence_card.is_fixed()
        &&& self.evidence_choice is None
        &&& self.experiment_choice is None
        &&& self.experiment_run is None
        &&& self.conclusion is None
        &&& self.paper_bundle is None
        &&& self.created_at == now
        &&& self.expires_at == now + QUICK_RAID_DURATION_NANOS
        &&& self.updated_at == now
        &&& self.terminal_at is None
        &&& self.terminal_reason is None
    }

    pub fn new(
        session_id: u128,
        subject_id: String,
        player_id: u128,
        binding_id: u128,
        authority: QuickRaidAuthorityV1,
        now: i128,
    ) -> (r: Result<Self, QuickRaidError>)
        requires
            now <= i128::MAX - QUICK_RAID_DURATION_NANOS,
        ensures
            match Self::new_error(session_id, subject_id@, player_id, binding_id, authority) {
                Some(e) => r == Err::<Self, QuickRaidError>(e),
                None => r matches Ok(s) && s.valid() && s.is_fresh(
                    session_id,
                    subject_id@,
                    player_id,
                    binding_id,
                    authority,
                    now,
                ),
            },
    {
        authority.validate()?;
        let session = QuickRaidSessionV1 {
            schema: QUICK_RAID_SESSION_V1.to_owned(),
            session_id,
            subject_id,
            player_id,
            binding_id,
            mode: QUICK_RAID_MODE.to_owned(),
            scenario_id: QUICK_RAID_SCENARIO_V1.to_owned(),
            authority,
            eligibility: QuickRaidEligibilityV1::locked(),
            stage: QuickRaidStageV1::EvidenceReview,
            version: 1,
            evidence_card: QuickRaidEvidenceCardV1::fixed(),
            evidence_choice: None,
            experiment_choice: None,
            experiment_run: None,
            conclusion: None,
            paper_bundle: None,
            created_at: now,
            expires_at: now + QUICK_RAID_DURATION_NANOS,
            updated_at: now,
            terminal_at: None,
            terminal_reason: None,
        };
        session.validate()?;
        Ok(session)
    }

    /// The session cannot change at `now`.
    pub open spec fn mutable_error(self, now: i128) -> Option<QuickRaidError> {
        if self.stage.terminal() {
            Some(QuickRaidError::Terminal)
        } else if now >= self.expires_at {
            Some(QuickRaidError::Expired)
        } else if now < self.updated_at {
            Some(QuickRaidError::InvalidContract("non-monotonic time"))
        } else if self.version >= JSON_SAFE_U64_MAX {
            Some(QuickRaidError::VersionExhausted)
        } else {
            None
        }
    }

    /// Why an action is refused, in the order the checks run.
    pub open spec fn action_error(self, request: QuickRaidActionRequestV1, now: i128) -> Option<
        QuickRaidError,
    > {
        if self.spec_error() is Some {
            self.spec_error()
        } else if action_request_error(request) is Some {
            action_request_error(request)
        } else if request.session_id != self.session_id || request.subject_id@
            != self.subject_id@ || request.player_id != self.player_id || request.binding_id
            != self.binding_id {
            Some(QuickRaidError::OwnerMismatch)
        } else if request.expected_version != self.version {
            Some(QuickRaidError::StaleVersion)
        } else if self.mutable_error(now) is Some {
            self.mutable_error(now)
        } else if !quick_action_allowed(self.stage, request.action) {
            Some(QuickRaidError::InvalidTransition)
        } else {
            None
        }
    }

    /// `after` is this session after a legal action at `now`: the answer is
    /// recorded, the stage moves on, the version grows by one; a run is the
    /// fixed-seed run for the choice, a published bundle is built from this
    /// session's authority, id, run and conclusion.
    pub open spec fn action_applied(
        self,
        after: Self,
        action: QuickRaidBrowserActionV1,
        now: i128,
    ) -> bool {
        let v = (self.version + 1) as u64;
        match action {
            QuickRaidBrowserActionV1::ReviewEvidence { choice } => after == (QuickRaidSessionV1 {
                evidence_choice: Some(choice),
                stage: QuickRaidStageV1::ExperimentRun,
                version: v,
                updated_at: now,
                ..self
            }),
            QuickRaidBrowserActionV1::RunExperiment { choice } => {
                &&& after == (QuickRaidSessionV1 {
                    experiment_choice: Some(choice),
                    experiment_run: after.experiment_run,
                    stage: QuickRaidStageV1::PaperBundleReady,
                    version: v,
                    updated_at: now,
                    ..self
                })
                &&& after.experiment_run matches Some(run) && run.choice == choice && run.valid()
            },
            QuickRaidBrowserActionV1::PublishPaper { conclusion } => {
                &&& after == (QuickRaidSessionV1 {
                    conclusion: Some(conclusion),
                    paper_bundle: after.paper_bundle,
                    stage: QuickRaidStageV1::Completed,
                    terminal_at: Some(now),
                    terminal_reason: Some(QuickRaidTerminalReasonV1::Completed),
                    version: v,
                    updated_at: now,
                    ..self
                })
                &&& after.paper_bundle matches Some(b) && b.valid() && b.is_built_from(
                    self.authority,
                    self.session_id,
                    self.experiment_run->0,
                    conclusion,
                )
            },
            QuickRaidBrowserActionV1::Abandon => after == (QuickRaidSessionV1 {
                stage: QuickRaidStageV1::Abandoned,
                terminal_at: Some(now),
                terminal_reason: Some(QuickRaidTerminalReasonV1::PlayerAbandoned),
                version: v,
                updated_at: now,
                ..self
            }),
        }
    }

    pub open spec fn action_kind(action: QuickRaidBrowserActionV1) -> QuickRaidEventKindV1 {
        match action {
            QuickRaidBrowserActionV1::ReviewEvidence { .. } => QuickRaidEventKindV1::EvidenceReviewed,
            QuickRaidBrowserActionV1::RunExperiment { .. } => QuickRaidEventKindV1::ExperimentRun,
            QuickRaidBrowserActionV1::PublishPaper { .. } => QuickRaidEventKindV1::PaperPublished,
            QuickRaidBrowserActionV1::Abandon => QuickRaidEventKindV1::Abandoned,
        }
    }

    pub open spec fn action_choice(action: QuickRaidBrowserActionV1) -> Option<Seq<char>> {
        match action {
            QuickRaidBrowserActionV1::ReviewEvidence { choice } => Some(choice.spec_code()@),
            QuickRaidBrowserActionV1::RunExperiment { choice } => Some(choice.spec_code()@),
            QuickRaidBrowserActionV1::PublishPaper { conclusion } => Some(
                conclusion.spec_code()@,
            ),
            QuickRaidBrowserActionV1::Abandon => None,
        }
    }

    /// The digest an action's event reports: the run's or the bundle's.
    pub open spec fn action_result(after: Self, action: QuickRaidBrowserActionV1) -> Option<
        Seq<char>,
    > {
        match action {
            QuickRaidBrowserActionV1::RunExperiment { .. } => Some(
                after.experiment_run->0.run_hash@,
            ),
            QuickRaidBrowserActionV1::PublishPaper { .. } => Some(
                after.paper_bundle->0.paper_bundle_hash@,
            ),
            _ => None,
        }
    }

    fn ensure_mutable(&self, now: i128) -> (r: Result<(), QuickRaidError>)
        ensures
            r == quick_result(self.mutable_error(now)),
    {
        if self.stage.is_terminal() {
            return Err(QuickRaidError::Terminal);
        }
        if now >= self.expires_at {
            return Err(QuickRaidError::Expired);
        }
        if now < self.updated_at {
            return Err(QuickRaidError::InvalidContract("non-monotonic time"));
        }
        if self.version >= JSON_SAFE_U64_MAX {
            return Err(QuickRaidError::VersionExhausted);
        }
        Ok(())
    }

    fn advance(&mut self, now: i128) -> (r: Result<(), QuickRaidError>)
        ensures
            old(self).version < JSON_SAFE_U64_MAX ==> r is Ok && *final(self) == (
            QuickRaidSessionV1 { version: (old(self).version + 1) as u64, updated_at: now, ..*old(self) }),
            old(self).version >= JSON_SAFE_U64_MAX ==> r == Err::<(), QuickRaidError>(
                QuickRaidError::VersionExhausted,
            ) && *final(self) == *old(self),
    {
        if self.version >= JSON_SAFE_U64_MAX {
            return Err(QuickRaidError::VersionExhausted);
        }
        self.version = self.version + 1;
        self.updated_at = now;
        Ok(())
    }

    /// Applies one player action.
    #[verifier::rlimit(60)]
    pub fn apply_action(&mut self, request: &QuickRaidActionRequestV1, now: i128) -> (r: Result<
        QuickRaidEventV1,
        QuickRaidError,
    >)
        ensures
            match old(self).action_error(*request, now) {
                Some(e) => r == Err::<QuickRaidEventV1, QuickRaidError>(e) && *final(self) == *old(
                    self,
                ),
                None => {
                    &&& old(self).action_applied(*final(self), request.action, now)
                    &&& final(self).valid()
                    &&& r matches Ok(ev) && ev.has_fields(
                        request.event_id,
                        old(self).session_id,
                        QuickRaidActorKindV1::Browser,
                        Self::action_kind(request.action),
                        old(self).version,
                        (old(self).version + 1) as u64,
                        request.request_hash@,
                        Self::action_choice(request.action),
                        Self::action_result(*final(self), request.action),
                        now,
                    )
                },
            },
    {
        self.validate()?;
        validate_action_request(request)?;
        if request.session_id != self.session_id || !str_eq(
            request.subject_id.as_str(),
            self.subject_id.as_str(),
        ) || request.player_id != self.player_id || request.binding_id != self.binding_id {
            return Err(QuickRaidError::OwnerMismatch);
        }
        if request.expected_version != self.version {
            return Err(QuickRaidError::StaleVersion);
        }
        self.ensure_mutable(now)?;
        let ghost before = *self;
        let from_version = self.version;
        let (event_kind, choice_code, result_hash): (
            QuickRaidEventKindV1,
            Option<&'static str>,
            Option<String>,
        ) = match request.action {
            QuickRaidBrowserActionV1::ReviewEvidence { choice } => {
                if self.stage != QuickRaidStageV1::EvidenceReview {
                    return Err(QuickRaidError::InvalidTransition);
                }
                self.evidence_choice = Some(choice);
                self.stage = QuickRaidStageV1::ExperimentRun;
                (QuickRaidEventKindV1::EvidenceReviewed, Some(choice.code()), None)
            },
            QuickRaidBrowserActionV1::RunExperiment { choice } => {
                if self.stage != QuickRaidStageV1::ExperimentRun {
                    return Err(QuickRaidError::InvalidTransition);
                }
                let run_id = random_uuid();
                assert(run_id != 0) by (bit_vector)
                    requires
                        run_id & 0x4000_8000_0000_0000_0000u128 == 0x4000_8000_0000_0000_0000u128,
                ;
                self.experiment_choice = Some(choice);
                let run = QuickRaidExperimentRunV1::deterministic(run_id, choice);
                let hash = run.run_hash.clone();
                self.experiment_run = Some(run);
                self.stage = QuickRaidStageV1::PaperBundleReady;
                (QuickRaidEventKindV1::ExperimentRun, Some(choice.code()), Some(hash))
            },
            QuickRaidBrowserActionV1::PublishPaper { conclusion } => {
                if self.stage != QuickRaidStageV1::PaperBundleReady {
                    return Err(QuickRaidError::InvalidTransition);
                }
                let run = match &self.experiment_run {
                    Some(run) => run.copy(),
                    None => return Err(QuickRaidError::InvalidContract("experiment run")),
                };
                let bundle = QuickRaidPaperBundleV1::build(
                    self.authority.copy(),
                    self.session_id,
                    run,
                    conclusion,
                )?;
                let hash = bundle.paper_bundle_hash.clone();
                self.conclusion = Some(conclusion);
                self.paper_bundle = Some(bundle);
                self.stage = QuickRaidStageV1::Completed;
                self.terminal_at = Some(now);
                self.terminal_reason = Some(QuickRaidTerminalReasonV1::Completed);
                (QuickRaidEventKindV1::PaperPublished, Some(conclusion.code()), Some(hash))
            },
            QuickRaidBrowserActionV1::Abandon => {
                if self.stage.is_terminal() {
                    return Err(QuickRaidError::InvalidTransition);
                }
                self.stage = QuickRaidStageV1::Abandoned;
                self.terminal_at = Some(now);
                self.terminal_reason = Some(QuickRaidTerminalReasonV1::PlayerAbandoned);
                (QuickRaidEventKindV1::Abandoned, None, None)
            },
        };
        self.advance(now)?;
        assert(before.action_applied(*self, request.action, now));
        self.validate()?;
        let choice_text: Option<String> = match choice_code {
            Some(c) => Some(c.to_owned()),
            None => None,
        };
        Ok(
            QuickRaidEventV1 {
                schema: QUICK_RAID_EVENT_V1.to_owned(),
                event_id: request.event_id,
                session_id: self.session_id,
                actor_kind: QuickRaidActorKindV1::Browser,
                event_kind,
                from_version,
                to_version: self.version,
                request_hash: request.request_hash.clone(),
                choice_code: choice_text,
                result_hash,
                occurred_at: now,
            },
        )
    }

    /// Why the server may not close the session at `now`, in the order the checks run.
    pub open spec fn expire_error(self, request_hash: Seq<char>, now: i128) -> Option<
        QuickRaidError,
    > {
        if self.spec_error() is Some {
            self.spec_error()
        } else if self.stage.terminal() {
            Some(QuickRaidError::Terminal)
        } else if now < self.expires_at {
            Some(QuickRaidError::NotExpired)
        } else if !is_digest_text(request_hash) {
            Some(QuickRaidError::InvalidContract("request hash"))
        } else if self.version >= JSON_SAFE_U64_MAX {
            Some(QuickRaidError::VersionExhausted)
        } else {
            None
        }
    }

    /// The session marked expired at `now`, before its version moves.
    pub open spec fn marked_expired(self, now: i128) -> Self {
        QuickRaidSessionV1 {
            stage: QuickRaidStageV1::Expired,
            terminal_at: Some(now),
            terminal_reason: Some(QuickRaidTerminalReasonV1::Expired),
            ..self
        }
    }

    /// The server closes a session whose deadline has passed. Any refusal,
    /// an exhausted version included, leaves the session unchanged.
    pub fn expire(&mut self, event_id: u128, request_hash: String, now: i128) -> (r: Result<
        QuickRaidEventV1,
        QuickRaidError,
    >)
        ensures
            match old(self).expire_error(request_hash@, now) {
                Some(e) => r == Err::<QuickRaidEventV1, QuickRaidError>(e) && *final(self) == *old(
                    self,
                ),
                None => {
                    &&& *final(self) == (QuickRaidSessionV1 {
                        version: (old(self).version + 1) as u64,
                        updated_at: now,
                        ..old(self).marked_expired(now)
                    })
                    &&& final(self).valid()
                    &&& r matches Ok(ev) && ev.has_fields(
                        event_id,
                        old(self).session_id,
                        QuickRaidActorKindV1::Server,
                        QuickRaidEventKindV1::Expired,
                        old(self).version,
                        (old(self).version + 1) as u64,
                        request_hash@,
                        None,
                        None,
                        now,
                    )
                },
            },
    {
        self.validate()?;
        if self.stage.is_terminal() {
            return Err(QuickRaidError::Terminal);
        }
        if now < self.expires_at {
            return Err(QuickRaidError::NotExpired);
        }
        if !valid_digest_label(request_hash.as_str()) {
            return Err(QuickRaidError::InvalidContract("request hash"));
        }
        if self.version >= JSON_SAFE_U64_MAX {
            return Err(QuickRaidError::VersionExhausted);
        }
        let from_version = self.version;
        self.stage = QuickRaidStageV1::Expired;
        self.terminal_at = Some(now);
        self.terminal_reason = Some(QuickRaidTerminalReasonV1::Expired);
        self.advance(now)?;
        self.validate()?;
        Ok(
            QuickRaidEventV1 {
                schema: QUICK_RAID_EVENT_V1.to_owned(),
                event_id,
                session_id: self.session_id,
                actor_kind: QuickRaidActorKindV1::Server,
                event_kind: QuickRaidEventKindV1::Expired,
                from_version,
                to_version: self.version,
                request_hash,
                choice_code: None,
                result_hash: None,
                occurred_at: now,
            },
        )
    }
}

} // verus!

verus! {

/// A valid Quick Raid session grants no authority: its eligibility is locked,
/// and a published bundle is never portable, carries no finality, and holds
/// the fixed-seed evidence card and a fixed-seed run of the session's choice.
pub proof fn lemma_quick_raid_never_grants_authority(s: QuickRaidSessionV1)
    requires
        s.valid(),
    ensures
        s.eligibility.is_locked(),
        !s.eligibility.ranking_eligible && !s.eligibility.economic_eligible,
        s.authority.valid(),
        s.evidence_card.is_fixed(),
        s.paper_bundle matches Some(b) ==> {
            &&& !b.portable
            &&& b.finality@ == "none"@
            &&& b.seed == QUICK_RAID_FIXED_SEED
            &&& b.evidence_card.is_fixed()
            &&& b.experiment_run.is_deterministic_body()
            &&& b.session_id == s.session_id
            &&& s.conclusion == Some(b.conclusion)
        },
        s.experiment_run matches Some(run) ==> run.is_deterministic_body()
            && s.experiment_choice == Some(run.choice),
{
}

/// A completed session holds exactly one bundle, bound to the session's own
/// run and conclusion; every other stage holds none.
pub proof fn lemma_bundle_exists_only_when_completed(s: QuickRaidSessionV1)
    requires
        s.valid(),
    ensures
        (s.paper_bundle is Some) <==> (s.stage == QuickRaidStageV1::Completed),
        s.stage == QuickRaidStageV1::Completed ==> {
            &&& s.evidence_choice is Some
            &&& s.experiment_run matches Some(run)
            &&& s.paper_bundle matches Some(b)
            &&& same_run(run, b.experiment_run)
            &&& s.conclusion == Some(b.conclusion)
        },
{
}

/// A session that has ended refuses every player action and every expiry.
pub proof fn lemma_terminal_session_refuses_everything(
    s: QuickRaidSessionV1,
    request: QuickRaidActionRequestV1,
    request_hash: Seq<char>,
    now: i128,
)
    requires
        s.valid(),
        s.stage.terminal(),
    ensures
        s.action_error(request, now) is Some,
        s.expire_error(request_hash, now) == Some(QuickRaidError::Terminal),
{
}

proof fn lemma_valid_session_shape(s: QuickRaidSessionV1)
    requires
        s.valid(),
    ensures
        s.stage_shape_ok(),
        1 <= s.version <= JSON_SAFE_U64_MAX,
{
}

/// An accepted action moves the version on by exactly one, keeps the
/// session's identity, owner, authority and deadline, and never rewrites an
/// answer already recorded.
pub proof fn lemma_action_keeps_identity_and_answers(
    s: QuickRaidSessionV1,
    after: QuickRaidSessionV1,
    action: QuickRaidBrowserActionV1,
    now: i128,
)
    requires
        s.valid(),
        quick_action_allowed(s.stage, action),
        s.action_applied(after, action, now),
    ensures
        after.version == s.version + 1,
        after.session_id == s.session_id,
        after.subject_id == s.subject_id,
        after.player_id == s.player_id,
        after.binding_id == s.binding_id,
        after.authority == s.authority,
        after.eligibility == s.eligibility,
        after.created_at == s.created_at,
        after.expires_at == s.expires_at,
        after.updated_at == now,
        s.evidence_choice is Some ==> after.evidence_choice == s.evidence_choice,
        s.experiment_choice is Some ==> after.experiment_choice == s.experiment_choice,
        s.experiment_run is Some ==> after.experiment_run == s.experiment_run,
        s.conclusion is Some ==> after.conclusion == s.conclusion,
{
    lemma_valid_session_shape(s);
    match action {
        QuickRaidBrowserActionV1::ReviewEvidence { .. } => {},
        QuickRaidBrowserActionV1::RunExperiment { .. } => {},
        QuickRaidBrowserActionV1::PublishPaper { .. } => {},
        QuickRaidBrowserActionV1::Abandon => {},
    }
}

/// Expiry keeps every recorded answer and ends the session as expired one
/// version later.
pub proof fn lemma_expiry_keeps_answers(s: QuickRaidSessionV1, now: i128)
    requires
        s.valid(),
    ensures
        ({
            let after = QuickRaidSessionV1 {
                version: (s.version + 1) as u64,
                updated_at: now,
                ..s.marked_expired(now)
            };
            &&& after.stage == QuickRaidStageV1::Expired
            &&& after.stage.terminal()
            &&& after.version == s.version + 1
            &&& after.evidence_choice == s.evidence_choice
            &&& after.experiment_choice == s.experiment_choice
            &&& after.experiment_run == s.experiment_run
            &&& after.conclusion == s.conclusion
            &&& after.paper_bundle == s.paper_bundle
        }),
{
}

} // verus!

verus! {

impl QuickRaidEvidenceChoiceV1 {
    /// The value a stored name denotes, if any.
    pub fn from_code(text: &str) -> (r: Option<Self>)
        ensures
            match r {
                Some(v) => v.spec_code()@ == text@,
                None => forall|v: Self| (#[trigger] v.spec_code())@ != text@,
            },
    {
        proof {
            reveal_strlit("flag_citation_gap");
            reveal_strlit("accept_as_sufficient");
        }
        if str_eq(text, "flag_citation_gap") {
            Some(QuickRaidEvidenceChoiceV1::FlagCitationGap)
        } else if str_eq(text, "accept_as_sufficient") {
            Some(QuickRaidEvidenceChoiceV1::AcceptAsSufficient)
        } else {
            None
        }
    }
}

impl QuickRaidExperimentChoiceV1 {
    /// The value a stored name denotes, if any.
    pub fn from_code(text: &str) -> (r: Option<Self>)
        ensures
            match r {
                Some(v) => v.spec_code()@ == text@,
                None => forall|v: Self| (#[trigger] v.spec_code())@ != text@,
            },
    {
        proof {
            reveal_strlit("recheck_baseline");
            reveal_strlit("run_candidate");
        }
        if str_eq(text, "recheck_baseline") {
            Some(QuickRaidExperimentChoiceV1::RecheckBaseline)
        } else if str_eq(text, "run_candidate") {
            Some(QuickRaidExperimentChoiceV1::RunCandidate)
        } else {
            None
        }
    }
}

impl QuickRaidConclusionV1 {
    /// The value a stored name denotes, if any.
    pub fn from_code(text: &str) -> (r: Option<Self>)
        ensures
            match r {
                Some(v) => v.spec_code()@ == text@,
                None => forall|v: Self| (#[trigger] v.spec_code())@ != text@,
            },
    {
        proof {
            reveal_strlit("revise_claim");
            reveal_strlit("retain_with_caveat");
        }
        if str_eq(text, "revise_claim") {
            Some(QuickRaidConclusionV1::ReviseClaim)
        } else if str_eq(text, "retain_with_caveat") {
            Some(QuickRaidConclusionV1::RetainWithCaveat)
        } else {
            None
        }
    }
}

impl QuickRaidStageV1 {
    /// The stored name of the value.
    pub open spec fn spec_code(self) -> &'static str {
        match self {
            QuickRaidStageV1::EvidenceReview => "evidence_review",
            QuickRaidStageV1::ExperimentRun => "experiment_run",
            QuickRaidStageV1::PaperBundleReady => "paper_bundle_ready",
            QuickRaidStageV1::Completed => "completed",
            QuickRaidStageV1::Abandoned => "abandoned",
            QuickRaidStageV1::Expired => "expired",
        }
    }

    pub fn code(self) -> (r: &'static str)
        ensures
            r == self.spec_code(),
    {
        match self {
            QuickRaidStageV1::EvidenceReview => "evidence_review",
            QuickRaidStageV1::ExperimentRun => "experiment_run",
            QuickRaidStageV1::PaperBundleReady => "paper_bundle_ready",
            QuickRaidStageV1::Completed => "completed",
            QuickRaidStageV1::Abandoned => "abandoned",
            QuickRaidStageV1::Expired => "expired",
        }
    }

    /// The value a stored name denotes, if any.
    pub fn from_code(text: &str) -> (r: Option<Self>)
        ensures
            match r {
                Some(v) => v.spec_code()@ == text@,
                None => forall|v: Self| (#[trigger] v.spec_code())@ != text@,
            },
    {
        proof {
            reveal_strlit("evidence_review");
            reveal_strlit("experiment_run");
            reveal_strlit("paper_bundle_ready");
            reveal_strlit("completed");
            reveal_strlit("abandoned");
            reveal_strlit("expired");
        }
        if str_eq(text, "evidence_review") {
            Some(QuickRaidStageV1::EvidenceReview)
        } else if str_eq(text, "experiment_run") {
            Some(QuickRaidStageV1::ExperimentRun)
        } else if str_eq(text, "paper_bundle_ready") {
            Some(QuickRaidStageV1::PaperBundleReady)
        } else if str_eq(text, "completed") {
            Some(QuickRaidStageV1::Completed)
        } else if str_eq(text, "abandoned") {
            Some(QuickRaidStageV1::Abandoned)
        } else if str_eq(text, "expired") {
            Some(QuickRaidStageV1::Expired)
        } else {
            None
        }
    }
}

impl QuickRaidTerminalReasonV1 {
    /// The stored name of the value.
    pub open spec fn spec_code(self) -> &'static str {
        match self {
            QuickRaidTerminalReasonV1::Completed => "completed",
            QuickRaidTerminalReasonV1::PlayerAbandoned => "player_abandoned",
            QuickRaidTerminalReasonV1::Expired => "expired",
        }
    }

    pub fn code(self) -> (r: &'static str)
        ensures
            r == self.spec_code(),
    {
        match self {
            QuickRaidTerminalReasonV1::Completed => "completed",
            QuickRaidTerminalReasonV1::PlayerAbandoned => "player_abandoned",
            QuickRaidTerminalReasonV1::Expired => "expired",
        }
    }

    /// The value a stored name denotes, if any.
    pub fn from_code(text: &str) -> (r: Option<Self>)
        ensures
            match r {
                Some(v) => v.spec_code()@ == text@,
                None => forall|v: Self| (#[trigger] v.spec_code())@ != text@,
            },
    {
        proof {
            reveal_strlit("completed");
            reveal_strlit("player_abandoned");
            reveal_strlit("expired");
        }
        if str_eq(text, "completed") {
            Some(QuickRaidTerminalReasonV1::Completed)
        } else if str_eq(text, "player_abandoned") {
            Some(QuickRaidTerminalReasonV1::PlayerAbandoned)
        } else if str_eq(text, "expired") {
            Some(QuickRaidTerminalReasonV1::Expired)
        } else {
            None
        }
    }
}

impl QuickRaidActorKindV1 {
    /// The stored name of the value.
    pub open spec fn spec_code(self) -> &'static str {
        match self {
            QuickRaidActorKindV1::Browser => "browser",
            QuickRaidActorKindV1::Server => "server",
        }
    }

    pub fn code(self) -> (r: &'static str)
        ensures
            r == self.spec_code(),
    {
        match self {
            QuickRaidActorKindV1::Browser => "browser",
            QuickRaidActorKindV1::Server => "server",
        }
    }

    /// The value a stored name denotes, if any.
    pub fn from_code(text: &str) -> (r: Option<Self>)
        ensures
            match r {
                Some(v) => v.spec_code()@ == text@,
                None => forall|v: Self| (#[trigger] v.spec_code())@ != text@,
            },
    {
        proof {
            reveal_strlit("browser");
            reveal_strlit("server");
        }
        if str_eq(text, "browser") {
            Some(QuickRaidActorKindV1::Browser)
        } else if str_eq(text, "server") {
            Some(QuickRaidActorKindV1::Server)
        } else {
            None
        }
    }
}

impl QuickRaidEventKindV1 {
    /// The stored name of the value.
    pub open spec fn spec_code(self) -> &'static str {
        match self {
            QuickRaidEventKindV1::EvidenceReviewed => "evidence_reviewed",
            QuickRaidEventKindV1::ExperimentRun => "experiment_run",
            QuickRaidEventKindV1::PaperPublished => "paper_published",
            QuickRaidEventKindV1::Abandoned => "abandoned",
            QuickRaidEventKindV1::Expired => "expired",
        }
    }

    pub fn code(self) -> (r: &'static str)
        ensures
            r == self.spec_code(),
    {
        match self {
            QuickRaidEventKindV1::EvidenceReviewed => "evidence_reviewed",
            QuickRaidEventKindV1::ExperimentRun => "experiment_run",
            QuickRaidEventKindV1::PaperPublished => "paper_published",
            QuickRaidEventKindV1::Abandoned => "abandoned",
            QuickRaidEventKindV1::Expired => "expired",
        }
    }

    /// The value a stored name denotes, if any.
    pub fn from_code(text: &str) -> (r: Option<Self>)
        ensures
            match r {
                Some(v) => v.spec_code()@ == text@,
                None => forall|v: Self| (#[trigger] v.spec_code())@ != text@,
            },
    {
        proof {
            reveal_strlit("evidence_reviewed");
            reveal_strlit("experiment_run");
            reveal_strlit("paper_published");
            reveal_strlit("abandoned");
            reveal_strlit("expired");
        }
        if str_eq(text, "evidence_reviewed") {
            Some(QuickRaidEventKindV1::EvidenceReviewed)
        } else if str_eq(text, "experiment_run") {
            Some(QuickRaidEventKindV1::ExperimentRun)
        } else if str_eq(text, "paper_published") {
            Some(QuickRaidEventKindV1::PaperPublished)
        } else if str_eq(text, "abandoned") {
            Some(QuickRaidEventKindV1::Abandoned)
        } else if str_eq(text, "expired") {
            Some(QuickRaidEventKindV1::Expired)
        } else {
            None
        }
    }
}

} // verus!
