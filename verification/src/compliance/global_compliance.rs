//! Compliance frameworks across jurisdictions: which framework governs
//! where, when personal data may leave the EU, where data has to stay, and
//! what kind of data a field holds.

use vstd::prelude::*;
use crate::table::Table;
use crate::text::{lowercase, lowercase_of, occurs_in, str_contains, str_eq, strings_from, vec_contains_str, views_of};

verus! {

/// The compliance frameworks the platform knows.
#[derive(Debug, Clone, Copy, PartialEq, Eq, Hash, Structural)]
pub enum ComplianceFramework {
    Gdpr,
    Ccpa,
    Lgpd,
    Pdpa,
    Popia,
    Appi,
    Pipl,
    Soc2,
    Iso27001,
    NistCsf,
    CsaCcm,
    PciDss,
    Hipaa,
    Sox,
    FedRamp,
    Irap,
    C5,
    Internal,
}

/// Kinds of data that frameworks tell apart.
#[derive(Debug, Clone, Copy, PartialEq, Eq, Hash, Structural)]
pub enum DataCategory {
    PersonalData,
    SensitivePersonalData,
    FinancialData,
    HealthData,
    BiometricData,
    GeneticData,
    ChildrenData,
    EmploymentData,
    LocationData,
    CommunicationsContent,
}

/// The legal bases of processing under GDPR article 6.
#[derive(Debug, Clone, Copy, PartialEq, Eq, Structural)]
pub enum LegalBasis {
    Consent,
    Contract,
    LegalObligation,
    VitalInterests,
    PublicTask,
    LegitimateInterests,
}

/// How strictly data has to stay in a country.
#[derive(Debug, Clone, Copy, PartialEq, Eq, Structural)]
pub enum ResidencyRequirement {
    /// The data must not leave the country.
    Strict,
    /// The data may be kept in an approved region.
    Regional,
    /// A copy must remain in the country.
    Mirrored,
    /// No strict requirement.
    Flexible,
}

/// The mechanisms for transfers out of the EU under GDPR chapter V.
#[derive(Debug, Clone, Copy, PartialEq, Eq, Structural)]
pub enum TransferMechanism {
    AdequacyDecision,
    StandardContractualClauses,
    BindingCorporateRules,
    ExplicitConsent,
    ContractualNecessity,
}

/// The requests a data subject can make under GDPR chapter III.
#[derive(Debug, Clone, Copy, PartialEq, Eq, Structural)]
pub enum DsrType {
    Access,
    Rectification,
    Erasure,
    Restriction,
    Portability,
    Objection,
    AutomatedDecision,
}

/// The kinds of events an audit trail records.
#[derive(Debug, Clone, Copy, PartialEq, Eq, Structural)]
pub enum AuditEventType {
    DataAccess,
    DataModification,
    DataDeletion,
    DataExport,
    DataTransfer,
    ConsentChange,
    PolicyViolation,
    DsrRequest,
    BreachDetection,
}

// ---------------------------------------------------------------------------
// Policy engine
// ---------------------------------------------------------------------------
/// A policy that puts a framework in force in some jurisdictions for some
/// categories of data.
#[derive(Debug)]
pub struct Policy {
    pub id: String,
    pub name: String,
    pub framework: ComplianceFramework,
    /// The jurisdictions the policy holds in; everywhere if there is none.
    pub jurisdictions: Vec<String>,
    /// The categories the policy is about; all of them if there is none.
    pub data_categories: Vec<DataCategory>,
    pub active: bool,
}

/// What a [`Policy`] holds, as mathematical values.
pub struct PolicyView {
    pub id: Seq<char>,
    pub name: Seq<char>,
    pub framework: ComplianceFramework,
    pub jurisdictions: Seq<Seq<char>>,
    pub data_categories: Seq<DataCategory>,
    pub active: bool,
}

impl View for Policy {
    type V = PolicyView;

    open spec fn view(&self) -> PolicyView {
        PolicyView {
            id: self.id@,
            name: self.name@,
            framework: self.framework,
            jurisdictions: self.jurisdictions.deep_view(),
            data_categories: self.data_categories@,
            active: self.active,
        }
    }
}

/// The verdict of one policy on a processing of data.
#[derive(Debug)]
pub struct EvaluationResult {
    pub policy_id: String,
    pub framework: ComplianceFramework,
    pub compliant: bool,
    pub violations: Vec<String>,
    pub required_actions: Vec<String>,
}

/// What an [`EvaluationResult`] holds, as mathematical values.
pub struct EvaluationView {
    pub policy_id: Seq<char>,
    pub framework: ComplianceFramework,
    pub compliant: bool,
    pub violations: Seq<Seq<char>>,
    pub required_actions: Seq<Seq<char>>,
}

impl View for EvaluationResult {
    type V = EvaluationView;

    open spec fn view(&self) -> EvaluationView {
        EvaluationView {
            policy_id: self.policy_id@,
            framework: self.framework,
            compliant: self.compliant,
            violations: self.violations.deep_view(),
            required_actions: self.required_actions.deep_view(),
        }
    }
}

/// The views of a list of verdicts.
pub open spec fn evaluation_views(results: Seq<EvaluationResult>) -> Seq<EvaluationView> {
    Seq::new(results.len(), |i: int| results[i]@)
}

/// The views of a list of policies.
pub open spec fn policy_views(policies: Seq<Policy>) -> Seq<PolicyView> {
    Seq::new(policies.len(), |i: int| policies[i]@)
}

/// Whether two lists of categories have a category in common.
pub open spec fn share_category(a: Seq<DataCategory>, b: Seq<DataCategory>) -> bool {
    exists|i: int, j: int| 0 <= i < a.len() && 0 <= j < b.len() && a[i] == b[j]
}

/// Whether a policy bears on data of the given categories processed in
/// `jurisdiction`: it is active, holds there (or everywhere) and is about
/// one of the categories (or all).
pub open spec fn applies(p: PolicyView, jurisdiction: Seq<char>, categories: Seq<DataCategory>) -> bool {
    &&& p.active
    &&& (p.jurisdictions.len() == 0 || p.jurisdictions.contains(jurisdiction))
    &&& (p.data_categories.len() == 0 || share_category(categories, p.data_categories))
}

/// The verdict of a policy that found nothing amiss.
pub open spec fn passed(p: PolicyView) -> EvaluationView {
    EvaluationView {
        policy_id: p.id,
        framework: p.framework,
        compliant: true,
        violations: Seq::empty(),
        required_actions: Seq::empty(),
    }
}

/// The verdicts of the policies that apply, in the order of the policies.
pub open spec fn evaluations(
    policies: Seq<PolicyView>,
    jurisdiction: Seq<char>,
    categories: Seq<DataCategory>,
) -> Seq<EvaluationView>
    decreases policies.len(),
{
    if policies.len() == 0 {
        Seq::empty()
    } else {
        let earlier = evaluations(policies.drop_last(), jurisdiction, categories);
        if applies(policies.last(), jurisdiction, categories) {
            earlier.push(passed(policies.last()))
        } else {
            earlier
        }
    }
}

/// The member states of the EU and of the EEA.
pub open spec fn eu_countries() -> Seq<&'static str> {
    seq![
        "AT", "BE", "BG", "HR", "CY", "CZ", "DK", "EE", "FI", "FR", "DE", "GR", "HU", "IE", "IT",
        "LV", "LT", "LU", "MT", "NL", "PL", "PT", "RO", "SK", "SI", "ES", "SE", "IS", "LI", "NO",
    ]
}

/// The GDPR as a policy.
pub open spec fn gdpr_policy() -> PolicyView {
    PolicyView {
        id: "GDPR-2016-679"@,
        name: "General Data Protection Regulation"@,
        framework: ComplianceFramework::Gdpr,
        jurisdictions: views_of(eu_countries()),
        data_categories: seq![DataCategory::PersonalData, DataCategory::SensitivePersonalData],
        active: true,
    }
}

/// A data protection law of one jurisdiction as a policy.
pub open spec fn national_law(
    id: &'static str,
    name: &'static str,
    framework: ComplianceFramework,
    jurisdiction: &'static str,
) -> PolicyView {
    PolicyView {
        id: id@,
        name: name@,
        framework,
        jurisdictions: seq![jurisdiction@],
        data_categories: seq![DataCategory::PersonalData],
        active: true,
    }
}

/// The policies every engine starts with.
pub open spec fn builtin_policies() -> Seq<PolicyView> {
    seq![
        gdpr_policy(),
        national_law("CCPA-2018", "California Consumer Privacy Act", ComplianceFramework::Ccpa, "US-CA"),
        national_law("LGPD-2018", "Lei Geral de Proteção de Dados", ComplianceFramework::Lgpd, "BR"),
        national_law("PDPA-2012", "Personal Data Protection Act", ComplianceFramework::Pdpa, "SG"),
        national_law(
            "POPIA-2013",
            "Protection of Personal Information Act",
            ComplianceFramework::Popia,
            "ZA",
        ),
        national_law(
            "APPI-2003",
            "Act on Protection of Personal Information",
            ComplianceFramework::Appi,
            "JP",
        ),
        national_law("PIPL-2021", "Personal Information Protection Law", ComplianceFramework::Pipl, "CN"),
    ]
}

/// The frameworks per jurisdiction after `framework` was put in force in
/// `jurisdiction`: it joins the frameworks already in force there.
pub open spec fn in_force(
    map: Map<Seq<char>, Seq<ComplianceFramework>>,
    jurisdiction: Seq<char>,
    framework: ComplianceFramework,
) -> Map<Seq<char>, Seq<ComplianceFramework>> {
    if map.contains_key(jurisdiction) {
        map.insert(jurisdiction, map[jurisdiction].push(framework))
    } else {
        map.insert(jurisdiction, seq![framework])
    }
}

/// The frameworks per jurisdiction after `framework` was put in force in
/// each of `jurisdictions`.
pub open spec fn in_force_in_all(
    map: Map<Seq<char>, Seq<ComplianceFramework>>,
    jurisdictions: Seq<&'static str>,
    framework: ComplianceFramework,
) -> Map<Seq<char>, Seq<ComplianceFramework>>
    decreases jurisdictions.len(),
{
    if jurisdictions.len() == 0 {
        map
    } else {
        in_force(
            in_force_in_all(map, jurisdictions.drop_last(), framework),
            jurisdictions.last()@,
            framework,
        )
    }
}

/// The frameworks per jurisdiction that every engine starts with.
pub open spec fn builtin_jurisdictions() -> Map<Seq<char>, Seq<ComplianceFramework>> {
    let eu = in_force_in_all(Map::empty(), eu_countries(), ComplianceFramework::Gdpr);
    let ca = in_force(eu, "US-CA"@, ComplianceFramework::Ccpa);
    let br = in_force(ca, "BR"@, ComplianceFramework::Lgpd);
    let sg = in_force(br, "SG"@, ComplianceFramework::Pdpa);
    let za = in_force(sg, "ZA"@, ComplianceFramework::Popia);
    let jp = in_force(za, "JP"@, ComplianceFramework::Appi);
    in_force(jp, "CN"@, ComplianceFramework::Pipl)
}

/// A copy of a list of frameworks.
fn copy_frameworks(list: &Vec<ComplianceFramework>) -> (r: Vec<ComplianceFramework>)
    ensures
        r@ == list@,
{
    let mut r: Vec<ComplianceFramework> = Vec::new();
    let n: usize = list.len();
    let mut i: usize = 0;
    while i < n
        invariant
            n == list@.len(),
            i <= n,
            r@ == list@.subrange(0, i as int),
        decreases n - i,
    {
        r.push(list[i]);
        assert(r@ =~= list@.subrange(0, i + 1));
        i += 1;
    }
    assert(r@ =~= list@);
    r
}

/// The lists of a table of framework lists, as sequences.
pub open spec fn framework_lists(table: Table<Vec<ComplianceFramework>>) -> Map<
    Seq<char>,
    Seq<ComplianceFramework>,
> {
    table@.map_values(|v: Vec<ComplianceFramework>| v@)
}

/// Puts `framework` in force in `jurisdiction`.
fn put_in_force(
    table: &mut Table<Vec<ComplianceFramework>>,
    jurisdiction: &str,
    framework: ComplianceFramework,
)
    ensures
        framework_lists(*final(table)) == in_force(
            framework_lists(*old(table)),
            jurisdiction@,
            framework,
        ),
{
    let ghost before = framework_lists(*table);
    match table.get(jurisdiction) {
        Some(list) => {
            let mut longer = copy_frameworks(list);
            longer.push(framework);
            table.insert(jurisdiction.to_owned(), longer);
            assert(framework_lists(*table) =~= before.insert(
                jurisdiction@,
                before[jurisdiction@].push(framework),
            ));
        },
        None => {
            let mut single: Vec<ComplianceFramework> = Vec::new();
            single.push(framework);
            assert(single@ =~= seq![framework]);
            table.insert(jurisdiction.to_owned(), single);
            assert(framework_lists(*table) =~= before.insert(jurisdiction@, seq![framework]));
        },
    }
}

/// Whether two lists of categories have a category in common.
fn have_common_category(a: &[DataCategory], b: &Vec<DataCategory>) -> (r: bool)
    ensures
        r == share_category(a@, b@),
{
    let n: usize = a.len();
    let m: usize = b.len();
    let mut i: usize = 0;
    while i < n
        invariant
            n == a@.len(),
            m == b@.len(),
            i <= n,
            forall|x: int, y: int| 0 <= x < i && 0 <= y < m ==> a@[x] != b@[y],
        decreases n - i,
    {
        let mut j: usize = 0;
        while j < m
            invariant
                n == a@.len(),
                m == b@.len(),
                i < n,
                j <= m,
                forall|x: int, y: int| 0 <= x < i && 0 <= y < m ==> a@[x] != b@[y],
                forall|y: int| 0 <= y < j ==> a@[i as int] != b@[y],
            decreases m - j,
        {
            if a[i] == b[j] {
                return true;
            }
            j += 1;
        }
        i += 1;
    }
    false
}

/// A law of one jurisdiction as a policy.
fn law(
    id: &'static str,
    name: &'static str,
    framework: ComplianceFramework,
    jurisdiction: &'static str,
) -> (p: Policy)
    ensures
        p@ == national_law(id, name, framework, jurisdiction),
{
    let mut jurisdictions: Vec<String> = Vec::new();
    jurisdictions.push(jurisdiction.to_owned());
    let mut data_categories: Vec<DataCategory> = Vec::new();
    data_categories.push(DataCategory::PersonalData);
    assert(jurisdictions.deep_view() =~= seq![jurisdiction@]);
    assert(data_categories@ =~= seq![DataCategory::PersonalData]);
    Policy {
        id: id.to_owned(),
        name: name.to_owned(),
        framework,
        jurisdictions,
        data_categories,
        active: true,
    }
}

/// Knows the policies in force and tells which of them bear on a
/// processing of data.
#[derive(Debug)]
pub struct PolicyEngine {
    policies: Vec<Policy>,
    jurisdiction_map: Table<Vec<ComplianceFramework>>,
}

impl PolicyEngine {
    /// The policies of the engine, in order.
    pub closed spec fn policies(&self) -> Seq<PolicyView> {
        policy_views(self.policies@)
    }

    /// The frameworks in force, by jurisdiction.
    pub closed spec fn jurisdictions(&self) -> Map<Seq<char>, Seq<ComplianceFramework>> {
        framework_lists(self.jurisdiction_map)
    }

    /// The frameworks in force in `jurisdiction`; none where the engine
    /// knows nothing of it.
    pub open spec fn frameworks_in(&self, jurisdiction: Seq<char>) -> Seq<ComplianceFramework> {
        if self.jurisdictions().contains_key(jurisdiction) {
            self.jurisdictions()[jurisdiction]
        } else {
            Seq::empty()
        }
    }

    /// An engine with the built-in policies.
    pub fn new() -> (e: PolicyEngine)
        ensures
            e.policies() == builtin_policies(),
            e.jurisdictions() == builtin_jurisdictions(),
    {
        let mut engine = PolicyEngine { policies: Vec::new(), jurisdiction_map: Table::new() };
        assert(engine.policies() =~= Seq::<PolicyView>::empty());
        assert(engine.jurisdictions() =~= Map::<Seq<char>, Seq<ComplianceFramework>>::empty());
        engine.initialize_policies();
        engine
    }

    /// The verdicts of the policies that bear on data of the given
    /// categories processed in `jurisdiction`, in the order of the policies.
    pub fn evaluate(&self, jurisdiction: &str, data_categories: &[DataCategory]) -> (r: Vec<
        EvaluationResult,
    >)
        ensures
            evaluation_views(r@) == evaluations(
                self.policies(),
                jurisdiction@,
                data_categories@,
            ),
    {
        let mut out: Vec<EvaluationResult> = Vec::new();
        let n: usize = self.policies.len();
        let mut i: usize = 0;
        assert(self.policies().subrange(0, 0) =~= Seq::<PolicyView>::empty());
        assert(evaluation_views(out@) =~= Seq::<EvaluationView>::empty());
        while i < n
            invariant
                n == self.policies@.len(),
                i <= n,
                evaluation_views(out@) == evaluations(
                    self.policies().subrange(0, i as int),
                    jurisdiction@,
                    data_categories@,
                ),
            decreases n - i,
        {
            let p = &self.policies[i];
            let ghost earlier = evaluation_views(out@);
            proof {
                let upto = self.policies().subrange(0, i + 1);
                assert(upto.drop_last() =~= self.policies().subrange(0, i as int));
                assert(upto.last() == p@);
            }
            let here = p.jurisdictions.len() == 0 || vec_contains_str(
                &p.jurisdictions,
                jurisdiction,
            );
            if p.active && here && (p.data_categories.len() == 0 || have_common_category(
                data_categories,
                &p.data_categories,
            )) {
                let violations: Vec<String> = Vec::new();
                let required_actions: Vec<String> = Vec::new();
                assert(violations.deep_view() =~= Seq::<Seq<char>>::empty());
                assert(required_actions.deep_view() =~= Seq::<Seq<char>>::empty());
                out.push(
                    EvaluationResult {
                        policy_id: p.id.clone(),
                        framework: p.framework,
                        compliant: true,
                        violations,
                        required_actions,
                    },
                );
                assert(evaluation_views(out@) =~= earlier.push(passed(p@)));
            }
            i += 1;
        }
        assert(self.policies().subrange(0, n as int) =~= self.policies());
        out
    }

    /// The frameworks in force in `jurisdiction`; none where the engine
    /// knows nothing of it.
    pub fn get_applicable_frameworks(&self, jurisdiction: &str) -> (r: Vec<ComplianceFramework>)
        ensures
            r@ == self.frameworks_in(jurisdiction@),
    {
        match self.jurisdiction_map.get(jurisdiction) {
            Some(list) => copy_frameworks(list),
            None => Vec::new(),
        }
    }

    /// Adds the built-in policies and puts their frameworks in force.
    fn initialize_policies(&mut self)
        requires
            old(self).policies() == Seq::<PolicyView>::empty(),
            old(self).jurisdictions() == Map::<Seq<char>, Seq<ComplianceFramework>>::empty(),
        ensures
            final(self).policies() == builtin_policies(),
            final(self).jurisdictions() == builtin_jurisdictions(),
    {
        let eu = [
            "AT", "BE", "BG", "HR", "CY", "CZ", "DK", "EE", "FI", "FR", "DE", "GR", "HU", "IE",
            "IT", "LV", "LT", "LU", "MT", "NL", "PL", "PT", "RO", "SK", "SI", "ES", "SE", "IS",
            "LI", "NO",
        ];
        assert(eu@ =~= eu_countries());
        let mut data_categories: Vec<DataCategory> = Vec::new();
        data_categories.push(DataCategory::PersonalData);
        data_categories.push(DataCategory::SensitivePersonalData);
        assert(data_categories@ =~= seq![
            DataCategory::PersonalData,
            DataCategory::SensitivePersonalData,
        ]);
        let gdpr = Policy {
            id: "GDPR-2016-679".to_owned(),
            name: "General Data Protection Regulation".to_owned(),
            framework: ComplianceFramework::Gdpr,
            jurisdictions: strings_from(&eu),
            data_categories,
            active: true,
        };
        assert(gdpr@ == gdpr_policy());
        assert(old(self).policies@.len() == 0) by {
            assert(old(self).policies().len() == 0);
        }
        self.policies.push(gdpr);
        assert(self.policies@.len() == 1);

        let mut i: usize = 0;
        assert(eu@.subrange(0, 0) =~= Seq::<&'static str>::empty());
        while i < eu.len()
            invariant
                eu@ == eu_countries(),
                i <= eu@.len(),
                self.policies@.len() == 1,
                self.policies@[0]@ == gdpr_policy(),
                framework_lists(self.jurisdiction_map) == in_force_in_all(
                    Map::empty(),
                    eu@.subrange(0, i as int),
                    ComplianceFramework::Gdpr,
                ),
            decreases eu@.len() - i,
        {
            proof {
                let upto = eu@.subrange(0, i + 1);
                assert(upto.drop_last() =~= eu@.subrange(0, i as int));
                assert(upto.last() == eu@[i as int]);
            }
            put_in_force(&mut self.jurisdiction_map, eu[i], ComplianceFramework::Gdpr);
            i += 1;
        }
        assert(eu@.subrange(0, eu@.len() as int) =~= eu@);

        self.policies.push(
            law("CCPA-2018", "California Consumer Privacy Act", ComplianceFramework::Ccpa, "US-CA"),
        );
        put_in_force(&mut self.jurisdiction_map, "US-CA", ComplianceFramework::Ccpa);
        self.policies.push(
            law("LGPD-2018", "Lei Geral de Proteção de Dados", ComplianceFramework::Lgpd, "BR"),
        );
        put_in_force(&mut self.jurisdiction_map, "BR", ComplianceFramework::Lgpd);
        self.policies.push(
            law("PDPA-2012", "Personal Data Protection Act", ComplianceFramework::Pdpa, "SG"),
        );
        put_in_force(&mut self.jurisdiction_map, "SG", ComplianceFramework::Pdpa);
        self.policies.push(
            law(
                "POPIA-2013",
                "Protection of Personal Information Act",
                ComplianceFramework::Popia,
                "ZA",
            ),
        );
        put_in_force(&mut self.jurisdiction_map, "ZA", ComplianceFramework::Popia);
        self.policies.push(
            law(
                "APPI-2003",
                "Act on Protection of Personal Information",
                ComplianceFramework::Appi,
                "JP",
            ),
        );
        put_in_force(&mut self.jurisdiction_map, "JP", ComplianceFramework::Appi);
        self.policies.push(
            law("PIPL-2021", "Personal Information Protection Law", ComplianceFramework::Pipl, "CN"),
        );
        put_in_force(&mut self.jurisdiction_map, "CN", ComplianceFramework::Pipl);
        assert(self.policies() =~= builtin_policies());
    }
}

impl Default for PolicyEngine {
    fn default() -> (e: PolicyEngine)
        ensures
            e.policies() == builtin_policies(),
            e.jurisdictions() == builtin_jurisdictions(),
    {
        PolicyEngine::new()
    }
}

// ---------------------------------------------------------------------------
// GDPR
// ---------------------------------------------------------------------------
/// The countries with an adequacy decision of the European Commission.
pub open spec fn adequacy_countries() -> Seq<&'static str> {
    seq!["AD", "AR", "CA", "FO", "GG", "IL", "IM", "JP", "JE", "NZ", "KR", "CH", "GB", "UY", "US"]
}

/// The verdict on a transfer of personal data to a country.
#[derive(Debug)]
pub struct TransferResult {
    pub allowed: bool,
    pub mechanism: TransferMechanism,
    pub conditions: Vec<String>,
    pub documentation: Vec<String>,
}

/// What a [`TransferResult`] holds, as mathematical values.
pub struct TransferView {
    pub allowed: bool,
    pub mechanism: TransferMechanism,
    pub conditions: Seq<Seq<char>>,
    pub documentation: Seq<Seq<char>>,
}

impl View for TransferResult {
    type V = TransferView;

    open spec fn view(&self) -> TransferView {
        TransferView {
            allowed: self.allowed,
            mechanism: self.mechanism,
            conditions: self.conditions.deep_view(),
            documentation: self.documentation.deep_view(),
        }
    }
}

/// The verdict on a transfer to a country without an adequacy decision:
/// it rests on the mechanism the exporter names, and contractual necessity
/// or a claimed adequacy decision carry none.
pub open spec fn transfer_by_mechanism(mechanism: TransferMechanism) -> TransferView {
    match mechanism {
        TransferMechanism::StandardContractualClauses => TransferView {
            allowed: true,
            mechanism,
            conditions: views_of(seq!["SCCs signed", "TIA completed"]),
            documentation: views_of(seq!["Signed SCCs", "Transfer Impact Assessment"]),
        },
        TransferMechanism::BindingCorporateRules => TransferView {
            allowed: true,
            mechanism,
            conditions: views_of(seq!["BCRs approved by lead DPA"]),
            documentation: views_of(seq!["BCR approval"]),
        },
        TransferMechanism::ExplicitConsent => TransferView {
            allowed: true,
            mechanism,
            conditions: views_of(seq!["Explicit consent", "Risks communicated"]),
            documentation: views_of(seq!["Consent record"]),
        },
        _ => TransferView {
            allowed: false,
            mechanism,
            conditions: Seq::empty(),
            documentation: Seq::empty(),
        },
    }
}

/// The verdict on a transfer to a country with an adequacy decision.
pub open spec fn transfer_by_adequacy() -> TransferView {
    TransferView {
        allowed: true,
        mechanism: TransferMechanism::AdequacyDecision,
        conditions: Seq::empty(),
        documentation: views_of(seq!["Transfer record"]),
    }
}

/// The legal bases that fit a purpose of processing.
pub open spec fn legal_bases_for(purpose: Seq<char>) -> Seq<LegalBasis> {
    if purpose == "hr_administration"@ || purpose == "payroll"@ {
        seq![LegalBasis::Contract, LegalBasis::LegalObligation]
    } else if purpose == "tax_reporting"@ {
        seq![LegalBasis::LegalObligation]
    } else if purpose == "marketing"@ {
        seq![LegalBasis::Consent, LegalBasis::LegitimateInterests]
    } else {
        seq![LegalBasis::Consent]
    }
}

/// Judges transfers and requests under the GDPR.
#[derive(Debug)]
pub struct GdprEvaluator {
    adequacy_countries: Vec<String>,
}

impl GdprEvaluator {
    /// The countries this evaluator takes to be adequate.
    pub closed spec fn adequate(&self) -> Seq<Seq<char>> {
        self.adequacy_countries.deep_view()
    }

    /// An evaluator that knows the adequacy decisions in force.
    pub fn new() -> (e: GdprEvaluator)
        ensures
            e.adequate() == views_of(adequacy_countries()),
    {
        let list = [
            "AD",
            "AR",
            "CA",
            "FO",
            "GG",
            "IL",
            "IM",
            "JP",
            "JE",
            "NZ",
            "KR",
            "CH",
            "GB",
            "UY",
            "US",
        ];
        assert(list@ =~= adequacy_countries());
        GdprEvaluator { adequacy_countries: strings_from(&list) }
    }

    /// Whether personal data may be transferred to `to_country`, and on
    /// what terms. An adequacy decision settles it whatever mechanism is
    /// named; otherwise the named mechanism decides.
    pub fn check_transfer(&self, to_country: &str, mechanism: TransferMechanism) -> (r:
        TransferResult)
        ensures
            r@ == if self.adequate().contains(to_country@) {
                transfer_by_adequacy()
            } else {
                transfer_by_mechanism(mechanism)
            },
    {
        if vec_contains_str(&self.adequacy_countries, to_country) {
            let documentation = ["Transfer record"];
            assert(documentation@ =~= seq!["Transfer record"]);
            let conditions: Vec<String> = Vec::new();
            assert(conditions.deep_view() =~= Seq::<Seq<char>>::empty());
            return TransferResult {
                allowed: true,
                mechanism: TransferMechanism::AdequacyDecision,
                conditions,
                documentation: strings_from(&documentation),
            };
        }
        match mechanism {
            TransferMechanism::StandardContractualClauses => {
                let conditions = ["SCCs signed", "TIA completed"];
                let documentation = ["Signed SCCs", "Transfer Impact Assessment"];
                assert(conditions@ =~= seq!["SCCs signed", "TIA completed"]);
                assert(documentation@ =~= seq!["Signed SCCs", "Transfer Impact Assessment"]);
                TransferResult {
                    allowed: true,
                    mechanism,
                    conditions: strings_from(&conditions),
                    documentation: strings_from(&documentation),
                }
            },
            TransferMechanism::BindingCorporateRules => {
                let conditions = ["BCRs approved by lead DPA"];
                let documentation = ["BCR approval"];
                assert(conditions@ =~= seq!["BCRs approved by lead DPA"]);
                assert(documentation@ =~= seq!["BCR approval"]);
                TransferResult {
                    allowed: true,
                    mechanism,
                    conditions: strings_from(&conditions),
                    documentation: strings_from(&documentation),
                }
            },
            TransferMechanism::ExplicitConsent => {
                let conditions = ["Explicit consent", "Risks communicated"];
                let documentation = ["Consent record"];
                assert(conditions@ =~= seq!["Explicit consent", "Risks communicated"]);
                assert(documentation@ =~= seq!["Consent record"]);
                TransferResult {
                    allowed: true,
                    mechanism,
                    conditions: strings_from(&conditions),
                    documentation: strings_from(&documentation),
                }
            },
            _ => {
                let conditions: Vec<String> = Vec::new();
                let documentation: Vec<String> = Vec::new();
                assert(conditions.deep_view() =~= Seq::<Seq<char>>::empty());
                assert(documentation.deep_view() =~= Seq::<Seq<char>>::empty());
                TransferResult { allowed: false, mechanism, conditions, documentation }
            },
        }
    }

    /// The legal bases that fit a purpose; consent where the purpose is
    /// not one the platform knows.
    pub fn get_legal_bases(purpose: &str) -> (r: Vec<LegalBasis>)
        ensures
            r@ == legal_bases_for(purpose@),
    {
        if str_eq(purpose, "hr_administration") || str_eq(purpose, "payroll") {
            vec![LegalBasis::Contract, LegalBasis::LegalObligation]
        } else if str_eq(purpose, "tax_reporting") {
            vec![LegalBasis::LegalObligation]
        } else if str_eq(purpose, "marketing") {
            vec![LegalBasis::Consent, LegalBasis::LegitimateInterests]
        } else {
            vec![LegalBasis::Consent]
        }
    }

    /// The days within which a request of a data subject is answered:
    /// ninety for a complex request, thirty otherwise.
    pub fn dsr_deadline_days(complex: bool) -> (days: u32)
        ensures
            days == if complex {
                90u32
            } else {
                30u32
            },
    {
        if complex {
            90
        } else {
            30
        }
    }
}

impl Default for GdprEvaluator {
    fn default() -> (e: GdprEvaluator)
        ensures
            e.adequate() == views_of(adequacy_countries()),
    {
        GdprEvaluator::new()
    }
}

// ---------------------------------------------------------------------------
// Data residency
// ---------------------------------------------------------------------------
/// Where the data of one country has to stay.
#[derive(Debug)]
pub struct ResidencyRule {
    pub country: String,
    pub regulation: String,
    pub requirement: ResidencyRequirement,
    /// The countries and regions the data may be kept in.
    pub allowed_locations: Vec<String>,
}

/// What a [`ResidencyRule`] holds, as mathematical values.
pub struct RuleView {
    pub country: Seq<char>,
    pub regulation: Seq<char>,
    pub requirement: ResidencyRequirement,
    pub allowed_locations: Seq<Seq<char>>,
}

impl View for ResidencyRule {
    type V = RuleView;

    open spec fn view(&self) -> RuleView {
        RuleView {
            country: self.country@,
            regulation: self.regulation@,
            requirement: self.requirement,
            allowed_locations: self.allowed_locations.deep_view(),
        }
    }
}

/// A place where data can be stored.
#[derive(Debug)]
pub struct StorageLocation {
    pub id: String,
    pub country: String,
    pub region: String,
    pub certifications: Vec<String>,
}

/// What a [`StorageLocation`] holds, as mathematical values.
pub struct LocationView {
    pub id: Seq<char>,
    pub country: Seq<char>,
    pub region: Seq<char>,
    pub certifications: Seq<Seq<char>>,
}

impl View for StorageLocation {
    type V = LocationView;

    open spec fn view(&self) -> LocationView {
        LocationView {
            id: self.id@,
            country: self.country@,
            region: self.region@,
            certifications: self.certifications.deep_view(),
        }
    }
}

/// A rule, from its parts.
pub open spec fn rule(
    country: &'static str,
    regulation: &'static str,
    requirement: ResidencyRequirement,
    allowed: Seq<&'static str>,
) -> RuleView {
    RuleView {
        country: country@,
        regulation: regulation@,
        requirement,
        allowed_locations: views_of(allowed),
    }
}

/// A storage location, from its parts.
pub open spec fn location(
    id: &'static str,
    country: &'static str,
    region: &'static str,
    certifications: Seq<&'static str>,
) -> LocationView {
    LocationView {
        id: id@,
        country: country@,
        region: region@,
        certifications: views_of(certifications),
    }
}

/// The countries of the EU whose data may be kept anywhere in the region.
pub open spec fn regional_countries() -> Seq<&'static str> {
    seq!["DE", "FR", "NL", "IE", "ES", "IT", "PL", "SE", "BE", "AT"]
}

/// Where the data of a country of the EU may be kept.
pub open spec fn regional_rule(country: &'static str) -> RuleView {
    rule(country, "GDPR", ResidencyRequirement::Regional, seq!["EU", "EEA", "CH", "GB"])
}

/// `rules` with the regional rule of each of `countries` added.
pub open spec fn with_regional_rules(
    rules: Map<Seq<char>, RuleView>,
    countries: Seq<&'static str>,
) -> Map<Seq<char>, RuleView>
    decreases countries.len(),
{
    if countries.len() == 0 {
        rules
    } else {
        with_regional_rules(rules, countries.drop_last()).insert(
            countries.last()@,
            regional_rule(countries.last()),
        )
    }
}

/// The rules every engine starts with: Russia and China keep their data at
/// home, Indonesia wants a copy at home, ten countries of the EU keep
/// theirs in the region.
pub open spec fn builtin_rules() -> Map<Seq<char>, RuleView> {
    with_regional_rules(
        Map::empty().insert(
            "RU"@,
            rule("RU", "Federal Law 242-FZ", ResidencyRequirement::Strict, seq!["RU"]),
        ).insert("CN"@, rule("CN", "PIPL", ResidencyRequirement::Strict, seq!["CN"])).insert(
            "ID"@,
            rule("ID", "GR 71/2019", ResidencyRequirement::Mirrored, seq!["ID", "SG"]),
        ),
        regional_countries(),
    )
}

/// The storage locations every engine starts with.
pub open spec fn builtin_locations() -> Seq<LocationView> {
    seq![
        location("eu-de", "DE", "EU", seq!["SOC2", "ISO27001", "C5"]),
        location("eu-ie", "IE", "EU", seq!["SOC2", "ISO27001"]),
        location("ap-sg", "SG", "APAC", seq!["SOC2", "MTCS"]),
        location("us-va", "US", "NA", seq!["SOC2", "FedRAMP"]),
        location("cn-sh", "CN", "CN", seq!["MLPS"]),
        location("ru-mo", "RU", "RU", Seq::empty()),
    ]
}

/// Whether data of `country` may be kept at `place` under `rule`: a strict
/// rule permits places in the country itself, a regional rule places whose
/// country or region it lists, and any other rule, or none, every place.
pub open spec fn permits(rule: Option<RuleView>, place: LocationView, country: Seq<char>) -> bool {
    match rule {
        None => true,
        Some(r) => match r.requirement {
            ResidencyRequirement::Strict => place.country == country,
            ResidencyRequirement::Regional => r.allowed_locations.contains(place.country)
                || r.allowed_locations.contains(place.region),
            _ => true,
        },
    }
}

/// The places of `places` that `rule` permits, in order.
pub open spec fn permitted(
    rule: Option<RuleView>,
    places: Seq<LocationView>,
    country: Seq<char>,
) -> Seq<LocationView>
    decreases places.len(),
{
    if places.len() == 0 {
        Seq::empty()
    } else {
        let earlier = permitted(rule, places.drop_last(), country);
        if permits(rule, places.last(), country) {
            earlier.push(places.last())
        } else {
            earlier
        }
    }
}

/// The views of a list of storage locations.
pub open spec fn location_views(places: Seq<StorageLocation>) -> Seq<LocationView> {
    Seq::new(places.len(), |i: int| places[i]@)
}

/// The views of a list of references to storage locations.
pub open spec fn location_ref_views(places: Seq<&StorageLocation>) -> Seq<LocationView> {
    Seq::new(places.len(), |i: int| places[i]@)
}

/// The rules of a table, as mathematical values.
pub open spec fn rule_views(table: Table<ResidencyRule>) -> Map<Seq<char>, RuleView> {
    table@.map_values(|r: ResidencyRule| r@)
}

/// A rule, from its parts.
fn make_rule(
    country: &'static str,
    regulation: &'static str,
    requirement: ResidencyRequirement,
    allowed: &[&'static str],
) -> (r: ResidencyRule)
    ensures
        r@ == rule(country, regulation, requirement, allowed@),
{
    ResidencyRule {
        country: country.to_owned(),
        regulation: regulation.to_owned(),
        requirement,
        allowed_locations: strings_from(allowed),
    }
}

/// A storage location, from its parts.
fn make_location(
    id: &'static str,
    country: &'static str,
    region: &'static str,
    certifications: &[&'static str],
) -> (r: StorageLocation)
    ensures
        r@ == location(id, country, region, certifications@),
{
    StorageLocation {
        id: id.to_owned(),
        country: country.to_owned(),
        region: region.to_owned(),
        certifications: strings_from(certifications),
    }
}

/// Knows where the data of each country has to stay and which storage
/// locations there are.
#[derive(Debug)]
pub struct DataResidencyEngine {
    rules: Table<ResidencyRule>,
    storage_locations: Vec<StorageLocation>,
}

impl DataResidencyEngine {
    /// The rules, by country.
    pub closed spec fn rules(&self) -> Map<Seq<char>, RuleView> {
        rule_views(self.rules)
    }

    /// The storage locations, in order.
    pub closed spec fn locations(&self) -> Seq<LocationView> {
        location_views(self.storage_locations@)
    }

    /// The rule for `country`, if there is one.
    pub open spec fn rule_for(&self, country: Seq<char>) -> Option<RuleView> {
        if self.rules().contains_key(country) {
            Some(self.rules()[country])
        } else {
            None
        }
    }

    /// An engine with the built-in rules and storage locations.
    pub fn new() -> (e: DataResidencyEngine)
        ensures
            e.rules() == builtin_rules(),
            e.locations() == builtin_locations(),
    {
        let mut engine = DataResidencyEngine { rules: Table::new(), storage_locations: Vec::new() };
        assert(engine.rules() =~= Map::<Seq<char>, RuleView>::empty());
        assert(engine.locations() =~= Seq::<LocationView>::empty());
        engine.initialize();
        engine
    }

    /// The storage locations in which data of `country` may be kept, in the
    /// order of the engine's locations.
    pub fn get_allowed_locations(&self, country: &str) -> (r: Vec<&StorageLocation>)
        ensures
            location_ref_views(r@) == permitted(
                self.rule_for(country@),
                self.locations(),
                country@,
            ),
    {
        let found = self.rules.get(country);
        let ghost rule = self.rule_for(country@);
        let mut out: Vec<&StorageLocation> = Vec::new();
        let n: usize = self.storage_locations.len();
        let mut i: usize = 0;
        assert(self.locations().subrange(0, 0) =~= Seq::<LocationView>::empty());
        assert(location_ref_views(out@) =~= Seq::<LocationView>::empty());
        while i < n
            invariant
                n == self.storage_locations@.len(),
                i <= n,
                rule == self.rule_for(country@),
                match found {
                    Some(r) => rule == Some(r@),
                    None => rule is None,
                },
                location_ref_views(out@) == permitted(
                    rule,
                    self.locations().subrange(0, i as int),
                    country@,
                ),
            decreases n - i,
        {
            let place = &self.storage_locations[i];
            let ghost earlier = location_ref_views(out@);
            proof {
                let upto = self.locations().subrange(0, i + 1);
                assert(upto.drop_last() =~= self.locations().subrange(0, i as int));
                assert(upto.last() == place@);
            }
            let allowed = match found {
                Some(r) => match r.requirement {
                    ResidencyRequirement::Strict => str_eq(place.country.as_str(), country),
                    ResidencyRequirement::Regional => vec_contains_str(
                        &r.allowed_locations,
                        place.country.as_str(),
                    ) || vec_contains_str(&r.allowed_locations, place.region.as_str()),
                    _ => true,
                },
                None => true,
            };
            if allowed {
                out.push(place);
                assert(location_ref_views(out@) =~= earlier.push(place@));
            }
            i += 1;
        }
        assert(self.locations().subrange(0, n as int) =~= self.locations());
        out
    }

    /// The rule for `country`, if there is one.
    pub fn get_requirement(&self, country: &str) -> (r: Option<&ResidencyRule>)
        ensures
            match r {
                Some(found) => self.rule_for(country@) == Some(found@),
                None => self.rule_for(country@) is None,
            },
    {
        self.rules.get(country)
    }

    /// Adds the built-in rules and storage locations.
    fn initialize(&mut self)
        requires
            old(self).rules() == Map::<Seq<char>, RuleView>::empty(),
            old(self).locations() == Seq::<LocationView>::empty(),
        ensures
            final(self).rules() == builtin_rules(),
            final(self).locations() == builtin_locations(),
    {
        let ru = ["RU"];
        let cn = ["CN"];
        let id = ["ID", "SG"];
        let region = ["EU", "EEA", "CH", "GB"];
        assert(ru@ =~= seq!["RU"]);
        assert(cn@ =~= seq!["CN"]);
        assert(id@ =~= seq!["ID", "SG"]);
        assert(region@ =~= seq!["EU", "EEA", "CH", "GB"]);
        let ghost empty = rule_views(self.rules);
        self.rules.insert(
            "RU".to_owned(),
            make_rule("RU", "Federal Law 242-FZ", ResidencyRequirement::Strict, &ru),
        );
        let ghost one = rule_views(self.rules);
        assert(one =~= empty.insert(
            "RU"@,
            rule("RU", "Federal Law 242-FZ", ResidencyRequirement::Strict, seq!["RU"]),
        ));
        self.rules.insert("CN".to_owned(), make_rule("CN", "PIPL", ResidencyRequirement::Strict, &cn));
        let ghost two = rule_views(self.rules);
        assert(two =~= one.insert("CN"@, rule("CN", "PIPL", ResidencyRequirement::Strict, seq!["CN"])));
        self.rules.insert(
            "ID".to_owned(),
            make_rule("ID", "GR 71/2019", ResidencyRequirement::Mirrored, &id),
        );
        let ghost three = rule_views(self.rules);
        assert(three =~= two.insert(
            "ID"@,
            rule("ID", "GR 71/2019", ResidencyRequirement::Mirrored, seq!["ID", "SG"]),
        ));

        let countries = ["DE", "FR", "NL", "IE", "ES", "IT", "PL", "SE", "BE", "AT"];
        assert(countries@ =~= regional_countries());
        let mut i: usize = 0;
        assert(countries@.subrange(0, 0) =~= Seq::<&'static str>::empty());
        while i < countries.len()
            invariant
                countries@ == regional_countries(),
                region@ == seq!["EU", "EEA", "CH", "GB"],
                i <= countries@.len(),
                self.storage_locations@ == old(self).storage_locations@,
                rule_views(self.rules) == with_regional_rules(
                    three,
                    countries@.subrange(0, i as int),
                ),
            decreases countries@.len() - i,
        {
            let ghost before = rule_views(self.rules);
            proof {
                let upto = countries@.subrange(0, i + 1);
                assert(upto.drop_last() =~= countries@.subrange(0, i as int));
                assert(upto.last() == countries@[i as int]);
            }
            self.rules.insert(
                countries[i].to_owned(),
                make_rule(countries[i], "GDPR", ResidencyRequirement::Regional, &region),
            );
            assert(rule_views(self.rules) =~= before.insert(
                countries@[i as int]@,
                regional_rule(countries@[i as int]),
            ));
            i += 1;
        }
        assert(countries@.subrange(0, countries@.len() as int) =~= countries@);

        let de = ["SOC2", "ISO27001", "C5"];
        let ie = ["SOC2", "ISO27001"];
        let sg = ["SOC2", "MTCS"];
        let va = ["SOC2", "FedRAMP"];
        let sh = ["MLPS"];
        let mo: [&'static str; 0] = [];
        assert(de@ =~= seq!["SOC2", "ISO27001", "C5"]);
        assert(ie@ =~= seq!["SOC2", "ISO27001"]);
        assert(sg@ =~= seq!["SOC2", "MTCS"]);
        assert(va@ =~= seq!["SOC2", "FedRAMP"]);
        assert(sh@ =~= seq!["MLPS"]);
        assert(mo@ =~= Seq::<&'static str>::empty());
        let mut places: Vec<StorageLocation> = Vec::new();
        places.push(make_location("eu-de", "DE", "EU", &de));
        places.push(make_location("eu-ie", "IE", "EU", &ie));
        places.push(make_location("ap-sg", "SG", "APAC", &sg));
        places.push(make_location("us-va", "US", "NA", &va));
        places.push(make_location("cn-sh", "CN", "CN", &sh));
        places.push(make_location("ru-mo", "RU", "RU", &mo));
        assert(location_views(places@) =~= builtin_locations());
        self.storage_locations = places;
    }
}

impl Default for DataResidencyEngine {
    fn default() -> (e: DataResidencyEngine)
        ensures
            e.rules() == builtin_rules(),
            e.locations() == builtin_locations(),
    {
        DataResidencyEngine::new()
    }
}

// ---------------------------------------------------------------------------
// Classification of data
// ---------------------------------------------------------------------------
/// Whether a field name, in lower case, speaks of a person.
pub open spec fn names_personal(lower: Seq<char>) -> bool {
    occurs_in("name"@, lower) || occurs_in("email"@, lower) || occurs_in("phone"@, lower)
        || occurs_in("ssn"@, lower)
}

/// Whether a field name, in lower case, speaks of money.
pub open spec fn names_financial(lower: Seq<char>) -> bool {
    occurs_in("salary"@, lower) || occurs_in("bank"@, lower) || occurs_in("card"@, lower)
}

/// Whether a field name, in lower case, speaks of health.
pub open spec fn names_health(lower: Seq<char>) -> bool {
    occurs_in("health"@, lower) || occurs_in("medical"@, lower)
}

/// Whether a field name, in lower case, speaks of biometrics.
pub open spec fn names_biometric(lower: Seq<char>) -> bool {
    occurs_in("biometric"@, lower) || occurs_in("fingerprint"@, lower)
}

/// Whether a field name, in lower case, speaks of a place.
pub open spec fn names_location(lower: Seq<char>) -> bool {
    occurs_in("location"@, lower) || occurs_in("gps"@, lower)
}

/// Whether a field name, in lower case, speaks of employment.
pub open spec fn names_employment(lower: Seq<char>) -> bool {
    occurs_in("employee"@, lower) || occurs_in("hire"@, lower)
}

/// `list` with `item` at its end where `wanted` holds, `list` otherwise.
pub open spec fn pushed_if(list: Seq<DataCategory>, wanted: bool, item: DataCategory) -> Seq<
    DataCategory,
> {
    if wanted {
        list.push(item)
    } else {
        list
    }
}

/// The categories of a field whose name, in lower case, is `lower`: one
/// for every subject the name speaks of, in a fixed order, and personal
/// data where it speaks of none.
pub open spec fn categories_of(lower: Seq<char>) -> Seq<DataCategory> {
    let found = pushed_if(
        pushed_if(
            pushed_if(
                pushed_if(
                    pushed_if(
                        pushed_if(
                            Seq::empty(),
                            names_personal(lower),
                            DataCategory::PersonalData,
                        ),
                        names_financial(lower),
                        DataCategory::FinancialData,
                    ),
                    names_health(lower),
                    DataCategory::HealthData,
                ),
                names_biometric(lower),
                DataCategory::BiometricData,
            ),
            names_location(lower),
            DataCategory::LocationData,
        ),
        names_employment(lower),
        DataCategory::EmploymentData,
    );
    if found.len() == 0 {
        seq![DataCategory::PersonalData]
    } else {
        found
    }
}

/// Tells from the name of a field what kind of data it holds.
#[derive(Debug)]
pub struct DataClassifier;

impl DataClassifier {
    /// The categories of a field, from its name in any case.
    pub fn classify_field(field_name: &str) -> (r: Vec<DataCategory>)
        ensures
            r@ == categories_of(lowercase_of(field_name@)),
    {
        let lower = lowercase(field_name);
        DataClassifier::classify_lowercase(lower.as_str())
    }

    /// The categories of a field, from its name in lower case.
    pub fn classify_lowercase(lower: &str) -> (r: Vec<DataCategory>)
        ensures
            r@ == categories_of(lower@),
    {
        let mut cats: Vec<DataCategory> = Vec::new();
        if str_contains(lower, "name") || str_contains(lower, "email") || str_contains(
            lower,
            "phone",
        ) || str_contains(lower, "ssn") {
            cats.push(DataCategory::PersonalData);
        }
        if str_contains(lower, "salary") || str_contains(lower, "bank") || str_contains(
            lower,
            "card",
        ) {
            cats.push(DataCategory::FinancialData);
        }
        if str_contains(lower, "health") || str_contains(lower, "medical") {
            cats.push(DataCategory::HealthData);
        }
        if str_contains(lower, "biometric") || str_contains(lower, "fingerprint") {
            cats.push(DataCategory::BiometricData);
        }
        if str_contains(lower, "location") || str_contains(lower, "gps") {
            cats.push(DataCategory::LocationData);
        }
        if str_contains(lower, "employee") || str_contains(lower, "hire") {
            cats.push(DataCategory::EmploymentData);
        }
        if cats.len() == 0 {
            cats.push(DataCategory::PersonalData);
        }
        cats
    }

    /// Whether a category calls for heightened protection.
    pub open spec fn spec_is_sensitive(category: DataCategory) -> bool {
        category == DataCategory::SensitivePersonalData || category == DataCategory::HealthData
            || category == DataCategory::BiometricData || category == DataCategory::GeneticData
    }

    /// Whether a category calls for heightened protection: sensitive
    /// personal, health, biometric and genetic data do.
    #[verifier::when_used_as_spec(spec_is_sensitive)]
    pub fn is_sensitive(category: DataCategory) -> (b: bool)
        ensures
            b == Self::spec_is_sensitive(category),
    {
        match category {
            DataCategory::SensitivePersonalData => true,
            DataCategory::HealthData => true,
            DataCategory::BiometricData => true,
            DataCategory::GeneticData => true,
            _ => false,
        }
    }
}

// ---------------------------------------------------------------------------
// Registry
// ---------------------------------------------------------------------------
/// The frameworks the platform supports: short name, where it applies and
/// what it is about.
pub open spec fn framework_table() -> Seq<(&'static str, &'static str, &'static str)> {
    seq![
        ("GDPR", "EU/EEA", "Data protection, 4% revenue fines"),
        ("CCPA", "California", "Consumer privacy rights"),
        ("LGPD", "Brazil", "Similar to GDPR"),
        ("PDPA", "Singapore", "Personal data protection"),
        ("POPIA", "South Africa", "Information protection"),
        ("APPI", "Japan", "Personal information"),
        ("PIPL", "China", "Strict data localization"),
        ("SOC2", "Global", "Trust services criteria"),
        ("ISO27001", "Global", "Information security"),
        ("PCI-DSS", "Global", "Payment card security"),
        ("HIPAA", "US", "Healthcare data"),
    ]
}

/// The countries that localise data, each with how strictly.
pub open spec fn localization_table() -> Seq<(&'static str, &'static str)> {
    seq![("RU", "Strict"), ("CN", "Strict"), ("ID", "Mirrored"), ("VN", "Mirrored"), ("IN", "Flexible")]
}

/// What the platform supports, as tables.
#[derive(Debug)]
pub struct ComplianceRegistry;

impl ComplianceRegistry {
    /// The supported frameworks.
    pub fn supported_frameworks() -> (r: Vec<(&'static str, &'static str, &'static str)>)
        ensures
            r@ == framework_table(),
    {
        vec![
            ("GDPR", "EU/EEA", "Data protection, 4% revenue fines"),
            ("CCPA", "California", "Consumer privacy rights"),
            ("LGPD", "Brazil", "Similar to GDPR"),
            ("PDPA", "Singapore", "Personal data protection"),
            ("POPIA", "South Africa", "Information protection"),
            ("APPI", "Japan", "Personal information"),
            ("PIPL", "China", "Strict data localization"),
            ("SOC2", "Global", "Trust services criteria"),
            ("ISO27001", "Global", "Information security"),
            ("PCI-DSS", "Global", "Payment card security"),
            ("HIPAA", "US", "Healthcare data"),
        ]
    }

    /// The countries that localise data.
    pub fn data_localization_countries() -> (r: Vec<(&'static str, &'static str)>)
        ensures
            r@ == localization_table(),
    {
        vec![("RU", "Strict"), ("CN", "Strict"), ("ID", "Mirrored"), ("VN", "Mirrored"), ("IN", "Flexible")]
    }

    /// The countries with an adequacy decision.
    pub fn gdpr_adequacy_countries() -> (r: Vec<&'static str>)
        ensures
            r@ == adequacy_countries(),
    {
        vec!["AD", "AR", "CA", "FO", "GG", "IL", "IM", "JP", "JE", "NZ", "KR", "CH", "GB", "UY", "US"]
    }
}

} // verus!
