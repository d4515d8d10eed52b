use vstd::prelude::*;
use crate::keyed::{KeyedMap, LookupKey};
use crate::resources::adaptation::params_view;
use crate::clock::{earliest_time_ms, latest_time_ms};

verus! {

/// Draws a fresh identifier with `uuid::Uuid::new_v4`, as its 128 bits.
/// Nothing is claimed of the value: it is random.
#[verifier::external_body]
fn new_id() -> (r: u128) {
    uuid::Uuid::new_v4().as_u128()
}

/// Severity level of a security threat.
#[derive(Debug, Clone, Copy, PartialEq, Eq, Structural, Hash)]
pub enum ThreatSeverity {
    /// Critical threats that require immediate attention
    Critical,
    /// High-severity threats that should be addressed soon
    High,
    /// Medium-severity threats that should be addressed in the normal course of development
    Medium,
    /// Low-severity threats that can be addressed when convenient
    Low,
    /// Informational items that don't necessarily require action
    Informational,
}

impl ThreatSeverity {
    /// The severity's name.
    pub fn to_string(&self) -> (r: String)
        ensures
            r@ == match *self {
                ThreatSeverity::Critical => "Critical"@,
                ThreatSeverity::High => "High"@,
                ThreatSeverity::Medium => "Medium"@,
                ThreatSeverity::Low => "Low"@,
                ThreatSeverity::Informational => "Informational"@,
            },
    {
        match self {
            ThreatSeverity::Critical => "Critical".to_owned(),
            ThreatSeverity::High => "High".to_owned(),
            ThreatSeverity::Medium => "Medium".to_owned(),
            ThreatSeverity::Low => "Low".to_owned(),
            ThreatSeverity::Informational => "Informational".to_owned(),
        }
    }
}

/// Category of a security threat.
#[derive(Debug, Clone, Copy, PartialEq, Eq, Structural, Hash)]
pub enum ThreatCategory {
    Authentication,
    InputValidation,
    DataExposure,
    SessionManagement,
    AccessControl,
    Cryptography,
    BusinessLogic,
    FileOperations,
    NetworkCommunication,
    ThirdPartyComponents,
    Configuration,
    Other,
}

/// The display name of a threat category.
pub open spec fn category_name(c: ThreatCategory) -> Seq<char> {
    match c {
        ThreatCategory::Authentication => "Authentication"@,
        ThreatCategory::InputValidation => "Input Validation"@,
        ThreatCategory::DataExposure => "Data Exposure"@,
        ThreatCategory::SessionManagement => "Session Management"@,
        ThreatCategory::AccessControl => "Access Control"@,
        ThreatCategory::Cryptography => "Cryptography"@,
        ThreatCategory::BusinessLogic => "Business Logic"@,
        ThreatCategory::FileOperations => "File Operations"@,
        ThreatCategory::NetworkCommunication => "Network Communication"@,
        ThreatCategory::ThirdPartyComponents => "Third-Party Components"@,
        ThreatCategory::Configuration => "Configuration"@,
        ThreatCategory::Other => "Other"@,
    }
}

impl ThreatCategory {
    /// The category's display name.
    pub fn to_string(&self) -> (r: String)
        ensures
            r@ == category_name(*self),
    {
        match self {
            ThreatCategory::Authentication => "Authentication".to_owned(),
            ThreatCategory::InputValidation => "Input Validation".to_owned(),
            ThreatCategory::DataExposure => "Data Exposure".to_owned(),
            ThreatCategory::SessionManagement => "Session Management".to_owned(),
            ThreatCategory::AccessControl => "Access Control".to_owned(),
            ThreatCategory::Cryptography => "Cryptography".to_owned(),
            ThreatCategory::BusinessLogic => "Business Logic".to_owned(),
            ThreatCategory::FileOperations => "File Operations".to_owned(),
            ThreatCategory::NetworkCommunication => "Network Communication".to_owned(),
            ThreatCategory::ThirdPartyComponents => "Third-Party Components".to_owned(),
            ThreatCategory::Configuration => "Configuration".to_owned(),
            ThreatCategory::Other => "Other".to_owned(),
        }
    }
}

/// Status of a threat mitigation.
#[derive(Debug, Clone, Copy, PartialEq, Eq, Structural, Hash)]
pub enum MitigationStatus {
    NotStarted,
    InProgress,
    Implemented,
    Verified,
    Deferred,
    AcceptedRisk,
    NotApplicable,
}

impl MitigationStatus {
    /// The status's display name.
    pub fn to_string(&self) -> (r: String)
        ensures
            r@ == match *self {
                MitigationStatus::NotStarted => "Not Started"@,
                MitigationStatus::InProgress => "In Progress"@,
                MitigationStatus::Implemented => "Implemented"@,
                MitigationStatus::Verified => "Verified"@,
                MitigationStatus::Deferred => "Deferred"@,
                MitigationStatus::AcceptedRisk => "Accepted Risk"@,
                MitigationStatus::NotApplicable => "Not Applicable"@,
            },
    {
        match self {
            MitigationStatus::NotStarted => "Not Started".to_owned(),
            MitigationStatus::InProgress => "In Progress".to_owned(),
            MitigationStatus::Implemented => "Implemented".to_owned(),
            MitigationStatus::Verified => "Verified".to_owned(),
            MitigationStatus::Deferred => "Deferred".to_owned(),
            MitigationStatus::AcceptedRisk => "Accepted Risk".to_owned(),
            MitigationStatus::NotApplicable => "Not Applicable".to_owned(),
        }
    }
}

/// Sensitivity level of an asset.
#[derive(Debug, Clone, Copy, PartialEq, Eq, Structural, Hash)]
pub enum AssetSensitivity {
    Public,
    Internal,
    Confidential,
    Restricted,
    Critical,
}

impl AssetSensitivity {
    /// The sensitivity's name.
    pub fn to_string(&self) -> (r: String)
        ensures
            r@ == match *self {
                AssetSensitivity::Public => "Public"@,
                AssetSensitivity::Internal => "Internal"@,
                AssetSensitivity::Confidential => "Confidential"@,
                AssetSensitivity::Restricted => "Restricted"@,
                AssetSensitivity::Critical => "Critical"@,
            },
    {
        match self {
            AssetSensitivity::Public => "Public".to_owned(),
            AssetSensitivity::Internal => "Internal".to_owned(),
            AssetSensitivity::Confidential => "Confidential".to_owned(),
            AssetSensitivity::Restricted => "Restricted".to_owned(),
            AssetSensitivity::Critical => "Critical".to_owned(),
        }
    }
}

/// Type of trust boundary.
#[derive(Debug, Clone, Copy, PartialEq, Eq, Structural, Hash)]
pub enum TrustBoundaryType {
    Process,
    Machine,
    Network,
    Domain,
    Other,
}

impl TrustBoundaryType {
    /// The boundary type's name.
    pub fn to_string(&self) -> (r: String)
        ensures
            r@ == match *self {
                TrustBoundaryType::Process => "Process"@,
                TrustBoundaryType::Machine => "Machine"@,
                TrustBoundaryType::Network => "Network"@,
                TrustBoundaryType::Domain => "Domain"@,
                TrustBoundaryType::Other => "Other"@,
            },
    {
        match self {
            TrustBoundaryType::Process => "Process".to_owned(),
            TrustBoundaryType::Machine => "Machine".to_owned(),
            TrustBoundaryType::Network => "Network".to_owned(),
            TrustBoundaryType::Domain => "Domain".to_owned(),
            TrustBoundaryType::Other => "Other".to_owned(),
        }
    }
}

/// A mitigation strategy for a threat; times are milliseconds since the Unix
/// epoch.
#[derive(Debug)]
pub struct Mitigation {
    pub id: u128,
    pub description: String,
    pub status: MitigationStatus,
    pub responsible_party: Option<String>,
    pub notes: Option<String>,
    pub created_at: i64,
    pub updated_at: i64,
}

impl Mitigation {
    /// Create a new mitigation, not started.
    pub fn new(description: &str) -> (r: Self)
        ensures
            r.description@ == description@,
            r.status == MitigationStatus::NotStarted,
            r.responsible_party is None,
            r.notes is None,
            r.created_at == r.updated_at,
    {
        let now = crate::clock::utc_now_millis();
        Mitigation {
            id: new_id(),
            description: description.to_owned(),
            status: MitigationStatus::NotStarted,
            responsible_party: None,
            notes: None,
            created_at: now,
            updated_at: now,
        }
    }

    /// Set the status.
    pub fn with_status(self, status: MitigationStatus) -> (r: Self)
        ensures
            r == (Mitigation { status, ..self }),
    {
        Mitigation { status, ..self }
    }

    /// Set the responsible party.
    pub fn with_responsible_party(self, party: &str) -> (r: Self)
        ensures
            r.responsible_party matches Some(p) && p@ == party@,
            r.id == self.id && r.description == self.description && r.status == self.status,
            r.notes == self.notes && r.created_at == self.created_at && r.updated_at == self.updated_at,
    {
        Mitigation { responsible_party: Some(party.to_owned()), ..self }
    }

    /// Set notes.
    pub fn with_notes(self, notes: &str) -> (r: Self)
        ensures
            r.notes matches Some(n) && n@ == notes@,
            r.id == self.id && r.description == self.description && r.status == self.status,
            r.responsible_party == self.responsible_party,
            r.created_at == self.created_at && r.updated_at == self.updated_at,
    {
        Mitigation { notes: Some(notes.to_owned()), ..self }
    }

    /// Update the mitigation's timestamp to now.
    pub fn touch(&mut self)
        ensures
            *final(self) == (Mitigation { updated_at: final(self).updated_at, ..*old(self) }),
            earliest_time_ms() <= final(self).updated_at <= latest_time_ms(),
    {
        self.updated_at = crate::clock::utc_now_millis();
    }
}

/// A security threat to the application; times are milliseconds since the
/// Unix epoch.
#[derive(Debug)]
pub struct Threat {
    pub id: u128,
    pub name: String,
    pub description: String,
    pub category: ThreatCategory,
    pub severity: ThreatSeverity,
    pub affected_components: Vec<String>,
    pub potential_impact: String,
    /// Likelihood of the threat occurring (1-10)
    pub likelihood: u8,
    pub mitigations: Vec<Mitigation>,
    pub references: KeyedMap<String, String>,
    pub created_at: i64,
    pub updated_at: i64,
}

/// The weight of a severity in the risk score.
pub open spec fn severity_score(s: ThreatSeverity) -> u8 {
    match s {
        ThreatSeverity::Critical => 10,
        ThreatSeverity::High => 8,
        ThreatSeverity::Medium => 5,
        ThreatSeverity::Low => 2,
        ThreatSeverity::Informational => 1,
    }
}

/// Whether a mitigation status counts as mitigating.
pub open spec fn mitigates(s: MitigationStatus) -> bool {
    s == MitigationStatus::Implemented || s == MitigationStatus::Verified
}

/// A threat is mitigated when one of its mitigations is implemented or
/// verified.
pub open spec fn threat_mitigated(t: Threat) -> bool {
    exists|i: int| 0 <= i < t.mitigations@.len() && mitigates((#[trigger] t.mitigations@[i]).status)
}

/// The risk score of a threat: severity weight times likelihood, over ten.
pub open spec fn risk_of(t: Threat) -> int {
    (severity_score(t.severity) * t.likelihood) / 10
}

impl Threat {
    /// Create a new threat of medium likelihood (5).
    pub fn new(name: &str, description: &str, category: ThreatCategory, severity: ThreatSeverity) -> (r: Self)
        ensures
            r.name@ == name@,
            r.description@ == description@,
            r.category == category,
            r.severity == severity,
            r.affected_components@.len() == 0,
            r.potential_impact@.len() == 0,
            r.likelihood == 5,
            r.mitigations@.len() == 0,
            r.references.wf(),
            r.references.view_map() == Map::<(int, Seq<char>), String>::empty(),
            r.created_at == r.updated_at,
    {
        let now = crate::clock::utc_now_millis();
        Threat {
            id: new_id(),
            name: name.to_owned(),
            description: description.to_owned(),
            category,
            severity,
            affected_components: Vec::new(),
            potential_impact: String::new(),
            likelihood: 5,
            mitigations: Vec::new(),
            references: KeyedMap::new(),
            created_at: now,
            updated_at: now,
        }
    }

    /// Add an affected component.
    pub fn with_affected_component(self, component: &str) -> (r: Self)
        ensures
            r.affected_components@.len() == self.affected_components@.len() + 1,
            r.affected_components@.drop_last() == self.affected_components@,
            r.affected_components@.last()@ == component@,
            r.name == self.name && r.category == self.category && r.severity == self.severity,
            r.likelihood == self.likelihood && r.mitigations == self.mitigations && r.id == self.id,
            r.references == self.references,
    {
        let mut t = self;
        t.affected_components.push(component.to_owned());
        assert(t.affected_components@.drop_last() =~= self.affected_components@);
        t
    }

    /// Set the potential impact.
    pub fn with_potential_impact(self, impact: &str) -> (r: Self)
        ensures
            r.potential_impact@ == impact@,
            r.name == self.name && r.category == self.category && r.severity == self.severity,
            r.likelihood == self.likelihood && r.mitigations == self.mitigations && r.id == self.id,
            r.affected_components == self.affected_components && r.references == self.references,
    {
        Threat { potential_impact: impact.to_owned(), ..self }
    }

    /// Set the likelihood, capped at 10.
    pub fn with_likelihood(self, likelihood: u8) -> (r: Self)
        ensures
            r.likelihood == if likelihood <= 10 { likelihood } else { 10 },
            r.name == self.name && r.category == self.category && r.severity == self.severity,
            r.mitigations == self.mitigations && r.id == self.id,
            r.affected_components == self.affected_components && r.references == self.references,
    {
        let l = if likelihood <= 10 { likelihood } else { 10 };
        Threat { likelihood: l, ..self }
    }

    /// Add a mitigation strategy.
    pub fn with_mitigation(self, mitigation: Mitigation) -> (r: Self)
        ensures
            r.mitigations@ == self.mitigations@.push(mitigation),
            r.name == self.name && r.category == self.category && r.severity == self.severity,
            r.likelihood == self.likelihood && r.id == self.id,
            r.affected_components == self.affected_components && r.references == self.references,
    {
        let mut t = self;
        t.mitigations.push(mitigation);
        t
    }

    /// Add a reference.
    pub fn with_reference(self, key: &str, value: &str) -> (r: Self)
        requires
            self.references.wf(),
        ensures
            r.references.wf(),
            params_view(&r.references) == params_view(&self.references).insert((0int, key@), value@),
            r.name == self.name && r.category == self.category && r.severity == self.severity,
            r.likelihood == self.likelihood && r.id == self.id && r.mitigations == self.mitigations,
            r.affected_components == self.affected_components,
    {
        let mut t = self;
        t.references.insert(key.to_owned(), value.to_owned());
        assert(params_view(&t.references) =~= params_view(&self.references).insert((0int, key@), value@));
        t
    }

    /// Calculate the risk score: severity weight times likelihood, over ten.
    pub fn risk_score(&self) -> (r: u8)
        requires
            severity_score(self.severity) * self.likelihood <= 255,
        ensures
            r == risk_of(*self),
    {
        let severity: u8 = match self.severity {
            ThreatSeverity::Critical => 10,
            ThreatSeverity::High => 8,
            ThreatSeverity::Medium => 5,
            ThreatSeverity::Low => 2,
            ThreatSeverity::Informational => 1,
        };
        severity * self.likelihood / 10
    }

    /// Check if the threat is mitigated.
    pub fn is_mitigated(&self) -> (r: bool)
        ensures
            r == threat_mitigated(*self),
    {
        let mut i: usize = 0;
        while i < self.mitigations.len()
            invariant
                i <= self.mitigations@.len(),
                forall|j: int| 0 <= j < i ==> !mitigates((#[trigger] self.mitigations@[j]).status),
            decreases self.mitigations@.len() - i,
        {
            let s = self.mitigations[i].status;
            if s == MitigationStatus::Implemented || s == MitigationStatus::Verified {
                return true;
            }
            i = i + 1;
        }
        false
    }

    /// Update the threat's timestamp to now.
    pub fn touch(&mut self)
        ensures
            *final(self) == (Threat { updated_at: final(self).updated_at, ..*old(self) }),
            earliest_time_ms() <= final(self).updated_at <= latest_time_ms(),
    {
        self.updated_at = crate::clock::utc_now_millis();
    }
}

/// An asset or resource being protected.
#[derive(Debug)]
pub struct Asset {
    pub id: u128,
    pub name: String,
    pub description: String,
    pub sensitivity: AssetSensitivity,
    pub created_at: i64,
    pub updated_at: i64,
}

impl Asset {
    /// Create a new asset.
    pub fn new(name: &str, description: &str, sensitivity: AssetSensitivity) -> (r: Self)
        ensures
            r.name@ == name@,
            r.description@ == description@,
            r.sensitivity == sensitivity,
            r.created_at == r.updated_at,
    {
        let now = crate::clock::utc_now_millis();
        Asset { id: new_id(), name: name.to_owned(), description: description.to_owned(), sensitivity, created_at: now, updated_at: now }
    }

    /// Update the asset's timestamp to now.
    pub fn touch(&mut self)
        ensures
            *final(self) == (Asset { updated_at: final(self).updated_at, ..*old(self) }),
            earliest_time_ms() <= final(self).updated_at <= latest_time_ms(),
    {
        self.updated_at = crate::clock::utc_now_millis();
    }
}

/// A trust boundary in the system.
#[derive(Debug)]
pub struct TrustBoundary {
    pub id: u128,
    pub name: String,
    pub description: String,
    pub boundary_type: TrustBoundaryType,
    pub created_at: i64,
    pub updated_at: i64,
}

impl TrustBoundary {
    /// Create a new trust boundary.
    pub fn new(name: &str, description: &str, boundary_type: TrustBoundaryType) -> (r: Self)
        ensures
            r.name@ == name@,
            r.description@ == description@,
            r.boundary_type == boundary_type,
            r.created_at == r.updated_at,
    {
        let now = crate::clock::utc_now_millis();
        TrustBoundary { id: new_id(), name: name.to_owned(), description: description.to_owned(), boundary_type, created_at: now, updated_at: now }
    }

    /// Update the trust boundary's timestamp to now.
    pub fn touch(&mut self)
        ensures
            *final(self) == (TrustBoundary { updated_at: final(self).updated_at, ..*old(self) }),
            earliest_time_ms() <= final(self).updated_at <= latest_time_ms(),
    {
        self.updated_at = crate::clock::utc_now_millis();
    }
}

/// A data flow in the system.
#[derive(Debug)]
pub struct DataFlow {
    pub id: u128,
    pub name: String,
    pub description: String,
    pub source: String,
    pub destination: String,
    pub data: String,
    pub protocol: Option<String>,
    pub authentication: Option<String>,
    pub encrypted: bool,
    pub created_at: i64,
    pub updated_at: i64,
}

impl DataFlow {
    /// Create a new data flow: no protocol, no authentication, unencrypted.
    pub fn new(name: &str, description: &str, source: &str, destination: &str, data: &str) -> (r: Self)
        ensures
            r.name@ == name@,
            r.description@ == description@,
            r.source@ == source@,
            r.destination@ == destination@,
            r.data@ == data@,
            r.protocol is None,
            r.authentication is None,
            !r.encrypted,
            r.created_at == r.updated_at,
    {
        let now = crate::clock::utc_now_millis();
        DataFlow {
            id: new_id(),
            name: name.to_owned(),
            description: description.to_owned(),
            source: source.to_owned(),
            destination: destination.to_owned(),
            data: data.to_owned(),
            protocol: None,
            authentication: None,
            encrypted: false,
            created_at: now,
            updated_at: now,
        }
    }

    /// Set the protocol.
    pub fn with_protocol(self, protocol: &str) -> (r: Self)
        ensures
            r.protocol matches Some(p) && p@ == protocol@,
            r.name == self.name && r.authentication == self.authentication && r.encrypted == self.encrypted,
            r == (DataFlow { protocol: r.protocol, ..self }),
    {
        DataFlow { protocol: Some(protocol.to_owned()), ..self }
    }

    /// Set the authentication method.
    pub fn with_authentication(self, auth: &str) -> (r: Self)
        ensures
            r.authentication matches Some(a) && a@ == auth@,
            r.name == self.name && r.protocol == self.protocol && r.encrypted == self.encrypted,
            r == (DataFlow { authentication: r.authentication, ..self }),
    {
        DataFlow { authentication: Some(auth.to_owned()), ..self }
    }

    /// Set whether the data flow is encrypted.
    pub fn with_encryption(self, encrypted: bool) -> (r: Self)
        ensures
            r.encrypted == encrypted,
            r.name == self.name && r.protocol == self.protocol && r.authentication == self.authentication,
            r == (DataFlow { encrypted, ..self }),
    {
        DataFlow { encrypted, ..self }
    }

    /// Update the data flow's timestamp to now.
    pub fn touch(&mut self)
        ensures
            *final(self) == (DataFlow { updated_at: final(self).updated_at, ..*old(self) }),
            earliest_time_ms() <= final(self).updated_at <= latest_time_ms(),
    {
        self.updated_at = crate::clock::utc_now_millis();
    }
}

/// A threat model for a component or system; times are milliseconds since
/// the Unix epoch.
#[derive(Debug)]
pub struct ThreatModel {
    pub id: u128,
    pub name: String,
    pub description: String,
    pub threats: Vec<Threat>,
    pub assets: Vec<Asset>,
    pub trust_boundaries: Vec<TrustBoundary>,
    pub data_flows: Vec<DataFlow>,
    pub created_at: i64,
    pub updated_at: i64,
}

/// The number of threats of `ts` with severity `s`.
pub open spec fn count_severity(ts: Seq<Threat>, s: ThreatSeverity) -> nat
    decreases ts.len(),
{
    if ts.len() == 0 {
        0
    } else {
        count_severity(ts.drop_last(), s) + if ts.last().severity == s { 1nat } else { 0nat }
    }
}

/// The number of threats of `ts` in category `c`.
pub open spec fn count_category(ts: Seq<Threat>, c: ThreatCategory) -> nat
    decreases ts.len(),
{
    if ts.len() == 0 {
        0
    } else {
        count_category(ts.drop_last(), c) + if ts.last().category == c { 1nat } else { 0nat }
    }
}

/// The number of mitigated threats of `ts`.
pub open spec fn count_mitigated(ts: Seq<Threat>) -> nat
    decreases ts.len(),
{
    if ts.len() == 0 {
        0
    } else {
        count_mitigated(ts.drop_last()) + if threat_mitigated(ts.last()) { 1nat } else { 0nat }
    }
}

/// The sum of the risk scores of `ts`.
pub open spec fn total_risk(ts: Seq<Threat>) -> int
    decreases ts.len(),
{
    if ts.len() == 0 {
        0
    } else {
        total_risk(ts.drop_last()) + risk_of(ts.last())
    }
}

/// Every threat's risk score can be computed without overflow.
pub open spec fn risks_in_range(ts: Seq<Threat>) -> bool {
    forall|i: int| 0 <= i < ts.len() ==> severity_score((#[trigger] ts[i]).severity) * ts[i].likelihood <= 255
}

/// Every threat's risk score, and their sum, can be computed without
/// overflow.
pub open spec fn scores_computable(ts: Seq<Threat>) -> bool {
    risks_in_range(ts) && total_risk(ts) <= u32::MAX
}

/// A prefix of the threats has no more risk than all of them.
pub proof fn lemma_total_risk_prefix(ts: Seq<Threat>, i: int)
    requires
        0 <= i <= ts.len(),
    ensures
        0 <= total_risk(ts.take(i)) <= total_risk(ts),
    decreases ts.len() - i,
{
    lemma_total_risk_nonneg(ts.take(i));
    if i < ts.len() {
        lemma_total_risk_prefix(ts, i + 1);
        assert(ts.take(i + 1).drop_last() =~= ts.take(i));
    } else {
        assert(ts.take(i) =~= ts);
    }
}

/// Risk scores are not negative.
proof fn lemma_total_risk_nonneg(ts: Seq<Threat>)
    ensures
        total_risk(ts) >= 0,
    decreases ts.len(),
{
    if ts.len() > 0 {
        lemma_total_risk_nonneg(ts.drop_last());
    }
}

/// The positions of the threats of `ts` that `keep` holds of, in order.
pub open spec fn positions_where(ts: Seq<Threat>, keep: spec_fn(Threat) -> bool, r: Seq<usize>) -> bool {
    &&& forall|i: int| 0 <= i < r.len() ==> (#[trigger] r[i]) < ts.len() && keep(ts[r[i] as int])
    &&& forall|i: int, j: int| 0 <= i < j < r.len() ==> (#[trigger] r[i]) < (#[trigger] r[j])
    &&& forall|k: int| 0 <= k < ts.len() && keep(ts[k]) ==> exists|i: int| 0 <= i < r.len() && (#[trigger] r[i]) == k
}

impl ThreatModel {
    /// Create a new, empty threat model.
    pub fn new(name: &str, description: &str) -> (r: Self)
        ensures
            r.name@ == name@,
            r.description@ == description@,
            r.threats@.len() == 0,
            r.assets@.len() == 0,
            r.trust_boundaries@.len() == 0,
            r.data_flows@.len() == 0,
            r.created_at == r.updated_at,
    {
        let now = crate::clock::utc_now_millis();
        ThreatModel {
            id: new_id(),
            name: name.to_owned(),
            description: description.to_owned(),
            threats: Vec::new(),
            assets: Vec::new(),
            trust_boundaries: Vec::new(),
            data_flows: Vec::new(),
            created_at: now,
            updated_at: now,
        }
    }

    /// Add a threat to the model.
    pub fn add_threat(&mut self, threat: Threat)
        ensures
            final(self).threats@ == old(self).threats@.push(threat),
            final(self).id == old(self).id && final(self).name == old(self).name,
            final(self).description == old(self).description,
            final(self).assets == old(self).assets && final(self).data_flows == old(self).data_flows,
            final(self).trust_boundaries == old(self).trust_boundaries,
            final(self).created_at == old(self).created_at,
    {
        self.threats.push(threat);
        self.touch();
    }

    /// Add an asset to the model.
    pub fn add_asset(&mut self, asset: Asset)
        ensures
            final(self).assets@ == old(self).assets@.push(asset),
            final(self).id == old(self).id && final(self).name == old(self).name,
            final(self).description == old(self).description,
            final(self).threats == old(self).threats && final(self).data_flows == old(self).data_flows,
            final(self).trust_boundaries == old(self).trust_boundaries,
            final(self).created_at == old(self).created_at,
    {
        self.assets.push(asset);
        self.touch();
    }

    /// Add a trust boundary to the model.
    pub fn add_trust_boundary(&mut self, boundary: TrustBoundary)
        ensures
            final(self).trust_boundaries@ == old(self).trust_boundaries@.push(boundary),
            final(self).id == old(self).id && final(self).name == old(self).name,
            final(self).description == old(self).description,
            final(self).threats == old(self).threats && final(self).data_flows == old(self).data_flows,
            final(self).assets == old(self).assets,
            final(self).created_at == old(self).created_at,
    {
        self.trust_boundaries.push(boundary);
        self.touch();
    }

    /// Add a data flow to the model.
    pub fn add_data_flow(&mut self, flow: DataFlow)
        ensures
            final(self).data_flows@ == old(self).data_flows@.push(flow),
            final(self).id == old(self).id && final(self).name == old(self).name,
            final(self).description == old(self).description,
            final(self).threats == old(self).threats && final(self).assets == old(self).assets,
            final(self).trust_boundaries == old(self).trust_boundaries,
            final(self).created_at == old(self).created_at,
    {
        self.data_flows.push(flow);
        self.touch();
    }

    /// The positions of the threats of a severity, in order.
    pub fn threats_by_severity(&self, severity: ThreatSeverity) -> (r: Vec<usize>)
        ensures
            positions_where(self.threats@, |t: Threat| t.severity == severity, r@),
    {
        let ghost keep = |t: Threat| t.severity == severity;
        let mut out: Vec<usize> = Vec::new();
        let mut i: usize = 0;
        while i < self.threats.len()
            invariant
                i <= self.threats@.len(),
                keep == (|t: Threat| t.severity == severity),
                forall|a: int| 0 <= a < out@.len() ==> (#[trigger] out@[a]) < i && keep(self.threats@[out@[a] as int]),
                forall|a: int, b: int| 0 <= a < b < out@.len() ==> (#[trigger] out@[a]) < (#[trigger] out@[b]),
                forall|k: int| 0 <= k < i && keep(self.threats@[k]) ==> exists|a: int| 0 <= a < out@.len() && (#[trigger] out@[a]) == k,
            decreases self.threats@.len() - i,
        {
            if self.threats[i].severity == severity {
                let ghost before = out@;
                out.push(i);
                assert forall|k: int| 0 <= k < i + 1 && keep(self.threats@[k]) implies
                    exists|a: int| 0 <= a < out@.len() && (#[trigger] out@[a]) == k by {
                    if k < i {
                        let a = choose|a: int| 0 <= a < before.len() && (#[trigger] before[a]) == k;
                        assert(out@[a] == before[a]);
                    } else {
                        assert(out@[before.len() as int] == k);
                    }
                }
            }
            i = i + 1;
        }
        out
    }

    /// The positions of the threats of a category, in order.
    pub fn threats_by_category(&self, category: ThreatCategory) -> (r: Vec<usize>)
        ensures
            positions_where(self.threats@, |t: Threat| t.category == category, r@),
    {
        let ghost keep = |t: Threat| t.category == category;
        let mut out: Vec<usize> = Vec::new();
        let mut i: usize = 0;
        while i < self.threats.len()
            invariant
                i <= self.threats@.len(),
                keep == (|t: Threat| t.category == category),
                forall|a: int| 0 <= a < out@.len() ==> (#[trigger] out@[a]) < i && keep(self.threats@[out@[a] as int]),
                forall|a: int, b: int| 0 <= a < b < out@.len() ==> (#[trigger] out@[a]) < (#[trigger] out@[b]),
                forall|k: int| 0 <= k < i && keep(self.threats@[k]) ==> exists|a: int| 0 <= a < out@.len() && (#[trigger] out@[a]) == k,
            decreases self.threats@.len() - i,
        {
            if self.threats[i].category == category {
                let ghost before = out@;
                out.push(i);
                assert forall|k: int| 0 <= k < i + 1 && keep(self.threats@[k]) implies
                    exists|a: int| 0 <= a < out@.len() && (#[trigger] out@[a]) == k by {
                    if k < i {
                        let a = choose|a: int| 0 <= a < before.len() && (#[trigger] before[a]) == k;
                        assert(out@[a] == before[a]);
                    } else {
                        assert(out@[before.len() as int] == k);
                    }
                }
            }
            i = i + 1;
        }
        out
    }

    /// The positions of the unmitigated threats, in order.
    pub fn unmitigated_threats(&self) -> (r: Vec<usize>)
        ensures
            positions_where(self.threats@, |t: Threat| !threat_mitigated(t), r@),
    {
        let ghost keep = |t: Threat| !threat_mitigated(t);
        let mut out: Vec<usize> = Vec::new();
        let mut i: usize = 0;
        while i < self.threats.len()
            invariant
                i <= self.threats@.len(),
                keep == (|t: Threat| !threat_mitigated(t)),
                forall|a: int| 0 <= a < out@.len() ==> (#[trigger] out@[a]) < i && keep(self.threats@[out@[a] as int]),
                forall|a: int, b: int| 0 <= a < b < out@.len() ==> (#[trigger] out@[a]) < (#[trigger] out@[b]),
                forall|k: int| 0 <= k < i && keep(self.threats@[k]) ==> exists|a: int| 0 <= a < out@.len() && (#[trigger] out@[a]) == k,
            decreases self.threats@.len() - i,
        {
            if !self.threats[i].is_mitigated() {
                let ghost before = out@;
                out.push(i);
                assert forall|k: int| 0 <= k < i + 1 && keep(self.threats@[k]) implies
                    exists|a: int| 0 <= a < out@.len() && (#[trigger] out@[a]) == k by {
                    if k < i {
                        let a = choose|a: int| 0 <= a < before.len() && (#[trigger] before[a]) == k;
                        assert(out@[a] == before[a]);
                    } else {
                        assert(out@[before.len() as int] == k);
                    }
                }
            }
            i = i + 1;
        }
        out
    }

    /// The sum of the threats' risk scores; the overall risk score is this
    /// over the number of threats, and 0 for a model without threats.
    pub fn total_risk_score(&self) -> (r: u32)
        requires
            scores_computable(self.threats@),
        ensures
            r == total_risk(self.threats@),
    {
        let mut sum: u32 = 0;
        let mut i: usize = 0;
        while i < self.threats.len()
            invariant
                i <= self.threats@.len(),
                scores_computable(self.threats@),
                sum == total_risk(self.threats@.take(i as int)),
            decreases self.threats@.len() - i,
        {
            assert(severity_score(self.threats@[i as int].severity) * self.threats@[i as int].likelihood <= 255);
            let r = self.threats[i].risk_score();
            assert(self.threats@.take(i + 1).drop_last() =~= self.threats@.take(i as int));
            proof { lemma_total_risk_prefix(self.threats@, i + 1); }
            sum = sum + r as u32;
            i = i + 1;
        }
        assert(self.threats@.take(i as int) =~= self.threats@);
        sum
    }

    /// Update the threat model's timestamp to now.
    pub fn touch(&mut self)
        ensures
            *final(self) == (ThreatModel { updated_at: final(self).updated_at, ..*old(self) }),
            earliest_time_ms() <= final(self).updated_at <= latest_time_ms(),
    {
        self.updated_at = crate::clock::utc_now_millis();
    }
}

/// The name, category, severity and likelihood of a threat.
pub open spec fn threat_kind(t: Threat) -> (Seq<char>, ThreatCategory, ThreatSeverity, u8) {
    (t.name@, t.category, t.severity, t.likelihood)
}

/// The threats that generating common threats adds, by kind, in order: weak
/// authentication when a data flow is authenticated, sensitive data exposure
/// when an asset is confidential, restricted or critical, injection when
/// there is a data flow, and broken access control always.
pub open spec fn common_threat_kinds(auth: bool, sensitive: bool, flows: bool) -> Seq<(Seq<char>, ThreatCategory, ThreatSeverity, u8)> {
    (if auth { seq![("Weak Authentication"@, ThreatCategory::Authentication, ThreatSeverity::High, 7u8)] } else { Seq::empty() })
    + (if sensitive { seq![("Sensitive Data Exposure"@, ThreatCategory::DataExposure, ThreatSeverity::High, 6u8)] } else { Seq::empty() })
    + (if flows { seq![("Injection Attacks"@, ThreatCategory::InputValidation, ThreatSeverity::Critical, 8u8)] } else { Seq::empty() })
    + seq![("Broken Access Control"@, ThreatCategory::AccessControl, ThreatSeverity::High, 7u8)]
}

/// Some data flow of the model is authenticated.
pub open spec fn has_authenticated_flow(flows: Seq<DataFlow>) -> bool {
    exists|i: int| 0 <= i < flows.len() && (#[trigger] flows[i]).authentication is Some
}

/// Whether an asset's sensitivity calls for protection against exposure.
pub open spec fn is_sensitive(s: AssetSensitivity) -> bool {
    s == AssetSensitivity::Confidential || s == AssetSensitivity::Restricted || s == AssetSensitivity::Critical
}

/// Some asset of the model is sensitive.
pub open spec fn has_sensitive_asset(assets: Seq<Asset>) -> bool {
    exists|i: int| 0 <= i < assets.len() && is_sensitive((#[trigger] assets[i]).sensitivity)
}

/// `t` is a generated threat: one mitigation, not started, and nothing
/// mitigated yet.
pub open spec fn fresh_generated(t: Threat) -> bool {
    &&& t.mitigations@.len() == 1
    &&& t.mitigations@[0].status == MitigationStatus::NotStarted
    &&& t.references.wf()
}

fn generated_threat(name: &str, description: &str, category: ThreatCategory, severity: ThreatSeverity,
    component: &str, impact: &str, likelihood: u8, mitigation: &str, reference: &str) -> (r: Threat)
    requires
        likelihood <= 10,
    ensures
        threat_kind(r) == (name@, category, severity, likelihood),
        fresh_generated(r),
{
    Threat::new(name, description, category, severity)
        .with_affected_component(component)
        .with_potential_impact(impact)
        .with_likelihood(likelihood)
        .with_mitigation(Mitigation::new(mitigation).with_status(MitigationStatus::NotStarted))
        .with_reference("OWASP", reference)
}

impl ThreatModel {
    /// Generate the common threats that the model's assets and data flows
    /// call for, and add them. Returns their identifiers, in order.
    pub fn add_common_threats(&mut self) -> (r: Vec<u128>)
        ensures
            ({
                let kinds = common_threat_kinds(
                    has_authenticated_flow(old(self).data_flows@),
                    has_sensitive_asset(old(self).assets@),
                    old(self).data_flows@.len() > 0,
                );
                let n = old(self).threats@.len();
                &&& final(self).threats@.len() == n + kinds.len()
                &&& final(self).threats@.subrange(0, n as int) == old(self).threats@
                &&& forall|i: int| 0 <= i < kinds.len() ==> threat_kind(#[trigger] final(self).threats@[n + i]) == kinds[i]
                    && fresh_generated(final(self).threats@[n + i])
                &&& r@.len() == kinds.len()
                &&& forall|i: int| 0 <= i < kinds.len() ==> #[trigger] r@[i] == final(self).threats@[n + i].id
            }),
            final(self).id == old(self).id,
            final(self).name == old(self).name,
            final(self).description == old(self).description,
            final(self).assets == old(self).assets,
            final(self).data_flows == old(self).data_flows,
            final(self).trust_boundaries == old(self).trust_boundaries,
    {
        let ghost auth = has_authenticated_flow(self.data_flows@);
        let ghost sensitive = has_sensitive_asset(self.assets@);
        let ghost flows = self.data_flows@.len() > 0;
        let ghost n = self.threats@.len();
        let ghost kinds = common_threat_kinds(auth, sensitive, flows);
        let mut ids: Vec<u128> = Vec::new();

        let mut any_auth = false;
        let mut i: usize = 0;
        while i < self.data_flows.len()
            invariant
                i <= self.data_flows@.len(),
                any_auth == exists|j: int| 0 <= j < i && (#[trigger] self.data_flows@[j]).authentication is Some,
            decreases self.data_flows@.len() - i,
        {
            if self.data_flows[i].authentication.is_some() {
                any_auth = true;
            }
            i = i + 1;
        }
        assert(any_auth == auth);

        let mut any_sensitive = false;
        let mut j: usize = 0;
        while j < self.assets.len()
            invariant
                j <= self.assets@.len(),
                any_sensitive == exists|k: int| 0 <= k < j && is_sensitive((#[trigger] self.assets@[k]).sensitivity),
            decreases self.assets@.len() - j,
        {
            let s = self.assets[j].sensitivity;
            if s == AssetSensitivity::Confidential || s == AssetSensitivity::Restricted || s == AssetSensitivity::Critical {
                any_sensitive = true;
            }
            j = j + 1;
        }
        assert(any_sensitive == sensitive);

        let ghost mut added: Seq<(Seq<char>, ThreatCategory, ThreatSeverity, u8)> = Seq::empty();
        if any_auth {
            let t = generated_threat("Weak Authentication",
                "The system may use weak authentication mechanisms that could be bypassed.",
                ThreatCategory::Authentication, ThreatSeverity::High, "Authentication System",
                "Unauthorized access to the system", 7, "Implement strong authentication mechanisms",
                "https://owasp.org/www-project-top-ten/2017/A2_2017-Broken_Authentication");
            ids.push(t.id);
            self.add_threat(t);
            proof { added = added.push(("Weak Authentication"@, ThreatCategory::Authentication, ThreatSeverity::High, 7u8)); }
        }
        let ghost after_auth = added;
        if any_sensitive {
            let t = generated_threat("Sensitive Data Exposure",
                "Sensitive data may be exposed due to lack of encryption or proper access controls.",
                ThreatCategory::DataExposure, ThreatSeverity::High, "Data Storage",
                "Exposure of sensitive user data", 6, "Encrypt sensitive data at rest and in transit",
                "https://owasp.org/www-project-top-ten/2017/A3_2017-Sensitive_Data_Exposure");
            ids.push(t.id);
            self.add_threat(t);
            proof { added = added.push(("Sensitive Data Exposure"@, ThreatCategory::DataExposure, ThreatSeverity::High, 6u8)); }
        }
        if self.data_flows.len() > 0 {
            let t = generated_threat("Injection Attacks",
                "The system may be vulnerable to injection attacks if user input is not properly validated.",
                ThreatCategory::InputValidation, ThreatSeverity::Critical, "Input Processing",
                "Unauthorized data access or system compromise", 8,
                "Implement input validation and parameterized queries",
                "https://owasp.org/www-project-top-ten/2017/A1_2017-Injection");
            ids.push(t.id);
            self.add_threat(t);
            proof { added = added.push(("Injection Attacks"@, ThreatCategory::InputValidation, ThreatSeverity::Critical, 8u8)); }
        }
        let t = generated_threat("Broken Access Control",
            "The system may have insufficient access controls allowing unauthorized access to resources.",
            ThreatCategory::AccessControl, ThreatSeverity::High, "Access Control System",
            "Unauthorized access to resources", 7, "Implement proper access control checks",
            "https://owasp.org/www-project-top-ten/2017/A5_2017-Broken_Access_Control");
        ids.push(t.id);
        self.add_threat(t);
        proof { added = added.push(("Broken Access Control"@, ThreatCategory::AccessControl, ThreatSeverity::High, 7u8)); }
        assert(added =~= kinds);
        ids
    }

    /// The number of threats with a severity.
    pub fn severity_count(&self, severity: ThreatSeverity) -> (r: usize)
        ensures
            r == count_severity(self.threats@, severity),
    {
        let mut c: usize = 0;
        let mut i: usize = 0;
        while i < self.threats.len()
            invariant
                i <= self.threats@.len(),
                c == count_severity(self.threats@.take(i as int), severity),
                c <= i,
            decreases self.threats@.len() - i,
        {
            assert(self.threats@.take(i + 1).drop_last() =~= self.threats@.take(i as int));
            if self.threats[i].severity == severity {
                c = c + 1;
            }
            i = i + 1;
        }
        assert(self.threats@.take(i as int) =~= self.threats@);
        c
    }

    /// The number of threats in a category.
    pub fn category_count(&self, category: ThreatCategory) -> (r: usize)
        ensures
            r == count_category(self.threats@, category),
    {
        let mut c: usize = 0;
        let mut i: usize = 0;
        while i < self.threats.len()
            invariant
                i <= self.threats@.len(),
                c == count_category(self.threats@.take(i as int), category),
                c <= i,
            decreases self.threats@.len() - i,
        {
            assert(self.threats@.take(i + 1).drop_last() =~= self.threats@.take(i as int));
            if self.threats[i].category == category {
                c = c + 1;
            }
            i = i + 1;
        }
        assert(self.threats@.take(i as int) =~= self.threats@);
        c
    }

    /// The number of mitigated threats.
    pub fn mitigated_count(&self) -> (r: usize)
        ensures
            r == count_mitigated(self.threats@),
            r <= self.threats@.len(),
    {
        let mut c: usize = 0;
        let mut i: usize = 0;
        while i < self.threats.len()
            invariant
                i <= self.threats@.len(),
                c == count_mitigated(self.threats@.take(i as int)),
                c <= i,
            decreases self.threats@.len() - i,
        {
            assert(self.threats@.take(i + 1).drop_last() =~= self.threats@.take(i as int));
            if self.threats[i].is_mitigated() {
                c = c + 1;
            }
            i = i + 1;
        }
        assert(self.threats@.take(i as int) =~= self.threats@);
        c
    }
}

/// Why a threat modeling operation failed.
#[derive(Debug, Clone, Copy, PartialEq, Eq, Structural)]
pub enum ThreatModelError {
    /// No model has the identifier
    ModelNotFound(u128),
    /// The model has no threat with the identifier
    ThreatNotFound(u128),
}

/// A threat report for a model. The overall risk score is
/// `total_risk_score` over `total_threats` (0 without threats).
#[derive(Debug)]
pub struct ThreatReport {
    pub model_id: u128,
    pub model_name: String,
    pub total_threats: usize,
    /// Count of threats by severity, for each severity from critical down
    pub severity_counts: Vec<(ThreatSeverity, usize)>,
    /// Count of threats by category, for each category in declaration order
    pub category_counts: Vec<(ThreatCategory, usize)>,
    pub mitigated_count: usize,
    pub unmitigated_count: usize,
    pub total_risk_score: u32,
    /// When the report was generated, in milliseconds since the Unix epoch
    pub generated_at: i64,
}

/// The severities, from critical down.
pub open spec fn all_severities() -> Seq<ThreatSeverity> {
    seq![ThreatSeverity::Critical, ThreatSeverity::High, ThreatSeverity::Medium, ThreatSeverity::Low,
        ThreatSeverity::Informational]
}

/// The categories, in declaration order.
pub open spec fn all_categories() -> Seq<ThreatCategory> {
    seq![ThreatCategory::Authentication, ThreatCategory::InputValidation, ThreatCategory::DataExposure,
        ThreatCategory::SessionManagement, ThreatCategory::AccessControl, ThreatCategory::Cryptography,
        ThreatCategory::BusinessLogic, ThreatCategory::FileOperations, ThreatCategory::NetworkCommunication,
        ThreatCategory::ThirdPartyComponents, ThreatCategory::Configuration, ThreatCategory::Other]
}

impl ThreatReport {
    /// The count of threats with a severity.
    pub fn severity_count(&self, severity: ThreatSeverity) -> (r: usize)
        ensures
            (exists|i: int| 0 <= i < self.severity_counts@.len() && (#[trigger] self.severity_counts@[i]).0 == severity)
                ==> exists|i: int| 0 <= i < self.severity_counts@.len() && (#[trigger] self.severity_counts@[i]) == (severity, r),
            (forall|i: int| 0 <= i < self.severity_counts@.len() ==> (#[trigger] self.severity_counts@[i]).0 != severity)
                ==> r == 0,
    {
        let mut i: usize = 0;
        while i < self.severity_counts.len()
            invariant
                i <= self.severity_counts@.len(),
                forall|j: int| 0 <= j < i ==> (#[trigger] self.severity_counts@[j]).0 != severity,
            decreases self.severity_counts@.len() - i,
        {
            if self.severity_counts[i].0 == severity {
                return self.severity_counts[i].1;
            }
            i = i + 1;
        }
        0
    }

    /// The count of threats in a category.
    pub fn category_count(&self, category: ThreatCategory) -> (r: usize)
        ensures
            (exists|i: int| 0 <= i < self.category_counts@.len() && (#[trigger] self.category_counts@[i]).0 == category)
                ==> exists|i: int| 0 <= i < self.category_counts@.len() && (#[trigger] self.category_counts@[i]) == (category, r),
            (forall|i: int| 0 <= i < self.category_counts@.len() ==> (#[trigger] self.category_counts@[i]).0 != category)
                ==> r == 0,
    {
        let mut i: usize = 0;
        while i < self.category_counts.len()
            invariant
                i <= self.category_counts@.len(),
                forall|j: int| 0 <= j < i ==> (#[trigger] self.category_counts@[j]).0 != category,
            decreases self.category_counts@.len() - i,
        {
            if self.category_counts[i].0 == category {
                return self.category_counts[i].1;
            }
            i = i + 1;
        }
        0
    }
}

/// Service for managing threat models, keyed by identifier. Storing them is
/// the caller's: each change here is followed by saving the model it touched.
#[derive(Debug)]
pub struct ThreatModelingService {
    models: KeyedMap<u128, ThreatModel>,
}

/// `a` is an asset with this name, description and sensitivity.
pub open spec fn asset_is(a: Asset, name: Seq<char>, description: Seq<char>, sensitivity: AssetSensitivity) -> bool {
    a.name@ == name && a.description@ == description && a.sensitivity == sensitivity
}

/// `b` is a trust boundary with this name, description and type.
pub open spec fn boundary_is(b: TrustBoundary, name: Seq<char>, description: Seq<char>, t: TrustBoundaryType) -> bool {
    b.name@ == name && b.description@ == description && b.boundary_type == t
}

/// The text of an optional text field.
pub open spec fn opt_text(o: Option<String>) -> Option<Seq<char>> {
    match o {
        Some(t) => Some(t@),
        None => None,
    }
}

/// `f` is a data flow with these parts.
pub open spec fn flow_is(
    f: DataFlow,
    name: Seq<char>,
    description: Seq<char>,
    source: Seq<char>,
    destination: Seq<char>,
    data: Seq<char>,
    protocol: Option<Seq<char>>,
    authentication: Option<Seq<char>>,
    encrypted: bool,
) -> bool {
    &&& f.name@ == name && f.description@ == description
    &&& f.source@ == source && f.destination@ == destination && f.data@ == data
    &&& opt_text(f.protocol) == protocol && opt_text(f.authentication) == authentication
    &&& f.encrypted == encrypted
}

/// `m` is the default threat model of the application: three assets (user
/// data, authentication credentials, application code), two trust
/// boundaries (client and network), two data flows (password
/// authentication and encrypted synchronization over HTTPS), and the common
/// threats these call for.
pub open spec fn default_model(m: ThreatModel) -> bool {
    &&& m.name@ == "Evo Design Application"@
    &&& m.description@ == "Threat model for the main application"@
    &&& m.assets@.len() == 3
    &&& asset_is(m.assets@[0], "User Data"@, "Personal information and preferences of users"@, AssetSensitivity::Confidential)
    &&& asset_is(m.assets@[1], "Authentication Credentials"@, "User credentials for authentication"@, AssetSensitivity::Critical)
    &&& asset_is(m.assets@[2], "Application Code"@, "Source code and compiled binaries of the application"@,
        AssetSensitivity::Restricted)
    &&& m.trust_boundaries@.len() == 2
    &&& boundary_is(m.trust_boundaries@[0], "Client Boundary"@, "Boundary between the user and the client application"@,
        TrustBoundaryType::Process)
    &&& boundary_is(m.trust_boundaries@[1], "Network Boundary"@, "Boundary between the client and external services"@,
        TrustBoundaryType::Network)
    &&& m.data_flows@.len() == 2
    &&& flow_is(m.data_flows@[0], "User Authentication"@, "Flow of authentication data between user and system"@,
        "User"@, "Authentication System"@, "Credentials"@, None, Some("Password"@), true)
    &&& flow_is(m.data_flows@[1], "Data Synchronization"@, "Synchronization of user data across devices"@,
        "Local Storage"@, "Remote Storage"@, "User Data"@, Some("HTTPS"@), None, true)
    &&& m.threats@.len() == common_threat_kinds(true, true, true).len()
    &&& forall|i: int| 0 <= i < m.threats@.len() ==> threat_kind(#[trigger] m.threats@[i]) == common_threat_kinds(true, true, true)[i]
        && fresh_generated(m.threats@[i])
}

/// The key of a model identifier.
pub open spec fn model_key(id: u128) -> (int, Seq<char>) {
    (id as int, Seq::<char>::empty())
}

/// The position of the first threat of `ts` with identifier `id`.
pub open spec fn first_with_id(ts: Seq<Threat>, id: u128, i: int) -> bool {
    &&& 0 <= i < ts.len()
    &&& ts[i].id == id
    &&& forall|j: int| 0 <= j < i ==> (#[trigger] ts[j]).id != id
}

impl ThreatModelingService {
    pub closed spec fn wf(&self) -> bool {
        self.models.wf()
    }

    /// The models held, by identifier key.
    pub closed spec fn models(&self) -> Map<(int, Seq<char>), ThreatModel> {
        self.models.view_map()
    }

    /// Create a service holding no model.
    pub fn new() -> (r: Self)
        ensures
            r.wf(),
            r.models() == Map::<(int, Seq<char>), ThreatModel>::empty(),
    {
        ThreatModelingService { models: KeyedMap::new() }
    }

    /// Create a new, empty threat model. Returns its identifier.
    pub fn create_model(&mut self, name: &str, description: &str) -> (r: u128)
        requires
            old(self).wf(),
        ensures
            final(self).wf(),
            final(self).models().dom() == old(self).models().dom().insert(model_key(r)),
            forall|k| k != model_key(r) && #[trigger] old(self).models().dom().contains(k)
                ==> final(self).models()[k] == old(self).models()[k],
            final(self).models()[model_key(r)].id == r,
            final(self).models()[model_key(r)].name@ == name@,
            final(self).models()[model_key(r)].description@ == description@,
            final(self).models()[model_key(r)].threats@.len() == 0,
    {
        let model = ThreatModel::new(name, description);
        let id = model.id;
        self.models.insert(id, model);
        id
    }

    /// Create the application's default threat model, unless the service
    /// already holds a model. Returns the new model's identifier, or `None`
    /// when models exist and nothing changed.
    pub fn initialize_default_models(&mut self) -> (r: Option<u128>)
        requires
            old(self).wf(),
        ensures
            final(self).wf(),
            old(self).models().dom().len() > 0 ==> r is None && final(self).models() == old(self).models(),
            old(self).models().dom().len() == 0 ==> (r matches Some(id) && {
                &&& final(self).models().dom() == set![model_key(id)]
                &&& final(self).models()[model_key(id)].id == id
                &&& default_model(final(self).models()[model_key(id)])
            }),
    {
        proof { self.models.lemma_dom_len(); }
        if self.models.len() > 0 {
            return None;
        }
        let mut model = ThreatModel::new("Evo Design Application", "Threat model for the main application");
        model.add_asset(Asset::new(
            "User Data",
            "Personal information and preferences of users",
            AssetSensitivity::Confidential,
        ));
        model.add_asset(Asset::new(
            "Authentication Credentials",
            "User credentials for authentication",
            AssetSensitivity::Critical,
        ));
        model.add_asset(Asset::new(
            "Application Code",
            "Source code and compiled binaries of the application",
            AssetSensitivity::Restricted,
        ));
        model.add_trust_boundary(TrustBoundary::new(
            "Client Boundary",
            "Boundary between the user and the client application",
            TrustBoundaryType::Process,
        ));
        model.add_trust_boundary(TrustBoundary::new(
            "Network Boundary",
            "Boundary between the client and external services",
            TrustBoundaryType::Network,
        ));
        let authentication_flow = DataFlow::new(
            "User Authentication",
            "Flow of authentication data between user and system",
            "User",
            "Authentication System",
            "Credentials",
        ).with_authentication("Password").with_encryption(true);
        let data_sync_flow = DataFlow::new(
            "Data Synchronization",
            "Synchronization of user data across devices",
            "Local Storage",
            "Remote Storage",
            "User Data",
        ).with_protocol("HTTPS").with_encryption(true);
        model.add_data_flow(authentication_flow);
        model.add_data_flow(data_sync_flow);
        proof {
            assert(model.data_flows@[0].authentication is Some);
            assert(has_authenticated_flow(model.data_flows@));
            assert(is_sensitive(model.assets@[0].sensitivity));
            assert(has_sensitive_asset(model.assets@));
        }
        let ghost before = model;
        let _ids = model.add_common_threats();
        proof {
            assert(before.threats@.len() == 0);
            assert forall|i: int| 0 <= i < model.threats@.len() implies
                threat_kind(#[trigger] model.threats@[i]) == common_threat_kinds(true, true, true)[i]
                && fresh_generated(model.threats@[i]) by {
                assert(model.threats@[0 + i] == model.threats@[i]);
            }
        }
        assert(default_model(model));
        let id = model.id;
        self.models.insert(id, model);
        proof {
            assert(self.models().dom() =~= set![model_key(id)]);
        }
        Some(id)
    }

    /// Get a threat model by identifier.
    pub fn get_model(&self, id: u128) -> (r: Result<&ThreatModel, ThreatModelError>)
        requires
            self.wf(),
        ensures
            match r {
                Ok(m) => self.models().dom().contains(model_key(id)) && *m == self.models()[model_key(id)],
                Err(e) => !self.models().dom().contains(model_key(id)) && e == ThreatModelError::ModelNotFound(id),
            },
    {
        match self.models.get(&id) {
            Some(m) => Ok(m),
            None => Err(ThreatModelError::ModelNotFound(id)),
        }
    }

    /// The identifiers of all models held, in the order they were first stored.
    pub fn model_ids(&self) -> (r: Vec<u128>)
        requires
            self.wf(),
        ensures
            forall|i: int| 0 <= i < r@.len() ==> self.models().dom().contains(model_key(#[trigger] r@[i])),
            forall|k| #[trigger] self.models().dom().contains(k) ==> exists|i: int| 0 <= i < r@.len() && model_key(r@[i]) == k,
    {
        let mut out: Vec<u128> = Vec::new();
        let mut i: usize = 0;
        while i < self.models.len()
            invariant
                self.models.wf(),
                i <= self.models.entry_seq().len(),
                out@.len() == i,
                forall|j: int| 0 <= j < i ==> #[trigger] out@[j] == self.models.entry_seq()[j].0,
            decreases self.models.entry_seq().len() - i,
        {
            let e = self.models.entry_at(i);
            out.push(e.0);
            i = i + 1;
        }
        assert forall|j: int| 0 <= j < out@.len() implies self.models().dom().contains(model_key(#[trigger] out@[j])) by {
            self.models.lemma_entry_in_view(j);
        }
        assert forall|k| #[trigger] self.models().dom().contains(k) implies exists|j: int| 0 <= j < out@.len() && model_key(out@[j]) == k by {
            let j = choose|j: int| 0 <= j < self.models.entry_seq().len() && #[trigger] self.models.entry_seq()[j].0.lookup_key() == k;
            assert(model_key(out@[j]) == k);
        }
        out
    }

    /// Store a threat model under its identifier, replacing any before it.
    pub fn update_model(&mut self, model: ThreatModel)
        requires
            old(self).wf(),
        ensures
            final(self).wf(),
            final(self).models() == old(self).models().insert(model_key(model.id), model),
    {
        let id = model.id;
        self.models.insert(id, model);
    }

    /// Delete a threat model.
    pub fn delete_model(&mut self, id: u128)
        requires
            old(self).wf(),
        ensures
            final(self).wf(),
            final(self).models() == old(self).models().remove(model_key(id)),
    {
        let _ = self.models.remove(&id);
    }

    /// Add a threat to a model. Returns the threat's identifier.
    pub fn add_threat(&mut self, model_id: u128, threat: Threat) -> (r: Result<u128, ThreatModelError>)
        requires
            old(self).wf(),
        ensures
            final(self).wf(),
            !old(self).models().dom().contains(model_key(model_id)) ==> {
                &&& r == Err::<u128, ThreatModelError>(ThreatModelError::ModelNotFound(model_id))
                &&& final(self).models() == old(self).models()
            },
            old(self).models().dom().contains(model_key(model_id)) ==> {
                &&& r == Ok::<u128, ThreatModelError>(threat.id)
                &&& final(self).models().dom() == old(self).models().dom()
                &&& forall|k| k != model_key(model_id) && #[trigger] old(self).models().dom().contains(k)
                    ==> final(self).models()[k] == old(self).models()[k]
                &&& final(self).models()[model_key(model_id)].threats@
                    == old(self).models()[model_key(model_id)].threats@.push(threat)
                &&& final(self).models()[model_key(model_id)].id == old(self).models()[model_key(model_id)].id
                &&& final(self).models()[model_key(model_id)].name == old(self).models()[model_key(model_id)].name
            },
    {
        let threat_id = threat.id;
        match self.models.remove(&model_id) {
            None => {
                assert(self.models.view_map() =~= old(self).models.view_map());
                Err(ThreatModelError::ModelNotFound(model_id))
            },
            Some(mut model) => {
                model.add_threat(threat);
                self.models.insert(model_id, model);
                assert(self.models.view_map().dom() =~= old(self).models.view_map().dom());
                Ok(threat_id)
            },
        }
    }

    /// Replace the threat of a model that has the same identifier (the first
    /// such threat).
    pub fn update_threat(&mut self, model_id: u128, threat: Threat) -> (r: Result<(), ThreatModelError>)
        requires
            old(self).wf(),
        ensures
            final(self).wf(),
            final(self).models().dom() == old(self).models().dom(),
            forall|k| k != model_key(model_id) && #[trigger] old(self).models().dom().contains(k)
                ==> final(self).models()[k] == old(self).models()[k],
            !old(self).models().dom().contains(model_key(model_id))
                ==> r == Err::<(), ThreatModelError>(ThreatModelError::ModelNotFound(model_id)),
            old(self).models().dom().contains(model_key(model_id)) ==> ({
                let before = old(self).models()[model_key(model_id)].threats@;
                let after = final(self).models()[model_key(model_id)].threats@;
                &&& (forall|j: int| 0 <= j < before.len() ==> (#[trigger] before[j]).id != threat.id)
                    ==> r == Err::<(), ThreatModelError>(ThreatModelError::ThreatNotFound(threat.id)) && after == before
                &&& r is Ok ==> exists|i: int| #[trigger] first_with_id(before, threat.id, i) && after == before.update(i, threat)
                &&& r is Ok || r == Err::<(), ThreatModelError>(ThreatModelError::ThreatNotFound(threat.id))
            }),
    {
        match self.models.remove(&model_id) {
            None => {
                assert(self.models.view_map() =~= old(self).models.view_map());
                Err(ThreatModelError::ModelNotFound(model_id))
            },
            Some(mut model) => {
                let ghost before = model.threats@;
                let mut i: usize = 0;
                while i < model.threats.len()
                    invariant
                        i <= model.threats@.len(),
                        model.threats@ == before,
                        forall|j: int| 0 <= j < i ==> (#[trigger] before[j]).id != threat.id,
                    ensures
                        i <= model.threats@.len(),
                        model.threats@ == before,
                        forall|j: int| 0 <= j < i ==> (#[trigger] before[j]).id != threat.id,
                        i < model.threats@.len() ==> before[i as int].id == threat.id,
                    decreases model.threats@.len() - i,
                {
                    if model.threats[i].id == threat.id {
                        break;
                    }
                    i = i + 1;
                }
                let result = if i < model.threats.len() {
                    assert(first_with_id(before, threat.id, i as int));
                    model.threats.set(i, threat);
                    model.touch();
                    Ok(())
                } else {
                    Err(ThreatModelError::ThreatNotFound(threat.id))
                };
                self.models.insert(model_id, model);
                assert(self.models.view_map().dom() =~= old(self).models.view_map().dom());
                result
            },
        }
    }

    /// Delete the threat of a model with the identifier (the first such
    /// threat).
    pub fn delete_threat(&mut self, model_id: u128, threat_id: u128) -> (r: Result<(), ThreatModelError>)
        requires
            old(self).wf(),
        ensures
            final(self).wf(),
            final(self).models().dom() == old(self).models().dom(),
            forall|k| k != model_key(model_id) && #[trigger] old(self).models().dom().contains(k)
                ==> final(self).models()[k] == old(self).models()[k],
            !old(self).models().dom().contains(model_key(model_id))
                ==> r == Err::<(), ThreatModelError>(ThreatModelError::ModelNotFound(model_id)),
            old(self).models().dom().contains(model_key(model_id)) ==> ({
                let before = old(self).models()[model_key(model_id)].threats@;
                let after = final(self).models()[model_key(model_id)].threats@;
                &&& (forall|j: int| 0 <= j < before.len() ==> (#[trigger] before[j]).id != threat_id)
                    ==> r == Err::<(), ThreatModelError>(ThreatModelError::ThreatNotFound(threat_id)) && after == before
                &&& r is Ok ==> exists|i: int| #[trigger] first_with_id(before, threat_id, i) && after == before.remove(i)
                &&& r is Ok || r == Err::<(), ThreatModelError>(ThreatModelError::ThreatNotFound(threat_id))
            }),
    {
        match self.models.remove(&model_id) {
            None => {
                assert(self.models.view_map() =~= old(self).models.view_map());
                Err(ThreatModelError::ModelNotFound(model_id))
            },
            Some(mut model) => {
                let ghost before = model.threats@;
                let mut i: usize = 0;
                while i < model.threats.len()
                    invariant
                        i <= model.threats@.len(),
                        model.threats@ == before,
                        forall|j: int| 0 <= j < i ==> (#[trigger] before[j]).id != threat_id,
                    ensures
                        i <= model.threats@.len(),
                        model.threats@ == before,
                        forall|j: int| 0 <= j < i ==> (#[trigger] before[j]).id != threat_id,
                        i < model.threats@.len() ==> before[i as int].id == threat_id,
                    decreases model.threats@.len() - i,
                {
                    if model.threats[i].id == threat_id {
                        break;
                    }
                    i = i + 1;
                }
                let result = if i < model.threats.len() {
                    assert(first_with_id(before, threat_id, i as int));
                    let _ = model.threats.remove(i);
                    model.touch();
                    Ok(())
                } else {
                    Err(ThreatModelError::ThreatNotFound(threat_id))
                };
                self.models.insert(model_id, model);
                assert(self.models.view_map().dom() =~= old(self).models.view_map().dom());
                result
            },
        }
    }

    /// Generate the common threats for a model and add them. Returns their
    /// identifiers.
    pub fn generate_common_threats(&mut self, model_id: u128) -> (r: Result<Vec<u128>, ThreatModelError>)
        requires
            old(self).wf(),
        ensures
            final(self).wf(),
            final(self).models().dom() == old(self).models().dom(),
            forall|k| k != model_key(model_id) && #[trigger] old(self).models().dom().contains(k)
                ==> final(self).models()[k] == old(self).models()[k],
            !old(self).models().dom().contains(model_key(model_id))
                ==> r == Err::<Vec<u128>, ThreatModelError>(ThreatModelError::ModelNotFound(model_id)),
            old(self).models().dom().contains(model_key(model_id)) ==> ({
                let m = old(self).models()[model_key(model_id)];
                let kinds = common_threat_kinds(has_authenticated_flow(m.data_flows@), has_sensitive_asset(m.assets@),
                    m.data_flows@.len() > 0);
                let after = final(self).models()[model_key(model_id)].threats@;
                let n = m.threats@.len();
                &&& r matches Ok(ids) && ids@.len() == kinds.len()
                &&& after.len() == n + kinds.len()
                &&& after.subrange(0, n as int) == m.threats@
                &&& forall|i: int| 0 <= i < kinds.len() ==> threat_kind(#[trigger] after[n + i]) == kinds[i]
                    && fresh_generated(after[n + i])
                &&& forall|i: int| 0 <= i < kinds.len() ==> #[trigger] r->Ok_0@[i] == after[n + i].id
                &&& final(self).models()[model_key(model_id)].assets == m.assets
                &&& final(self).models()[model_key(model_id)].data_flows == m.data_flows
                &&& final(self).models()[model_key(model_id)].trust_boundaries == m.trust_boundaries
                &&& final(self).models()[model_key(model_id)].name == m.name
            }),
    {
        match self.models.remove(&model_id) {
            None => {
                assert(self.models.view_map() =~= old(self).models.view_map());
                Err(ThreatModelError::ModelNotFound(model_id))
            },
            Some(mut model) => {
                let ids = model.add_common_threats();
                self.models.insert(model_id, model);
                assert(self.models.view_map().dom() =~= old(self).models.view_map().dom());
                Ok(ids)
            },
        }
    }

    /// Generate a threat report for a model, at the current time.
    pub fn generate_report(&self, model_id: u128) -> (r: Result<ThreatReport, ThreatModelError>)
        requires
            self.wf(),
            self.models().dom().contains(model_key(model_id)) ==> scores_computable(self.models()[model_key(model_id)].threats@),
        ensures
            !self.models().dom().contains(model_key(model_id))
                ==> (r matches Err(e) && e == ThreatModelError::ModelNotFound(model_id)),
            self.models().dom().contains(model_key(model_id)) ==> ({
                let m = self.models()[model_key(model_id)];
                &&& r matches Ok(rep)
                &&& rep.model_id == model_id
                &&& rep.model_name == m.name
                &&& rep.total_threats == m.threats@.len()
                &&& rep.mitigated_count == count_mitigated(m.threats@)
                &&& rep.unmitigated_count == m.threats@.len() - count_mitigated(m.threats@)
                &&& rep.total_risk_score == total_risk(m.threats@)
                &&& rep.severity_counts@.len() == 5
                &&& forall|i: int| 0 <= i < 5 ==> #[trigger] rep.severity_counts@[i]
                    == (all_severities()[i], count_severity(m.threats@, all_severities()[i]) as usize)
                &&& rep.category_counts@.len() == 12
                &&& forall|i: int| 0 <= i < 12 ==> #[trigger] rep.category_counts@[i]
                    == (all_categories()[i], count_category(m.threats@, all_categories()[i]) as usize)
            }),
    {
        let model = match self.models.get(&model_id) {
            Some(m) => m,
            None => return Err(ThreatModelError::ModelNotFound(model_id)),
        };
        let severities = vec![ThreatSeverity::Critical, ThreatSeverity::High, ThreatSeverity::Medium,
            ThreatSeverity::Low, ThreatSeverity::Informational];
        let mut severity_counts: Vec<(ThreatSeverity, usize)> = Vec::new();
        let mut i: usize = 0;
        while i < severities.len()
            invariant
                severities@ == all_severities(),
                i <= 5,
                severity_counts@.len() == i,
                forall|j: int| 0 <= j < i ==> #[trigger] severity_counts@[j]
                    == (all_severities()[j], count_severity(model.threats@, all_severities()[j]) as usize),
            decreases 5 - i,
        {
            let s = severities[i];
            let c = model.severity_count(s);
            severity_counts.push((s, c));
            i = i + 1;
        }
        let categories = vec![ThreatCategory::Authentication, ThreatCategory::InputValidation, ThreatCategory::DataExposure,
            ThreatCategory::SessionManagement, ThreatCategory::AccessControl, ThreatCategory::Cryptography,
            ThreatCategory::BusinessLogic, ThreatCategory::FileOperations, ThreatCategory::NetworkCommunication,
            ThreatCategory::ThirdPartyComponents, ThreatCategory::Configuration, ThreatCategory::Other];
        let mut category_counts: Vec<(ThreatCategory, usize)> = Vec::new();
        let mut k: usize = 0;
        while k < categories.len()
            invariant
                categories@ == all_categories(),
                k <= 12,
                category_counts@.len() == k,
                forall|j: int| 0 <= j < k ==> #[trigger] category_counts@[j]
                    == (all_categories()[j], count_category(model.threats@, all_categories()[j]) as usize),
            decreases 12 - k,
        {
            let c0 = categories[k];
            let c = model.category_count(c0);
            category_counts.push((c0, c));
            k = k + 1;
        }
        let mitigated = model.mitigated_count();
        Ok(ThreatReport {
            model_id,
            model_name: model.name.clone(),
            total_threats: model.threats.len(),
            severity_counts,
            category_counts,
            mitigated_count: mitigated,
            unmitigated_count: model.threats.len() - mitigated,
            total_risk_score: model.total_risk_score(),
            generated_at: crate::clock::utc_now_millis(),
        })
    }
}

/// A report counts every threat once by severity and once by category: the
/// severity counts, and the category counts, add up to the number of
/// threats; no more threats are mitigated than there are.
pub proof fn law_report_counts_partition(ts: Seq<Threat>)
    ensures
        count_severity(ts, ThreatSeverity::Critical) + count_severity(ts, ThreatSeverity::High)
            + count_severity(ts, ThreatSeverity::Medium) + count_severity(ts, ThreatSeverity::Low)
            + count_severity(ts, ThreatSeverity::Informational) == ts.len(),
        count_category(ts, ThreatCategory::Authentication) + count_category(ts, ThreatCategory::InputValidation)
            + count_category(ts, ThreatCategory::DataExposure) + count_category(ts, ThreatCategory::SessionManagement)
            + count_category(ts, ThreatCategory::AccessControl) + count_category(ts, ThreatCategory::Cryptography)
            + count_category(ts, ThreatCategory::BusinessLogic) + count_category(ts, ThreatCategory::FileOperations)
            + count_category(ts, ThreatCategory::NetworkCommunication)
            + count_category(ts, ThreatCategory::ThirdPartyComponents)
            + count_category(ts, ThreatCategory::Configuration) + count_category(ts, ThreatCategory::Other) == ts.len(),
        count_mitigated(ts) <= ts.len(),
    decreases ts.len(),
{
    if ts.len() > 0 {
        law_report_counts_partition(ts.drop_last());
    }
}

/// A risk score is at most ten for a threat of likelihood at most ten (as
/// `new` and `with_likelihood` make them), and it can then be computed.
pub proof fn law_risk_at_most_ten(t: Threat)
    requires
        t.likelihood <= 10,
    ensures
        severity_score(t.severity) * t.likelihood <= 255,
        0 <= risk_of(t) <= 10,
{
    assert(severity_score(t.severity) <= 10);
    assert(severity_score(t.severity) * t.likelihood <= 100) by (nonlinear_arith)
        requires
            severity_score(t.severity) <= 10,
            t.likelihood <= 10,
    ;
}

} // verus!
