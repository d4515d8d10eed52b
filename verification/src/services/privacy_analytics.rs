use vstd::prelude::*;
use crate::text::same_text;

verus! {

/// Types of analytics events that can be collected.
#[derive(Debug, Clone, Copy, PartialEq, Eq, Structural)]
pub enum AnalyticsEventType {
    /// Feature usage event
    FeatureUsage,
    /// Performance event
    Performance,
    /// Error event
    Error,
    /// User interface event
    UserInterface,
    /// Session event
    Session,
    /// Custom event
    Custom,
}

/// The name under which an event type is stored and requested.
pub open spec fn event_type_name(t: AnalyticsEventType) -> Seq<char> {
    match t {
        AnalyticsEventType::FeatureUsage => "feature_usage"@,
        AnalyticsEventType::Performance => "performance"@,
        AnalyticsEventType::Error => "error"@,
        AnalyticsEventType::UserInterface => "user_interface"@,
        AnalyticsEventType::Session => "session"@,
        AnalyticsEventType::Custom => "custom"@,
    }
}

/// The number under which an event type is stored.
pub open spec fn event_type_code(t: AnalyticsEventType) -> i32 {
    match t {
        AnalyticsEventType::FeatureUsage => 0,
        AnalyticsEventType::Performance => 1,
        AnalyticsEventType::Error => 2,
        AnalyticsEventType::UserInterface => 3,
        AnalyticsEventType::Session => 4,
        AnalyticsEventType::Custom => 5,
    }
}

impl AnalyticsEventType {
    /// The name of the event type.
    pub fn name(&self) -> (r: &'static str)
        ensures
            r@ == event_type_name(*self),
    {
        match self {
            AnalyticsEventType::FeatureUsage => "feature_usage",
            AnalyticsEventType::Performance => "performance",
            AnalyticsEventType::Error => "error",
            AnalyticsEventType::UserInterface => "user_interface",
            AnalyticsEventType::Session => "session",
            AnalyticsEventType::Custom => "custom",
        }
    }

    /// The event type with the given name, if there is one.
    pub fn from_name(name: &str) -> (r: Option<AnalyticsEventType>)
        ensures
            match r {
                Some(t) => event_type_name(t) == name@,
                None => forall|t: AnalyticsEventType| event_type_name(t) != name@,
            },
    {
        if same_text(name, "feature_usage") {
            Some(AnalyticsEventType::FeatureUsage)
        } else if same_text(name, "performance") {
            Some(AnalyticsEventType::Performance)
        } else if same_text(name, "error") {
            Some(AnalyticsEventType::Error)
        } else if same_text(name, "user_interface") {
            Some(AnalyticsEventType::UserInterface)
        } else if same_text(name, "session") {
            Some(AnalyticsEventType::Session)
        } else if same_text(name, "custom") {
            Some(AnalyticsEventType::Custom)
        } else {
            None
        }
    }

    /// The number under which the event type is stored.
    pub fn code(&self) -> (r: i32)
        ensures
            r == event_type_code(*self),
    {
        match self {
            AnalyticsEventType::FeatureUsage => 0,
            AnalyticsEventType::Performance => 1,
            AnalyticsEventType::Error => 2,
            AnalyticsEventType::UserInterface => 3,
            AnalyticsEventType::Session => 4,
            AnalyticsEventType::Custom => 5,
        }
    }
}

/// Anonymization levels for analytics data.
#[derive(Debug, Clone, Copy, PartialEq, Eq, Structural)]
pub enum AnonymizationLevel {
    /// No anonymization (only for events with explicit consent)
    Disabled,
    /// Basic anonymization (remove direct identifiers)
    Basic,
    /// Advanced anonymization (k-anonymity)
    Advanced,
    /// Full anonymization (differential privacy)
    Full,
}

impl AnonymizationLevel {
    /// The number under which the level is stored.
    pub fn code(&self) -> (r: i32)
        ensures
            r == match *self {
                AnonymizationLevel::Disabled => 0i32,
                AnonymizationLevel::Basic => 1i32,
                AnonymizationLevel::Advanced => 2i32,
                AnonymizationLevel::Full => 3i32,
            },
    {
        match self {
            AnonymizationLevel::Disabled => 0,
            AnonymizationLevel::Basic => 1,
            AnonymizationLevel::Advanced => 2,
            AnonymizationLevel::Full => 3,
        }
    }
}

/// A user's consent to analytics, by kind of event; `updated_at_ms` is in
/// milliseconds since the Unix epoch.
#[derive(Debug, Clone, Copy, PartialEq, Eq, Structural)]
pub struct AnalyticsConsent {
    /// User ID
    pub user_id: u128,
    /// Whether the user has consented to feature usage analytics
    pub feature_usage: bool,
    /// Whether the user has consented to performance analytics
    pub performance: bool,
    /// Whether the user has consented to error reporting
    pub error_reporting: bool,
    /// Whether the user has consented to user interface analytics
    pub user_interface: bool,
    /// Last updated timestamp
    pub updated_at_ms: i64,
}

/// An analytics event as stored; `timestamp_ms` is in milliseconds since the
/// Unix epoch and `properties` is the (anonymized) JSON text of its properties.
#[derive(Debug, Clone)]
pub struct AnalyticsEvent {
    /// Unique ID for the event
    pub id: u128,
    /// Type of event
    pub event_type: AnalyticsEventType,
    /// Name of the event
    pub event_name: String,
    /// Anonymized session ID
    pub session_id: String,
    /// When the event occurred
    pub timestamp_ms: i64,
    /// Event properties (anonymized), as JSON text
    pub properties: String,
    /// Whether the user has consented to this type of analytics
    pub has_consent: bool,
    /// Anonymization level applied to this event
    pub anonymization_level: AnonymizationLevel,
}

/// Analytics configuration.
#[derive(Debug, Clone)]
pub struct AnalyticsConfig {
    /// Whether analytics collection is enabled
    pub enabled: bool,
    /// Default anonymization level
    pub default_anonymization_level: AnonymizationLevel,
    /// Retention period in days
    pub retention_days: i64,
    /// Whether to collect analytics in development mode
    pub collect_in_development: bool,
    /// Custom configuration, as JSON text
    pub custom_config: Option<String>,
}

impl Default for AnalyticsConfig {
    /// Collection off, advanced anonymization, events kept for 90 days.
    fn default() -> (r: Self)
        ensures
            !r.enabled,
            r.default_anonymization_level == AnonymizationLevel::Advanced,
            r.retention_days == 90,
            !r.collect_in_development,
            r.custom_config is None,
    {
        AnalyticsConfig {
            enabled: false,
            default_anonymization_level: AnonymizationLevel::Advanced,
            retention_days: 90,
            collect_in_development: false,
            custom_config: None,
        }
    }
}

/// Whether `c` consents to events of type `t`: only the four kinds a user
/// can consent to are ever covered.
pub open spec fn consent_covers(c: AnalyticsConsent, t: AnalyticsEventType) -> bool {
    match t {
        AnalyticsEventType::FeatureUsage => c.feature_usage,
        AnalyticsEventType::Performance => c.performance,
        AnalyticsEventType::Error => c.error_reporting,
        AnalyticsEventType::UserInterface => c.user_interface,
        _ => false,
    }
}

/// Whether the consent on record, if any, covers events of type
/// `event_type`; without a record there is no consent.
pub fn check_consent(consent: Option<&AnalyticsConsent>, event_type: AnalyticsEventType) -> (r: bool)
    ensures
        r == match consent {
            Some(c) => consent_covers(*c, event_type),
            None => false,
        },
{
    match consent {
        Some(c) => match event_type {
            AnalyticsEventType::FeatureUsage => c.feature_usage,
            AnalyticsEventType::Performance => c.performance,
            AnalyticsEventType::Error => c.error_reporting,
            AnalyticsEventType::UserInterface => c.user_interface,
            _ => false,
        },
        None => false,
    }
}

/// Whether an event is tracked under `config` in a build that is (or is not)
/// a development build: the anonymization level it is stored with, or
/// `None` when it is not tracked. Consented events get the configured level,
/// the others full anonymization.
pub fn tracking_level(config: &AnalyticsConfig, development: bool, has_consent: bool) -> (r: Option<AnonymizationLevel>)
    ensures
        !config.enabled ==> r is None,
        config.enabled && development && !config.collect_in_development ==> r is None,
        config.enabled && !(development && !config.collect_in_development) ==> r == Some(
            if has_consent { config.default_anonymization_level } else { AnonymizationLevel::Full },
        ),
{
    if !config.enabled {
        return None;
    }
    if development && !config.collect_in_development {
        return None;
    }
    if has_consent {
        Some(config.default_anonymization_level)
    } else {
        Some(AnonymizationLevel::Full)
    }
}

/// Property names that identify a person directly.
pub open spec fn is_sensitive_field(name: Seq<char>) -> bool {
    ||| name == "email"@
    ||| name == "name"@
    ||| name == "username"@
    ||| name == "user_id"@
    ||| name == "ip"@
    ||| name == "address"@
    ||| name == "phone"@
    ||| name == "location"@
    ||| name == "device_id"@
    ||| name == "user_agent"@
}

/// Whether a property name identifies a person directly.
pub fn is_sensitive_field_name(name: &str) -> (r: bool)
    ensures
        r == is_sensitive_field(name@),
{
    same_text(name, "email") || same_text(name, "name") || same_text(name, "username")
        || same_text(name, "user_id") || same_text(name, "ip") || same_text(name, "address")
        || same_text(name, "phone") || same_text(name, "location") || same_text(name, "device_id")
        || same_text(name, "user_agent")
}

/// The properties that are kept by basic anonymization.
pub open spec fn kept_property<V>(p: (String, V)) -> bool {
    !is_sensitive_field(p.0@)
}

/// Basic anonymization: the properties without those that identify a
/// person directly, in order.
pub fn apply_basic_anonymization<V>(properties: Vec<(String, V)>) -> (r: Vec<(String, V)>)
    ensures
        r@ == properties@.filter(|p: (String, V)| kept_property(p)),
{
    let ghost all = properties@;
    let n: usize = properties.len();
    let ghost pred = |p: (String, V)| kept_property(p);
    let mut rest = properties;
    let mut out: Vec<(String, V)> = Vec::new();
    let mut i: usize = 0;
    while rest.len() > 0
        invariant
            i <= all.len(),
            all.len() == n,
            rest@ == all.subrange(i as int, all.len() as int),
            out@ == all.take(i as int).filter(pred),
            pred == (|p: (String, V)| kept_property(p)),
        decreases rest@.len(),
    {
        let p = rest.remove(0);
        assert(all.take(i + 1).drop_last() =~= all.take(i as int));
        assert(all.take(i + 1).last() == p);
        proof { reveal(Seq::filter); }
        let sensitive = is_sensitive_field_name(p.0.as_str());
        if !sensitive {
            out.push(p);
        }
        i = i + 1;
    }
    assert(all.take(i as int) =~= all);
    out
}

} // verus!
