use vstd::prelude::*;
use crate::services::data_usage_reporting::{default_preferences, UserDataPreferences};
use crate::services::privacy_analytics;

verus! {

/// Consent for data collection and processing.
#[derive(Debug, Clone, Copy, PartialEq, Eq, Structural)]
pub struct DataCollectionConsent {
    /// Whether the user has consented to profile data collection
    pub profile: bool,
    /// Whether the user has consented to preferences data collection
    pub preferences: bool,
    /// Whether the user has consented to messages data collection
    pub messages: bool,
    /// Retention period for profile data in days
    pub profile_retention_days: i64,
    /// Retention period for messages in days
    pub messages_retention_days: i64,
    /// Whether to anonymize profile data after retention period
    pub anonymize_profile: bool,
    /// Whether to anonymize messages after retention period
    pub anonymize_messages: bool,
}

/// Consent for analytics and tracking.
#[derive(Debug, Clone, Copy, PartialEq, Eq, Structural)]
pub struct AnalyticsConsent {
    /// Whether the user has consented to feature usage analytics
    pub feature_usage: bool,
    /// Whether the user has consented to performance analytics
    pub performance: bool,
    /// Whether the user has consented to error reporting
    pub error_reporting: bool,
    /// Whether the user has consented to user interface analytics
    pub user_interface: bool,
}

/// Consent for communication.
#[derive(Debug, Clone, Copy, PartialEq, Eq, Structural)]
pub struct CommunicationConsent {
    /// Whether the user has consented to receiving product updates
    pub product_updates: bool,
    /// Whether the user has consented to receiving feature announcements
    pub feature_announcements: bool,
    /// Whether the user has consented to receiving marketing communications
    pub marketing: bool,
}

/// Consent for third-party sharing.
#[derive(Debug, Clone)]
pub struct ThirdPartyConsent {
    /// Whether the user has consented to sharing data with third parties
    pub allow_sharing: bool,
    /// Specific third parties the user has consented to share data with
    pub approved_parties: Vec<String>,
}

/// The complete consent status of a user; `last_updated_ms` is in
/// milliseconds since the Unix epoch.
#[derive(Debug, Clone)]
pub struct UserConsentStatus {
    /// User ID
    pub user_id: u128,
    /// When the consent was last updated
    pub last_updated_ms: i64,
    /// Data collection and processing consent
    pub data_collection: DataCollectionConsent,
    /// Analytics and tracking consent
    pub analytics: AnalyticsConsent,
    /// Communication consent
    pub communication: CommunicationConsent,
    /// Third-party sharing consent
    pub third_party: ThirdPartyConsent,
}

/// When the consent was last updated: without an analytics record, now;
/// with one, the later of its time and the time the preferences were saved,
/// when that is known.
pub open spec fn last_updated_spec(
    analytics: Option<privacy_analytics::AnalyticsConsent>,
    prefs_updated_ms: Option<i64>,
    now_ms: i64,
) -> i64 {
    match analytics {
        None => now_ms,
        Some(a) => match prefs_updated_ms {
            Some(p) => if p > a.updated_at_ms { p } else { a.updated_at_ms },
            None => a.updated_at_ms,
        },
    }
}

/// The time an RFC 3339 text stands for, in milliseconds since the Unix
/// epoch, as `chrono` parses it; `None` for a text that is not RFC 3339.
pub uninterp spec fn rfc3339_millis(text: Seq<char>) -> Option<i64>;

/// Parses an RFC 3339 date-time with `chrono::DateTime::parse_from_rfc3339`
/// and gives its `timestamp_millis`, or `None` when the parse fails. The
/// claim is only that the result is a function of the text, named
/// `rfc3339_millis`.
#[verifier::external_body]
pub fn parse_rfc3339_millis(text: &str) -> (r: Option<i64>)
    ensures
        r == rfc3339_millis(text@),
{
    match chrono::DateTime::parse_from_rfc3339(text) {
        Ok(d) => Some(d.timestamp_millis()),
        Err(_) => None,
    }
}

/// The time the preferences were saved, from their stored text: unknown
/// when there is none or it does not parse.
pub open spec fn saved_time(prefs_updated_at: Option<Seq<char>>) -> Option<i64> {
    match prefs_updated_at {
        Some(t) => rfc3339_millis(t),
        None => None,
    }
}

/// The text of an optional stored text.
pub open spec fn text_of(o: Option<&str>) -> Option<Seq<char>> {
    match o {
        Some(t) => Some(t@),
        None => None,
    }
}

/// When the consent was last updated, given when the preferences were
/// saved (if known).
pub fn later_update_time(
    analytics: Option<&privacy_analytics::AnalyticsConsent>,
    prefs_updated_ms: Option<i64>,
    now_ms: i64,
) -> (r: i64)
    ensures
        r == last_updated_spec(match analytics { Some(a) => Some(*a), None => None }, prefs_updated_ms, now_ms),
{
    match analytics {
        None => now_ms,
        Some(a) => match prefs_updated_ms {
            Some(p) => if p > a.updated_at_ms { p } else { a.updated_at_ms },
            None => a.updated_at_ms,
        },
    }
}

/// When the consent was last updated, from the stored
/// `preferences_updated_at` text (RFC 3339), if any: a text that does not
/// parse counts as unknown.
pub fn consent_last_updated(
    analytics: Option<&privacy_analytics::AnalyticsConsent>,
    prefs_updated_at: Option<&str>,
    now_ms: i64,
) -> (r: i64)
    ensures
        r == last_updated_spec(match analytics { Some(a) => Some(*a), None => None },
            saved_time(text_of(prefs_updated_at)), now_ms),
{
    let saved = match prefs_updated_at {
        Some(t) => parse_rfc3339_millis(t),
        None => None,
    };
    later_update_time(analytics, saved, now_ms)
}

/// The analytics part of a consent status, from the analytics record if
/// there is one (no consent without).
pub open spec fn analytics_part_of(a: Option<privacy_analytics::AnalyticsConsent>) -> AnalyticsConsent {
    match a {
        Some(a) => AnalyticsConsent {
            feature_usage: a.feature_usage,
            performance: a.performance,
            error_reporting: a.error_reporting,
            user_interface: a.user_interface,
        },
        None => AnalyticsConsent { feature_usage: false, performance: false, error_reporting: false, user_interface: false },
    }
}

/// The data collection part of a consent status, from the data preferences.
pub open spec fn data_collection_of(p: UserDataPreferences) -> DataCollectionConsent {
    DataCollectionConsent {
        profile: p.profile_consent,
        preferences: p.preferences_consent,
        messages: p.messages_consent,
        profile_retention_days: p.profile_retention_days,
        messages_retention_days: p.messages_retention_days,
        anonymize_profile: p.anonymize_profile,
        anonymize_messages: p.anonymize_messages,
    }
}

/// The complete consent status of user `user_id`, from the analytics record
/// (if any), the stored RFC 3339 time the preferences were saved (if any) and the data,
/// communication and third-party preferences that were stored (those that
/// were not stored take their defaults: the default data preferences, no
/// communication, no sharing).
pub fn assemble_user_consent(
    user_id: u128,
    analytics: Option<&privacy_analytics::AnalyticsConsent>,
    prefs_updated_at: Option<&str>,
    data_prefs: Option<UserDataPreferences>,
    communication: Option<CommunicationConsent>,
    third_party: Option<ThirdPartyConsent>,
    now_ms: i64,
) -> (r: UserConsentStatus)
    ensures
        r.user_id == user_id,
        r.last_updated_ms == last_updated_spec(match analytics { Some(a) => Some(*a), None => None },
            saved_time(text_of(prefs_updated_at)), now_ms),
        r.analytics == analytics_part_of(match analytics { Some(a) => Some(*a), None => None }),
        r.data_collection == data_collection_of(match data_prefs { Some(p) => p, None => default_preferences() }),
        r.communication == (match communication {
            Some(c) => c,
            None => CommunicationConsent { product_updates: false, feature_announcements: false, marketing: false },
        }),
        match third_party {
            Some(t) => r.third_party.allow_sharing == t.allow_sharing && r.third_party.approved_parties@ == t.approved_parties@,
            None => !r.third_party.allow_sharing && r.third_party.approved_parties@.len() == 0,
        },
{
    let last_updated_ms = consent_last_updated(analytics, prefs_updated_at, now_ms);
    let analytics_part = match analytics {
        Some(a) => AnalyticsConsent {
            feature_usage: a.feature_usage,
            performance: a.performance,
            error_reporting: a.error_reporting,
            user_interface: a.user_interface,
        },
        None => AnalyticsConsent { feature_usage: false, performance: false, error_reporting: false, user_interface: false },
    };
    let p = match data_prefs {
        Some(p) => p,
        None => UserDataPreferences::default(),
    };
    let data_collection = DataCollectionConsent {
        profile: p.profile_consent,
        preferences: p.preferences_consent,
        messages: p.messages_consent,
        profile_retention_days: p.profile_retention_days,
        messages_retention_days: p.messages_retention_days,
        anonymize_profile: p.anonymize_profile,
        anonymize_messages: p.anonymize_messages,
    };
    let communication = match communication {
        Some(c) => c,
        None => CommunicationConsent { product_updates: false, feature_announcements: false, marketing: false },
    };
    let third_party = match third_party {
        Some(t) => t,
        None => ThirdPartyConsent { allow_sharing: false, approved_parties: Vec::new() },
    };
    UserConsentStatus {
        user_id,
        last_updated_ms,
        data_collection,
        analytics: analytics_part,
        communication,
        third_party,
    }
}

/// The data preferences stored for a consent status.
pub open spec fn preferences_of(c: UserConsentStatus) -> UserDataPreferences {
    UserDataPreferences {
        profile_consent: c.data_collection.profile,
        preferences_consent: c.data_collection.preferences,
        messages_consent: c.data_collection.messages,
        feature_usage_consent: c.analytics.feature_usage,
        performance_consent: c.analytics.performance,
        error_reporting_consent: c.analytics.error_reporting,
        ui_analytics_consent: c.analytics.user_interface,
        profile_retention_days: c.data_collection.profile_retention_days,
        messages_retention_days: c.data_collection.messages_retention_days,
        anonymize_profile: c.data_collection.anonymize_profile,
        anonymize_messages: c.data_collection.anonymize_messages,
    }
}

/// The data preferences to store when a consent status is saved.
pub fn data_preferences_from(consent: &UserConsentStatus) -> (r: UserDataPreferences)
    ensures
        r == preferences_of(*consent),
{
    UserDataPreferences {
        profile_consent: consent.data_collection.profile,
        preferences_consent: consent.data_collection.preferences,
        messages_consent: consent.data_collection.messages,
        feature_usage_consent: consent.analytics.feature_usage,
        performance_consent: consent.analytics.performance,
        error_reporting_consent: consent.analytics.error_reporting,
        ui_analytics_consent: consent.analytics.user_interface,
        profile_retention_days: consent.data_collection.profile_retention_days,
        messages_retention_days: consent.data_collection.messages_retention_days,
        anonymize_profile: consent.data_collection.anonymize_profile,
        anonymize_messages: consent.data_collection.anonymize_messages,
    }
}

/// Saving a consent status and reading it back gives the same data
/// collection and analytics consent: the stored data preferences carry every
/// field of the data collection part, and the analytics record every field
/// of the analytics part.
pub proof fn law_consent_round_trip(c: UserConsentStatus, a: privacy_analytics::AnalyticsConsent)
    requires
        a.feature_usage == preferences_of(c).feature_usage_consent,
        a.performance == preferences_of(c).performance_consent,
        a.error_reporting == preferences_of(c).error_reporting_consent,
        a.user_interface == preferences_of(c).ui_analytics_consent,
    ensures
        data_collection_of(preferences_of(c)) == c.data_collection,
        analytics_part_of(Some(a)) == c.analytics,
{
}

} // verus!
