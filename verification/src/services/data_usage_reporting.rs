use vstd::prelude::*;
use crate::clock::{day_ms, shift_days};
use crate::services::privacy_analytics::{AnalyticsConsent, AnalyticsEvent, AnalyticsEventType};

verus! {

/// A data usage category.
#[derive(Debug, Clone, Copy, PartialEq, Eq, Structural)]
pub enum DataUsageCategory {
    /// User profile data
    Profile,
    /// User preferences
    Preferences,
    /// Messages and conversations
    Messages,
    /// Feature usage analytics
    FeatureUsage,
    /// Performance metrics
    Performance,
    /// Error reports
    ErrorReports,
    /// User interface interactions
    UserInterface,
}

/// Usage statistics for a data category; times are in milliseconds since
/// the Unix epoch.
#[derive(Debug, Clone)]
pub struct CategoryUsage {
    /// Data category
    pub category: DataUsageCategory,
    /// Number of data points collected
    pub data_points_count: i64,
    /// Last collection timestamp
    pub last_collected_ms: Option<i64>,
    /// Description of what data is collected
    pub data_description: String,
    /// How the data is used
    pub usage_description: String,
    /// Whether the user has consented to this category
    pub has_consent: bool,
}

/// A summary of data sharing practices.
#[derive(Debug, Clone)]
pub struct DataSharingSummary {
    /// Whether data is shared with third parties
    pub shared_with_third_parties: bool,
    /// List of third parties data is shared with
    pub third_parties: Vec<String>,
    /// Purpose of data sharing
    pub sharing_purpose: String,
    /// Whether data is anonymized before sharing
    pub anonymized_before_sharing: bool,
}

/// The retention policy of a category.
#[derive(Debug, Clone, Copy, PartialEq, Eq, Structural)]
pub struct CategoryRetention {
    /// Data category
    pub category: DataUsageCategory,
    /// Retention period in days
    pub retention_days: i64,
    /// Whether data is anonymized after retention period
    pub anonymize_after_retention: bool,
}

/// A summary of data retention policies.
#[derive(Debug, Clone)]
pub struct RetentionSummary {
    /// Retention period for each category
    pub retention_periods: Vec<CategoryRetention>,
    /// When data will next be deleted, in milliseconds since the Unix epoch
    pub next_scheduled_deletion_ms: Option<i64>,
    /// Whether the user can request manual deletion
    pub can_request_deletion: bool,
}

/// The user's consent for each data category.
#[derive(Debug, Clone, Copy, PartialEq, Eq, Structural)]
pub struct ConsentStatus {
    /// Whether the user has consented to profile data collection
    pub profile: bool,
    /// Whether the user has consented to preferences data collection
    pub preferences: bool,
    /// Whether the user has consented to messages data collection
    pub messages: bool,
    /// Whether the user has consented to feature usage analytics
    pub feature_usage: bool,
    /// Whether the user has consented to performance metrics
    pub performance: bool,
    /// Whether the user has consented to error reports
    pub error_reports: bool,
    /// Whether the user has consented to user interface analytics
    pub user_interface: bool,
    /// Last updated, in milliseconds since the Unix epoch
    pub last_updated_ms: i64,
}

/// A data usage report for a user; times are in milliseconds since the Unix
/// epoch.
#[derive(Debug, Clone)]
pub struct DataUsageReport {
    /// User ID
    pub user_id: u128,
    /// Report generation timestamp
    pub generated_at_ms: i64,
    /// Report period start
    pub period_start_ms: i64,
    /// Report period end
    pub period_end_ms: i64,
    /// Data usage by category
    pub usage_by_category: Vec<CategoryUsage>,
    /// Data sharing summary
    pub data_sharing: DataSharingSummary,
    /// Data retention summary
    pub retention_summary: RetentionSummary,
    /// User consent status
    pub consent_status: ConsentStatus,
}

/// A user's data preferences.
#[derive(Debug, Clone, Copy, PartialEq, Eq, Structural)]
pub struct UserDataPreferences {
    /// Whether the user has consented to profile data collection
    pub profile_consent: bool,
    /// Whether the user has consented to preferences data collection
    pub preferences_consent: bool,
    /// Whether the user has consented to messages data collection
    pub messages_consent: bool,
    /// Whether the user has consented to feature usage analytics
    pub feature_usage_consent: bool,
    /// Whether the user has consented to performance analytics
    pub performance_consent: bool,
    /// Whether the user has consented to error reporting
    pub error_reporting_consent: bool,
    /// Whether the user has consented to UI analytics
    pub ui_analytics_consent: bool,
    /// Retention period for profile data in days
    pub profile_retention_days: i64,
    /// Retention period for messages in days
    pub messages_retention_days: i64,
    /// Whether to anonymize profile data after retention period
    pub anonymize_profile: bool,
    /// Whether to anonymize messages after retention period
    pub anonymize_messages: bool,
}

/// The preferences a user has before choosing any.
pub open spec fn default_preferences() -> UserDataPreferences {
    UserDataPreferences {
        profile_consent: true,
        preferences_consent: true,
        messages_consent: true,
        feature_usage_consent: false,
        performance_consent: false,
        error_reporting_consent: true,
        ui_analytics_consent: false,
        profile_retention_days: 730,
        messages_retention_days: 365,
        anonymize_profile: true,
        anonymize_messages: false,
    }
}

impl Default for UserDataPreferences {
    /// Consent to profile, preferences, messages and error reports; profile
    /// data kept two years and anonymized, messages kept one year.
    fn default() -> (r: Self)
        ensures
            r == default_preferences(),
    {
        UserDataPreferences {
            profile_consent: true,
            preferences_consent: true,
            messages_consent: true,
            feature_usage_consent: false,
            performance_consent: false,
            error_reporting_consent: true,
            ui_analytics_consent: false,
            profile_retention_days: 730,
            messages_retention_days: 365,
            anonymize_profile: true,
            anonymize_messages: false,
        }
    }
}

/// The period a report covers: up to `period_end` (or now), from
/// `period_start` (or thirty days before the end).
pub open spec fn report_period_spec(period_start: Option<i64>, period_end: Option<i64>, now_ms: i64) -> (int, int) {
    let end: int = match period_end { Some(e) => e as int, None => now_ms as int };
    let start: int = match period_start { Some(s) => s as int, None => end - 30 * day_ms() };
    (start, end)
}

/// The period a report covers, as (start, end).
pub fn report_period(period_start: Option<i64>, period_end: Option<i64>, now_ms: i64) -> (r: (i64, i64))
    requires
        period_start is None ==> i64::MIN <= report_period_spec(period_start, period_end, now_ms).1 - 30 * day_ms(),
    ensures
        r.0 == report_period_spec(period_start, period_end, now_ms).0,
        r.1 == report_period_spec(period_start, period_end, now_ms).1,
{
    let end = match period_end {
        Some(e) => e,
        None => now_ms,
    };
    let start = match period_start {
        Some(s) => s,
        None => shift_days(end, -30),
    };
    (start, end)
}

/// The consent status made of the analytics consent on record (if any) and
/// the data preferences; without a record, no analytics consent, updated now.
pub open spec fn consent_status_spec(analytics: Option<AnalyticsConsent>, prefs: UserDataPreferences, now_ms: i64) -> ConsentStatus {
    ConsentStatus {
        profile: prefs.profile_consent,
        preferences: prefs.preferences_consent,
        messages: prefs.messages_consent,
        feature_usage: match analytics { Some(c) => c.feature_usage, None => false },
        performance: match analytics { Some(c) => c.performance, None => false },
        error_reports: match analytics { Some(c) => c.error_reporting, None => false },
        user_interface: match analytics { Some(c) => c.user_interface, None => false },
        last_updated_ms: match analytics { Some(c) => c.updated_at_ms, None => now_ms },
    }
}

/// The user's consent status.
pub fn user_consent_status(analytics: Option<&AnalyticsConsent>, prefs: &UserDataPreferences, now_ms: i64) -> (r: ConsentStatus)
    ensures
        r == consent_status_spec(
            match analytics { Some(c) => Some(*c), None => None },
            *prefs,
            now_ms,
        ),
{
    let (feature_usage, performance, error_reports, user_interface, last_updated_ms) = match analytics {
        Some(c) => (c.feature_usage, c.performance, c.error_reporting, c.user_interface, c.updated_at_ms),
        None => (false, false, false, false, now_ms),
    };
    ConsentStatus {
        profile: prefs.profile_consent,
        preferences: prefs.preferences_consent,
        messages: prefs.messages_consent,
        feature_usage,
        performance,
        error_reports,
        user_interface,
        last_updated_ms,
    }
}

/// What is collected in a category that the report describes.
pub open spec fn data_description(c: DataUsageCategory) -> Seq<char> {
    match c {
        DataUsageCategory::Profile => "Basic profile information including name, email, and preferences"@,
        DataUsageCategory::Messages => "Message content and metadata"@,
        DataUsageCategory::FeatureUsage => "Which features you use and how often"@,
        DataUsageCategory::Performance => "App performance metrics like load times and resource usage"@,
        DataUsageCategory::ErrorReports => "Error details when the app encounters problems"@,
        _ => "How you interact with the user interface"@,
    }
}

/// How the data of a category that the report describes is used.
pub open spec fn usage_description(c: DataUsageCategory) -> Seq<char> {
    match c {
        DataUsageCategory::Profile => "Used to personalize your experience and provide account functionality"@,
        DataUsageCategory::Messages => "Used to provide messaging functionality and conversation history"@,
        DataUsageCategory::FeatureUsage => "Used to improve features and understand user preferences"@,
        DataUsageCategory::Performance => "Used to identify and fix performance issues"@,
        DataUsageCategory::ErrorReports => "Used to identify and fix bugs and improve stability"@,
        _ => "Used to improve usability and user experience"@,
    }
}

fn descriptions(c: DataUsageCategory) -> (r: (&'static str, &'static str))
    ensures
        r.0@ == data_description(c),
        r.1@ == usage_description(c),
{
    match c {
        DataUsageCategory::Profile => (
            "Basic profile information including name, email, and preferences",
            "Used to personalize your experience and provide account functionality",
        ),
        DataUsageCategory::Messages => (
            "Message content and metadata",
            "Used to provide messaging functionality and conversation history",
        ),
        DataUsageCategory::FeatureUsage => (
            "Which features you use and how often",
            "Used to improve features and understand user preferences",
        ),
        DataUsageCategory::Performance => (
            "App performance metrics like load times and resource usage",
            "Used to identify and fix performance issues",
        ),
        DataUsageCategory::ErrorReports => (
            "Error details when the app encounters problems",
            "Used to identify and fix bugs and improve stability",
        ),
        _ => ("How you interact with the user interface", "Used to improve usability and user experience"),
    }
}

/// Whether `s` is one of the user's sessions.
pub open spec fn session_listed(sessions: Seq<String>, s: Seq<char>) -> bool {
    exists|i: int| 0 <= i < sessions.len() && (#[trigger] sessions[i])@ == s
}

/// The events of the user's sessions that are of type `t`, in order.
pub open spec fn user_events_of(events: Seq<AnalyticsEvent>, sessions: Seq<String>, t: AnalyticsEventType) -> Seq<AnalyticsEvent> {
    events.filter(|e: AnalyticsEvent| session_listed(sessions, e.session_id@) && e.event_type == t)
}

/// The time of the first of `es`, if any.
pub open spec fn first_time(es: Seq<AnalyticsEvent>) -> Option<i64> {
    if es.len() > 0 { Some(es[0].timestamp_ms) } else { None }
}

/// `u` reports `count` data points of category `c`, last collected at
/// `last`, with the given consent.
pub open spec fn usage_is(u: CategoryUsage, c: DataUsageCategory, count: i64, last: Option<i64>, consent: bool) -> bool {
    &&& u.category == c
    &&& u.data_points_count == count
    &&& u.last_collected_ms == last
    &&& u.data_description@ == data_description(c)
    &&& u.usage_description@ == usage_description(c)
    &&& u.has_consent == consent
}

/// `u` reports the user's events of type `t` as category `c`.
pub open spec fn event_usage_is(
    u: CategoryUsage,
    c: DataUsageCategory,
    events: Seq<AnalyticsEvent>,
    sessions: Seq<String>,
    t: AnalyticsEventType,
    consent: bool,
) -> bool {
    usage_is(u, c, user_events_of(events, sessions, t).len() as i64, first_time(user_events_of(events, sessions, t)), consent)
}

/// The usage statistics of each category the report describes: profile and
/// messages from the given counts and times, the four kinds of analytics
/// from the events of the user's sessions.
pub open spec fn category_usage_is(
    r: Seq<CategoryUsage>,
    events: Seq<AnalyticsEvent>,
    sessions: Seq<String>,
    consent: ConsentStatus,
    profile_count: i64,
    last_profile_ms: Option<i64>,
    messages_count: i64,
    last_message_ms: Option<i64>,
) -> bool {
    &&& r.len() == 6
    &&& usage_is(r[0], DataUsageCategory::Profile, profile_count, last_profile_ms, consent.profile)
    &&& usage_is(r[1], DataUsageCategory::Messages, messages_count, last_message_ms, consent.messages)
    &&& event_usage_is(r[2], DataUsageCategory::FeatureUsage, events, sessions, AnalyticsEventType::FeatureUsage, consent.feature_usage)
    &&& event_usage_is(r[3], DataUsageCategory::Performance, events, sessions, AnalyticsEventType::Performance, consent.performance)
    &&& event_usage_is(r[4], DataUsageCategory::ErrorReports, events, sessions, AnalyticsEventType::Error, consent.error_reports)
    &&& event_usage_is(r[5], DataUsageCategory::UserInterface, events, sessions, AnalyticsEventType::UserInterface, consent.user_interface)
}

fn is_listed(sessions: &Vec<String>, s: &String) -> (r: bool)
    ensures
        r == session_listed(sessions@, s@),
{
    let mut i: usize = 0;
    while i < sessions.len()
        invariant
            i <= sessions@.len(),
            forall|j: int| 0 <= j < i ==> (#[trigger] sessions@[j])@ != s@,
        decreases sessions@.len() - i,
    {
        if sessions[i] == *s {
            return true;
        }
        i = i + 1;
    }
    false
}

fn count_events(events: &Vec<AnalyticsEvent>, sessions: &Vec<String>, t: AnalyticsEventType) -> (r: (usize, Option<i64>))
    ensures
        r.0 == user_events_of(events@, sessions@, t).len(),
        r.1 == first_time(user_events_of(events@, sessions@, t)),
{
    let ghost all = events@;
    let ghost pred = |e: AnalyticsEvent| session_listed(sessions@, e.session_id@) && e.event_type == t;
    let mut count: usize = 0;
    let mut first: Option<i64> = None;
    let mut i: usize = 0;
    while i < events.len()
        invariant
            i <= all.len(),
            events@ == all,
            pred == (|e: AnalyticsEvent| session_listed(sessions@, e.session_id@) && e.event_type == t),
            count == all.take(i as int).filter(pred).len(),
            first == first_time(all.take(i as int).filter(pred)),
            count <= i,
        decreases all.len() - i,
    {
        let e = &events[i];
        assert(all.take(i + 1).drop_last() =~= all.take(i as int));
        assert(all.take(i + 1).last() == *e);
        proof { reveal(Seq::filter); }
        let listed = is_listed(sessions, &e.session_id);
        if listed && e.event_type == t {
            if count == 0 {
                first = Some(e.timestamp_ms);
            }
            count = count + 1;
        }
        proof {
            let before = all.take(i as int).filter(pred);
            let after = all.take(i + 1).filter(pred);
            if before.len() > 0 {
                assert(after[0] == before[0]);
            }
        }
        i = i + 1;
    }
    assert(all.take(i as int) =~= all);
    (count, first)
}

fn usage(c: DataUsageCategory, count: i64, last: Option<i64>, consent: bool) -> (r: CategoryUsage)
    ensures
        usage_is(r, c, count, last, consent),
{
    let (data, used) = descriptions(c);
    CategoryUsage {
        category: c,
        data_points_count: count,
        last_collected_ms: last,
        data_description: data.to_owned(),
        usage_description: used.to_owned(),
        has_consent: consent,
    }
}

fn event_usage(
    c: DataUsageCategory,
    events: &Vec<AnalyticsEvent>,
    sessions: &Vec<String>,
    t: AnalyticsEventType,
    consent: bool,
) -> (r: CategoryUsage)
    ensures
        event_usage_is(r, c, events@, sessions@, t, consent),
{
    let (count, first) = count_events(events, sessions, t);
    usage(c, count as i64, first, consent)
}

/// The usage statistics of each data category, for the events of the
/// user's sessions in the report period and the given profile and message
/// counts.
pub fn generate_category_usage(
    events: &Vec<AnalyticsEvent>,
    sessions: &Vec<String>,
    consent: &ConsentStatus,
    profile_count: i64,
    last_profile_ms: Option<i64>,
    messages_count: i64,
    last_message_ms: Option<i64>,
) -> (r: Vec<CategoryUsage>)
    ensures
        category_usage_is(r@, events@, sessions@, *consent, profile_count, last_profile_ms, messages_count, last_message_ms),
{
    let mut r: Vec<CategoryUsage> = Vec::new();
    r.push(usage(DataUsageCategory::Profile, profile_count, last_profile_ms, consent.profile));
    r.push(usage(DataUsageCategory::Messages, messages_count, last_message_ms, consent.messages));
    r.push(event_usage(DataUsageCategory::FeatureUsage, events, sessions, AnalyticsEventType::FeatureUsage, consent.feature_usage));
    r.push(event_usage(DataUsageCategory::Performance, events, sessions, AnalyticsEventType::Performance, consent.performance));
    r.push(event_usage(DataUsageCategory::ErrorReports, events, sessions, AnalyticsEventType::Error, consent.error_reports));
    r.push(event_usage(DataUsageCategory::UserInterface, events, sessions, AnalyticsEventType::UserInterface, consent.user_interface));
    r
}

/// The data sharing summary: nothing is shared.
pub open spec fn sharing_is(s: DataSharingSummary) -> bool {
    &&& !s.shared_with_third_parties
    &&& s.third_parties@.len() == 0
    &&& s.sharing_purpose@ == "Your data is not shared with any third parties"@
    &&& s.anonymized_before_sharing
}

/// The data sharing summary.
pub fn generate_data_sharing_summary() -> (r: DataSharingSummary)
    ensures
        sharing_is(r),
{
    DataSharingSummary {
        shared_with_third_parties: false,
        third_parties: Vec::new(),
        sharing_purpose: "Your data is not shared with any third parties".to_owned(),
        anonymized_before_sharing: true,
    }
}

/// The retention of each category: profile and messages as the user chose,
/// the analytics categories ninety days and then anonymized.
pub open spec fn retention_periods_spec(prefs: UserDataPreferences) -> Seq<CategoryRetention> {
    seq![
        CategoryRetention {
            category: DataUsageCategory::Profile,
            retention_days: prefs.profile_retention_days,
            anonymize_after_retention: prefs.anonymize_profile,
        },
        CategoryRetention {
            category: DataUsageCategory::Messages,
            retention_days: prefs.messages_retention_days,
            anonymize_after_retention: prefs.anonymize_messages,
        },
        CategoryRetention { category: DataUsageCategory::FeatureUsage, retention_days: 90, anonymize_after_retention: true },
        CategoryRetention { category: DataUsageCategory::Performance, retention_days: 90, anonymize_after_retention: true },
        CategoryRetention { category: DataUsageCategory::ErrorReports, retention_days: 90, anonymize_after_retention: true },
        CategoryRetention { category: DataUsageCategory::UserInterface, retention_days: 90, anonymize_after_retention: true },
    ]
}

/// The retention summary: next deletion when the messages kept now expire.
pub open spec fn retention_is(r: RetentionSummary, prefs: UserDataPreferences, now_ms: i64) -> bool {
    &&& r.retention_periods@ == retention_periods_spec(prefs)
    &&& r.next_scheduled_deletion_ms == Some((now_ms + prefs.messages_retention_days * day_ms()) as i64)
    &&& r.can_request_deletion
}

/// Whether the next deletion time can be computed.
pub open spec fn retention_computable(prefs: UserDataPreferences, now_ms: i64) -> bool {
    &&& i64::MIN <= prefs.messages_retention_days * day_ms() <= i64::MAX
    &&& i64::MIN <= now_ms + prefs.messages_retention_days * day_ms() <= i64::MAX
}

/// The retention summary for the user's preferences.
pub fn generate_retention_summary(prefs: &UserDataPreferences, now_ms: i64) -> (r: RetentionSummary)
    requires
        retention_computable(*prefs, now_ms),
    ensures
        retention_is(r, *prefs, now_ms),
{
    let mut periods: Vec<CategoryRetention> = Vec::new();
    periods.push(CategoryRetention {
        category: DataUsageCategory::Profile,
        retention_days: prefs.profile_retention_days,
        anonymize_after_retention: prefs.anonymize_profile,
    });
    periods.push(CategoryRetention {
        category: DataUsageCategory::Messages,
        retention_days: prefs.messages_retention_days,
        anonymize_after_retention: prefs.anonymize_messages,
    });
    periods.push(CategoryRetention { category: DataUsageCategory::FeatureUsage, retention_days: 90, anonymize_after_retention: true });
    periods.push(CategoryRetention { category: DataUsageCategory::Performance, retention_days: 90, anonymize_after_retention: true });
    periods.push(CategoryRetention { category: DataUsageCategory::ErrorReports, retention_days: 90, anonymize_after_retention: true });
    periods.push(CategoryRetention { category: DataUsageCategory::UserInterface, retention_days: 90, anonymize_after_retention: true });
    assert(periods@ =~= retention_periods_spec(*prefs));
    let next = shift_days(now_ms, prefs.messages_retention_days);
    RetentionSummary { retention_periods: periods, next_scheduled_deletion_ms: Some(next), can_request_deletion: true }
}

/// A data usage report for a user over `[start_ms, end_ms]`, generated at
/// `now_ms`, from the analytics consent on record, the user's data
/// preferences, the analytics events of the period, the user's sessions and
/// the profile and message counts.
pub fn generate_report(
    user_id: u128,
    now_ms: i64,
    start_ms: i64,
    end_ms: i64,
    analytics: Option<&AnalyticsConsent>,
    prefs: &UserDataPreferences,
    events: &Vec<AnalyticsEvent>,
    sessions: &Vec<String>,
    profile_count: i64,
    last_profile_ms: Option<i64>,
    messages_count: i64,
    last_message_ms: Option<i64>,
) -> (r: DataUsageReport)
    requires
        retention_computable(*prefs, now_ms),
    ensures
        r.user_id == user_id,
        r.generated_at_ms == now_ms,
        r.period_start_ms == start_ms,
        r.period_end_ms == end_ms,
        r.consent_status == consent_status_spec(
            match analytics { Some(c) => Some(*c), None => None },
            *prefs,
            now_ms,
        ),
        category_usage_is(
            r.usage_by_category@, events@, sessions@, r.consent_status,
            profile_count, last_profile_ms, messages_count, last_message_ms,
        ),
        sharing_is(r.data_sharing),
        retention_is(r.retention_summary, *prefs, now_ms),
{
    let consent = user_consent_status(analytics, prefs, now_ms);
    let usage_by_category = generate_category_usage(
        events, sessions, &consent, profile_count, last_profile_ms, messages_count, last_message_ms,
    );
    let data_sharing = generate_data_sharing_summary();
    let retention_summary = generate_retention_summary(prefs, now_ms);
    DataUsageReport {
        user_id,
        generated_at_ms: now_ms,
        period_start_ms: start_ms,
        period_end_ms: end_ms,
        usage_by_category,
        data_sharing,
        retention_summary,
        consent_status: consent,
    }
}

} // verus!
