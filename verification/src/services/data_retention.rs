use vstd::prelude::*;
use crate::clock::{day_ms, shift_days};

verus! {

/// The retention policy for the data categories; `None` keeps the data
/// forever.
#[derive(Debug, Clone)]
pub struct RetentionPolicy {
    /// Retention period for messages in days (None means keep forever)
    pub messages_retention_days: Option<i64>,
    /// Retention period for events in days (None means keep forever)
    pub events_retention_days: Option<i64>,
    /// Retention period for inactive accounts in days (None means keep forever)
    pub inactive_account_days: Option<i64>,
    /// Whether to anonymize data instead of deleting it
    pub anonymize_instead_of_delete: bool,
    /// Categories to exclude from automatic cleanup
    pub excluded_categories: Vec<String>,
}

impl Default for RetentionPolicy {
    /// Messages kept a year, events six months, inactive accounts two years;
    /// old data is anonymized.
    fn default() -> (r: Self)
        ensures
            r.messages_retention_days == Some(365i64),
            r.events_retention_days == Some(180i64),
            r.inactive_account_days == Some(730i64),
            r.anonymize_instead_of_delete,
            r.excluded_categories@.len() == 0,
    {
        RetentionPolicy {
            messages_retention_days: Some(365),
            events_retention_days: Some(180),
            inactive_account_days: Some(730),
            anonymize_instead_of_delete: true,
            excluded_categories: Vec::new(),
        }
    }
}

/// A step of applying a retention policy to a user's data; times are in
/// milliseconds since the Unix epoch.
#[derive(Debug, Clone, Copy, PartialEq, Eq, Structural)]
pub enum RetentionAction {
    /// Anonymize the user's messages created before the time
    AnonymizeMessagesBefore(i64),
    /// Delete the user's messages created before the time
    DeleteMessagesBefore(i64),
    /// Anonymize the user's events created before the time
    AnonymizeEventsBefore(i64),
    /// Delete the user's events created before the time
    DeleteEventsBefore(i64),
    /// Anonymize the user if last seen before the time
    AnonymizeIfInactiveSince(i64),
}

/// The time `days` days before `now_ms`.
pub open spec fn cutoff(now_ms: i64, days: i64) -> i64 {
    (now_ms - days * day_ms()) as i64
}

/// Whether the cutoff `days` days before `now_ms` can be computed.
pub open spec fn cutoff_computable(now_ms: i64, days: Option<i64>) -> bool {
    match days {
        Some(d) => i64::MIN <= d * day_ms() <= i64::MAX && i64::MIN <= now_ms - d * day_ms() <= i64::MAX,
        None => true,
    }
}

/// The steps a policy takes at time `now_ms`: messages, then events (each
/// anonymized or deleted as the policy says), then the inactive account
/// check, each only where the policy sets a period.
pub open spec fn retention_actions_spec(
    messages: Option<i64>,
    events: Option<i64>,
    inactive: Option<i64>,
    anonymize: bool,
    now_ms: i64,
) -> Seq<RetentionAction> {
    (match messages {
        Some(d) => seq![
            if anonymize {
                RetentionAction::AnonymizeMessagesBefore(cutoff(now_ms, d))
            } else {
                RetentionAction::DeleteMessagesBefore(cutoff(now_ms, d))
            },
        ],
        None => Seq::empty(),
    }) + (match events {
        Some(d) => seq![
            if anonymize {
                RetentionAction::AnonymizeEventsBefore(cutoff(now_ms, d))
            } else {
                RetentionAction::DeleteEventsBefore(cutoff(now_ms, d))
            },
        ],
        None => Seq::empty(),
    }) + (match inactive {
        Some(d) => seq![RetentionAction::AnonymizeIfInactiveSince(cutoff(now_ms, d))],
        None => Seq::empty(),
    })
}

/// The time `days` days before `now_ms`.
pub fn cutoff_before(now_ms: i64, days: i64) -> (r: i64)
    requires
        cutoff_computable(now_ms, Some(days)),
    ensures
        r == cutoff(now_ms, days),
{
    shift_days(now_ms, -days)
}

impl RetentionPolicy {
    /// Whether every cutoff of the policy can be computed at `now_ms`.
    pub open spec fn computable_at(&self, now_ms: i64) -> bool {
        &&& cutoff_computable(now_ms, self.messages_retention_days)
        &&& cutoff_computable(now_ms, self.events_retention_days)
        &&& cutoff_computable(now_ms, self.inactive_account_days)
    }

    /// The steps that applying the policy at `now_ms` takes, in order.
    pub fn actions_at(&self, now_ms: i64) -> (r: Vec<RetentionAction>)
        requires
            self.computable_at(now_ms),
        ensures
            r@ == retention_actions_spec(
                self.messages_retention_days,
                self.events_retention_days,
                self.inactive_account_days,
                self.anonymize_instead_of_delete,
                now_ms,
            ),
    {
        let mut r: Vec<RetentionAction> = Vec::new();
        let anonymize = self.anonymize_instead_of_delete;
        match self.messages_retention_days {
            Some(d) => {
                let c = cutoff_before(now_ms, d);
                if anonymize {
                    r.push(RetentionAction::AnonymizeMessagesBefore(c));
                } else {
                    r.push(RetentionAction::DeleteMessagesBefore(c));
                }
            },
            None => {},
        }
        let ghost first = r@;
        match self.events_retention_days {
            Some(d) => {
                let c = cutoff_before(now_ms, d);
                if anonymize {
                    r.push(RetentionAction::AnonymizeEventsBefore(c));
                } else {
                    r.push(RetentionAction::DeleteEventsBefore(c));
                }
            },
            None => {},
        }
        let ghost second = r@;
        match self.inactive_account_days {
            Some(d) => {
                let c = cutoff_before(now_ms, d);
                r.push(RetentionAction::AnonymizeIfInactiveSince(c));
            },
            None => {},
        }
        assert(r@ =~= retention_actions_spec(
            self.messages_retention_days,
            self.events_retention_days,
            self.inactive_account_days,
            self.anonymize_instead_of_delete,
            now_ms,
        ));
        r
    }
}

/// Whether a user last seen at `last_seen_ms` (if ever) counts as inactive
/// at `cutoff_ms`: only a user seen, and seen before it.
pub fn is_inactive(last_seen_ms: Option<i64>, cutoff_ms: i64) -> (r: bool)
    ensures
        r == match last_seen_ms {
            Some(t) => t < cutoff_ms,
            None => false,
        },
{
    match last_seen_ms {
        Some(t) => t < cutoff_ms,
        None => false,
    }
}

} // verus!
