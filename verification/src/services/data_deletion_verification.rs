use vstd::prelude::*;
use vstd::string::*;
use vstd::utf8::encode_utf8;
use crate::repositories::glob::{contains_seq, contains_text};
use crate::repositories::validation::joined;
use crate::text::{append_decimal_i64, signed_decimal};

verus! {

/// The overall verification status.
#[derive(Debug, Clone, Copy, PartialEq, Eq, Structural)]
pub enum VerificationStatus {
    /// All data was successfully deleted
    FullyVerified,
    /// Some data was deleted but some issues were found
    PartiallyVerified,
    /// Significant issues were found with data deletion
    VerificationFailed,
}

/// The label of a status in messages.
pub open spec fn status_label(s: VerificationStatus) -> Seq<char> {
    match s {
        VerificationStatus::FullyVerified => "FullyVerified"@,
        VerificationStatus::PartiallyVerified => "PartiallyVerified"@,
        VerificationStatus::VerificationFailed => "VerificationFailed"@,
    }
}

impl VerificationStatus {
    /// The label of the status in messages.
    pub fn label(&self) -> (r: &'static str)
        ensures
            r@ == status_label(*self),
    {
        match self {
            VerificationStatus::FullyVerified => "FullyVerified",
            VerificationStatus::PartiallyVerified => "PartiallyVerified",
            VerificationStatus::VerificationFailed => "VerificationFailed",
        }
    }
}

/// The verification result for a data category.
#[derive(Debug, Clone)]
pub struct CategoryVerificationResult {
    /// Data category name
    pub category: String,
    /// Whether the deletion was successful for this category
    pub deletion_successful: bool,
    /// Number of items checked
    pub items_checked: i64,
    /// Number of items with issues
    pub items_with_issues: i64,
    /// Details about the verification
    pub details: String,
}

/// The result of verifying that a user's data was deleted;
/// `verification_date_ms` is in milliseconds since the Unix epoch.
#[derive(Debug, Clone)]
pub struct DeletionVerificationResult {
    /// User ID for whom the verification was performed
    pub user_id: u128,
    /// When the verification was performed
    pub verification_date_ms: i64,
    /// Whether the deletion was successful
    pub deletion_successful: bool,
    /// Detailed results for each data category
    pub category_results: Vec<CategoryVerificationResult>,
    /// Overall verification status
    pub verification_status: VerificationStatus,
    /// Any issues found during verification
    pub issues_found: Vec<String>,
    /// Recommendations for resolving issues
    pub recommendations: Vec<String>,
}

/// What is left of a user's profile: the status as shown and as labelled,
/// and the personal fields.
#[derive(Debug, Clone)]
pub struct ProfileRecord {
    /// The status as displayed ("deleted" for a deleted user)
    pub status_text: String,
    /// The status as labelled in messages
    pub status_label: String,
    /// Email
    pub email: Option<String>,
    /// First name
    pub first_name: Option<String>,
    /// Last name
    pub last_name: Option<String>,
}

/// `v` is a field that is set and does not contain `mark`.
pub open spec fn kept_without(v: Option<String>, mark: Seq<char>) -> bool {
    match v {
        Some(s) => !contains_seq(encode_utf8(s@), encode_utf8(mark)),
        None => false,
    }
}

/// What is wrong with a remaining profile, if anything: it is not marked
/// deleted, or its email is not masked, or a name is not reduced to an
/// initial.
pub open spec fn profile_problem(p: ProfileRecord) -> Option<Seq<char>> {
    if p.status_text@ != "deleted"@ {
        Some("User profile still exists with status: "@ + p.status_label@)
    } else if kept_without(p.email, "***"@) {
        Some("User email still exists and is not anonymized"@)
    } else if kept_without(p.first_name, "."@) {
        Some("User first name still exists and is not anonymized"@)
    } else if kept_without(p.last_name, "."@) {
        Some("User last name still exists and is not anonymized"@)
    } else {
        None
    }
}

/// `r` is a result for `category` with `checked` items checked that found
/// the problem `problem` (one item with issues) or none, with `fine` as its
/// details then.
pub open spec fn single_result_is(
    r: CategoryVerificationResult,
    category: Seq<char>,
    problem: Option<Seq<char>>,
    fine: Seq<char>,
) -> bool {
    &&& r.category@ == category
    &&& r.items_checked == 1
    &&& match problem {
        Some(d) => !r.deletion_successful && r.items_with_issues == 1 && r.details@ == d,
        None => r.deletion_successful && r.items_with_issues == 0 && r.details@ == fine,
    }
}

fn field_kept_without(v: &Option<String>, mark: &str) -> (r: bool)
    ensures
        r == kept_without(*v, mark@),
{
    match v {
        Some(s) => !contains_text(s.as_str(), mark),
        None => false,
    }
}

/// The verification result for the profile: a user no longer stored, or
/// stored deleted with email and names anonymized, passes.
pub fn verify_profile_deletion(profile: Option<&ProfileRecord>) -> (r: CategoryVerificationResult)
    ensures
        single_result_is(
            r,
            "Profile"@,
            match profile { Some(p) => profile_problem(*p), None => None },
            "User profile has been successfully deleted"@,
        ),
{
    let mut result = CategoryVerificationResult {
        category: "Profile".to_owned(),
        deletion_successful: true,
        items_checked: 1,
        items_with_issues: 0,
        details: "User profile has been successfully deleted".to_owned(),
    };
    match profile {
        Some(p) => {
            if !crate::text::same_text(p.status_text.as_str(), "deleted") {
                let mut d = "User profile still exists with status: ".to_owned();
                d.append(p.status_label.as_str());
                result.deletion_successful = false;
                result.items_with_issues = 1;
                result.details = d;
            } else if field_kept_without(&p.email, "***") {
                result.deletion_successful = false;
                result.items_with_issues = 1;
                result.details = "User email still exists and is not anonymized".to_owned();
            } else if field_kept_without(&p.first_name, ".") {
                result.deletion_successful = false;
                result.items_with_issues = 1;
                result.details = "User first name still exists and is not anonymized".to_owned();
            } else if field_kept_without(&p.last_name, ".") {
                result.deletion_successful = false;
                result.items_with_issues = 1;
                result.details = "User last name still exists and is not anonymized".to_owned();
            }
        },
        None => {},
    }
    result
}

/// `r` is the result for `category` when `count` of its `noun` remain.
pub open spec fn count_result_is(r: CategoryVerificationResult, category: Seq<char>, noun: Seq<char>, count: i64) -> bool {
    &&& r.category@ == category
    &&& r.deletion_successful == (count == 0)
    &&& r.items_checked == 1
    &&& r.items_with_issues == if count > 0 { 1i64 } else { 0i64 }
    &&& r.details@ == if count == 0 {
        "All "@ + noun + " have been successfully deleted"@
    } else {
        signed_decimal(count as int) + " "@ + noun + " still exist"@
    }
}

fn count_result(category: &str, noun: &str, count: i64) -> (r: CategoryVerificationResult)
    ensures
        count_result_is(r, category@, noun@, count),
{
    let details = if count == 0 {
        let mut d = "All ".to_owned();
        d.append(noun);
        d.append(" have been successfully deleted");
        d
    } else {
        let mut d = String::new();
        append_decimal_i64(&mut d, count);
        d.append(" ");
        d.append(noun);
        d.append(" still exist");
        d
    };
    proof {
        reveal_strlit("All ");
        reveal_strlit(" ");
    }
    CategoryVerificationResult {
        category: category.to_owned(),
        deletion_successful: count == 0,
        items_checked: 1,
        items_with_issues: if count > 0 { 1 } else { 0 },
        details,
    }
}

/// The verification result for messages, `count` of the user's messages
/// remaining.
pub fn verify_messages_deletion(count: i64) -> (r: CategoryVerificationResult)
    ensures
        count_result_is(r, "Messages"@, "messages"@, count),
{
    count_result("Messages", "messages", count)
}

/// The verification result for events, `count` of the user's events
/// remaining.
pub fn verify_events_deletion(count: i64) -> (r: CategoryVerificationResult)
    ensures
        count_result_is(r, "Events"@, "events"@, count),
{
    count_result("Events", "events", count)
}

/// The entry of a table in the list of tables that still refer to the user.
pub open spec fn table_entry(table: Seq<char>, n: i64) -> Seq<Seq<char>> {
    if n > 0 { seq![table + " ("@ + signed_decimal(n as int) + ")"@] } else { Seq::empty() }
}

/// The references counted: those of tables with a positive count.
pub open spec fn references_total(participants: i64, conversations: i64, agents: i64) -> int {
    (if participants > 0 { participants as int } else { 0 })
        + (if conversations > 0 { conversations as int } else { 0 })
        + (if agents > 0 { agents as int } else { 0 })
}

/// The tables that still refer to the user, with their counts.
pub open spec fn reference_tables(participants: i64, conversations: i64, agents: i64) -> Seq<Seq<char>> {
    table_entry("participants"@, participants) + table_entry("conversations"@, conversations)
        + table_entry("agents"@, agents)
}

fn add_table(list: &mut String, count: &mut usize, table: &str, n: i64, Ghost(parts): Ghost<Seq<Seq<char>>>)
    requires
        old(list)@ == joined(parts),
        *old(count) == parts.len(),
        parts.len() < 3,
    ensures
        final(list)@ == joined(parts + table_entry(table@, n)),
        *final(count) == (parts + table_entry(table@, n)).len(),
{
    if n > 0 {
        if *count > 0 {
            list.append(", ");
        }
        list.append(table);
        list.append(" (");
        append_decimal_i64(list, n);
        list.append(")");
        *count = *count + 1;
        proof {
            let ps = parts + table_entry(table@, n);
            assert(ps.drop_last() =~= parts);
            reveal_strlit(", ");
            reveal_strlit(" (");
            reveal_strlit(")");
            if parts.len() == 0 {
                assert(list@ =~= ps.last());
            } else {
                assert(list@ =~= joined(parts) + ", "@ + ps.last());
            }
        }
    } else {
        assert(parts + table_entry(table@, n) =~= parts);
    }
}

/// Whether the references of the three tables can be added up.
pub open spec fn references_countable(participants: i64, conversations: i64, agents: i64) -> bool {
    references_total(participants, conversations, agents) <= i64::MAX
}

/// The verification result for references to the user in the
/// participants, conversations and agents tables.
pub fn verify_user_references_deletion(participants: i64, conversations: i64, agents: i64) -> (r: CategoryVerificationResult)
    requires
        references_countable(participants, conversations, agents),
    ensures
        r.category@ == "References"@,
        r.deletion_successful == (references_total(participants, conversations, agents) == 0),
        r.items_checked == 3,
        r.items_with_issues == reference_tables(participants, conversations, agents).len(),
        r.details@ == if references_total(participants, conversations, agents) == 0 {
            "No references to the user found in the system"@
        } else {
            "Found "@ + signed_decimal(references_total(participants, conversations, agents)) + " references to the user in tables: "@
                + joined(reference_tables(participants, conversations, agents))
        },
{
    let mut total: i64 = 0;
    if participants > 0 {
        total = total + participants;
    }
    if conversations > 0 {
        total = total + conversations;
    }
    if agents > 0 {
        total = total + agents;
    }
    let mut list = String::new();
    let mut n: usize = 0;
    let ghost p0 = Seq::<Seq<char>>::empty();
    assert(list@ =~= joined(p0));
    add_table(&mut list, &mut n, "participants", participants, Ghost(p0));
    let ghost p1 = p0 + table_entry("participants"@, participants);
    add_table(&mut list, &mut n, "conversations", conversations, Ghost(p1));
    let ghost p2 = p1 + table_entry("conversations"@, conversations);
    add_table(&mut list, &mut n, "agents", agents, Ghost(p2));
    assert(p2 + table_entry("agents"@, agents) =~= reference_tables(participants, conversations, agents));
    let details = if total == 0 {
        "No references to the user found in the system".to_owned()
    } else {
        let mut d = "Found ".to_owned();
        append_decimal_i64(&mut d, total);
        d.append(" references to the user in tables: ");
        d.append(list.as_str());
        d
    };
    CategoryVerificationResult {
        category: "References".to_owned(),
        deletion_successful: total == 0,
        items_checked: 3,
        items_with_issues: n as i64,
        details,
    }
}

/// The issue reported for the `i`th category (profile, messages, events,
/// references) when its deletion failed.
pub open spec fn issue_prefix(i: int) -> Seq<char> {
    if i == 0 {
        "User profile data still exists: "@
    } else if i == 1 {
        "Message data still exists: "@
    } else if i == 2 {
        "Event data still exists: "@
    } else {
        "References to user still exist: "@
    }
}

/// The recommendation made for the `i`th category when its deletion failed.
pub open spec fn recommendation_for(i: int) -> Seq<char> {
    if i == 0 {
        "Contact support to manually remove remaining profile data."@
    } else if i == 1 || i == 2 {
        "Run data retention policy again with 'anonymize' set to false."@
    } else {
        "Use the data export tool to identify remaining references and contact support."@
    }
}

/// The issues of the failed categories among `rs`, in order.
pub open spec fn issues_of(rs: Seq<CategoryVerificationResult>) -> Seq<Seq<char>>
    decreases rs.len(),
{
    if rs.len() == 0 {
        Seq::empty()
    } else {
        issues_of(rs.drop_last()) + if rs.last().deletion_successful {
            Seq::<Seq<char>>::empty()
        } else {
            seq![issue_prefix(rs.len() - 1) + rs.last().details@]
        }
    }
}

/// The recommendations for the failed categories among `rs`, in order.
pub open spec fn recommendations_of(rs: Seq<CategoryVerificationResult>) -> Seq<Seq<char>>
    decreases rs.len(),
{
    if rs.len() == 0 {
        Seq::empty()
    } else {
        recommendations_of(rs.drop_last()) + if rs.last().deletion_successful {
            Seq::<Seq<char>>::empty()
        } else {
            seq![recommendation_for(rs.len() - 1)]
        }
    }
}

/// The items with issues over all of `rs`.
pub open spec fn total_issues(rs: Seq<CategoryVerificationResult>) -> int
    decreases rs.len(),
{
    if rs.len() == 0 { 0 } else { total_issues(rs.drop_last()) + rs.last().items_with_issues }
}

/// Whether every category of `rs` passed.
pub open spec fn all_passed(rs: Seq<CategoryVerificationResult>) -> bool {
    forall|i: int| 0 <= i < rs.len() ==> (#[trigger] rs[i]).deletion_successful
}

/// The overall status: fully verified when every category passed, else
/// failed when more than ten items have issues, else partially verified.
pub open spec fn overall_status(rs: Seq<CategoryVerificationResult>) -> VerificationStatus {
    if all_passed(rs) {
        VerificationStatus::FullyVerified
    } else if total_issues(rs) > 10 {
        VerificationStatus::VerificationFailed
    } else {
        VerificationStatus::PartiallyVerified
    }
}

/// The views of a list of texts.
pub open spec fn texts(v: Seq<String>) -> Seq<Seq<char>> {
    v.map_values(|s: String| s@)
}

/// The verification of user `user_id` at `now_ms` from the results for the
/// profile, messages, events and references, in that order.
pub fn verify_user_data_deletion(
    user_id: u128,
    now_ms: i64,
    profile: CategoryVerificationResult,
    messages: CategoryVerificationResult,
    events: CategoryVerificationResult,
    references: CategoryVerificationResult,
) -> (r: DeletionVerificationResult)
    ensures
        r.user_id == user_id,
        r.verification_date_ms == now_ms,
        r.category_results@ == seq![profile, messages, events, references],
        r.deletion_successful == all_passed(r.category_results@),
        texts(r.issues_found@) == issues_of(r.category_results@),
        texts(r.recommendations@) == recommendations_of(r.category_results@),
        r.verification_status == overall_status(r.category_results@),
{
    let mut results: Vec<CategoryVerificationResult> = Vec::new();
    results.push(profile);
    results.push(messages);
    results.push(events);
    results.push(references);
    let ghost rs = results@;
    let mut issues: Vec<String> = Vec::new();
    let mut recs: Vec<String> = Vec::new();
    let mut ok = true;
    let mut total: i128 = 0;
    let mut i: usize = 0;
    while i < 4
        invariant
            results@ == rs,
            rs.len() == 4,
            i <= 4,
            ok == all_passed(rs.take(i as int)),
            texts(issues@) == issues_of(rs.take(i as int)),
            texts(recs@) == recommendations_of(rs.take(i as int)),
            total == total_issues(rs.take(i as int)),
            -i * 0x8000_0000_0000_0000 <= total <= i * 0x7fff_ffff_ffff_ffff,
        decreases 4 - i,
    {
        let r = &results[i];
        let ghost t = rs.take(i + 1);
        assert(t.drop_last() =~= rs.take(i as int));
        assert(t.last() == *r);
        if !r.deletion_successful {
            ok = false;
            let mut issue = String::new();
            if i == 0 {
                issue.append("User profile data still exists: ");
                recs.push("Contact support to manually remove remaining profile data.".to_owned());
            } else if i == 1 {
                issue.append("Message data still exists: ");
                recs.push("Run data retention policy again with 'anonymize' set to false.".to_owned());
            } else if i == 2 {
                issue.append("Event data still exists: ");
                recs.push("Run data retention policy again with 'anonymize' set to false.".to_owned());
            } else {
                issue.append("References to user still exist: ");
                recs.push("Use the data export tool to identify remaining references and contact support.".to_owned());
            }
            issue.append(r.details.as_str());
            issues.push(issue);
            assert(texts(issues@) =~= texts(issues@.drop_last()).push(issues@.last()@));
            assert(texts(recs@) =~= texts(recs@.drop_last()).push(recs@.last()@));
        } else {
            assert(issues_of(t) =~= issues_of(rs.take(i as int)));
            assert(recommendations_of(t) =~= recommendations_of(rs.take(i as int)));
        }
        assert(all_passed(t) == (all_passed(rs.take(i as int)) && r.deletion_successful)) by {
            if all_passed(rs.take(i as int)) && r.deletion_successful {
                assert forall|j: int| 0 <= j < t.len() implies (#[trigger] t[j]).deletion_successful by {
                    if j < i {
                        assert(t[j] == rs.take(i as int)[j]);
                    }
                }
            }
            if all_passed(t) {
                assert forall|j: int| 0 <= j < i implies (#[trigger] rs.take(i as int)[j]).deletion_successful by {
                    assert(t[j] == rs.take(i as int)[j]);
                }
                assert(t[i as int] == *r);
            }
        }
        total = total + r.items_with_issues as i128;
        i = i + 1;
    }
    assert(rs.take(4) =~= rs);
    let status = if ok {
        VerificationStatus::FullyVerified
    } else if total > 10 {
        VerificationStatus::VerificationFailed
    } else {
        VerificationStatus::PartiallyVerified
    };
    DeletionVerificationResult {
        user_id,
        verification_date_ms: now_ms,
        deletion_successful: ok,
        category_results: results,
        verification_status: status,
        issues_found: issues,
        recommendations: recs,
    }
}

/// Whether a deletion certificate may be issued for a verification: only
/// when it fully verified; otherwise the reason it may not.
pub fn certificate_refusal(result: &DeletionVerificationResult) -> (r: Option<String>)
    ensures
        result.verification_status == VerificationStatus::FullyVerified ==> r is None,
        result.verification_status != VerificationStatus::FullyVerified ==> r is Some && r->0@
            == "Cannot generate deletion certificate: data deletion verification failed with status "@
                + status_label(result.verification_status),
{
    if result.verification_status == VerificationStatus::FullyVerified {
        None
    } else {
        let mut m = "Cannot generate deletion certificate: data deletion verification failed with status ".to_owned();
        m.append(result.verification_status.label());
        Some(m)
    }
}

} // verus!
