use vstd::prelude::*;
use vstd::string::*;
use crate::repositories::task_repository::{append_joined, joined_with, views};

verus! {

/// The categories of data that can be exported.
#[derive(Debug, Clone, Copy, PartialEq, Eq, Structural)]
pub enum ExportCategory {
    /// Basic user profile information
    Profile,
    /// User preferences and settings
    Preferences,
    /// Messages and conversations
    Messages,
    /// Agents associated with the user
    Agents,
    /// Events and activities
    Events,
    /// Addresses and contact information
    Addresses,
    /// All data categories
    All,
}

/// Format options for data export.
#[derive(Debug, Clone, Copy, PartialEq, Eq, Structural)]
pub enum ExportFormat {
    /// JSON format
    Json,
    /// CSV format
    Csv,
}

/// Configuration for a data export; dates are in milliseconds since the
/// Unix epoch.
#[derive(Debug, Clone)]
pub struct ExportConfig {
    /// User ID for whom to export data
    pub user_id: u128,
    /// Categories of data to export
    pub categories: Vec<ExportCategory>,
    /// Whether to include deleted items
    pub include_deleted: bool,
    /// Date range for data export (start date)
    pub start_date_ms: Option<i64>,
    /// Date range for data export (end date)
    pub end_date_ms: Option<i64>,
    /// Format for the export
    pub format: ExportFormat,
}

/// The sections an export fills in.
#[derive(Debug, Clone, Copy, PartialEq, Eq, Structural)]
pub struct ExportSections {
    pub profile: bool,
    pub preferences: bool,
    pub messages: bool,
    pub agents: bool,
    pub events: bool,
    pub addresses: bool,
}

/// Whether `c` is among `cs`.
pub open spec fn requested(cs: Seq<ExportCategory>, c: ExportCategory) -> bool {
    exists|i: int| 0 <= i < cs.len() && cs[i] == c
}

/// The sections an export of `cs` fills in: each section whose category was
/// requested, and the profile for `All` too (`All` selects the profile
/// alone, as the first case it matches).
pub open spec fn sections_spec(cs: Seq<ExportCategory>) -> ExportSections {
    ExportSections {
        profile: requested(cs, ExportCategory::Profile) || requested(cs, ExportCategory::All),
        preferences: requested(cs, ExportCategory::Preferences),
        messages: requested(cs, ExportCategory::Messages),
        agents: requested(cs, ExportCategory::Agents),
        events: requested(cs, ExportCategory::Events),
        addresses: requested(cs, ExportCategory::Addresses),
    }
}

/// The sections an export of the requested categories fills in.
pub fn export_sections(categories: &Vec<ExportCategory>) -> (r: ExportSections)
    ensures
        r == sections_spec(categories@),
{
    let mut r = ExportSections {
        profile: false,
        preferences: false,
        messages: false,
        agents: false,
        events: false,
        addresses: false,
    };
    let mut i: usize = 0;
    while i < categories.len()
        invariant
            i <= categories@.len(),
            r == sections_spec(categories@.take(i as int)),
        decreases categories@.len() - i,
    {
        let c = categories[i];
        let ghost before = categories@.take(i as int);
        let ghost after = categories@.take(i + 1);
        assert(after =~= before.push(c));
        assert forall|x: ExportCategory| requested(after, x) == (requested(before, x) || x == c) by {
            if requested(after, x) {
                let j = choose|j: int| 0 <= j < after.len() && after[j] == x;
                if j < before.len() {
                    assert(before[j] == x);
                }
            }
            if requested(before, x) {
                let j = choose|j: int| 0 <= j < before.len() && before[j] == x;
                assert(after[j] == x);
            }
            if x == c {
                assert(after[i as int] == x);
            }
        }
        match c {
            ExportCategory::Profile | ExportCategory::All => r.profile = true,
            ExportCategory::Preferences => r.preferences = true,
            ExportCategory::Messages => r.messages = true,
            ExportCategory::Agents => r.agents = true,
            ExportCategory::Events => r.events = true,
            ExportCategory::Addresses => r.addresses = true,
        }
        i = i + 1;
    }
    assert(categories@.take(i as int) =~= categories@);
    r
}

/// The metadata of an export as the CSV files write it: the export date
/// and the user's id, each as its text.
#[derive(Debug)]
pub struct ExportMetadataRow {
    pub export_date: String,
    pub user_id: String,
    pub include_deleted: bool,
}

/// A user profile as the CSV files write it; ids, dates and enumerations
/// as their texts.
#[derive(Debug)]
pub struct ProfileRow {
    pub id: String,
    pub email: Option<String>,
    pub username: Option<String>,
    pub display_name: String,
    pub first_name: Option<String>,
    pub last_name: Option<String>,
    pub status: String,
    pub primary_role: String,
    pub created_at: String,
    pub updated_at: String,
}

/// A message as the CSV files write it.
#[derive(Debug)]
pub struct MessageRow {
    pub id: String,
    pub conversation_id: String,
    pub sender_id: String,
    pub content: String,
    pub created_at: String,
}

/// An agent as the CSV files write it.
#[derive(Debug)]
pub struct AgentRow {
    pub id: String,
    pub name: String,
    pub description: Option<String>,
    pub status: String,
    pub created_at: String,
}

/// An event as the CSV files write it.
#[derive(Debug)]
pub struct EventRow {
    pub id: String,
    pub title: String,
    pub description: Option<String>,
    pub created_at: String,
}

/// An address as the CSV files write it.
#[derive(Debug)]
pub struct AddressRow {
    pub id: String,
    pub address_type: String,
    pub street: Option<String>,
    pub city: Option<String>,
    pub state: Option<String>,
    pub postal_code: Option<String>,
    pub country: Option<String>,
    pub created_at: String,
}

/// The exported data, section by section; a section that was not exported
/// is `None`.
#[derive(Debug)]
pub struct ExportRecords {
    pub metadata: ExportMetadataRow,
    pub profile: Option<ProfileRow>,
    pub messages: Option<Vec<MessageRow>>,
    pub agents: Option<Vec<AgentRow>>,
    pub events: Option<Vec<EventRow>>,
    pub addresses: Option<Vec<AddressRow>>,
}

/// `s` with each comma written as a backslash and a comma.
pub open spec fn escape_commas(s: Seq<char>) -> Seq<char>
    decreases s.len(),
{
    if s.len() == 0 {
        Seq::empty()
    } else {
        escape_commas(s.drop_last()) + if s.last() == ',' { seq!['\\', ','] } else { seq![s.last()] }
    }
}

/// The text of an optional field: empty when absent.
pub open spec fn or_empty(o: Option<String>) -> Seq<char> {
    match o {
        Some(t) => t@,
        None => Seq::empty(),
    }
}

/// The text of a boolean.
pub open spec fn bool_text(b: bool) -> Seq<char> {
    if b { "true"@ } else { "false"@ }
}

/// A CSV line: the fields joined with commas, then a line break.
pub open spec fn csv_line(fields: Seq<Seq<char>>) -> Seq<char> {
    joined_with(fields, ","@) + "\n"@
}

/// The lines of a list of rows, one after the other.
pub open spec fn csv_lines(rows: Seq<Seq<Seq<char>>>) -> Seq<char>
    decreases rows.len(),
{
    if rows.len() == 0 { Seq::empty() } else { csv_lines(rows.drop_last()) + csv_line(rows.last()) }
}

/// The fields of the metadata line.
pub open spec fn metadata_fields(m: ExportMetadataRow) -> Seq<Seq<char>> {
    seq![m.export_date@, m.user_id@, bool_text(m.include_deleted)]
}

/// The fields of the profile line.
pub open spec fn profile_fields(p: ProfileRow) -> Seq<Seq<char>> {
    seq![p.id@, or_empty(p.email), or_empty(p.username), p.display_name@, or_empty(p.first_name),
        or_empty(p.last_name), p.status@, p.primary_role@, p.created_at@, p.updated_at@]
}

/// The fields of a message line: the content's commas escaped.
pub open spec fn message_fields(m: MessageRow) -> Seq<Seq<char>> {
    seq![m.id@, m.conversation_id@, m.sender_id@, escape_commas(m.content@), m.created_at@]
}

/// The fields of an agent line: name and description escaped.
pub open spec fn agent_fields(a: AgentRow) -> Seq<Seq<char>> {
    seq![a.id@, escape_commas(a.name@), escape_commas(or_empty(a.description)), a.status@, a.created_at@]
}

/// The fields of an event line: title and description escaped.
pub open spec fn event_fields(e: EventRow) -> Seq<Seq<char>> {
    seq![e.id@, escape_commas(e.title@), escape_commas(or_empty(e.description)), e.created_at@]
}

/// The fields of an address line: the address parts escaped.
pub open spec fn address_fields(a: AddressRow) -> Seq<Seq<char>> {
    seq![a.id@, a.address_type@, escape_commas(or_empty(a.street)), escape_commas(or_empty(a.city)),
        escape_commas(or_empty(a.state)), escape_commas(or_empty(a.postal_code)), escape_commas(or_empty(a.country)),
        a.created_at@]
}

/// The headers of each file.
pub open spec fn metadata_header() -> Seq<char> { "export_date,user_id,include_deleted\n"@ }
pub open spec fn profile_header() -> Seq<char> {
    "id,email,username,display_name,first_name,last_name,status,primary_role,created_at,updated_at\n"@
}
pub open spec fn messages_header() -> Seq<char> { "id,conversation_id,sender_id,content,created_at\n"@ }
pub open spec fn agents_header() -> Seq<char> { "id,name,description,status,created_at\n"@ }
pub open spec fn events_header() -> Seq<char> { "id,title,description,created_at\n"@ }
pub open spec fn addresses_header() -> Seq<char> {
    "id,address_type,street,city,state,postal_code,country,created_at\n"@
}

/// The profile file of an export, when the profile was exported.
pub open spec fn profile_file(d: ExportRecords) -> Seq<(Seq<char>, Seq<char>)> {
    match d.profile {
        Some(p) => seq![("profile.csv"@, profile_header() + csv_line(profile_fields(p)))],
        None => Seq::empty(),
    }
}

/// The messages file of an export, when messages were exported.
pub open spec fn messages_file(d: ExportRecords) -> Seq<(Seq<char>, Seq<char>)> {
    match d.messages {
        Some(v) => seq![("messages.csv"@, messages_header() + csv_lines(v@.map_values(|m: MessageRow| message_fields(m))))],
        None => Seq::empty(),
    }
}

/// The agents file of an export, when agents were exported.
pub open spec fn agents_file(d: ExportRecords) -> Seq<(Seq<char>, Seq<char>)> {
    match d.agents {
        Some(v) => seq![("agents.csv"@, agents_header() + csv_lines(v@.map_values(|a: AgentRow| agent_fields(a))))],
        None => Seq::empty(),
    }
}

/// The events file of an export, when events were exported.
pub open spec fn events_file(d: ExportRecords) -> Seq<(Seq<char>, Seq<char>)> {
    match d.events {
        Some(v) => seq![("events.csv"@, events_header() + csv_lines(v@.map_values(|e: EventRow| event_fields(e))))],
        None => Seq::empty(),
    }
}

/// The addresses file of an export, when addresses were exported.
pub open spec fn addresses_file(d: ExportRecords) -> Seq<(Seq<char>, Seq<char>)> {
    match d.addresses {
        Some(v) => seq![("addresses.csv"@, addresses_header() + csv_lines(v@.map_values(|a: AddressRow| address_fields(a))))],
        None => Seq::empty(),
    }
}

/// The CSV files of an export, in order: the metadata, then each section
/// that was exported, as (file name, text).
pub open spec fn csv_files(d: ExportRecords) -> Seq<(Seq<char>, Seq<char>)> {
    seq![("metadata.csv"@, metadata_header() + csv_line(metadata_fields(d.metadata)))]
        + profile_file(d) + messages_file(d) + agents_file(d) + events_file(d) + addresses_file(d)
}

/// The views of a list of files.
pub open spec fn file_views(v: Seq<(String, String)>) -> Seq<(Seq<char>, Seq<char>)> {
    v.map_values(|f: (String, String)| (f.0@, f.1@))
}

/// `s` with each comma written as a backslash and a comma.
pub fn escape_commas_text(s: &str) -> (r: String)
    ensures
        r@ == escape_commas(s@),
{
    let n = s.unicode_len();
    let mut out = String::new();
    let mut k: usize = 0;
    while k < n
        invariant
            n == s@.len(),
            k <= n,
            out@ == escape_commas(s@.take(k as int)),
        decreases n - k,
    {
        let c = s.get_char(k);
        if c == ',' {
            out.append("\\,");
        } else {
            out.append(s.substring_char(k, k + 1));
        }
        proof {
            reveal_strlit("\\,");
            assert("\\,"@ =~= seq!['\\', ',']);
            let t = s@.take(k + 1);
            assert(t.drop_last() =~= s@.take(k as int));
            assert(t.last() == c);
            assert(s@.subrange(k as int, k + 1) =~= seq![c]);
            assert(out@ =~= escape_commas(t));
        }
        k = k + 1;
    }
    assert(s@.take(n as int) =~= s@);
    out
}

fn text_or_empty(o: &Option<String>) -> (r: String)
    ensures
        r@ == or_empty(*o),
{
    match o {
        Some(t) => t.clone(),
        None => String::new(),
    }
}

/// One CSV line of `fields`.
fn line_of(fields: &Vec<String>) -> (r: String)
    ensures
        r@ == csv_line(views(fields@)),
{
    let mut out = String::new();
    append_joined(&mut out, fields, ",");
    out.append("\n");
    assert(out@ =~= csv_line(views(fields@)));
    out
}

fn message_line(m: &MessageRow) -> (r: String)
    ensures
        r@ == csv_line(message_fields(*m)),
{
    let f = vec![m.id.clone(), m.conversation_id.clone(), m.sender_id.clone(), escape_commas_text(m.content.as_str()),
        m.created_at.clone()];
    assert(views(f@) =~= message_fields(*m));
    line_of(&f)
}

fn agent_line(a: &AgentRow) -> (r: String)
    ensures
        r@ == csv_line(agent_fields(*a)),
{
    let d = text_or_empty(&a.description);
    let f = vec![a.id.clone(), escape_commas_text(a.name.as_str()), escape_commas_text(d.as_str()), a.status.clone(),
        a.created_at.clone()];
    assert(views(f@) =~= agent_fields(*a));
    line_of(&f)
}

fn event_line(e: &EventRow) -> (r: String)
    ensures
        r@ == csv_line(event_fields(*e)),
{
    let d = text_or_empty(&e.description);
    let f = vec![e.id.clone(), escape_commas_text(e.title.as_str()), escape_commas_text(d.as_str()), e.created_at.clone()];
    assert(views(f@) =~= event_fields(*e));
    line_of(&f)
}

fn address_line(a: &AddressRow) -> (r: String)
    ensures
        r@ == csv_line(address_fields(*a)),
{
    let st = text_or_empty(&a.street);
    let ci = text_or_empty(&a.city);
    let sa = text_or_empty(&a.state);
    let pc = text_or_empty(&a.postal_code);
    let co = text_or_empty(&a.country);
    let f = vec![a.id.clone(), a.address_type.clone(), escape_commas_text(st.as_str()), escape_commas_text(ci.as_str()),
        escape_commas_text(sa.as_str()), escape_commas_text(pc.as_str()), escape_commas_text(co.as_str()),
        a.created_at.clone()];
    assert(views(f@) =~= address_fields(*a));
    line_of(&f)
}

fn message_lines(rows: &Vec<MessageRow>) -> (r: String)
    ensures
        r@ == csv_lines(rows@.map_values(|x: MessageRow| message_fields(x))),
{
    let ghost all = rows@.map_values(|x: MessageRow| message_fields(x));
    let mut out = String::new();
    let mut i: usize = 0;
    while i < rows.len()
        invariant
            i <= rows@.len(),
            all == rows@.map_values(|x: MessageRow| message_fields(x)),
            out@ == csv_lines(all.take(i as int)),
        decreases rows@.len() - i,
    {
        let l = message_line(&rows[i]);
        out.append(l.as_str());
        proof {
            let t = all.take(i + 1);
            assert(t.drop_last() =~= all.take(i as int));
            assert(t.last() == message_fields(rows@[i as int]));
        }
        i = i + 1;
    }
    assert(all.take(i as int) =~= all);
    out
}

fn agent_lines(rows: &Vec<AgentRow>) -> (r: String)
    ensures
        r@ == csv_lines(rows@.map_values(|x: AgentRow| agent_fields(x))),
{
    let ghost all = rows@.map_values(|x: AgentRow| agent_fields(x));
    let mut out = String::new();
    let mut i: usize = 0;
    while i < rows.len()
        invariant
            i <= rows@.len(),
            all == rows@.map_values(|x: AgentRow| agent_fields(x)),
            out@ == csv_lines(all.take(i as int)),
        decreases rows@.len() - i,
    {
        let l = agent_line(&rows[i]);
        out.append(l.as_str());
        proof {
            let t = all.take(i + 1);
            assert(t.drop_last() =~= all.take(i as int));
            assert(t.last() == agent_fields(rows@[i as int]));
        }
        i = i + 1;
    }
    assert(all.take(i as int) =~= all);
    out
}

fn event_lines(rows: &Vec<EventRow>) -> (r: String)
    ensures
        r@ == csv_lines(rows@.map_values(|x: EventRow| event_fields(x))),
{
    let ghost all = rows@.map_values(|x: EventRow| event_fields(x));
    let mut out = String::new();
    let mut i: usize = 0;
    while i < rows.len()
        invariant
            i <= rows@.len(),
            all == rows@.map_values(|x: EventRow| event_fields(x)),
            out@ == csv_lines(all.take(i as int)),
        decreases rows@.len() - i,
    {
        let l = event_line(&rows[i]);
        out.append(l.as_str());
        proof {
            let t = all.take(i + 1);
            assert(t.drop_last() =~= all.take(i as int));
            assert(t.last() == event_fields(rows@[i as int]));
        }
        i = i + 1;
    }
    assert(all.take(i as int) =~= all);
    out
}

fn address_lines(rows: &Vec<AddressRow>) -> (r: String)
    ensures
        r@ == csv_lines(rows@.map_values(|x: AddressRow| address_fields(x))),
{
    let ghost all = rows@.map_values(|x: AddressRow| address_fields(x));
    let mut out = String::new();
    let mut i: usize = 0;
    while i < rows.len()
        invariant
            i <= rows@.len(),
            all == rows@.map_values(|x: AddressRow| address_fields(x)),
            out@ == csv_lines(all.take(i as int)),
        decreases rows@.len() - i,
    {
        let l = address_line(&rows[i]);
        out.append(l.as_str());
        proof {
            let t = all.take(i + 1);
            assert(t.drop_last() =~= all.take(i as int));
            assert(t.last() == address_fields(rows@[i as int]));
        }
        i = i + 1;
    }
    assert(all.take(i as int) =~= all);
    out
}

/// The CSV files of an export, as (file name, text): `metadata.csv`, then
/// `profile.csv`, `messages.csv`, `agents.csv`, `events.csv` and
/// `addresses.csv` for the sections that were exported. Each file has its
/// header line, then one line per record, fields joined by commas; the
/// free texts of messages, agents, events and addresses have their commas
/// written as `\,`.
pub fn export_csv_files(data: &ExportRecords) -> (r: Vec<(String, String)>)
    ensures
        file_views(r@) == csv_files(*data),
{
    let mut files: Vec<(String, String)> = Vec::new();
    let m = &data.metadata;
    let mf = vec![m.export_date.clone(), m.user_id.clone(),
        if m.include_deleted { "true".to_owned() } else { "false".to_owned() }];
    assert(views(mf@) =~= metadata_fields(*m));
    let mut text = "export_date,user_id,include_deleted\n".to_owned();
    text.append(line_of(&mf).as_str());
    files.push(("metadata.csv".to_owned(), text));
    let ghost mut expect: Seq<(Seq<char>, Seq<char>)> = seq![("metadata.csv"@, metadata_header() + csv_line(metadata_fields(data.metadata)))];
    assert(file_views(files@) =~= expect);

    if let Some(p) = &data.profile {
        let pf = vec![p.id.clone(), text_or_empty(&p.email), text_or_empty(&p.username), p.display_name.clone(),
            text_or_empty(&p.first_name), text_or_empty(&p.last_name), p.status.clone(), p.primary_role.clone(),
            p.created_at.clone(), p.updated_at.clone()];
        assert(views(pf@) =~= profile_fields(*p));
        let mut t = "id,email,username,display_name,first_name,last_name,status,primary_role,created_at,updated_at\n".to_owned();
        t.append(line_of(&pf).as_str());
        files.push(("profile.csv".to_owned(), t));
    }
    proof {
        expect = expect + profile_file(*data);
        assert(file_views(files@) =~= expect);
    }
    if let Some(v) = &data.messages {
        let mut t = "id,conversation_id,sender_id,content,created_at\n".to_owned();
        t.append(message_lines(v).as_str());
        files.push(("messages.csv".to_owned(), t));
    }
    proof {
        expect = expect + messages_file(*data);
        assert(file_views(files@) =~= expect);
    }
    if let Some(v) = &data.agents {
        let mut t = "id,name,description,status,created_at\n".to_owned();
        t.append(agent_lines(v).as_str());
        files.push(("agents.csv".to_owned(), t));
    }
    proof {
        expect = expect + agents_file(*data);
        assert(file_views(files@) =~= expect);
    }
    if let Some(v) = &data.events {
        let mut t = "id,title,description,created_at\n".to_owned();
        t.append(event_lines(v).as_str());
        files.push(("events.csv".to_owned(), t));
    }
    proof {
        expect = expect + events_file(*data);
        assert(file_views(files@) =~= expect);
    }
    if let Some(v) = &data.addresses {
        let mut t = "id,address_type,street,city,state,postal_code,country,created_at\n".to_owned();
        t.append(address_lines(v).as_str());
        files.push(("addresses.csv".to_owned(), t));
    }
    proof {
        expect = expect + addresses_file(*data);
        assert(file_views(files@) =~= expect);
    }
    files
}

} // verus!
