use vstd::prelude::*;
use vstd::string::*;
use vstd::utf8::encode_utf8;
use crate::text::{append_decimal, decimal};

verus! {

/// A failed validation, with the message that says why.
#[derive(Debug, Clone, PartialEq, Eq)]
pub struct ValidationFailure {
    pub message: String,
}

/// A rule that a value of type `T` must keep.
pub trait ValidationRule<T> {
    /// Validate the value.
    fn validate(&self, value: &T) -> Result<(), ValidationFailure>;

    /// Get the error message for this rule.
    fn error_message(&self) -> String;
}

/// Required field validation rule.
#[derive(Debug)]
pub struct Required;

/// The message of the required rule.
fn required_message() -> (r: String)
    ensures
        r@ == "This field is required"@,
{
    "This field is required".to_owned()
}

impl<T> ValidationRule<Option<T>> for Required {
    fn validate(&self, value: &Option<T>) -> (r: Result<(), ValidationFailure>)
        ensures
            r is Ok <==> value is Some,
            r matches Err(e) ==> e.message@ == "This field is required"@,
    {
        match value {
            Some(_) => Ok(()),
            None => Err(ValidationFailure { message: required_message() }),
        }
    }

    /// The message is "This field is required".
    fn error_message(&self) -> String {
        required_message()
    }
}

/// String length validation rule, on the length in bytes.
#[derive(Debug)]
pub struct StringLength {
    /// Minimum length (inclusive)
    pub min: Option<usize>,
    /// Maximum length (inclusive)
    pub max: Option<usize>,
}

/// Whether a length keeps the bounds.
pub open spec fn length_within(len: int, min: Option<usize>, max: Option<usize>) -> bool {
    &&& (min matches Some(m) ==> len >= m)
    &&& (max matches Some(m) ==> len <= m)
}

/// The message of a string length rule.
pub open spec fn length_message(min: Option<usize>, max: Option<usize>) -> Seq<char> {
    match (min, max) {
        (Some(a), Some(b)) => "Length must be between "@ + decimal(a as nat) + " and "@ + decimal(b as nat) + " characters"@,
        (Some(a), None) => "Length must be at least "@ + decimal(a as nat) + " characters"@,
        (None, Some(b)) => "Length must be at most "@ + decimal(b as nat) + " characters"@,
        (None, None) => "Invalid string length"@,
    }
}

impl ValidationRule<String> for StringLength {
    fn validate(&self, value: &String) -> (r: Result<(), ValidationFailure>)
        ensures
            r is Ok <==> length_within(encode_utf8(value@).len() as int, self.min, self.max),
            r matches Err(e) ==> e.message@ == length_message(self.min, self.max),
    {
        let len = value.as_str().as_bytes().len();
        let ok = match self.min {
            Some(m) => len >= m,
            None => true,
        } && match self.max {
            Some(m) => len <= m,
            None => true,
        };
        if ok {
            Ok(())
        } else {
            Err(ValidationFailure { message: self.error_message() })
        }
    }

    fn error_message(&self) -> (r: String)
        ensures
            r@ == length_message(self.min, self.max),
    {
        match (self.min, self.max) {
            (Some(a), Some(b)) => {
                let mut s = "Length must be between ".to_owned();
                append_decimal(&mut s, a);
                s.append(" and ");
                append_decimal(&mut s, b);
                s.append(" characters");
                s
            },
            (Some(a), None) => {
                let mut s = "Length must be at least ".to_owned();
                append_decimal(&mut s, a);
                s.append(" characters");
                s
            },
            (None, Some(b)) => {
                let mut s = "Length must be at most ".to_owned();
                append_decimal(&mut s, b);
                s.append(" characters");
                s
            },
            (None, None) => "Invalid string length".to_owned(),
        }
    }
}

/// Date validation rule; times are milliseconds since the Unix epoch.
#[derive(Debug)]
pub struct DateValidation {
    /// Whether the date must be in the future
    pub future: bool,
    /// Whether the date must be in the past
    pub past: bool,
}

/// Whether a date keeps the rule at time `now`.
pub open spec fn date_within(future: bool, past: bool, value: i64, now: i64) -> bool {
    &&& (future ==> value >= now)
    &&& (past ==> value <= now)
}

/// The message of a date rule.
pub open spec fn date_message(future: bool, past: bool) -> Seq<char> {
    if future {
        "Date must be in the future"@
    } else if past {
        "Date must be in the past"@
    } else {
        "Invalid date"@
    }
}

impl DateValidation {
    /// Validate a date against the rule at time `now`.
    pub fn validate_at(&self, value: i64, now: i64) -> (r: Result<(), ValidationFailure>)
        ensures
            r is Ok <==> date_within(self.future, self.past, value, now),
            r matches Err(e) ==> e.message@ == date_message(self.future, self.past),
    {
        if self.future && value < now {
            return Err(ValidationFailure { message: self.error_message() });
        }
        if self.past && value > now {
            return Err(ValidationFailure { message: self.error_message() });
        }
        Ok(())
    }
}

impl ValidationRule<i64> for DateValidation {
    /// Validate a date against the rule now, as the clock tells it: the
    /// outcome is `validate_at` at the time read.
    fn validate(&self, value: &i64) -> (r: Result<(), ValidationFailure>)
        ensures
            r matches Err(e) ==> e.message@ == date_message(self.future, self.past),
            !self.future && !self.past ==> r is Ok,
            exists|now: i64| (r is Ok <==> #[trigger] date_within(self.future, self.past, *value, now)),
    {
        let now = crate::clock::utc_now_millis();
        self.validate_at(*value, now)
    }

    fn error_message(&self) -> (r: String)
        ensures
            r@ == date_message(self.future, self.past),
    {
        if self.future {
            "Date must be in the future".to_owned()
        } else if self.past {
            "Date must be in the past".to_owned()
        } else {
            "Invalid date".to_owned()
        }
    }
}

/// The stored number of the completed task status.
pub const TASK_STATUS_COMPLETED: i64 = 2;

/// What the task validator reads of a task; times are milliseconds since the
/// Unix epoch, the status is its stored number.
#[derive(Debug)]
pub struct TaskInput {
    pub title: String,
    pub description: Option<String>,
    pub start_time: i64,
    pub due_date: Option<i64>,
    pub end_time: Option<i64>,
    pub status: i64,
}

/// The problem with a task's title, if any.
pub open spec fn title_problems(t: TaskInput) -> Seq<Seq<char>> {
    let n = encode_utf8(t.title@).len();
    if n == 0 {
        seq!["Title is required"@]
    } else if n > 255 {
        seq!["Title must be at most 255 characters"@]
    } else {
        Seq::empty()
    }
}

/// The problem with a task's description, if any.
pub open spec fn description_problems(t: TaskInput) -> Seq<Seq<char>> {
    match t.description {
        Some(d) => if encode_utf8(d@).len() > 1000 { seq!["Description must be at most 1000 characters"@] } else { Seq::empty() },
        None => Seq::empty(),
    }
}

/// The problem with a task's due date, if any.
pub open spec fn due_problems(t: TaskInput) -> Seq<Seq<char>> {
    match t.due_date {
        Some(d) => if t.start_time > d { seq!["Due date must be after start time"@] } else { Seq::empty() },
        None => Seq::empty(),
    }
}

/// The problem with a task's end time, if any: it must not come before the
/// start, and a completed task must have one.
pub open spec fn end_problems(t: TaskInput) -> Seq<Seq<char>> {
    match t.end_time {
        Some(e) => if t.start_time > e { seq!["End time must be after start time"@] } else { Seq::empty() },
        None => if t.status == TASK_STATUS_COMPLETED {
            seq!["End time is required for completed tasks"@]
        } else {
            Seq::empty()
        },
    }
}

/// The problems of a task, in field order: title, description, due date,
/// end time.
pub open spec fn task_problems(t: TaskInput) -> Seq<Seq<char>> {
    title_problems(t) + description_problems(t) + due_problems(t) + end_problems(t)
}

/// Messages joined with commas.
pub open spec fn joined(msgs: Seq<Seq<char>>) -> Seq<char>
    decreases msgs.len(),
{
    if msgs.len() == 0 {
        Seq::empty()
    } else if msgs.len() == 1 {
        msgs[0]
    } else {
        joined(msgs.drop_last()) + ", "@ + msgs.last()
    }
}

/// Task validator.
#[derive(Debug)]
pub struct TaskValidator;

impl TaskValidator {
    fn note(msgs: &mut Vec<String>, m: &str)
        ensures
            final(msgs)@.len() == old(msgs)@.len() + 1,
            forall|i: int| 0 <= i < old(msgs)@.len() ==> final(msgs)@[i] == old(msgs)@[i],
            final(msgs)@.last()@ == m@,
    {
        msgs.push(m.to_owned());
    }

    /// Validate a task: it fails, with its problems joined by commas, when it
    /// has any.
    pub fn validate(task: &TaskInput) -> (r: Result<(), ValidationFailure>)
        ensures
            r is Ok <==> task_problems(*task).len() == 0,
            r matches Err(e) ==> e.message@ == joined(task_problems(*task)),
    {
        let mut msgs: Vec<String> = Vec::new();
        let title_len = task.title.as_str().as_bytes().len();
        if title_len == 0 {
            Self::note(&mut msgs, "Title is required");
        } else if title_len > 255 {
            Self::note(&mut msgs, "Title must be at most 255 characters");
        }
        let ghost texts = |m: String| m@;
        assert(msgs@.map_values(texts) =~= title_problems(*task));
        match &task.description {
            Some(d) => {
                if d.as_str().as_bytes().len() > 1000 {
                    Self::note(&mut msgs, "Description must be at most 1000 characters");
                }
            },
            None => {},
        }
        assert(msgs@.map_values(texts) =~= title_problems(*task) + description_problems(*task));
        match task.due_date {
            Some(d) => {
                if task.start_time > d {
                    Self::note(&mut msgs, "Due date must be after start time");
                }
            },
            None => {},
        }
        assert(msgs@.map_values(texts) =~= title_problems(*task) + description_problems(*task) + due_problems(*task));
        match task.end_time {
            Some(e) => {
                if task.start_time > e {
                    Self::note(&mut msgs, "End time must be after start time");
                }
            },
            None => {
                if task.status == TASK_STATUS_COMPLETED {
                    Self::note(&mut msgs, "End time is required for completed tasks");
                }
            },
        }
        assert(msgs@.map_values(texts) =~= task_problems(*task));
        assert(msgs@.map_values(|m: String| m@) =~= msgs@.map_values(texts));
        if msgs.len() == 0 {
            return Ok(());
        }
        let mut message = msgs[0].clone();
        let mut i: usize = 1;
        while i < msgs.len()
            invariant
                1 <= i <= msgs@.len(),
                message@ == joined(msgs@.map_values(|m: String| m@).take(i as int)),
            decreases msgs@.len() - i,
        {
            message.append(", ");
            message.append(msgs[i].as_str());
            proof {
                let v = msgs@.map_values(|m: String| m@);
                let t = v.take(i + 1);
                assert(t.drop_last() =~= v.take(i as int));
                assert(t.last() == msgs@[i as int]@);
            }
            i = i + 1;
        }
        assert(msgs@.map_values(|m: String| m@).take(i as int) =~= msgs@.map_values(|m: String| m@));
        Err(ValidationFailure { message })
    }
}

/// Validation of an entity before it is created or updated.
pub trait ValidationExt<T> {
    fn validate(&self, entity: &T) -> Result<(), ValidationFailure>;
}

impl ValidationExt<TaskInput> for TaskValidator {
    fn validate(&self, entity: &TaskInput) -> (r: Result<(), ValidationFailure>)
        ensures
            r is Ok <==> task_problems(*entity).len() == 0,
            r matches Err(e) ==> e.message@ == joined(task_problems(*entity)),
    {
        TaskValidator::validate(entity)
    }
}

} // verus!
