//! Indexing tasks and their wire string.

use vstd::prelude::*;
use vstd::std_specs::cmp::PartialEqSpecImpl;
use vstd::std_specs::convert::TryFromSpecImpl;
use vstd::string::StrSliceExecFns;
use vstd::string::StringExecFns;
use crate::text::to_chars;

verus! {

/// The character that parts the index identifier from the source identifier
/// in a task's wire string.
pub const DELIMITER: char = ':';

/// A unit of scheduled work: one source of one index.
///
/// The index identifier may hold the delimiter (`name:incarnation`); the
/// source identifier of a task that is to cross the wire may not.
#[derive(Clone, Debug)]
pub struct IndexingTask {
    pub index_uid: String,
    pub source_id: String,
}

/// What an [`IndexingTask`] stands for.
pub struct TaskView {
    pub index_uid: Seq<char>,
    pub source_id: Seq<char>,
}

impl View for IndexingTask {
    type V = TaskView;

    open spec fn view(&self) -> TaskView {
        TaskView { index_uid: self.index_uid@, source_id: self.source_id@ }
    }
}

/// Why a string is not the wire string of any task.
#[derive(Clone, Debug)]
pub enum IndexingTaskParseError {
    /// The input is empty: not even a source identifier is there.
    MissingSourceId { input: String },
    /// The input holds no delimiter: one token, and no index identifier.
    MissingIndexId { input: String },
}

/// What an [`IndexingTaskParseError`] stands for.
pub enum TaskParseErrorView {
    MissingSourceId { input: Seq<char> },
    MissingIndexId { input: Seq<char> },
}

impl View for IndexingTaskParseError {
    type V = TaskParseErrorView;

    open spec fn view(&self) -> TaskParseErrorView {
        match self {
            IndexingTaskParseError::MissingSourceId { input } => TaskParseErrorView::MissingSourceId {
                input: input@,
            },
            IndexingTaskParseError::MissingIndexId { input } => TaskParseErrorView::MissingIndexId {
                input: input@,
            },
        }
    }
}

/// The wire string of a task: index identifier, delimiter, source identifier.
pub open spec fn wire_string(task: TaskView) -> Seq<char> {
    task.index_uid + seq![DELIMITER] + task.source_id
}

/// A task can cross the wire and come back when its source identifier holds
/// no delimiter.
pub open spec fn is_wire_safe(task: TaskView) -> bool {
    !task.source_id.contains(DELIMITER)
}

/// `at` is the place of the last delimiter of `s`.
pub open spec fn is_last_delimiter(s: Seq<char>, at: int) -> bool {
    &&& 0 <= at < s.len()
    &&& s[at] == DELIMITER
    &&& forall|later: int| at < later < s.len() ==> s[later] != DELIMITER
}

/// The place of the last delimiter of a string that holds one.
pub open spec fn last_delimiter(s: Seq<char>) -> int {
    choose|at: int| is_last_delimiter(s, at)
}

/// What a string means as the wire string of a task.
///
/// The string is split at its last delimiter: what follows is the source
/// identifier, and all that precedes, delimiters included, is the index
/// identifier. An empty string lacks the source identifier, and a string
/// without a delimiter lacks the index identifier.
pub open spec fn parse_wire_string(s: Seq<char>) -> Result<TaskView, TaskParseErrorView> {
    if s.len() == 0 {
        Err(TaskParseErrorView::MissingSourceId { input: s })
    } else if !s.contains(DELIMITER) {
        Err(TaskParseErrorView::MissingIndexId { input: s })
    } else {
        Ok(
            TaskView {
                index_uid: s.subrange(0, last_delimiter(s)),
                source_id: s.subrange(last_delimiter(s) + 1, s.len() as int),
            },
        )
    }
}

/// The text of a parse error: which field is missing, and in which input.
pub open spec fn parse_error_message(error: TaskParseErrorView) -> Seq<char> {
    match error {
        TaskParseErrorView::MissingSourceId { input } => {
            "Invalid index task format, cannot find source_id in `"@ + input + "`"@
        },
        TaskParseErrorView::MissingIndexId { input } => {
            "Invalid index task format, cannot find index_id in `"@ + input + "`"@
        },
    }
}

/// The view of what parsing returned.
pub open spec fn parsed_view(parsed: Result<IndexingTask, IndexingTaskParseError>) -> Result<
    TaskView,
    TaskParseErrorView,
> {
    match parsed {
        Ok(task) => Ok(task@),
        Err(error) => Err(error@),
    }
}

impl IndexingTaskParseError {
    /// The message of this error.
    pub fn to_string(&self) -> (message: String)
        ensures
            message@ == parse_error_message(self@),
    {
        match self {
            IndexingTaskParseError::MissingSourceId { input } => {
                let mut message = String::from_str(
                    "Invalid index task format, cannot find source_id in `",
                );
                message.append(input.as_str());
                message.append("`");
                message
            },
            IndexingTaskParseError::MissingIndexId { input } => {
                let mut message = String::from_str(
                    "Invalid index task format, cannot find index_id in `",
                );
                message.append(input.as_str());
                message.append("`");
                message
            },
        }
    }
}

/// A delimiter is the last one of a string exactly at one place.
pub proof fn lemma_last_delimiter_is_unique(s: Seq<char>, at: int)
    requires
        is_last_delimiter(s, at),
    ensures
        s.contains(DELIMITER),
        last_delimiter(s) == at,
{
    let chosen = last_delimiter(s);
    assert(is_last_delimiter(s, chosen));
    if chosen < at {
        assert(s[at] != DELIMITER);
    } else if at < chosen {
        assert(s[chosen] != DELIMITER);
    }
}

impl IndexingTask {
    /// Writes the task as its wire string.
    pub fn to_string(&self) -> (wire: String)
        ensures
            wire@ == wire_string(self@),
    {
        proof {
            reveal_strlit(":");
        }
        let mut wire = self.index_uid.clone();
        wire.append(":");
        wire.append(self.source_id.as_str());
        assert(":"@ =~= seq![DELIMITER]);
        wire
    }
}

impl<'a> TryFrom<&'a str> for IndexingTask {
    type Error = IndexingTaskParseError;

    /// Reads a task from its wire string.
    fn try_from(index_task_str: &'a str) -> (parsed: Result<IndexingTask, IndexingTaskParseError>)
        ensures
            parsed_view(parsed) == parse_wire_string(index_task_str@),
    {
        let chars = to_chars(index_task_str);
        let len = chars.len();
        if len == 0 {
            return Err(
                IndexingTaskParseError::MissingSourceId { input: String::from_str(index_task_str) },
            );
        }
        let mut at: usize = len;
        while at > 0 && chars[at - 1] != DELIMITER
            invariant
                at <= len,
                len == chars@.len(),
                forall|later: int| at <= later < len ==> chars@[later] != DELIMITER,
            decreases at,
        {
            at = at - 1;
        }
        if at == 0 {
            assert(!chars@.contains(DELIMITER));
            return Err(
                IndexingTaskParseError::MissingIndexId { input: String::from_str(index_task_str) },
            );
        }
        proof {
            lemma_last_delimiter_is_unique(chars@, at - 1);
        }
        let index_uid = String::from_str(index_task_str.substring_char(0, at - 1));
        let source_id = String::from_str(index_task_str.substring_char(at, len));
        Ok(IndexingTask { index_uid, source_id })
    }
}

impl<'a> TryFromSpecImpl<&'a str> for IndexingTask {
    open spec fn obeys_try_from_spec() -> bool {
        false
    }

    open spec fn try_from_spec(index_task_str: &'a str) -> Result<
        IndexingTask,
        IndexingTaskParseError,
    > {
        arbitrary()
    }
}

impl PartialEq for IndexingTask {
    /// Two tasks are equal exactly when both identifiers are.
    fn eq(&self, other: &IndexingTask) -> (equal: bool) {
        self.index_uid == other.index_uid && self.source_id == other.source_id
    }
}

impl PartialEqSpecImpl for IndexingTask {
    open spec fn obeys_eq_spec() -> bool {
        true
    }

    open spec fn eq_spec(&self, other: &IndexingTask) -> bool {
        self@ == other@
    }
}

impl Eq for IndexingTask {

}

/// Writing a task and reading the string back gives the task again, for
/// every task whose source identifier holds no delimiter.
pub proof fn lemma_wire_round_trip(task: TaskView)
    requires
        is_wire_safe(task),
    ensures
        parse_wire_string(wire_string(task)) == Ok::<TaskView, TaskParseErrorView>(task),
{
    let s = wire_string(task);
    let at = task.index_uid.len() as int;
    assert(s[at] == DELIMITER);
    assert forall|later: int| at < later < s.len() implies s[later] != DELIMITER by {
        assert(s[later] == task.source_id[later - at - 1]);
    }
    lemma_last_delimiter_is_unique(s, at);
    assert(s.subrange(0, at) =~= task.index_uid);
    assert(s.subrange(at + 1, s.len() as int) =~= task.source_id);
}

/// Reading a string and writing the task back gives the string again,
/// whenever the string is the wire string of a task.
pub proof fn lemma_parse_then_write(s: Seq<char>)
    requires
        parse_wire_string(s) is Ok,
    ensures
        wire_string(parse_wire_string(s)->Ok_0) == s,
        is_wire_safe(parse_wire_string(s)->Ok_0),
{
    let at = choose|at: int| 0 <= at < s.len() && s[at] == DELIMITER;
    lemma_some_delimiter_has_a_last(s, at);
    let last = last_delimiter(s);
    let task = parse_wire_string(s)->Ok_0;
    assert(wire_string(task) =~= s);
    assert forall|i: int| 0 <= i < task.source_id.len() implies task.source_id[i] != DELIMITER by {
        assert(task.source_id[i] == s[last + 1 + i]);
    }
}

/// A string that holds a delimiter has a last one.
pub proof fn lemma_some_delimiter_has_a_last(s: Seq<char>, at: int)
    requires
        0 <= at < s.len(),
        s[at] == DELIMITER,
    ensures
        is_last_delimiter(s, last_delimiter(s)),
        at <= last_delimiter(s),
    decreases s.len() - at,
{
    if exists|later: int| at < later < s.len() && s[later] == DELIMITER {
        let later = choose|later: int| at < later < s.len() && s[later] == DELIMITER;
        lemma_some_delimiter_has_a_last(s, later);
    } else {
        assert(is_last_delimiter(s, at));
        lemma_last_delimiter_is_unique(s, at);
    }
}

} // verus!
