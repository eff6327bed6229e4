use crate::text::{
    begins_with, chars_of, contains_text, copy_range, find, find_text, has_text, join_words,
    joined_from, lemma_find_from, lemma_part_occurs, split_words, starts_with,
    string_of, texts, words,
};
use vstd::prelude::*;

verus! {

/// What of a command an update changes.
#[derive(Clone, Copy, Debug, PartialEq, Eq, Structural)]
pub enum Column {
    Comment,
    Author,
    Command,
    References,
}

/// What a help request asks about.
#[derive(Clone, Copy, Debug, PartialEq, Eq, Structural)]
pub enum HelpTopic {
    Add,
    Search,
    General,
}

/// Why a line is no request.
#[derive(Clone, Copy, Debug, PartialEq, Eq, Structural)]
pub enum RequestError {
    /// `add` without ` -c ` and a command behind it.
    AddWithoutCommand,
    /// `add` whose first `-d` stands before the end of its first `-c`.
    AddOutOfOrder,
    /// `update` without a column.
    UpdateWithoutColumn,
    /// `update` with a column and nothing behind it.
    UpdateWithoutValue,
    /// `update` with a column that is none of the four.
    UpdateUnknownColumn,
    /// `set` without a variable.
    SetWithoutVariable,
    /// `set` with a variable and no value.
    SetWithoutValue,
    /// `search` without a term.
    SearchWithoutTerm,
    /// A line that begins with no known word.
    UnknownCommand,
}

/// What a confirmed line asks for.
pub enum Request {
    /// Store a new command with its comment.
    Add { command: String, comment: String },
    /// Change the current command of the history: the column, the word that named it,
    /// and the new content.
    Update { column: Column, name: String, content: String },
    /// Take the result that the selection stands on.
    Select,
    /// Show the history as results.
    History,
    /// Bind a user variable.
    SetVariable { key: String, value: String },
    /// Show the current command of the history.
    Info,
    /// Search the text of the commands.
    Search { term: String },
    /// Show the help.
    Help { topic: HelpTopic },
    /// Show the user variables.
    Env,
    /// Leave.
    Exit,
}

/// A request, with its texts as sequences of characters.
pub enum RequestView {
    Add { command: Seq<char>, comment: Seq<char> },
    Update { column: Column, name: Seq<char>, content: Seq<char> },
    Select,
    History,
    SetVariable { key: Seq<char>, value: Seq<char> },
    Info,
    Search { term: Seq<char> },
    Help { topic: HelpTopic },
    Env,
    Exit,
}

impl View for Request {
    type V = RequestView;

    open spec fn view(&self) -> RequestView {
        match self {
            Request::Add { command, comment } => RequestView::Add {
                command: command@,
                comment: comment@,
            },
            Request::Update { column, name, content } => RequestView::Update {
                column: *column,
                name: name@,
                content: content@,
            },
            Request::Select => RequestView::Select,
            Request::History => RequestView::History,
            Request::SetVariable { key, value } => RequestView::SetVariable { key: key@, value: value@ },
            Request::Info => RequestView::Info,
            Request::Search { term } => RequestView::Search { term: term@ },
            Request::Help { topic } => RequestView::Help { topic: *topic },
            Request::Env => RequestView::Env,
            Request::Exit => RequestView::Exit,
        }
    }
}

/// The column that a word names: the first of `comment`, `author`, `command` and
/// `references` that stands somewhere in it.
pub open spec fn column_of(word: Seq<char>) -> Option<Column> {
    if contains_text(word, "comment"@) {
        Some(Column::Comment)
    } else if contains_text(word, "author"@) {
        Some(Column::Author)
    } else if contains_text(word, "command"@) {
        Some(Column::Command)
    } else if contains_text(word, "references"@) {
        Some(Column::References)
    } else {
        None
    }
}

/// What a help request asks about: adding where `add` stands in the line, else
/// searching where `search` does, else everything.
pub open spec fn help_topic(line: Seq<char>) -> HelpTopic {
    if contains_text(line, "add"@) {
        HelpTopic::Add
    } else if contains_text(line, "search"@) {
        HelpTopic::Search
    } else {
        HelpTopic::General
    }
}

/// An `add` line. The command starts three characters behind the first `-c`. With
/// ` -d ` in the line, the command ends one character before the first `-d` and the
/// comment starts three characters behind it; without, the comment is `None`.
pub open spec fn parsed_add(line: Seq<char>) -> Result<RequestView, RequestError> {
    if !contains_text(line, " -c "@) {
        Err(RequestError::AddWithoutCommand)
    } else {
        let start = find(line, "-c"@)->0 + 3;
        if contains_text(line, " -d "@) {
            let mark = find(line, "-d"@)->0;
            if start <= mark - 1 {
                Ok(
                    RequestView::Add {
                        command: line.subrange(start, mark - 1),
                        comment: line.subrange(mark + 3, line.len() as int),
                    },
                )
            } else {
                Err(RequestError::AddOutOfOrder)
            }
        } else {
            Ok(
                RequestView::Add {
                    command: line.subrange(start, line.len() as int),
                    comment: "None"@,
                },
            )
        }
    }
}

/// An `update` line: its second word names the column, the words behind it, with one
/// space between each two, are the content.
pub open spec fn parsed_update(line: Seq<char>) -> Result<RequestView, RequestError> {
    let ws = words(line);
    if ws.len() < 2 {
        Err(RequestError::UpdateWithoutColumn)
    } else if ws.len() < 3 {
        Err(RequestError::UpdateWithoutValue)
    } else {
        match column_of(ws[1]) {
            Some(column) => Ok(
                RequestView::Update { column, name: ws[1], content: joined_from(ws, 2) },
            ),
            None => Err(RequestError::UpdateUnknownColumn),
        }
    }
}

/// A `set` line: its second word is the variable, its third the value.
pub open spec fn parsed_set(line: Seq<char>) -> Result<RequestView, RequestError> {
    let ws = words(line);
    if ws.len() < 2 {
        Err(RequestError::SetWithoutVariable)
    } else if ws.len() < 3 {
        Err(RequestError::SetWithoutValue)
    } else {
        Ok(RequestView::SetVariable { key: ws[1], value: ws[2] })
    }
}

/// The length of `search` and the one character behind it.
pub const SEARCH_WORD_LENGTH: usize = 7;

/// A `search` line of two words or more: the term is what stands behind the first
/// seven characters.
pub open spec fn parsed_search(line: Seq<char>) -> Result<RequestView, RequestError> {
    if words(line).len() < 2 || line.len() < SEARCH_WORD_LENGTH {
        Err(RequestError::SearchWithoutTerm)
    } else {
        Ok(RequestView::Search { term: line.subrange(SEARCH_WORD_LENGTH as int, line.len() as int) })
    }
}

/// What a confirmed line asks for. `add` and `update` come first; then, while a
/// selection is going on, any other line takes the selected result; then the other
/// words, each recognised at the start of the line.
pub open spec fn parsed(line: Seq<char>, selecting: bool) -> Result<RequestView, RequestError> {
    if starts_with(line, "add"@) {
        parsed_add(line)
    } else if starts_with(line, "update"@) {
        parsed_update(line)
    } else if selecting {
        Ok(RequestView::Select)
    } else if starts_with(line, "hist"@) {
        Ok(RequestView::History)
    } else if starts_with(line, "set"@) {
        parsed_set(line)
    } else if starts_with(line, "info"@) {
        Ok(RequestView::Info)
    } else if starts_with(line, "search"@) {
        parsed_search(line)
    } else if starts_with(line, "help"@) {
        Ok(RequestView::Help { topic: help_topic(line) })
    } else if starts_with(line, "env"@) {
        Ok(RequestView::Env)
    } else if starts_with(line, "exit"@) {
        Ok(RequestView::Exit)
    } else {
        Err(RequestError::UnknownCommand)
    }
}

/// The result is what `expected` says: the same request, or the same error.
pub open spec fn agrees(
    r: Result<Request, RequestError>,
    expected: Result<RequestView, RequestError>,
) -> bool {
    match r {
        Ok(request) => expected == Ok::<RequestView, RequestError>(request@),
        Err(e) => expected == Err::<RequestView, RequestError>(e),
    }
}

impl RequestError {
    /// The words for `self`.
    pub open spec fn message_text(self) -> Seq<char> {
        match self {
            RequestError::AddWithoutCommand => "To add a command to the database you must include -c followed by the command\n\r-d with a description of the command is optional"@,
            RequestError::AddOutOfOrder => "To add a command to the database you must include -c followed by the command\n\r-d with a description of the command is optional"@,
            RequestError::UpdateWithoutColumn => "Check that you've entered a correct column name"@,
            RequestError::UpdateWithoutValue => "Check that you've entered a correct column name"@,
            RequestError::UpdateUnknownColumn => "Check that you've entered a correct column name"@,
            RequestError::SetWithoutVariable => "You must supply a variable"@,
            RequestError::SetWithoutValue => "You must supply a value"@,
            RequestError::SearchWithoutTerm => "No search term entered"@,
            RequestError::UnknownCommand => "Command not found."@,
        }
    }

    /// The message to show.
    pub fn message(&self) -> (m: String)
        ensures
            m@ == self.message_text(),
    {
        match self {
            RequestError::AddWithoutCommand => "To add a command to the database you must include -c followed by the command\n\r-d with a description of the command is optional".to_owned(),
            RequestError::AddOutOfOrder => "To add a command to the database you must include -c followed by the command\n\r-d with a description of the command is optional".to_owned(),
            RequestError::UpdateWithoutColumn => "Check that you've entered a correct column name".to_owned(),
            RequestError::UpdateWithoutValue => "Check that you've entered a correct column name".to_owned(),
            RequestError::UpdateUnknownColumn => "Check that you've entered a correct column name".to_owned(),
            RequestError::SetWithoutVariable => "You must supply a variable".to_owned(),
            RequestError::SetWithoutValue => "You must supply a value".to_owned(),
            RequestError::SearchWithoutTerm => "No search term entered".to_owned(),
            RequestError::UnknownCommand => "Command not found.".to_owned(),
        }
    }
}

/// The column that a word names.
pub fn find_column(word: &Vec<char>) -> (r: Option<Column>)
    ensures
        r == column_of(word@),
{
    if has_text(word, "comment") {
        Some(Column::Comment)
    } else if has_text(word, "author") {
        Some(Column::Author)
    } else if has_text(word, "command") {
        Some(Column::Command)
    } else if has_text(word, "references") {
        Some(Column::References)
    } else {
        None
    }
}

/// What a help line asks about.
pub fn find_help_topic(line: &Vec<char>) -> (r: HelpTopic)
    ensures
        r == help_topic(line@),
{
    if has_text(line, "add") {
        HelpTopic::Add
    } else if has_text(line, "search") {
        HelpTopic::Search
    } else {
        HelpTopic::General
    }
}

/// A line that holds a flag between two spaces holds the flag alone no later, with
/// room for the flag and one more character.
proof fn lemma_flag(line: Seq<char>, spaced: Seq<char>, flag: Seq<char>)
    requires
        contains_text(line, spaced),
        spaced.len() == 4,
        flag == spaced.subrange(1, 3),
    ensures
        find(line, flag) is Some,
        find(line, flag)->0 + 3 <= line.len(),
{
    lemma_find_from(line, spaced, 0);
    let at = find(line, spaced)->0;
    lemma_part_occurs(line, spaced, at, 1, 3);
    lemma_find_from(line, flag, 0);
}

/// Reads an `add` line.
pub fn parse_add(line: &Vec<char>) -> (r: Result<Request, RequestError>)
    ensures
        agrees(r, parsed_add(line@)),
{
    if !has_text(line, " -c ") {
        return Err(RequestError::AddWithoutCommand);
    }
    proof {
        reveal_strlit(" -c ");
        reveal_strlit("-c");
        assert("-c"@ =~= " -c "@.subrange(1, 3));
        lemma_flag(line@, " -c "@, "-c"@);
    }
    let start = match find_text(line, "-c") {
        Some(at) => at + 3,
        None => {
            return Err(RequestError::AddWithoutCommand);
        },
    };
    if has_text(line, " -d ") {
        proof {
            reveal_strlit(" -d ");
            reveal_strlit("-d");
            assert("-d"@ =~= " -d "@.subrange(1, 3));
            lemma_flag(line@, " -d "@, "-d"@);
        }
        let mark = match find_text(line, "-d") {
            Some(at) => at,
            None => {
                return Err(RequestError::AddOutOfOrder);
            },
        };
        if mark >= 1 && start <= mark - 1 {
            let command = copy_range(line, start, mark - 1);
            let comment = copy_range(line, mark + 3, line.len());
            Ok(Request::Add { command: string_of(&command), comment: string_of(&comment) })
        } else {
            Err(RequestError::AddOutOfOrder)
        }
    } else {
        let command = copy_range(line, start, line.len());
        Ok(Request::Add { command: string_of(&command), comment: "None".to_owned() })
    }
}

/// Reads an `update` line.
pub fn parse_update(line: &Vec<char>) -> (r: Result<Request, RequestError>)
    ensures
        agrees(r, parsed_update(line@)),
{
    let ws = split_words(line);
    if ws.len() < 2 {
        Err(RequestError::UpdateWithoutColumn)
    } else if ws.len() < 3 {
        Err(RequestError::UpdateWithoutValue)
    } else {
        match find_column(&ws[1]) {
            Some(column) => {
                let content = join_words(&ws, 2);
                Ok(Request::Update { column, name: string_of(&ws[1]), content: string_of(&content) })
            },
            None => Err(RequestError::UpdateUnknownColumn),
        }
    }
}

/// Reads a `set` line.
pub fn parse_set(line: &Vec<char>) -> (r: Result<Request, RequestError>)
    ensures
        agrees(r, parsed_set(line@)),
{
    let ws = split_words(line);
    if ws.len() < 2 {
        Err(RequestError::SetWithoutVariable)
    } else if ws.len() < 3 {
        Err(RequestError::SetWithoutValue)
    } else {
        Ok(Request::SetVariable { key: string_of(&ws[1]), value: string_of(&ws[2]) })
    }
}

/// Reads a `search` line.
pub fn parse_search(line: &Vec<char>) -> (r: Result<Request, RequestError>)
    ensures
        agrees(r, parsed_search(line@)),
{
    let ws = split_words(line);
    if ws.len() < 2 || line.len() < SEARCH_WORD_LENGTH {
        Err(RequestError::SearchWithoutTerm)
    } else {
        let term = copy_range(line, SEARCH_WORD_LENGTH, line.len());
        Ok(Request::Search { term: string_of(&term) })
    }
}

/// Reads a confirmed line. `selecting` tells whether a selection is going on.
pub fn parse_request(line: &str, selecting: bool) -> (r: Result<Request, RequestError>)
    ensures
        agrees(r, parsed(line@, selecting)),
{
    let text = chars_of(line);
    if begins_with(&text, "add") {
        parse_add(&text)
    } else if begins_with(&text, "update") {
        parse_update(&text)
    } else if selecting {
        Ok(Request::Select)
    } else if begins_with(&text, "hist") {
        Ok(Request::History)
    } else if begins_with(&text, "set") {
        parse_set(&text)
    } else if begins_with(&text, "info") {
        Ok(Request::Info)
    } else if begins_with(&text, "search") {
        parse_search(&text)
    } else if begins_with(&text, "help") {
        Ok(Request::Help { topic: find_help_topic(&text) })
    } else if begins_with(&text, "env") {
        Ok(Request::Env)
    } else if begins_with(&text, "exit") {
        Ok(Request::Exit)
    } else {
        Err(RequestError::UnknownCommand)
    }
}

} // verus!
