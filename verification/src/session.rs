use crate::command::{Command, CommandView};
use crate::help::{help_on, help_text};
use crate::request::{
    parse_request, parse_search, parsed, parsed_search, Column, HelpTopic, Request, RequestError,
    RequestView,
};
use crate::search::{search_column_name, Results, ResultsView, SearchError, DOWN, OFF, UP};
use crate::store::{like_pattern, like_pattern_text, update_message, update_message_text, updated};
use crate::text::{begins_with, chars_of, starts_with};
use crate::variables::{
    extracted, printable_list, substituted, with_default, with_value, Variables, VariablesView,
};
use crate::command::{percent_encode, percent_encoded};
use crate::display::{display_user_variables, user_variables_text};
use vstd::prelude::*;

verus! {

/// A key as the terminal reports it.
#[derive(Clone, Copy, Debug, PartialEq, Eq, Structural)]
pub enum Key {
    /// Starts a search, or goes to the next search mode.
    CycleSearch,
    /// Takes the last character off the line.
    Backspace,
    /// Moves up in the results.
    Up,
    /// Moves down in the results.
    Down,
    /// Copies the current command, percent-encoded.
    CopyEncoded,
    /// Copies the current command.
    Copy,
    /// Asks for the text of the clipboard.
    Paste,
    /// A character for the line.
    Char(char),
    /// Leaves.
    Quit,
    /// Leaves the current mode.
    Escape,
    /// Shows the history.
    History,
    /// Confirms the line.
    Enter,
    /// Any other key.
    Other,
}

/// What is to be done outside after a step.
pub enum Effect {
    /// Nothing but the prompt.
    Prompt,
    /// Leave.
    Quit,
    /// Show the greeting.
    Banner,
    /// Show a text.
    Text { text: String },
    /// Show an error.
    Error { message: String },
    /// Show the results as a list.
    List,
    /// Show the results with the current one selected.
    Highlight,
    /// Put `text` on the clipboard; show the command, the printed list of its
    /// variables, and what was copied.
    Copy { command: Command, listing: String, text: String },
    /// Show the command, the printed list of its variables, and the message.
    Updated { command: Command, listing: String, message: String },
    /// Ask the clipboard for its text, and hand it to `pasted`.
    Paste,
    /// Ask the store for the commands whose column is like the pattern, and hand them
    /// to `search_finished` with the line.
    Search { store_column: String, pattern: String, line: String },
    /// Have the store add a command, and hand its commands to `insert_finished`.
    Insert { text: String, comment: String },
    /// Have the store change a column of the command with this identifier, and hand
    /// the request to `update_finished`.
    Update { id: i32, column: Column, name: String, content: String },
}

/// An effect, with its texts as sequences of characters.
pub enum EffectView {
    Prompt,
    Quit,
    Banner,
    Text { text: Seq<char> },
    Error { message: Seq<char> },
    List,
    Highlight,
    Copy { command: CommandView, listing: Seq<char>, text: Seq<char> },
    Updated { command: CommandView, listing: Seq<char>, message: Seq<char> },
    Paste,
    Search { store_column: Seq<char>, pattern: Seq<char>, line: Seq<char> },
    Insert { text: Seq<char>, comment: Seq<char> },
    Update { id: int, column: Column, name: Seq<char>, content: Seq<char> },
}

impl View for Effect {
    type V = EffectView;

    open spec fn view(&self) -> EffectView {
        match self {
            Effect::Prompt => EffectView::Prompt,
            Effect::Quit => EffectView::Quit,
            Effect::Banner => EffectView::Banner,
            Effect::Text { text } => EffectView::Text { text: text@ },
            Effect::Error { message } => EffectView::Error { message: message@ },
            Effect::List => EffectView::List,
            Effect::Highlight => EffectView::Highlight,
            Effect::Copy { command, listing, text } => EffectView::Copy {
                command: command@,
                listing: listing@,
                text: text@,
            },
            Effect::Updated { command, listing, message } => EffectView::Updated {
                command: command@,
                listing: listing@,
                message: message@,
            },
            Effect::Paste => EffectView::Paste,
            Effect::Search { store_column, pattern, line } => EffectView::Search {
                store_column: store_column@,
                pattern: pattern@,
                line: line@,
            },
            Effect::Insert { text, comment } => EffectView::Insert {
                text: text@,
                comment: comment@,
            },
            Effect::Update { id, column, name, content } => EffectView::Update {
                id: *id as int,
                column: *column,
                name: name@,
                content: content@,
            },
        }
    }
}

/// What is said where nothing is selected.
pub open spec fn nothing_selected_text() -> Seq<char> {
    "There isn't a command currently selected."@
}

/// What is said where the history is asked for and is empty.
pub open spec fn empty_history_text() -> Seq<char> {
    "History is currently empty."@
}

/// The error effect with a message.
pub open spec fn error_effect(message: Seq<char>) -> EffectView {
    EffectView::Error { message }
}

/// The search that a `search` line asks for in a column of the store: for the term
/// behind the word, anywhere in the column; an error for a line without a term.
pub open spec fn search_effect(store_column: Seq<char>, line: Seq<char>) -> EffectView {
    match parsed_search(line) {
        Ok(RequestView::Search { term }) => EffectView::Search {
            store_column,
            pattern: like_pattern_text(term),
            line,
        },
        _ => error_effect(RequestError::SearchWithoutTerm.message_text()),
    }
}

/// What a session holds: results and history, variables, and the line so far.
pub struct SessionView {
    pub results: ResultsView,
    pub variables: VariablesView,
    pub query: Seq<char>,
}

impl SessionView {
    /// What holds of every session.
    pub open spec fn wf(self) -> bool {
        self.results.wf()
    }

    /// The variables after a look at a command: the user variables as they were, the
    /// command variables those of the command.
    pub open spec fn looking_at(self, c: CommandView) -> VariablesView {
        VariablesView {
            user: self.variables.user,
            command: extracted(c.text, self.variables.user),
        }
    }

    /// The effect of copying a command: its text with the variables filled in goes to
    /// the clipboard, or the percent-encoded form of that.
    pub open spec fn copy_effect(self, c: CommandView, encoded: bool) -> EffectView {
        let filled = substituted(c.text, self.variables.user);
        EffectView::Copy {
            command: c,
            listing: printable_list(extracted(c.text, self.variables.user)),
            text: if encoded {
                percent_encoded(vstd::utf8::encode_utf8(filled))
            } else {
                filled
            },
        }
    }

    /// The search for the line so far while a search is going on: in the column of the
    /// search mode, for the line as the term.
    pub open spec fn live_search(self) -> EffectView {
        search_effect(search_column_name(self.results.search_mode), "search "@ + self.query)
    }

    /// After the key that starts a search or goes to the next search mode: the next
    /// mode, and an empty line.
    pub open spec fn after_cycle_search(self) -> (SessionView, EffectView) {
        (
            SessionView {
                results: self.results.with_next_search_mode(),
                query: Seq::empty(),
                ..self
            },
            EffectView::Prompt,
        )
    }

    /// After a change of the line: while a search is going on, a line that is not empty
    /// is searched for, and an empty one brings the greeting back.
    pub open spec fn after_typing(self, query: Seq<char>) -> (SessionView, EffectView) {
        let next = SessionView { query, ..self };
        (
            next,
            if self.results.search_mode == OFF {
                EffectView::Prompt
            } else if query.len() > 0 {
                next.live_search()
            } else {
                EffectView::Banner
            },
        )
    }

    /// After a move through the results.
    pub open spec fn after_move(self, direction: int) -> (SessionView, EffectView) {
        if self.results.results.len() == 0 {
            (self, error_effect(SearchError::EmptyResults.message_text()))
        } else {
            (
                SessionView { results: self.results.moved(direction), ..self },
                EffectView::Highlight,
            )
        }
    }

    /// After a copy key: with a history and a current result, that result is copied and
    /// becomes the command that is looked at.
    pub open spec fn after_copy(self, encoded: bool) -> (SessionView, EffectView) {
        if self.results.history.len() == 0 || self.results.results.len() == 0 {
            (self, error_effect(nothing_selected_text()))
        } else {
            let c = self.results.results[self.results.selected_result_index];
            (
                SessionView { variables: self.looking_at(c), ..self },
                self.copy_effect(c, encoded),
            )
        }
    }

    /// After the escape key: no results, no search, no selection, an empty line, and
    /// the help.
    pub open spec fn after_escape(self) -> (SessionView, EffectView) {
        (
            SessionView { results: self.results.cleared(), query: Seq::empty(), ..self },
            EffectView::Text { text: help_text(HelpTopic::General) },
        )
    }

    /// After a request for the history: it becomes the results, in history mode.
    pub open spec fn after_history(self) -> (SessionView, EffectView) {
        if self.results.history.len() == 0 {
            (self, error_effect(empty_history_text()))
        } else {
            (
                SessionView {
                    results: self.results.with_results(self.results.history).with_history_mode(
                        true,
                    ),
                    ..self
                },
                EffectView::List,
            )
        }
    }

    /// After a look at the current command of the history, which is copied.
    pub open spec fn after_info(self, missing: Seq<char>) -> (SessionView, EffectView) {
        if self.results.history.len() == 0 {
            (self, error_effect(missing))
        } else {
            let c = self.results.history[self.results.selected_history_index];
            (SessionView { variables: self.looking_at(c), ..self }, self.copy_effect(c, false))
        }
    }

    /// After a request.
    pub open spec fn after_request(self, request: RequestView) -> (SessionView, EffectView) {
        match request {
            RequestView::Add { command, comment } => (
                self,
                EffectView::Insert { text: command, comment },
            ),
            RequestView::Update { column, name, content } => if self.results.history.len() == 0 {
                (self, error_effect(empty_history_text()))
            } else {
                (
                    self,
                    EffectView::Update {
                        id: self.results.history[self.results.selected_history_index].id,
                        column,
                        name,
                        content,
                    },
                )
            },
            RequestView::Select => if self.results.results.len() == 0 {
                (self, error_effect(nothing_selected_text()))
            } else {
                let c = self.results.results[self.results.selected_result_index];
                (
                    SessionView {
                        results: self.results.added(c).with_search_mode(OFF as int),
                        variables: self.looking_at(c),
                        ..self
                    },
                    self.copy_effect(c, false),
                )
            },
            RequestView::History => self.after_history(),
            RequestView::SetVariable { key, value } => {
                let bound = SessionView {
                    variables: VariablesView {
                        user: with_value(self.variables.user, crate::text::uppercase(key), value),
                        command: with_default(self.variables.command, key, value),
                    },
                    ..self
                };
                bound.after_info(SearchError::EmptyHistory.message_text())
            },
            RequestView::Info => self.after_info(nothing_selected_text()),
            RequestView::Search { term } => (
                self,
                EffectView::Search {
                    store_column: "Cmd"@,
                    pattern: like_pattern_text(term),
                    line: self.query,
                },
            ),
            RequestView::Help { topic } => (self, EffectView::Text { text: help_text(topic) }),
            RequestView::Env => (
                self,
                EffectView::Text {
                    text: user_variables_text(printable_list(self.variables.user)),
                },
            ),
            RequestView::Exit => (self, EffectView::Quit),
        }
    }

    /// After the enter key: the history mode ends, the line is read and answered, and
    /// the line is empty again. An `update` line without a history is answered before
    /// it is read.
    pub open spec fn after_enter(self) -> (SessionView, EffectView) {
        let base = SessionView { results: self.results.with_history_mode(false), ..self };
        let answered = if starts_with(self.query, "update"@) && self.results.history.len() == 0 {
            (base, error_effect(empty_history_text()))
        } else {
            match parsed(self.query, self.results.selection_active) {
                Ok(request) => base.after_request(request),
                Err(e) => (base, error_effect(e.message_text())),
            }
        };
        (SessionView { query: Seq::empty(), ..answered.0 }, answered.1)
    }

    /// After a key.
    pub open spec fn after_key(self, key: Key) -> (SessionView, EffectView) {
        match key {
            Key::CycleSearch => self.after_cycle_search(),
            Key::Backspace => self.after_typing(
                if self.query.len() > 0 {
                    self.query.drop_last()
                } else {
                    self.query
                },
            ),
            Key::Up => self.after_move(UP as int),
            Key::Down => self.after_move(DOWN as int),
            Key::CopyEncoded => self.after_copy(true),
            Key::Copy => self.after_copy(false),
            Key::Paste => (self, EffectView::Paste),
            Key::Char(c) => self.after_typing(self.query.push(c)),
            Key::Quit => (self, EffectView::Quit),
            Key::Escape => self.after_escape(),
            Key::History => self.after_history(),
            Key::Enter => self.after_enter(),
            Key::Other => (self, EffectView::Prompt),
        }
    }

    /// After the clipboard gave its text: it stands at the end of the line, and the
    /// line is shown.
    pub open spec fn after_paste(self, text: Seq<char>) -> (SessionView, EffectView) {
        (
            SessionView { query: self.query + text, ..self },
            EffectView::Text { text: self.query + text },
        )
    }

    /// After the store answered a search: what it found becomes the results; where it
    /// found nothing, the session stays and the error names the line.
    pub open spec fn after_search(self, found: Seq<CommandView>, line: Seq<char>) -> (
        SessionView,
        EffectView,
    ) {
        if found.len() == 0 {
            (self, error_effect("No results found for "@ + line))
        } else {
            (SessionView { results: self.results.with_results(found), ..self }, EffectView::List)
        }
    }

    /// After the store added a command: its commands become the results, and the last
    /// of them, the new one, is copied and goes into the history.
    pub open spec fn after_insert(self, commands: Seq<CommandView>) -> (SessionView, EffectView) {
        if commands.len() == 0 {
            (self, EffectView::Prompt)
        } else {
            let c = commands.last();
            (
                SessionView {
                    results: self.results.with_results(commands).added(c),
                    variables: self.looking_at(c),
                    ..self
                },
                self.copy_effect(c, false),
            )
        }
    }

    /// After the store changed a column: the current command of the history takes the
    /// change, and is shown with the message.
    pub open spec fn after_update(
        self,
        column: Column,
        name: Seq<char>,
        content: Seq<char>,
        reference_id: int,
    ) -> (SessionView, EffectView) {
        if self.results.history.len() == 0 {
            (self, error_effect(empty_history_text()))
        } else {
            let c = updated(
                self.results.history[self.results.selected_history_index],
                column,
                content,
                reference_id,
            );
            (
                SessionView { results: self.results.added(c), variables: self.looking_at(c), ..self },
                EffectView::Updated {
                    command: c,
                    listing: printable_list(extracted(c.text, self.variables.user)),
                    message: update_message_text(column, name, content),
                },
            )
        }
    }
}

/// One sitting at the terminal: the results and the history, the variables, and the
/// line that is being typed.
pub struct Session {
    pub results: Results,
    pub variables: Variables,
    pub query: String,
}

impl View for Session {
    type V = SessionView;

    open spec fn view(&self) -> SessionView {
        SessionView { results: self.results@, variables: self.variables@, query: self.query@ }
    }
}

/// The effect that shows an error.
fn error(message: &str) -> (e: Effect)
    ensures
        e@ == error_effect(message@),
{
    Effect::Error { message: message.to_owned() }
}

/// Prepares the search that a `search` line asks for in a column of the store.
pub fn execute_search(search_column: String, search_term: String) -> (effect: Effect)
    ensures
        effect@ == search_effect(search_column@, search_term@),
{
    let chars = chars_of(search_term.as_str());
    match parse_search(&chars) {
        Ok(Request::Search { term }) => Effect::Search {
            store_column: search_column,
            pattern: like_pattern(term.as_str()),
            line: search_term,
        },
        _ => error(RequestError::SearchWithoutTerm.message().as_str()),
    }
}

impl Session {
    /// What holds of every session.
    pub open spec fn wf(&self) -> bool {
        self@.wf()
    }

    /// A session that has seen nothing yet.
    pub fn new() -> (s: Self)
        ensures
            s.wf(),
            s@.results == ResultsView::initial(),
            s@.variables.user.len() == 0,
            s@.variables.command.len() == 0,
            s@.query.len() == 0,
    {
        Session { results: Results::new(), variables: Variables::new(), query: String::new() }
    }

    /// Looks at a command and copies it.
    fn copy(&mut self, command: Command, encoded: bool) -> (effect: Effect)
        ensures
            final(self)@ == (SessionView {
                variables: old(self)@.looking_at(command@),
                ..old(self)@
            }),
            effect@ == old(self)@.copy_effect(command@, encoded),
    {
        let filled = self.variables.replace_variables_in_command(command.cmd.as_str());
        let text = if encoded {
            percent_encode(filled.as_str())
        } else {
            filled
        };
        let listing = self.variables.extract_variables_from_command(command.cmd.as_str());
        Effect::Copy { command, listing, text }
    }

    /// The search for the line so far, in the column of the search mode.
    fn live_search(&self) -> (effect: Effect)
        requires
            self.wf(),
            self@.results.search_mode != OFF,
        ensures
            effect@ == self@.live_search(),
    {
        let mut line = "search ".to_owned();
        line.append(self.query.as_str());
        execute_search(self.results.get_search_column(), line)
    }

    /// Answers a change of the line.
    fn typed(&mut self) -> (effect: Effect)
        requires
            old(self).wf(),
        ensures
            final(self)@ == old(self)@,
            effect@ == old(self)@.after_typing(old(self)@.query).1,
    {
        if self.results.get_search_mode() == OFF {
            Effect::Prompt
        } else if !self.query.as_str().is_empty() {
            self.live_search()
        } else {
            Effect::Banner
        }
    }

    /// Answers an arrow key.
    fn moved(&mut self, direction: i32) -> (effect: Effect)
        requires
            old(self).wf(),
            direction == UP || direction == DOWN,
        ensures
            final(self).wf(),
            (final(self)@, effect@) == old(self)@.after_move(direction as int),
    {
        match self.results.cycle_through_results(direction) {
            Ok(_) => Effect::Highlight,
            Err(e) => error(e.message().as_str()),
        }
    }

    /// Answers a copy key.
    fn copied(&mut self, encoded: bool) -> (effect: Effect)
        requires
            old(self).wf(),
        ensures
            final(self).wf(),
            (final(self)@, effect@) == old(self)@.after_copy(encoded),
    {
        if self.results.get_history().len() == 0 {
            return error("There isn't a command currently selected.");
        }
        match self.results.get_current_command() {
            Some(command) => self.copy(command, encoded),
            None => error("There isn't a command currently selected."),
        }
    }

    /// Answers a request for the history.
    fn show_history(&mut self) -> (effect: Effect)
        requires
            old(self).wf(),
        ensures
            final(self).wf(),
            (final(self)@, effect@) == old(self)@.after_history(),
    {
        let history = self.results.get_history();
        if history.len() == 0 {
            error("History is currently empty.")
        } else {
            self.results.set_results(history);
            self.results.set_history_mode(true);
            Effect::List
        }
    }

    /// Looks at the current command of the history; `missing` is said where there is none.
    fn info(&mut self, missing: &str) -> (effect: Effect)
        requires
            old(self).wf(),
        ensures
            final(self).wf(),
            (final(self)@, effect@) == old(self)@.after_info(missing@),
    {
        match self.results.get_selected_history_command() {
            Ok(command) => self.copy(command, false),
            Err(_) => error(missing),
        }
    }

    /// Answers a request.
    fn answer(&mut self, request: Request) -> (effect: Effect)
        requires
            old(self).wf(),
        ensures
            final(self).wf(),
            (final(self)@, effect@) == old(self)@.after_request(request@),
    {
        match request {
            Request::Add { command, comment } => Effect::Insert { text: command, comment },
            Request::Update { column, name, content } => {
                match self.results.get_current_history_command() {
                    Some(current) => Effect::Update { id: current.cmd_id, column, name, content },
                    None => error("History is currently empty."),
                }
            },
            Request::Select => {
                match self.results.get_current_command() {
                    Some(command) => {
                        self.results.add_command_to_history(command.clone());
                        self.results.set_search_mode(OFF);
                        self.copy(command, false)
                    },
                    None => error("There isn't a command currently selected."),
                }
            },
            Request::History => self.show_history(),
            Request::SetVariable { key, value } => {
                self.variables.set_user_variable(key, value);
                self.info(SearchError::EmptyHistory.message().as_str())
            },
            Request::Info => self.info("There isn't a command currently selected."),
            Request::Search { term } => Effect::Search {
                store_column: "Cmd".to_owned(),
                pattern: like_pattern(term.as_str()),
                line: self.query.clone(),
            },
            Request::Help { topic } => Effect::Text { text: help_on(topic) },
            Request::Env => Effect::Text { text: display_user_variables(&self.variables) },
            Request::Exit => Effect::Quit,
        }
    }

    /// Answers the enter key.
    fn entered(&mut self) -> (effect: Effect)
        requires
            old(self).wf(),
        ensures
            final(self).wf(),
            (final(self)@, effect@) == old(self)@.after_enter(),
    {
        let selecting = self.results.get_results_selection_mode();
        self.results.set_history_mode(false);
        let line = chars_of(self.query.as_str());
        let effect = if begins_with(&line, "update") && self.results.get_history().len() == 0 {
            error("History is currently empty.")
        } else {
            match parse_request(self.query.as_str(), selecting) {
                Ok(request) => self.answer(request),
                Err(e) => error(e.message().as_str()),
            }
        };
        self.query = String::new();
        effect
    }

    /// Takes a key: the session goes on, and the effect says what is to be done outside.
    pub fn handle_key(&mut self, key: Key) -> (effect: Effect)
        requires
            old(self).wf(),
        ensures
            final(self).wf(),
            (final(self)@, effect@) == old(self)@.after_key(key),
    {
        match key {
            Key::CycleSearch => {
                self.results.cycle_search_mode();
                self.query = String::new();
                Effect::Prompt
            },
            Key::Backspace => {
                let chars = chars_of(self.query.as_str());
                if chars.len() > 0 {
                    let shorter = crate::text::copy_range(&chars, 0, chars.len() - 1);
                    self.query = crate::text::string_of(&shorter);
                }
                self.typed()
            },
            Key::Up => self.moved(UP),
            Key::Down => self.moved(DOWN),
            Key::CopyEncoded => self.copied(true),
            Key::Copy => self.copied(false),
            Key::Paste => Effect::Paste,
            Key::Char(c) => {
                self.query.push(c);
                self.typed()
            },
            Key::Quit => Effect::Quit,
            Key::Escape => {
                self.results.reset();
                self.query = String::new();
                Effect::Text { text: help_on(HelpTopic::General) }
            },
            Key::History => self.show_history(),
            Key::Enter => self.entered(),
            Key::Other => Effect::Prompt,
        }
    }

    /// Takes the text of the clipboard.
    pub fn pasted(&mut self, text: &str) -> (effect: Effect)
        requires
            old(self).wf(),
        ensures
            final(self).wf(),
            (final(self)@, effect@) == old(self)@.after_paste(text@),
    {
        self.query.append(text);
        Effect::Text { text: self.query.clone() }
    }

    /// Takes what the store found for a search. `line` is the line of the search.
    pub fn search_finished(&mut self, found: Vec<Command>, line: &str) -> (effect: Effect)
        requires
            old(self).wf(),
        ensures
            final(self).wf(),
            (final(self)@, effect@) == old(self)@.after_search(found.deep_view(), line@),
    {
        if found.len() == 0 {
            let mut message = "No results found for ".to_owned();
            message.append(line);
            Effect::Error { message }
        } else {
            self.results.set_results(found);
            Effect::List
        }
    }

    /// Takes the commands of the store after it added one, the new one last.
    pub fn insert_finished(&mut self, commands: Vec<Command>) -> (effect: Effect)
        requires
            old(self).wf(),
        ensures
            final(self).wf(),
            (final(self)@, effect@) == old(self)@.after_insert(commands.deep_view()),
    {
        if commands.len() == 0 {
            return Effect::Prompt;
        }
        self.results.set_results(commands);
        match self.results.get_current_command() {
            Some(command) => {
                self.results.add_command_to_history(command.clone());
                self.copy(command, false)
            },
            None => Effect::Prompt,
        }
    }

    /// Takes the word of the store that a column was changed. For a new reference,
    /// `reference_id` is the identifier that the store gave to it.
    pub fn update_finished(
        &mut self,
        column: Column,
        name: &str,
        content: String,
        reference_id: i32,
    ) -> (effect: Effect)
        requires
            old(self).wf(),
        ensures
            final(self).wf(),
            (final(self)@, effect@) == old(self)@.after_update(
                column,
                name@,
                content@,
                reference_id as int,
            ),
    {
        match self.results.get_current_history_command() {
            Some(current) => {
                let mut command = current;
                let message = update_message(column, name, content.as_str());
                command.apply_update(column, content, reference_id);
                self.results.add_command_to_history(command.clone());
                let listing = self.variables.extract_variables_from_command(command.cmd.as_str());
                Effect::Updated { command, listing, message }
            },
            None => error("History is currently empty."),
        }
    }
}

} // verus!
