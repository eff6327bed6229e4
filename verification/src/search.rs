use crate::command::{clone_commands, clone_tags, Command, CommandView};
use crate::display::{highlight_search_result, highlighted_text, Palette};
use vstd::prelude::*;

verus! {

/// No search is going on.
pub const OFF: i32 = -1;

/// Searching the text of the commands.
pub const COMMAND_SEARCH: i32 = 0;

/// Searching the comments of the commands.
pub const COMMENT_SEARCH: i32 = 1;

/// How many search modes there are to cycle through.
pub const SEARCH_MODE_COUNT: i32 = 2;

/// The direction of a move towards the start of the list.
pub const UP: i32 = 1;

/// The direction of a move towards the end of the list.
pub const DOWN: i32 = -1;

/// Why a request on a session could not be met.
#[derive(Clone, Copy, Debug, PartialEq, Eq, Structural)]
pub enum SearchError {
    /// No command has been selected so far.
    EmptyHistory,
    /// There is no result to move through.
    EmptyResults,
}

impl SearchError {
    /// The words for `self`.
    pub open spec fn message_text(self) -> Seq<char> {
        match self {
            SearchError::EmptyHistory => "History is empty."@,
            SearchError::EmptyResults => "Search results are empty."@,
        }
    }

    /// The message to show.
    pub fn message(&self) -> (m: String)
        ensures
            m@ == self.message_text(),
    {
        match self {
            SearchError::EmptyHistory => "History is empty.".to_owned(),
            SearchError::EmptyResults => "Search results are empty.".to_owned(),
        }
    }
}

/// The index of the first command from `i` on with this identifier, or the length of `list`.
pub open spec fn id_index_from(list: Seq<CommandView>, id: int, i: int) -> int
    decreases list.len() - i,
{
    if 0 <= i < list.len() && list[i].id != id {
        id_index_from(list, id, i + 1)
    } else {
        i
    }
}

/// The index of the first command with this identifier, or the length of `list`.
pub open spec fn id_index(list: Seq<CommandView>, id: int) -> int {
    id_index_from(list, id, 0)
}

/// No two commands of `list` have the same identifier.
pub open spec fn distinct_ids(list: Seq<CommandView>) -> bool {
    forall|i: int, j: int|
        0 <= i < j < list.len() ==> (#[trigger] list[i]).id != (#[trigger] list[j]).id
}

/// A kept command brought up to date: text, comment, author and references of `new`,
/// the rest of `kept`.
pub open spec fn merged(kept: CommandView, new: CommandView) -> CommandView {
    CommandView {
        id: kept.id,
        text: new.text,
        comment: new.comment,
        author: new.author,
        references: new.references,
        tags: kept.tags,
    }
}

/// The index before `i` in a circle of `len` places.
pub open spec fn index_above(i: int, len: int) -> int {
    if i == 0 {
        len - 1
    } else {
        i - 1
    }
}

/// The index behind `i` in a circle of `len` places.
pub open spec fn index_below(i: int, len: int) -> int {
    if i == len - 1 {
        0
    } else {
        i + 1
    }
}

/// The search mode that follows `mode` when the search key is pressed.
pub open spec fn next_search_mode(mode: int) -> int {
    (mode + 1) % (SEARCH_MODE_COUNT as int)
}

/// The words for a search mode.
pub open spec fn search_mode_name(mode: int) -> Seq<char> {
    if mode == COMMAND_SEARCH {
        "command"@
    } else {
        "comment"@
    }
}

/// The column of the store that a search mode looks in.
pub open spec fn search_column_name(mode: int) -> Seq<char> {
    if mode == COMMAND_SEARCH {
        "Cmd"@
    } else {
        "cmnt"@
    }
}

/// What a session holds.
pub struct ResultsView {
    /// What the last search found, or the history where that was asked for.
    pub results: Seq<CommandView>,
    /// The commands that were selected, each identifier once.
    pub history: Seq<CommandView>,
    /// `OFF`, or the mode of the search that is going on.
    pub search_mode: int,
    /// Whether the results are the history.
    pub history_mode: bool,
    /// Whether the arrow keys have moved into the results.
    pub selection_active: bool,
    /// The place of the current result, -1 where there is no result.
    pub selected_result_index: int,
    /// The place of the current command in the history, -1 where the history is empty.
    pub selected_history_index: int,
}

impl ResultsView {
    /// What holds of every session.
    pub open spec fn wf(self) -> bool {
        &&& OFF <= self.search_mode < SEARCH_MODE_COUNT
        &&& if self.results.len() == 0 {
            self.selected_result_index == -1
        } else {
            0 <= self.selected_result_index < self.results.len()
        }
        &&& if self.history.len() == 0 {
            self.selected_history_index == -1
        } else {
            0 <= self.selected_history_index < self.history.len()
        }
        &&& self.selection_active ==> self.results.len() > 0
        &&& distinct_ids(self.history)
    }

    /// A session that has seen nothing yet.
    pub open spec fn initial() -> ResultsView {
        ResultsView {
            results: Seq::empty(),
            history: Seq::empty(),
            search_mode: OFF as int,
            history_mode: false,
            selection_active: false,
            selected_result_index: -1,
            selected_history_index: -1,
        }
    }

    /// The session without results, search and selection; the history stays.
    pub open spec fn cleared(self) -> ResultsView {
        ResultsView {
            results: Seq::empty(),
            search_mode: OFF as int,
            history_mode: false,
            selection_active: false,
            selected_result_index: -1,
            ..self
        }
    }

    /// The session with new results, the last of them current, and no selection.
    pub open spec fn with_results(self, list: Seq<CommandView>) -> ResultsView {
        ResultsView {
            results: list,
            selection_active: false,
            selected_result_index: list.len() - 1,
            ..self
        }
    }

    /// The session with the history mode set; entering it ends the selection.
    pub open spec fn with_history_mode(self, state: bool) -> ResultsView {
        ResultsView {
            history_mode: state,
            selection_active: self.selection_active && !state,
            ..self
        }
    }

    /// The session with the search switched off, which ends the selection, or switched
    /// on in the first mode.
    pub open spec fn with_search_mode(self, state: int) -> ResultsView {
        if state == OFF {
            ResultsView { search_mode: OFF as int, selection_active: false, ..self }
        } else {
            ResultsView { search_mode: COMMAND_SEARCH as int, ..self }
        }
    }

    /// The session in the next search mode.
    pub open spec fn with_next_search_mode(self) -> ResultsView {
        ResultsView { search_mode: next_search_mode(self.search_mode), ..self }
    }

    /// The session after a move through results that are not empty. The first move
    /// starts the selection, at the last result for `UP` and at the first for `DOWN`;
    /// each later one goes one place up or down, in a circle.
    pub open spec fn moved(self, direction: int) -> ResultsView {
        let len = self.results.len() as int;
        let index = if !self.selection_active {
            if direction == UP {
                len - 1
            } else {
                0
            }
        } else if direction == UP {
            index_above(self.selected_result_index, len)
        } else {
            index_below(self.selected_result_index, len)
        };
        ResultsView { selection_active: true, selected_result_index: index, ..self }
    }

    /// The session after `n` moves in one direction.
    pub open spec fn moved_times(self, direction: int, n: nat) -> ResultsView
        decreases n,
    {
        if n == 0 {
            self
        } else {
            self.moved(direction).moved_times(direction, (n - 1) as nat)
        }
    }

    /// The session with `c` in its history and current there: brought up to date where
    /// the history has a command of this identifier, added at the end where it has none.
    pub open spec fn added(self, c: CommandView) -> ResultsView {
        let i = id_index(self.history, c.id);
        if i < self.history.len() {
            ResultsView {
                history: self.history.update(i, merged(self.history[i], c)),
                selected_history_index: i,
                ..self
            }
        } else {
            ResultsView {
                history: self.history.push(c),
                selected_history_index: self.history.len() as int,
                ..self
            }
        }
    }

    /// What the prompt shows of the session's mode.
    pub open spec fn mode_text(self) -> Seq<char> {
        if self.search_mode != OFF {
            "find["@ + search_mode_name(self.search_mode) + "]"@
        } else if self.history_mode {
            "history"@
        } else {
            Seq::empty()
        }
    }
}

/// A session: the results of the last search, the history of selected commands, and
/// where in each the user is.
pub struct Results {
    results: Vec<Command>,
    history: Vec<Command>,
    search_mode: i32,
    history_mode: bool,
    results_selection_mode: bool,
    selected_result_index: usize,
    selected_history_index: usize,
}

impl View for Results {
    type V = ResultsView;

    closed spec fn view(&self) -> ResultsView {
        ResultsView {
            results: self.results.deep_view(),
            history: self.history.deep_view(),
            search_mode: self.search_mode as int,
            history_mode: self.history_mode,
            selection_active: self.results_selection_mode,
            selected_result_index: if self.results.len() == 0 {
                -1
            } else {
                self.selected_result_index as int
            },
            selected_history_index: if self.history.len() == 0 {
                -1
            } else {
                self.selected_history_index as int
            },
        }
    }
}

impl Results {
    /// What holds of every session.
    pub open spec fn wf(&self) -> bool {
        self@.wf()
    }

    /// A session that has seen nothing yet.
    pub fn new() -> (r: Self)
        ensures
            r.wf(),
            r@ == ResultsView::initial(),
    {
        let r = Results {
            history: Vec::new(),
            results: Vec::new(),
            search_mode: OFF,
            history_mode: false,
            selected_result_index: 0,
            selected_history_index: 0,
            results_selection_mode: false,
        };
        assert(r.history.deep_view() =~= Seq::empty());
        r
    }

    /// The command that is current in the history.
    pub fn get_selected_history_command(&self) -> (r: Result<Command, SearchError>)
        requires
            self.wf(),
        ensures
            match r {
                Ok(c) => self@.history.len() > 0 && c@ == self@.history[self@.selected_history_index],
                Err(e) => self@.history.len() == 0 && e == SearchError::EmptyHistory,
            },
    {
        if self.history.len() == 0 {
            Err(SearchError::EmptyHistory)
        } else {
            Ok(self.history[self.selected_history_index].clone())
        }
    }

    /// Drops the results, the search and the selection. The history stays.
    pub fn reset(&mut self)
        requires
            old(self).wf(),
        ensures
            final(self).wf(),
            final(self)@ == old(self)@.cleared(),
    {
        self.results.clear();
        self.search_mode = OFF;
        self.results_selection_mode = false;
        self.history_mode = false;
        self.selected_result_index = 0;
        assert(self.results.deep_view() =~= Seq::empty());
    }

    /// Takes new results in the place of the old ones. The last one is current, and
    /// no selection is going on.
    pub fn set_results(&mut self, current_results: Vec<Command>)
        requires
            old(self).wf(),
        ensures
            final(self).wf(),
            final(self)@ == old(self)@.with_results(current_results.deep_view()),
    {
        self.results = current_results;
        self.results_selection_mode = false;
        self.selected_result_index = if self.results.len() == 0 {
            0
        } else {
            self.results.len() - 1
        };
    }

    /// Sets the history mode. Entering it ends the selection.
    pub fn set_history_mode(&mut self, state: bool)
        requires
            old(self).wf(),
        ensures
            final(self).wf(),
            final(self)@ == old(self)@.with_history_mode(state),
    {
        self.history_mode = state;
        if state {
            self.results_selection_mode = false;
        }
    }

    /// Switches the search off, which ends the selection, or on in the first mode.
    pub fn set_search_mode(&mut self, state: i32)
        requires
            old(self).wf(),
        ensures
            final(self).wf(),
            final(self)@ == old(self)@.with_search_mode(state as int),
    {
        if state == OFF {
            self.search_mode = OFF;
            self.results_selection_mode = false;
        } else {
            self.search_mode = COMMAND_SEARCH;
        }
    }

    /// `OFF`, or the mode of the search that is going on.
    pub fn get_search_mode(&self) -> (mode: i32)
        ensures
            mode == self@.search_mode,
    {
        self.search_mode
    }

    /// The column of the store that the search looks in.
    pub fn get_search_column(&self) -> (column: String)
        requires
            self.wf(),
            self@.search_mode != OFF,
        ensures
            column@ == search_column_name(self@.search_mode),
    {
        if self.search_mode == COMMAND_SEARCH {
            "Cmd".to_owned()
        } else {
            "cmnt".to_owned()
        }
    }

    /// Whether the arrow keys have moved into the results.
    pub fn get_results_selection_mode(&self) -> (active: bool)
        ensures
            active == self@.selection_active,
    {
        self.results_selection_mode
    }

    /// A copy of the history.
    pub fn get_history(&self) -> (list: Vec<Command>)
        ensures
            list.deep_view() == self@.history,
    {
        clone_commands(&self.history)
    }

    /// A copy of the results.
    pub fn get_results(&self) -> (list: Vec<Command>)
        ensures
            list.deep_view() == self@.results,
    {
        clone_commands(&self.results)
    }

    /// The place of the current result, where there is a result.
    pub fn get_selected_result_index(&self) -> (index: Option<usize>)
        requires
            self.wf(),
        ensures
            match index {
                Some(i) => i == self@.selected_result_index,
                None => self@.results.len() == 0,
            },
    {
        if self.results.len() == 0 {
            None
        } else {
            Some(self.selected_result_index)
        }
    }

    /// The place of the current command in the history, where the history is not empty.
    pub fn get_selected_history_index(&self) -> (index: Option<usize>)
        requires
            self.wf(),
        ensures
            match index {
                Some(i) => i == self@.selected_history_index,
                None => self@.history.len() == 0,
            },
    {
        if self.history.len() == 0 {
            None
        } else {
            Some(self.selected_history_index)
        }
    }

    /// Whether the results are the history.
    pub fn get_history_mode(&self) -> (state: bool)
        ensures
            state == self@.history_mode,
    {
        self.history_mode
    }

    /// The current result, where there is a result.
    pub fn get_current_command(&self) -> (r: Option<Command>)
        requires
            self.wf(),
        ensures
            match r {
                Some(c) => self@.results.len() > 0 && c@ == self@.results[self@.selected_result_index],
                None => self@.results.len() == 0,
            },
    {
        if self.results.len() != 0 {
            Some(self.results[self.selected_result_index].clone())
        } else {
            None
        }
    }

    /// The command that is current in the history, where the history is not empty.
    pub fn get_current_history_command(&self) -> (r: Option<Command>)
        requires
            self.wf(),
        ensures
            match r {
                Some(c) => self@.history.len() > 0 && c@ == self@.history[self@.selected_history_index],
                None => self@.history.len() == 0,
            },
    {
        if self.history.len() != 0 {
            Some(self.history[self.selected_history_index].clone())
        } else {
            None
        }
    }

    /// What the prompt shows of the mode: `find[command]` or `find[comment]` while a
    /// search is going on, else `history` in history mode, else nothing.
    pub fn get_current_mode(&self) -> (mode: String)
        requires
            self.wf(),
        ensures
            mode@ == self@.mode_text(),
    {
        if self.search_mode == COMMAND_SEARCH {
            let mut mode = "find[".to_owned();
            mode.append("command");
            mode.append("]");
            mode
        } else if self.search_mode == COMMENT_SEARCH {
            let mut mode = "find[".to_owned();
            mode.append("comment");
            mode.append("]");
            mode
        } else if self.history_mode {
            "history".to_owned()
        } else {
            String::new()
        }
    }

    /// Shows the results with the current one selected, for a screen of this size.
    pub fn highlight_current_selection(&self, width: u16, height: u16, palette: &Palette) -> (out:
        String)
        requires
            self.wf(),
            self@.results.len() > 0,
        ensures
            out@ == highlighted_text(
                self@.results,
                self@.selected_result_index,
                width as int,
                height as int,
                palette@,
            ),
    {
        highlight_search_result(self.selected_result_index, &self.results, width, height, palette)
    }

    /// Goes to the next search mode: from `OFF` to the first, from the last to the first.
    pub fn cycle_search_mode(&mut self)
        requires
            old(self).wf(),
        ensures
            final(self).wf(),
            final(self)@ == old(self)@.with_next_search_mode(),
    {
        self.search_mode = (self.search_mode + 1) % SEARCH_MODE_COUNT;
    }

    /// Moves through the results. Without results nothing changes and the error says so.
    pub fn cycle_through_results(&mut self, direction: i32) -> (r: Result<(), SearchError>)
        requires
            old(self).wf(),
            direction == UP || direction == DOWN,
        ensures
            final(self).wf(),
            match r {
                Ok(_) => old(self)@.results.len() > 0 && final(self)@ == old(self)@.moved(
                    direction as int,
                ),
                Err(e) => old(self)@.results.len() == 0 && e == SearchError::EmptyResults
                    && final(self)@ == old(self)@,
            },
    {
        let len = self.results.len();
        if len == 0 {
            return Err(SearchError::EmptyResults);
        }
        if self.results_selection_mode {
            if direction == UP {
                self.selected_result_index = if self.selected_result_index == 0 {
                    len - 1
                } else {
                    self.selected_result_index - 1
                };
            } else {
                self.selected_result_index = if self.selected_result_index == len - 1 {
                    0
                } else {
                    self.selected_result_index + 1
                };
            }
        } else {
            self.results_selection_mode = true;
            self.selected_result_index = if direction == UP {
                len - 1
            } else {
                0
            };
        }
        Ok(())
    }

    /// Puts `command` into the history and makes it current there. Where the history
    /// has a command of this identifier, that one takes the text, comment, author and
    /// references of `command`; where it has none, `command` is added at the end.
    pub fn add_command_to_history(&mut self, command: Command)
        requires
            old(self).wf(),
        ensures
            final(self).wf(),
            final(self)@ == old(self)@.added(command@),
    {
        let mut i: usize = 0;
        while i < self.history.len() && self.history[i].cmd_id != command.cmd_id
            invariant
                i <= self.history.len(),
                *self == *old(self),
                id_index_from(self@.history, command@.id, i as int) == id_index(
                    self@.history,
                    command@.id,
                ),
                forall|j: int| 0 <= j < i ==> (#[trigger] self@.history[j]).id != command@.id,
            decreases self.history.len() - i,
        {
            i += 1;
        }
        if i < self.history.len() {
            let kept_id = self.history[i].cmd_id;
            let kept_tags = clone_tags(&self.history[i].tags);
            let ghost kept = self@.history[i as int];
            let merged_command = Command {
                cmd_id: kept_id,
                cmd: command.cmd,
                cmnt: command.cmnt,
                author: command.author,
                references: command.references,
                tags: kept_tags,
            };
            self.history.set(i, merged_command);
            self.selected_history_index = i;
            assert(self@.history =~= old(self)@.history.update(i as int, merged(kept, command@)));
        } else {
            self.history.push(command);
            self.selected_history_index = i;
            assert(self@.history =~= old(self)@.history.push(command@));
        }
    }
}

} // verus!
