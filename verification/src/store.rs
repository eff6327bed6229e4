use crate::command::{Command, CommandView, ReferenceView, References};
use crate::request::Column;
use crate::search::id_index;
use vstd::prelude::*;

verus! {

/// One row of what the store answers to a search: a command, and one of its references.
pub struct CommandRow {
    pub cmd_id: i32,
    pub cmd: String,
    pub cmnt: String,
    pub author: String,
    pub ref_id: i32,
    pub ref_value: String,
}

/// A row, as numbers and texts.
pub struct CommandRowView {
    pub id: int,
    pub text: Seq<char>,
    pub comment: Seq<char>,
    pub author: Seq<char>,
    pub reference: ReferenceView,
}

impl View for CommandRow {
    type V = CommandRowView;

    open spec fn view(&self) -> CommandRowView {
        CommandRowView {
            id: self.cmd_id as int,
            text: self.cmd@,
            comment: self.cmnt@,
            author: self.author@,
            reference: ReferenceView { id: self.ref_id as int, value: self.ref_value@ },
        }
    }
}

impl DeepView for CommandRow {
    type V = CommandRowView;

    open spec fn deep_view(&self) -> CommandRowView {
        self@
    }
}

/// The command of a row, with the reference of the row as its only one.
pub open spec fn command_of(row: CommandRowView) -> CommandView {
    CommandView {
        id: row.id,
        text: row.text,
        comment: row.comment,
        author: row.author,
        references: seq![row.reference],
        tags: Seq::empty(),
    }
}

/// A command with one more reference.
pub open spec fn with_reference(c: CommandView, r: ReferenceView) -> CommandView {
    CommandView { references: c.references.push(r), ..c }
}

/// The commands with one more row taken in: its reference goes to the first command of
/// its identifier, or a new command comes at the end.
pub open spec fn with_row(list: Seq<CommandView>, row: CommandRowView) -> Seq<CommandView> {
    let i = id_index(list, row.id);
    if i < list.len() {
        list.update(i, with_reference(list[i], row.reference))
    } else {
        list.push(command_of(row))
    }
}

/// The commands with the rows from index `i` on taken in, one after the other.
pub open spec fn with_rows(list: Seq<CommandView>, rows: Seq<CommandRowView>, i: int) -> Seq<
    CommandView,
>
    decreases rows.len() - i,
{
    if 0 <= i < rows.len() {
        with_rows(with_row(list, rows[i]), rows, i + 1)
    } else {
        list
    }
}

/// The commands that some rows stand for: one for each identifier, in the order of
/// first occurrence, each with the references of its rows in their order.
pub open spec fn grouped(rows: Seq<CommandRowView>) -> Seq<CommandView> {
    with_rows(Seq::empty(), rows, 0)
}

/// The term of a search between two `%`, which lets it stand anywhere in a column.
pub open spec fn like_pattern_text(term: Seq<char>) -> Seq<char> {
    seq!['%'] + term + seq!['%']
}

/// What is shown after an update: which column took which content.
pub open spec fn update_message_text(column: Column, name: Seq<char>, content: Seq<char>) -> Seq<
    char,
> {
    if column == Column::References {
        "Added "@ + content + " to references\n\r"@
    } else {
        "Updated "@ + name + ": "@ + content + "\n\r"@
    }
}

/// A command after an update of one column. `reference_id` is the identifier that the
/// store gave to a new reference.
pub open spec fn updated(c: CommandView, column: Column, content: Seq<char>, reference_id: int) -> CommandView {
    match column {
        Column::Comment => CommandView { comment: content, ..c },
        Column::Author => CommandView { author: content, ..c },
        Column::Command => CommandView { text: content, ..c },
        Column::References => with_reference(
            c,
            ReferenceView { id: reference_id, value: content },
        ),
    }
}

/// A command as the store has it right after it was added.
pub open spec fn added_command(id: int, text: Seq<char>, comment: Seq<char>) -> CommandView {
    CommandView {
        id,
        text,
        comment,
        author: Seq::empty(),
        references: Seq::empty(),
        tags: Seq::empty(),
    }
}

/// The index of the first command with this identifier, or the length of `list`.
pub fn find_command(list: &Vec<Command>, id: i32) -> (i: usize)
    ensures
        i == id_index(list.deep_view(), id as int),
        i <= list.len(),
{
    let mut i: usize = 0;
    while i < list.len() && list[i].cmd_id != id
        invariant
            i <= list.len(),
            crate::search::id_index_from(list.deep_view(), id as int, i as int) == id_index(
                list.deep_view(),
                id as int,
            ),
        decreases list.len() - i,
    {
        i += 1;
    }
    i
}

/// Groups the rows of an answer into commands with their references.
pub fn group_rows(rows: &Vec<CommandRow>) -> (list: Vec<Command>)
    ensures
        list.deep_view() == grouped(rows.deep_view()),
{
    let mut list: Vec<Command> = Vec::new();
    let mut i: usize = 0;
    assert(list.deep_view() =~= Seq::empty());
    while i < rows.len()
        invariant
            i <= rows.len(),
            with_rows(list.deep_view(), rows.deep_view(), i as int) == grouped(rows.deep_view()),
        decreases rows.len() - i,
    {
        let row = &rows[i];
        let at = find_command(&list, row.cmd_id);
        let reference = References { ref_id: row.ref_id, ref_value: row.ref_value.clone() };
        let ghost before = list.deep_view();
        if at < list.len() {
            let mut command = list.remove(at);
            command.references.push(reference);
            assert(command@ == with_reference(before[at as int], row@.reference)) by {
                assert(command@.references =~= before[at as int].references.push(row@.reference));
            }
            list.insert(at, command);
            assert(list.deep_view() =~= with_row(before, row@));
        } else {
            let mut references: Vec<References> = Vec::new();
            references.push(reference);
            let command = Command {
                cmd_id: row.cmd_id,
                cmd: row.cmd.clone(),
                cmnt: row.cmnt.clone(),
                author: row.author.clone(),
                references,
                tags: Vec::new(),
            };
            assert(command@ == command_of(row@)) by {
                assert(command@.references =~= seq![row@.reference]);
                assert(command@.tags =~= Seq::empty());
            }
            list.push(command);
            assert(list.deep_view() =~= with_row(before, row@));
        }
        i += 1;
    }
    list
}

/// The term of a search between two `%`.
pub fn like_pattern(term: &str) -> (pattern: String)
    ensures
        pattern@ == like_pattern_text(term@),
{
    let mut pattern = String::new();
    pattern.push('%');
    pattern.append(term);
    pattern.push('%');
    pattern
}

/// What is shown after an update.
pub fn update_message(column: Column, name: &str, content: &str) -> (m: String)
    ensures
        m@ == update_message_text(column, name@, content@),
{
    match column {
        Column::References => {
            let mut m = "Added ".to_owned();
            m.append(content);
            m.append(" to references\n\r");
            m
        },
        _ => {
            let mut m = "Updated ".to_owned();
            m.append(name);
            m.append(": ");
            m.append(content);
            m.append("\n\r");
            m
        },
    }
}

impl Command {
    /// A command as the store has it right after it was added: no author, no
    /// references, no tags.
    pub fn added(id: i32, text: String, comment: String) -> (c: Command)
        ensures
            c@ == added_command(id as int, text@, comment@),
    {
        let c = Command {
            cmd_id: id,
            cmd: text,
            cmnt: comment,
            author: String::new(),
            references: Vec::new(),
            tags: Vec::new(),
        };
        assert(c@.references =~= Seq::empty());
        assert(c@.tags =~= Seq::empty());
        c
    }

    /// Takes an update of one column. For a new reference, `reference_id` is the
    /// identifier that the store gave to it.
    pub fn apply_update(&mut self, column: Column, content: String, reference_id: i32)
        ensures
            final(self)@ == updated(old(self)@, column, content@, reference_id as int),
    {
        match column {
            Column::Comment => {
                self.cmnt = content;
            },
            Column::Author => {
                self.author = content;
            },
            Column::Command => {
                self.cmd = content;
            },
            Column::References => {
                self.references.push(References { ref_id: reference_id, ref_value: content });
                assert(self@.references =~= old(self)@.references.push(
                    ReferenceView { id: reference_id as int, value: content@ },
                ));
            },
        }
    }
}

} // verus!
