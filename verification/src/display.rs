use crate::command::{Command, CommandView, ReferenceView, References};
use crate::numbers::{integer_text, natural_text, push_integer, push_natural};
use crate::terminal::{
    background_code, background_rgb, background_rgb_code, background_white, blinking_bar,
    blinking_bar_code, clear_after, clear_after_code, clear_all, clear_all_code, clear_line,
    clear_line_code, colour_or_nothing, foreground_black, foreground_code, foreground_red,
    foreground_rgb, foreground_rgb_code, goto, goto_code, left, left_code, reset_background,
    reset_background_code, reset_foreground, reset_foreground_code,
};
use crate::text::chars_of;
use crate::variables::{extracted, printable_list, Variables};
use vstd::prelude::*;
use vstd::utf8::encode_utf8;

verus! {

/// The rows of the screen that are kept free of results.
pub const RESERVED_ROWS: usize = 10;

/// The columns of a line that are kept free of the text of a command.
pub const RESERVED_COLUMNS: usize = 9;

/// The control sequences that colour what is shown, as the terminal wants them.
pub struct Palette {
    /// Background of a heading.
    pub heading_bg: String,
    /// Foreground of a heading.
    pub heading_fg: String,
    /// Back to the terminal's own foreground.
    pub reset_fg: String,
    /// Back to the terminal's own background.
    pub reset_bg: String,
    /// Background of the selected result and of copied text.
    pub highlight_bg: String,
    /// Foreground of the selected result and of copied text.
    pub highlight_fg: String,
    /// Foreground of a label and of the prompt.
    pub label_fg: String,
    /// Foreground of an error.
    pub error_fg: String,
    /// Foreground of the identifier in the prompt.
    pub selected_fg: String,
    /// Foreground of the mode in the prompt.
    pub mode_fg: String,
}

/// A palette, as texts.
pub struct PaletteView {
    pub heading_bg: Seq<char>,
    pub heading_fg: Seq<char>,
    pub reset_fg: Seq<char>,
    pub reset_bg: Seq<char>,
    pub highlight_bg: Seq<char>,
    pub highlight_fg: Seq<char>,
    pub label_fg: Seq<char>,
    pub error_fg: Seq<char>,
    pub selected_fg: Seq<char>,
    pub mode_fg: Seq<char>,
}

impl View for Palette {
    type V = PaletteView;

    open spec fn view(&self) -> PaletteView {
        PaletteView {
            heading_bg: self.heading_bg@,
            heading_fg: self.heading_fg@,
            reset_fg: self.reset_fg@,
            reset_bg: self.reset_bg@,
            highlight_bg: self.highlight_bg@,
            highlight_fg: self.highlight_fg@,
            label_fg: self.label_fg@,
            error_fg: self.error_fg@,
            selected_fg: self.selected_fg@,
            mode_fg: self.mode_fg@,
        }
    }
}

impl PaletteView {
    /// The colours of this program as the terminal library writes them: for each its
    /// sequence, or nothing where the environment has colours switched off; the two
    /// resets are always written.
    pub open spec fn suits_terminal(self) -> bool {
        &&& colour_or_nothing(self.heading_bg, background_code(7))
        &&& colour_or_nothing(self.heading_fg, foreground_code(0))
        &&& self.reset_fg == reset_foreground_code()
        &&& self.reset_bg == reset_background_code()
        &&& colour_or_nothing(self.highlight_bg, background_rgb_code(165, 93, 53))
        &&& colour_or_nothing(self.highlight_fg, foreground_rgb_code(255, 255, 153))
        &&& colour_or_nothing(self.label_fg, foreground_rgb_code(165, 93, 53))
        &&& colour_or_nothing(self.error_fg, foreground_code(1))
        &&& colour_or_nothing(self.selected_fg, foreground_rgb_code(255, 255, 71))
        &&& colour_or_nothing(self.mode_fg, foreground_rgb_code(204, 204, 0))
    }
}

impl Palette {
    /// The colours of this program, as the terminal library writes them here and now.
    pub fn for_terminal() -> (p: Palette)
        ensures
            p@.suits_terminal(),
    {
        Palette {
            heading_bg: background_white(),
            heading_fg: foreground_black(),
            reset_fg: reset_foreground(),
            reset_bg: reset_background(),
            highlight_bg: background_rgb(165, 93, 53),
            highlight_fg: foreground_rgb(255, 255, 153),
            label_fg: foreground_rgb(165, 93, 53),
            error_fg: foreground_red(),
            selected_fg: foreground_rgb(255, 255, 71),
            mode_fg: foreground_rgb(204, 204, 0),
        }
    }
}

/// How many results fit on a screen of `height` rows.
pub open spec fn available_rows(height: int) -> int {
    if height > RESERVED_ROWS {
        height - RESERVED_ROWS
    } else {
        0
    }
}

/// How many characters of a command fit on a line of a screen of `width` columns.
pub open spec fn text_columns(width: int) -> int {
    if width > RESERVED_COLUMNS {
        width - RESERVED_COLUMNS
    } else {
        0
    }
}

/// A text cut off behind `max` characters.
pub open spec fn clipped(s: Seq<char>, max: int) -> Seq<char> {
    if s.len() <= max {
        s
    } else if max > 0 {
        s.take(max)
    } else {
        Seq::empty()
    }
}

/// The first and the last index of the results that are shown around a selected one:
/// all of them where they fit; else, for a selection among the first that fit, those
/// and one more; else the selected one and as many before it as fit.
pub open spec fn highlight_window(len: int, selected: int, available: int) -> (int, int) {
    if len > available {
        if selected < available {
            (0, available)
        } else {
            (selected - available, selected)
        }
    } else {
        (0, len - 1)
    }
}

/// The first and the last index of the results that are shown of a list: all of them
/// where they fit, else the last ones, one more than fit.
pub open spec fn list_window(len: int, available: int) -> (int, int) {
    if len > available {
        (len - available - 1, len - 1)
    } else {
        (0, len - 1)
    }
}

/// The line for a result: its identifier in brackets, and its text as far as it fits.
pub open spec fn result_line(c: CommandView, width: int) -> Seq<char> {
    seq!['('] + integer_text(c.id) + ") - "@ + clipped(c.text, text_columns(width)) + "\n\r"@
}

/// The line for the selected result: as for any result, in the colours of the selection.
pub open spec fn selected_line(c: CommandView, width: int, p: PaletteView) -> Seq<char> {
    p.highlight_bg + p.highlight_fg + seq!['('] + integer_text(c.id) + ") - "@ + clipped(
        c.text,
        text_columns(width),
    ) + p.reset_fg + p.reset_bg + "\n\r"@
}

/// The line for the result at index `i`, empty where it is outside the window.
pub open spec fn shown_line(
    list: Seq<CommandView>,
    i: int,
    window: (int, int),
    selected: int,
    width: int,
    p: PaletteView,
) -> Seq<char> {
    if window.0 <= i <= window.1 {
        if i == selected {
            selected_line(list[i], width, p)
        } else {
            result_line(list[i], width)
        }
    } else {
        Seq::empty()
    }
}

/// The lines for the results from index `i` on.
pub open spec fn shown_lines(
    list: Seq<CommandView>,
    i: int,
    window: (int, int),
    selected: int,
    width: int,
    p: PaletteView,
) -> Seq<char>
    decreases list.len() - i,
{
    if 0 <= i < list.len() {
        shown_line(list, i, window, selected, width, p) + shown_lines(
            list,
            i + 1,
            window,
            selected,
            width,
            p,
        )
    } else {
        Seq::empty()
    }
}

/// A heading in its colours.
pub open spec fn heading(text: Seq<char>, p: PaletteView) -> Seq<char> {
    p.heading_bg + p.heading_fg + text + p.reset_fg + p.reset_bg
}

/// The line under the results: which one, of how many.
pub open spec fn count_line(position: int, len: int, p: PaletteView) -> Seq<char> {
    "\n\rResults: "@ + p.heading_bg + p.heading_fg + natural_text(position as nat) + " / "@
        + natural_text(len as nat) + "\n\r"@ + p.reset_fg + p.reset_bg
}

/// The results with one of them selected: its comment as a heading, the results of the
/// window, and the count.
pub open spec fn highlighted_text(
    list: Seq<CommandView>,
    selected: int,
    width: int,
    height: int,
    p: PaletteView,
) -> Seq<char> {
    heading("Comment: "@ + list[selected].comment + "\n\r"@, p) + shown_lines(
        list,
        0,
        highlight_window(list.len() as int, selected, available_rows(height)),
        selected,
        width,
        p,
    ) + count_line(selected + 1, list.len() as int, p)
}

/// What the heading above a list says.
pub open spec fn list_heading() -> Seq<char> {
    "Select a result with the up/down arrow keys. Press enter to copy to the clipboard\n\r"@
}

/// A list of results: a heading, the results of the window, and the count.
pub open spec fn list_text(list: Seq<CommandView>, width: int, height: int, p: PaletteView) -> Seq<
    char,
> {
    let window = list_window(list.len() as int, available_rows(height));
    heading(list_heading(), p) + shown_lines(list, 0, window, -1, width, p) + count_line(
        window.0 + 1,
        list.len() as int,
        p,
    )
}

/// A label in its colour, and what it stands before.
pub open spec fn labelled(label: Seq<char>, value: Seq<char>, p: PaletteView) -> Seq<char> {
    p.label_fg + label + p.reset_fg + ": "@ + value + "\n\r"@
}

/// The references from index `i` on, one on each line.
pub open spec fn reference_lines(list: Seq<ReferenceView>, i: int) -> Seq<char>
    decreases list.len() - i,
{
    if 0 <= i < list.len() {
        list[i].value + "\n\r"@ + reference_lines(list, i + 1)
    } else {
        Seq::empty()
    }
}

/// The references of a command under their label; nothing for a command without.
pub open spec fn references_block(list: Seq<ReferenceView>, p: PaletteView) -> Seq<char> {
    if list.len() == 0 {
        Seq::empty()
    } else {
        p.label_fg + "references"@ + p.reset_fg + " :\n\r"@ + reference_lines(list, 0)
    }
}

/// The printed variables of a command under their heading; nothing where there is none.
pub open spec fn variables_block(listing: Seq<char>) -> Seq<char> {
    if listing.len() == 0 {
        Seq::empty()
    } else {
        "\n\rVariables \n\r----------------------------\n\r"@ + listing
    }
}

/// All that is shown of one command, with the printed list of its variables.
pub open spec fn command_info_text(c: CommandView, listing: Seq<char>, p: PaletteView) -> Seq<
    char,
> {
    labelled("Command id "@, integer_text(c.id), p) + labelled("author     "@, c.author, p)
        + labelled("comment    "@, c.comment, p) + labelled("command    "@, c.text, p)
        + references_block(c.references, p) + "\n\r"@ + variables_block(listing) + "\n\r "@
}

/// The printed user variables under their heading; nothing where there is none.
pub open spec fn user_variables_text(listing: Seq<char>) -> Seq<char> {
    if listing.len() == 0 {
        Seq::empty()
    } else {
        "\n\rUser Variables\n\r----------------------------\n\r"@ + listing + "\n\r"@
    }
}

/// An error in its colour.
pub open spec fn error_text(message: Seq<char>, p: PaletteView) -> Seq<char> {
    p.error_fg + message + p.reset_fg + "\n\r"@
}

/// The note that a text went to the clipboard.
pub open spec fn copy_text(copied: Seq<char>, p: PaletteView) -> Seq<char> {
    "copied: "@ + p.highlight_bg + p.highlight_fg + copied + p.reset_fg + p.reset_bg
        + " to clipboard\n\r"@
}

/// The name in the prompt, with the identifier of the current result in brackets where
/// there is one.
pub open spec fn prompt_name(selected: Seq<char>, p: PaletteView) -> Seq<char> {
    if selected.len() == 0 {
        p.label_fg + "redOx"@
    } else {
        p.label_fg + "redOx["@ + p.selected_fg + selected + p.label_fg + "]"@
    }
}

/// The mode in the prompt, in round brackets where there is one, and a colon.
pub open spec fn prompt_mode(mode: Seq<char>, p: PaletteView) -> Seq<char> {
    if mode.len() == 0 {
        seq![':']
    } else {
        seq!['('] + p.mode_fg + mode + p.label_fg + "):"@
    }
}

/// The prompt: the name, the mode, and the line so far.
pub open spec fn prompt_text(
    selected: Seq<char>,
    mode: Seq<char>,
    line: Seq<char>,
    p: PaletteView,
) -> Seq<char> {
    prompt_name(selected, p) + prompt_mode(mode, p) + p.reset_fg + line
}

/// The largest number that a cursor movement takes.
pub const LARGEST_MOVE: u16 = 65535;

/// How far the cursor is sent to the left before the prompt is written: one more than
/// the bytes of name, mode and line, and no further than the largest move.
pub open spec fn prompt_shift(
    selected: Seq<char>,
    mode: Seq<char>,
    line: Seq<char>,
    p: PaletteView,
) -> int {
    let bytes = encode_utf8(prompt_name(selected, p)).len() + encode_utf8(
        prompt_mode(mode, p),
    ).len() + encode_utf8(line).len() + 1;
    if bytes < LARGEST_MOVE {
        bytes as int
    } else {
        LARGEST_MOVE as int
    }
}

/// All that is written for the prompt on a screen of `height` rows: the cursor goes to
/// the start of the last row, what stands there is cleared, the prompt is written, and
/// the cursor becomes a blinking bar.
pub open spec fn prompt_frame(
    selected: Seq<char>,
    mode: Seq<char>,
    line: Seq<char>,
    height: int,
    p: PaletteView,
) -> Seq<char> {
    goto_code(1, height) + left_code(prompt_shift(selected, mode, line, p)) + clear_after_code()
        + prompt_text(selected, mode, line, p) + blinking_bar_code()
}

/// How many line feeds stand in `s` from index `i` on.
pub open spec fn line_feeds_from(s: Seq<char>, i: int) -> nat
    decreases s.len() - i,
{
    if 0 <= i < s.len() {
        (if s[i] == '\n' {
            1nat
        } else {
            0nat
        }) + line_feeds_from(s, i + 1)
    } else {
        0
    }
}

/// How many lines a text has: one for each line feed, and one for what stands behind
/// the last of them.
pub open spec fn line_count(s: Seq<char>) -> nat {
    line_feeds_from(s, 0) + if s.len() > 0 && s.last() != '\n' {
        1nat
    } else {
        0nat
    }
}

/// The row at which a text is written so that it ends at the bottom of a screen of
/// `height` rows; none for a text of more lines than that.
pub open spec fn output_row_of(text: Seq<char>, height: int) -> Option<int> {
    if line_count(text) > height {
        None
    } else {
        Some(height - line_count(text) + 1)
    }
}

/// All that is written for a text on a screen of `height` rows: the cursor goes to the
/// row, the text follows, the rest of its last line is cleared, and a new line starts.
/// None for a text that has more lines than the screen has rows.
pub open spec fn output_frame(text: Seq<char>, height: int) -> Option<Seq<char>> {
    match output_row_of(text, height) {
        Some(row) => Some(
            goto_code(
                1,
                if row < LARGEST_MOVE {
                    row
                } else {
                    LARGEST_MOVE as int
                },
            ) + text + clear_line_code() + "\n\r"@,
        ),
        None => None,
    }
}

/// Appends a text, cut off behind `max` characters.
fn push_clipped(out: &mut String, text: &str, max: usize)
    ensures
        final(out)@ == old(out)@ + clipped(text@, max as int),
{
    let chars = chars_of(text);
    let mut i: usize = 0;
    while i < chars.len() && i < max
        invariant
            i <= chars.len(),
            i <= max,
            chars@ == text@,
            out@ == old(out)@ + chars@.take(i as int),
        decreases chars.len() - i,
    {
        out.push(chars[i]);
        i += 1;
    }
}

/// Appends the line for a result.
fn push_result_line(out: &mut String, c: &Command, width: u16)
    ensures
        final(out)@ == old(out)@ + result_line(c@, width as int),
{
    let columns: usize = if width as usize > RESERVED_COLUMNS {
        width as usize - RESERVED_COLUMNS
    } else {
        0
    };
    out.push('(');
    push_integer(out, c.cmd_id);
    out.append(") - ");
    push_clipped(out, c.cmd.as_str(), columns);
    out.append("\n\r");
}

/// Appends the line for the selected result.
fn push_selected_line(out: &mut String, c: &Command, width: u16, palette: &Palette)
    ensures
        final(out)@ == old(out)@ + selected_line(c@, width as int, palette@),
{
    let columns: usize = if width as usize > RESERVED_COLUMNS {
        width as usize - RESERVED_COLUMNS
    } else {
        0
    };
    out.append(palette.highlight_bg.as_str());
    out.append(palette.highlight_fg.as_str());
    out.push('(');
    push_integer(out, c.cmd_id);
    out.append(") - ");
    push_clipped(out, c.cmd.as_str(), columns);
    out.append(palette.reset_fg.as_str());
    out.append(palette.reset_bg.as_str());
    out.append("\n\r");
}

/// Appends a heading in its colours.
fn push_heading(out: &mut String, text: &str, palette: &Palette)
    ensures
        final(out)@ == old(out)@ + heading(text@, palette@),
{
    out.append(palette.heading_bg.as_str());
    out.append(palette.heading_fg.as_str());
    out.append(text);
    out.append(palette.reset_fg.as_str());
    out.append(palette.reset_bg.as_str());
}

/// Appends the line under the results.
fn push_count_line(out: &mut String, position: usize, len: usize, palette: &Palette)
    ensures
        final(out)@ == old(out)@ + count_line(position as int, len as int, palette@),
{
    out.append("\n\rResults: ");
    out.append(palette.heading_bg.as_str());
    out.append(palette.heading_fg.as_str());
    push_natural(out, position as u64);
    out.append(" / ");
    push_natural(out, len as u64);
    out.append("\n\r");
    out.append(palette.reset_fg.as_str());
    out.append(palette.reset_bg.as_str());
}

/// Appends the lines of the results that lie in the window from `first` to `last`.
fn push_shown_lines(
    out: &mut String,
    list: &Vec<Command>,
    first: usize,
    last: usize,
    selected: Option<usize>,
    width: u16,
    palette: &Palette,
)
    ensures
        final(out)@ == old(out)@ + shown_lines(
            list.deep_view(),
            0,
            (first as int, last as int),
            match selected {
                Some(s) => s as int,
                None => -1,
            },
            width as int,
            palette@,
        ),
{
    let ghost window = (first as int, last as int);
    let ghost chosen: int = match selected {
        Some(s) => s as int,
        None => -1,
    };
    let mut i: usize = 0;
    while i < list.len()
        invariant
            i <= list.len(),
            window == (first as int, last as int),
            chosen == match selected {
                Some(s) => s as int,
                None => -1,
            },
            out@ + shown_lines(list.deep_view(), i as int, window, chosen, width as int, palette@)
                == old(out)@ + shown_lines(
                list.deep_view(),
                0,
                window,
                chosen,
                width as int,
                palette@,
            ),
        decreases list.len() - i,
    {
        if first <= i && i <= last {
            let is_selected = match selected {
                Some(s) => s == i,
                None => false,
            };
            if is_selected {
                push_selected_line(out, &list[i], width, palette);
            } else {
                push_result_line(out, &list[i], width);
            }
        }
        i += 1;
    }
}

/// How many results fit on a screen of `height` rows.
pub fn rows_for_results(height: u16) -> (rows: usize)
    ensures
        rows == available_rows(height as int),
{
    if height as usize > RESERVED_ROWS {
        height as usize - RESERVED_ROWS
    } else {
        0
    }
}

/// Shows the results with one of them selected, for a screen of this size.
pub fn highlight_search_result(
    selected_index: usize,
    results: &Vec<Command>,
    width: u16,
    height: u16,
    palette: &Palette,
) -> (out: String)
    requires
        selected_index < results.len(),
    ensures
        out@ == highlighted_text(
            results.deep_view(),
            selected_index as int,
            width as int,
            height as int,
            palette@,
        ),
{
    let available = rows_for_results(height);
    let len = results.len();
    let first: usize;
    let last: usize;
    if len > available {
        if selected_index < available {
            first = 0;
            last = available;
        } else {
            first = selected_index - available;
            last = selected_index;
        }
    } else {
        first = 0;
        last = len - 1;
    }
    let mut out = String::new();
    let mut title = "Comment: ".to_owned();
    title.append(results[selected_index].cmnt.as_str());
    title.append("\n\r");
    push_heading(&mut out, title.as_str(), palette);
    push_shown_lines(&mut out, results, first, last, Some(selected_index), width, palette);
    push_count_line(&mut out, selected_index + 1, len, palette);
    out
}

/// Shows a list of results, for a screen of this size.
pub fn display_selectable_list(
    selectable_list: &Vec<Command>,
    width: u16,
    height: u16,
    palette: &Palette,
) -> (out: String)
    requires
        selectable_list.len() > 0,
    ensures
        out@ == list_text(selectable_list.deep_view(), width as int, height as int, palette@),
{
    let available = rows_for_results(height);
    let len = selectable_list.len();
    let first: usize = if len > available {
        len - available - 1
    } else {
        0
    };
    let mut out = String::new();
    push_heading(
        &mut out,
        "Select a result with the up/down arrow keys. Press enter to copy to the clipboard\n\r",
        palette,
    );
    push_shown_lines(&mut out, selectable_list, first, len - 1, None, width, palette);
    push_count_line(&mut out, first + 1, len, palette);
    out
}

/// Appends a label and what it stands before.
fn push_labelled(out: &mut String, label: &str, value: &str, palette: &Palette)
    ensures
        final(out)@ == old(out)@ + labelled(label@, value@, palette@),
{
    out.append(palette.label_fg.as_str());
    out.append(label);
    out.append(palette.reset_fg.as_str());
    out.append(": ");
    out.append(value);
    out.append("\n\r");
}

/// Appends the references of a command under their label.
fn push_references(out: &mut String, list: &Vec<References>, palette: &Palette)
    ensures
        final(out)@ == old(out)@ + references_block(list.deep_view(), palette@),
{
    if list.len() == 0 {
        return ;
    }
    out.append(palette.label_fg.as_str());
    out.append("references");
    out.append(palette.reset_fg.as_str());
    out.append(" :\n\r");
    let ghost start = out@;
    let mut i: usize = 0;
    while i < list.len()
        invariant
            i <= list.len(),
            out@ + reference_lines(list.deep_view(), i as int) == start + reference_lines(
                list.deep_view(),
                0,
            ),
        decreases list.len() - i,
    {
        out.append(list[i].ref_value.as_str());
        out.append("\n\r");
        i += 1;
    }
}

/// Shows all of one command, with the printed list of its variables.
pub fn command_info(command: &Command, listing: &str, palette: &Palette) -> (out: String)
    ensures
        out@ == command_info_text(command@, listing@, palette@),
{
    let mut out = String::new();
    let mut id = String::new();
    push_integer(&mut id, command.cmd_id);
    push_labelled(&mut out, "Command id ", id.as_str(), palette);
    push_labelled(&mut out, "author     ", command.author.as_str(), palette);
    push_labelled(&mut out, "comment    ", command.cmnt.as_str(), palette);
    push_labelled(&mut out, "command    ", command.cmd.as_str(), palette);
    push_references(&mut out, &command.references, palette);
    out.append("\n\r");
    if !listing.is_empty() {
        out.append("\n\rVariables \n\r----------------------------\n\r");
        out.append(listing);
    }
    out.append("\n\r ");
    out
}

/// Looks at a command: its variables become the command variables, and all of it is
/// shown with them.
pub fn display_command_info(command: &Command, variables: &mut Variables, palette: &Palette) -> (out:
    String)
    ensures
        final(variables)@.user == old(variables)@.user,
        final(variables)@.command == extracted(command@.text, old(variables)@.user),
        out@ == command_info_text(
            command@,
            printable_list(final(variables)@.command),
            palette@,
        ),
{
    let listing = variables.extract_variables_from_command(command.cmd.as_str());
    command_info(command, listing.as_str(), palette)
}

/// Shows the user variables.
pub fn display_user_variables(variables: &Variables) -> (out: String)
    ensures
        out@ == user_variables_text(printable_list(variables@.user)),
{
    let listing = variables.list_user_variables();
    let mut out = String::new();
    if !listing.as_str().is_empty() {
        out.append("\n\rUser Variables\n\r----------------------------\n\r");
        out.append(listing.as_str());
        out.append("\n\r");
    }
    out
}

/// Shows an error.
pub fn display_error(error_message: &str, palette: &Palette) -> (out: String)
    ensures
        out@ == error_text(error_message@, palette@),
{
    let mut out = String::new();
    out.append(palette.error_fg.as_str());
    out.append(error_message);
    out.append(palette.reset_fg.as_str());
    out.append("\n\r");
    out
}

/// Shows what went to the clipboard.
pub fn display_copy_info(command: &str, palette: &Palette) -> (out: String)
    ensures
        out@ == copy_text(command@, palette@),
{
    let mut out = "copied: ".to_owned();
    out.append(palette.highlight_bg.as_str());
    out.append(palette.highlight_fg.as_str());
    out.append(command);
    out.append(palette.reset_fg.as_str());
    out.append(palette.reset_bg.as_str());
    out.append(" to clipboard\n\r");
    out
}

/// The smaller of one more than the sum of three lengths and the largest move.
fn shift_for(a: usize, b: usize, c: usize) -> (n: u16)
    ensures
        n == if a + b + c + 1 < LARGEST_MOVE {
            a + b + c + 1
        } else {
            LARGEST_MOVE as int
        },
{
    let limit = LARGEST_MOVE as usize;
    if a >= limit || b >= limit || c >= limit {
        LARGEST_MOVE
    } else {
        let sum = a + b + c + 1;
        if sum < limit {
            sum as u16
        } else {
            LARGEST_MOVE
        }
    }
}

/// All that is written for the prompt of the line so far, on a screen of `height` rows.
pub fn update_prompt(
    selected_command: &str,
    current_mode: &str,
    query: &str,
    height: u16,
    palette: &Palette,
) -> (out: String)
    ensures
        out@ == prompt_frame(
            selected_command@,
            current_mode@,
            query@,
            height as int,
            palette@,
        ),
{
    let mut name = String::new();
    name.append(palette.label_fg.as_str());
    if selected_command.is_empty() {
        name.append("redOx");
    } else {
        name.append("redOx[");
        name.append(palette.selected_fg.as_str());
        name.append(selected_command);
        name.append(palette.label_fg.as_str());
        name.append("]");
    }
    let mut mode = String::new();
    if current_mode.is_empty() {
        mode.push(':');
    } else {
        mode.push('(');
        mode.append(palette.mode_fg.as_str());
        mode.append(current_mode);
        mode.append(palette.label_fg.as_str());
        mode.append("):");
    }
    let shift = shift_for(
        name.as_str().as_bytes().len(),
        mode.as_str().as_bytes().len(),
        query.as_bytes().len(),
    );
    let mut out = goto(1, height);
    out.append(left(shift).as_str());
    out.append(clear_after().as_str());
    out.append(name.as_str());
    out.append(mode.as_str());
    out.append(palette.reset_fg.as_str());
    out.append(query);
    out.append(blinking_bar().as_str());
    out
}

/// What is written to clear the screen.
pub fn clear_display() -> (out: String)
    ensures
        out@ == clear_all_code(),
{
    clear_all()
}

/// How many lines a text has.
pub fn count_lines(text: &str) -> (n: usize)
    ensures
        n == line_count(text@),
{
    let chars = chars_of(text);
    let mut feeds: usize = 0;
    let mut i: usize = chars.len();
    while i > 0
        invariant
            i <= chars.len(),
            feeds == line_feeds_from(chars@, i as int),
            feeds <= chars.len() - i,
            i < chars.len() && chars@[chars.len() - 1] != '\n' ==> feeds < chars.len() - i,
        decreases i,
    {
        i -= 1;
        if chars[i] == '\n' {
            feeds += 1;
        }
    }
    if chars.len() > 0 && chars[chars.len() - 1] != '\n' {
        feeds + 1
    } else {
        feeds
    }
}

/// All that is written for a text so that it ends at the bottom of a screen of `height`
/// rows; none for a text that has more lines than the screen has rows.
pub fn write_output(console_output: &str, height: u16) -> (frame: Option<String>)
    ensures
        match frame {
            Some(out) => output_frame(console_output@, height as int) == Some(out@),
            None => output_frame(console_output@, height as int) is None,
        },
{
    let lines = count_lines(console_output);
    if lines > height as usize {
        None
    } else {
        let row: u16 = if lines == 0 && height == LARGEST_MOVE {
            LARGEST_MOVE
        } else {
            height - lines as u16 + 1
        };
        let mut out = goto(1, row);
        out.append(console_output);
        out.append(clear_line().as_str());
        out.append("\n\r");
        Some(out)
    }
}

} // verus!
