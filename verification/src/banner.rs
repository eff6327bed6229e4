use crate::display::{Palette, PaletteView};
use crate::terminal::{clear_all, clear_all_code, goto, goto_code};
use vstd::prelude::*;

verus! {

/// How many lines the greeting has.
pub const BANNER_LINES: usize = 12;

/// How many rows of the screen the greeting takes, with what stands under it.
pub const BANNER_ROWS: u16 = 13;

/// The lines of the greeting. The first and the last are empty.
pub open spec fn banner_line(i: int) -> Seq<char> {
    if i == 1 {
        "██▀███  ▓█████ ▓█████▄  ▒█████  ▒██   ██▒"@
    }     else if i == 2 {
        "▓██ ▒ ██▒▓█   ▀ ▒██▀ ██▌▒██▒  ██▒▒▒ █ █ ▒░"@
    }     else if i == 3 {
        "▓██ ░▄█ ▒▒███   ░██   █▌▒██░  ██▒░░  █   ░"@
    }     else if i == 4 {
        "▒██▀▀█▄  ▒▓█  ▄ ░▓█▄   ▌▒██   ██░ ░ █ █ ▒ "@
    }     else if i == 5 {
        "░██▓ ▒██▒░▒████▒░▒████▓ ░ ████▓▒░▒██▒ ▒██▒"@
    }     else if i == 6 {
        "░ ▒▓ ░▒▓░░░ ▒░ ░ ▒▒▓  ▒ ░ ▒░▒░▒░ ▒▒ ░ ░▓ ░"@
    }     else if i == 7 {
        "░▒ ░ ▒░ ░ ░  ░ ░ ▒  ▒   ░ ▒ ▒░ ░░   ░▒ ░"@
    }     else if i == 8 {
        "░░   ░    ░    ░ ░  ░ ░ ░ ░ ▒   ░    ░  "@
    }     else if i == 9 {
        "░        ░  ░   ░        ░ ░   ░    ░  "@
    }     else if i == 10 {
        "░                        "@
    } else {
        Seq::empty()
    }
}

/// The row of a line of the greeting on a screen of `height` rows: the greeting ends
/// at the bottom.
pub open spec fn banner_row(height: int, i: int) -> int {
    (if height > BANNER_ROWS {
        height - BANNER_ROWS
    } else {
        0
    }) + i
}

/// The column at which a line of the greeting starts: the second column for its first
/// drawn line, the first column for the others.
pub open spec fn banner_column(i: int) -> int {
    if i == 1 {
        2
    } else {
        1
    }
}

/// What is written for the lines of the greeting from line `i` on: for each, the cursor
/// goes to its place, the line follows in the colour of errors, and the cursor goes to
/// the top of its column.
pub open spec fn banner_lines_from(height: int, i: int, p: PaletteView) -> Seq<char>
    decreases BANNER_LINES - i,
{
    if 0 <= i < BANNER_LINES {
        goto_code(banner_column(i), banner_row(height, i)) + p.error_fg + banner_line(i)
            + p.reset_fg + goto_code(banner_column(i), 1) + banner_lines_from(height, i + 1, p)
    } else {
        Seq::empty()
    }
}

/// All that is written for the greeting: the screen is cleared, and the lines follow.
pub open spec fn banner_text(height: int, p: PaletteView) -> Seq<char> {
    clear_all_code() + banner_lines_from(height, 0, p)
}

/// What stands under the greeting.
pub open spec fn banner_footer_text(height: int, p: PaletteView) -> Seq<char> {
    goto_code(
        1,
        if height > 0 {
            height - 1
        } else {
            0
        },
    ) + p.highlight_fg + p.highlight_fg + "For help type 'help'"@ + "\n\r"@
        + "Ctrl+r to start searcing for commands"@ + "\n\r"@ + p.reset_bg + p.reset_fg
}

/// A line of the greeting.
fn banner_line_text(i: usize) -> (line: &'static str)
    ensures
        line@ == banner_line(i as int),
{
    if i == 1 {
        "██▀███  ▓█████ ▓█████▄  ▒█████  ▒██   ██▒"
    }     else if i == 2 {
        "▓██ ▒ ██▒▓█   ▀ ▒██▀ ██▌▒██▒  ██▒▒▒ █ █ ▒░"
    }     else if i == 3 {
        "▓██ ░▄█ ▒▒███   ░██   █▌▒██░  ██▒░░  █   ░"
    }     else if i == 4 {
        "▒██▀▀█▄  ▒▓█  ▄ ░▓█▄   ▌▒██   ██░ ░ █ █ ▒ "
    }     else if i == 5 {
        "░██▓ ▒██▒░▒████▒░▒████▓ ░ ████▓▒░▒██▒ ▒██▒"
    }     else if i == 6 {
        "░ ▒▓ ░▒▓░░░ ▒░ ░ ▒▒▓  ▒ ░ ▒░▒░▒░ ▒▒ ░ ░▓ ░"
    }     else if i == 7 {
        "░▒ ░ ▒░ ░ ░  ░ ░ ▒  ▒   ░ ▒ ▒░ ░░   ░▒ ░"
    }     else if i == 8 {
        "░░   ░    ░    ░ ░  ░ ░ ░ ░ ▒   ░    ░  "
    }     else if i == 9 {
        "░        ░  ░   ░        ░ ░   ░    ░  "
    }     else if i == 10 {
        "░                        "
    } else {
        proof {
            reveal_strlit("");
        }
        ""
    }
}

/// All that is written for the greeting on a screen of `height` rows.
pub fn display_banner(height: u16, palette: &Palette) -> (out: String)
    ensures
        out@ == banner_text(height as int, palette@),
{
    let top: u16 = if height > BANNER_ROWS {
        height - BANNER_ROWS
    } else {
        0
    };
    let mut out = clear_all();
    let mut i: usize = 0;
    while i < BANNER_LINES
        invariant
            i <= BANNER_LINES,
            top == banner_row(height as int, 0),
            out@ + banner_lines_from(height as int, i as int, palette@) == banner_text(
                height as int,
                palette@,
            ),
        decreases BANNER_LINES - i,
    {
        let column: u16 = if i == 1 {
            2
        } else {
            1
        };
        out.append(goto(column, top + i as u16).as_str());
        out.append(palette.error_fg.as_str());
        out.append(banner_line_text(i));
        out.append(palette.reset_fg.as_str());
        out.append(goto(column, 1).as_str());
        i += 1;
    }
    out
}

/// What stands under the greeting on a screen of `height` rows.
pub fn banner_footer(height: u16, palette: &Palette) -> (out: String)
    ensures
        out@ == banner_footer_text(height as int, palette@),
{
    let row: u16 = if height > 0 {
        height - 1
    } else {
        0
    };
    let mut out = goto(1, row);
    out.append(palette.highlight_fg.as_str());
    out.append(palette.highlight_fg.as_str());
    out.append("For help type 'help'");
    out.append("\n\r");
    out.append("Ctrl+r to start searcing for commands");
    out.append("\n\r");
    out.append(palette.reset_bg.as_str());
    out.append(palette.reset_fg.as_str());
    out
}

} // verus!
