use redox::command::{Command, References};
use redox::banner::{banner_footer, display_banner};
use redox::display::{
    clear_display, command_info, count_lines, display_command_info, display_copy_info,
    display_error, display_selectable_list, display_user_variables, highlight_search_result,
    rows_for_results, update_prompt, write_output, Palette,
};
use redox::search::{Results, UP};
use redox::variables::Variables;

fn palette() -> Palette {
    Palette {
        heading_bg: "<HB>".to_string(),
        heading_fg: "<HF>".to_string(),
        reset_fg: "<RF>".to_string(),
        reset_bg: "<RB>".to_string(),
        highlight_bg: "<SB>".to_string(),
        highlight_fg: "<SF>".to_string(),
        label_fg: "<LF>".to_string(),
        error_fg: "<EF>".to_string(),
        selected_fg: "<IF>".to_string(),
        mode_fg: "<MF>".to_string(),
    }
}

fn command(id: i32, text: &str, comment: &str) -> Command {
    Command {
        cmd_id: id,
        cmd: text.to_string(),
        cmnt: comment.to_string(),
        author: "me".to_string(),
        references: Vec::new(),
        tags: Vec::new(),
    }
}

fn numbered(n: i32) -> Vec<Command> {
    (1..=n).map(|i| command(i, &format!("cmd{}", i), &format!("about {}", i))).collect()
}

const HEAD: &str = "<HB><HF>Select a result with the up/down arrow keys. Press enter to copy to the clipboard\n\r<RF><RB>";

#[test]
fn a_list_that_fits_is_shown_whole() {
    let out = display_selectable_list(&numbered(3), 80, 24, &palette());
    assert_eq!(out, format!("{}(1) - cmd1\n\r(2) - cmd2\n\r(3) - cmd3\n\r\n\rResults: <HB><HF>1 / 3\n\r<RF><RB>", HEAD));
}

#[test]
fn a_list_that_does_not_fit_shows_its_end() {
    let out = display_selectable_list(&numbered(5), 80, 12, &palette());
    assert_eq!(out, format!("{}(3) - cmd3\n\r(4) - cmd4\n\r(5) - cmd5\n\r\n\rResults: <HB><HF>3 / 5\n\r<RF><RB>", HEAD));
}

#[test]
fn on_a_screen_without_room_a_list_shows_its_last_result() {
    for height in [0, 5, 10] {
        let out = display_selectable_list(&numbered(3), 80, height, &palette());
        assert_eq!(out, format!("{}(3) - cmd3\n\r\n\rResults: <HB><HF>3 / 3\n\r<RF><RB>", HEAD));
    }
}

#[test]
fn the_text_of_a_command_is_cut_to_the_width() {
    let list = vec![command(-12, "0123456789", "")];
    assert_eq!(display_selectable_list(&list, 13, 24, &palette()), format!("{}(-12) - 0123\n\r\n\rResults: <HB><HF>1 / 1\n\r<RF><RB>", HEAD));
    assert_eq!(display_selectable_list(&list, 19, 24, &palette()), format!("{}(-12) - 0123456789\n\r\n\rResults: <HB><HF>1 / 1\n\r<RF><RB>", HEAD));
    assert_eq!(display_selectable_list(&list, 9, 24, &palette()), format!("{}(-12) - \n\r\n\rResults: <HB><HF>1 / 1\n\r<RF><RB>", HEAD));
    assert_eq!(display_selectable_list(&list, 0, 24, &palette()), format!("{}(-12) - \n\r\n\rResults: <HB><HF>1 / 1\n\r<RF><RB>", HEAD));
}

#[test]
fn identifiers_are_written_in_decimal() {
    let list = vec![command(0, "a", ""), command(i32::MAX, "b", ""), command(i32::MIN, "c", ""), command(1000, "d", "")];
    let out = display_selectable_list(&list, 80, 24, &palette());
    assert_eq!(out, format!("{}(0) - a\n\r(2147483647) - b\n\r(-2147483648) - c\n\r(1000) - d\n\r\n\rResults: <HB><HF>1 / 4\n\r<RF><RB>", HEAD));
}

#[test]
fn the_selected_result_is_highlighted() {
    let out = highlight_search_result(1, &numbered(3), 80, 24, &palette());
    assert_eq!(
        out,
        "<HB><HF>Comment: about 2\n\r<RF><RB>(1) - cmd1\n\r<SB><SF>(2) - cmd2<RF><RB>\n\r(3) - cmd3\n\r\n\rResults: <HB><HF>2 / 3\n\r<RF><RB>"
    );
}

#[test]
fn a_selection_among_the_first_results_shows_the_start() {
    let out = highlight_search_result(1, &numbered(6), 80, 12, &palette());
    assert_eq!(
        out,
        "<HB><HF>Comment: about 2\n\r<RF><RB>(1) - cmd1\n\r<SB><SF>(2) - cmd2<RF><RB>\n\r(3) - cmd3\n\r\n\rResults: <HB><HF>2 / 6\n\r<RF><RB>"
    );
}

#[test]
fn a_selection_further_down_scrolls() {
    let out = highlight_search_result(4, &numbered(6), 80, 12, &palette());
    assert_eq!(
        out,
        "<HB><HF>Comment: about 5\n\r<RF><RB>(3) - cmd3\n\r(4) - cmd4\n\r<SB><SF>(5) - cmd5<RF><RB>\n\r\n\rResults: <HB><HF>5 / 6\n\r<RF><RB>"
    );
}

#[test]
fn a_session_highlights_its_current_result() {
    let mut results = Results::new();
    results.set_results(numbered(3));
    results.cycle_through_results(UP).unwrap();
    assert_eq!(results.highlight_current_selection(80, 24, &palette()), highlight_search_result(2, &numbered(3), 80, 24, &palette()));
}

#[test]
fn rows_for_results_leave_ten_free() {
    assert_eq!(rows_for_results(0), 0);
    assert_eq!(rows_for_results(10), 0);
    assert_eq!(rows_for_results(11), 1);
    assert_eq!(rows_for_results(u16::MAX), 65525);
}

#[test]
fn all_of_a_command_is_shown() {
    let mut c = command(42, "nc [LHOST] [LPORT]", "reverse shell");
    c.references = vec![
        References { ref_id: 1, ref_value: "https://example.org/a".to_string() },
        References { ref_id: 2, ref_value: "https://example.org/b".to_string() },
    ];
    let out = command_info(&c, "LHOST               : (empty)\n\r", &palette());
    assert_eq!(
        out,
        "<LF>Command id <RF>: 42\n\r<LF>author     <RF>: me\n\r<LF>comment    <RF>: reverse shell\n\r<LF>command    <RF>: nc [LHOST] [LPORT]\n\r<LF>references<RF> :\n\rhttps://example.org/a\n\rhttps://example.org/b\n\r\n\r\n\rVariables \n\r----------------------------\n\rLHOST               : (empty)\n\r\n\r "
    );
}

#[test]
fn a_command_without_references_and_variables_is_shown_without_them() {
    let out = command_info(&command(1, "ls", ""), "", &palette());
    assert_eq!(out, "<LF>Command id <RF>: 1\n\r<LF>author     <RF>: me\n\r<LF>comment    <RF>: \n\r<LF>command    <RF>: ls\n\r\n\r\n\r ");
}

#[test]
fn showing_a_command_extracts_its_variables() {
    let mut variables = Variables::new();
    variables.set_user_variable("lhost".to_string(), "10.0.0.1".to_string());
    let c = command(1, "nc [LHOST] [LPORT]", "");
    let out = display_command_info(&c, &mut variables, &palette());
    assert_eq!(variables.command_variables.iter().map(|v| v.key.as_str()).collect::<Vec<_>>(), vec!["LHOST", "LPORT"]);
    assert_eq!(out, command_info(&c, "LHOST               : 10.0.0.1\n\rLPORT               : (empty)\n\r", &palette()));
}

#[test]
fn user_variables_are_shown_under_their_heading() {
    let mut variables = Variables::new();
    assert_eq!(display_user_variables(&variables), "");
    variables.set_user_variable("lhost".to_string(), "10.0.0.1".to_string());
    assert_eq!(display_user_variables(&variables), "\n\rUser Variables\n\r----------------------------\n\rLHOST               : 10.0.0.1\n\r\n\r");
}

#[test]
fn an_error_and_a_copy_note_are_coloured() {
    assert_eq!(display_error("Not Found", &palette()), "<EF>Not Found<RF>\n\r");
    assert_eq!(display_copy_info("ls -la", &palette()), "copied: <SB><SF>ls -la<RF><RB> to clipboard\n\r");
}

#[test]
fn the_prompt_shows_selection_and_mode() {
    assert_eq!(update_prompt("", "", "", 24, &palette()), "\u{1b}[24;1H\u{1b}[11D\u{1b}[J<LF>redOx:<RF>\u{1b}[5 q");
    assert_eq!(
        update_prompt("12", "", "typed", 30, &palette()),
        "\u{1b}[30;1H\u{1b}[28D\u{1b}[J<LF>redOx[<IF>12<LF>]:<RF>typed\u{1b}[5 q"
    );
    assert_eq!(
        update_prompt("", "history", "", 1, &palette()),
        "\u{1b}[1;1H\u{1b}[28D\u{1b}[J<LF>redOx(<MF>history<LF>):<RF>\u{1b}[5 q"
    );
    assert_eq!(
        update_prompt("3", "find[command]", "nc", 0, &palette()),
        "\u{1b}[0;1H\u{1b}[47D\u{1b}[J<LF>redOx[<IF>3<LF>](<MF>find[command]<LF>):<RF>nc\u{1b}[5 q"
    );
}

#[test]
fn the_prompt_counts_bytes_and_moves_no_further_than_it_can() {
    assert!(update_prompt("", "", "é", 24, &palette()).starts_with("\u{1b}[24;1H\u{1b}[13D"));
    let long = "x".repeat(70000);
    assert!(update_prompt("", "", &long, 24, &palette()).starts_with("\u{1b}[24;1H\u{1b}[65535D"));
    let nearly = "x".repeat(65524);
    assert!(update_prompt("", "", &nearly, 24, &palette()).starts_with("\u{1b}[24;1H\u{1b}[65535D"));
    let below = "x".repeat(65523);
    assert!(update_prompt("", "", &below, 24, &palette()).starts_with("\u{1b}[24;1H\u{1b}[65534D"));
}

#[test]
fn clearing_the_screen() {
    assert_eq!(clear_display(), "\u{1b}[2J");
}

#[test]
fn lines_are_counted_as_the_standard_library_counts_them() {
    for text in ["", "a", "a\n", "a\nb", "\n", "\n\n", "a\n\rb\n\r", "\n\ra", "a\r\nb", "\r", "one\ntwo\nthree\n"] {
        assert_eq!(count_lines(text), text.lines().count(), "for {:?}", text);
    }
    assert_eq!(count_lines("a\n\rb\n\r"), 3);
}

#[test]
fn output_ends_at_the_bottom_of_the_screen() {
    assert_eq!(write_output("one\n\rtwo\n\r", 24), Some("\u{1b}[22;1Hone\n\rtwo\n\r\u{1b}[2K\n\r".to_string()));
    assert_eq!(write_output("", 24), Some("\u{1b}[25;1H\u{1b}[2K\n\r".to_string()));
    assert_eq!(write_output("a\nb\nc", 3), Some("\u{1b}[1;1Ha\nb\nc\u{1b}[2K\n\r".to_string()));
    assert_eq!(write_output("a\nb\nc\nd", 3), None);
    assert_eq!(write_output("", u16::MAX), Some("\u{1b}[65535;1H\u{1b}[2K\n\r".to_string()));
    assert_eq!(write_output("x", u16::MAX), Some("\u{1b}[65535;1Hx\u{1b}[2K\n\r".to_string()));
    assert_eq!(write_output("x", 0), None);
    assert_eq!(write_output("", 0), Some("\u{1b}[1;1H\u{1b}[2K\n\r".to_string()));
}

fn is_colour(written: &str, code: &str) {
    assert!(written.is_empty() || written == code, "{:?} is not {:?}", written, code);
}

#[test]
fn the_colours_of_the_terminal() {
    let p = Palette::for_terminal();
    is_colour(&p.heading_bg, "\u{1b}[48;5;7m");
    is_colour(&p.heading_fg, "\u{1b}[38;5;0m");
    assert_eq!(p.reset_fg, "\u{1b}[39m");
    assert_eq!(p.reset_bg, "\u{1b}[49m");
    is_colour(&p.highlight_bg, "\u{1b}[48;2;165;93;53m");
    is_colour(&p.highlight_fg, "\u{1b}[38;2;255;255;153m");
    is_colour(&p.label_fg, "\u{1b}[38;2;165;93;53m");
    is_colour(&p.error_fg, "\u{1b}[38;5;1m");
    is_colour(&p.selected_fg, "\u{1b}[38;2;255;255;71m");
    is_colour(&p.mode_fg, "\u{1b}[38;2;204;204;0m");
}

#[test]
fn the_greeting_ends_at_the_bottom() {
    let out = display_banner(40, &palette());
    assert!(out.starts_with("\u{1b}[2J\u{1b}[27;1H<EF><RF>\u{1b}[1;1H\u{1b}[28;2H<EF>██▀███  ▓█████ ▓█████▄  ▒█████  ▒██   ██▒<RF>\u{1b}[1;2H\u{1b}[29;1H<EF>▓██ ▒ ██▒"));
    assert!(out.ends_with("\u{1b}[37;1H<EF>░                        <RF>\u{1b}[1;1H\u{1b}[38;1H<EF><RF>\u{1b}[1;1H"));
    assert_eq!(out.matches("<EF>").count(), 12);
    let low = display_banner(5, &palette());
    assert!(low.starts_with("\u{1b}[2J\u{1b}[0;1H<EF><RF>\u{1b}[1;1H\u{1b}[1;2H<EF>██▀███"));
    assert_eq!(display_banner(13, &palette()), low);
    assert!(display_banner(14, &palette()).starts_with("\u{1b}[2J\u{1b}[1;1H<EF><RF>"));
}

#[test]
fn what_stands_under_the_greeting() {
    assert_eq!(
        banner_footer(40, &palette()),
        "\u{1b}[39;1H<SF><SF>For help type 'help'\n\rCtrl+r to start searcing for commands\n\r<RB><RF>"
    );
    assert!(banner_footer(0, &palette()).starts_with("\u{1b}[0;1H<SF><SF>"));
}
