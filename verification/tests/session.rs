use redox::command::Command;
use redox::help::help_on;
use redox::request::{Column, HelpTopic};
use redox::search::{COMMAND_SEARCH, COMMENT_SEARCH, OFF};
use redox::session::{execute_search, Effect, Key, Session};

fn command(id: i32, text: &str) -> Command {
    Command {
        cmd_id: id,
        cmd: text.to_string(),
        cmnt: String::new(),
        author: String::new(),
        references: Vec::new(),
        tags: Vec::new(),
    }
}

fn type_line(session: &mut Session, line: &str) -> Option<Effect> {
    let mut last = None;
    for c in line.chars() {
        last = Some(session.handle_key(Key::Char(c)));
    }
    last
}

fn enter(session: &mut Session, line: &str) -> Effect {
    type_line(session, line);
    session.handle_key(Key::Enter)
}

fn message(effect: Effect) -> String {
    match effect {
        Effect::Error { message } => message,
        _ => panic!("no error"),
    }
}

fn text(effect: Effect) -> String {
    match effect {
        Effect::Text { text } => text,
        _ => panic!("no text"),
    }
}

fn with_history() -> Session {
    let mut session = Session::new();
    session.search_finished(vec![command(1, "nc [LHOST] 4444"), command(2, "ls [DIR]")], "search x");
    session.handle_key(Key::Up);
    session.handle_key(Key::Enter);
    session
}

#[test]
fn typing_outside_a_search_only_changes_the_line() {
    let mut session = Session::new();
    assert!(matches!(type_line(&mut session, "help"), Some(Effect::Prompt)));
    assert_eq!(session.query, "help");
    assert!(matches!(session.handle_key(Key::Backspace), Effect::Prompt));
    assert_eq!(session.query, "hel");
    assert!(matches!(session.handle_key(Key::Other), Effect::Prompt));
    assert_eq!(session.query, "hel");
}

#[test]
fn backspace_on_an_empty_line_does_nothing() {
    let mut session = Session::new();
    assert!(matches!(session.handle_key(Key::Backspace), Effect::Prompt));
    assert_eq!(session.query, "");
}

#[test]
fn the_search_key_starts_a_search_and_empties_the_line() {
    let mut session = Session::new();
    type_line(&mut session, "abc");
    assert!(matches!(session.handle_key(Key::CycleSearch), Effect::Prompt));
    assert_eq!(session.query, "");
    assert_eq!(session.results.get_search_mode(), COMMAND_SEARCH);
    session.handle_key(Key::CycleSearch);
    assert_eq!(session.results.get_search_mode(), COMMENT_SEARCH);
}

#[test]
fn typing_in_a_search_asks_the_store() {
    let mut session = Session::new();
    session.handle_key(Key::CycleSearch);
    match session.handle_key(Key::Char('n')) {
        Effect::Search { store_column, pattern, line } => {
            assert_eq!(store_column, "Cmd");
            assert_eq!(pattern, "%n%");
            assert_eq!(line, "search n");
        }
        _ => panic!("no search"),
    }
    session.handle_key(Key::CycleSearch);
    type_line(&mut session, "a ");
    match session.handle_key(Key::Char('b')) {
        Effect::Search { store_column, pattern, line } => {
            assert_eq!(store_column, "cmnt");
            assert_eq!(pattern, "%a b%");
            assert_eq!(line, "search a b");
        }
        _ => panic!("no search"),
    }
    assert!(matches!(session.handle_key(Key::Backspace), Effect::Search { .. }));
    assert_eq!(session.query, "a ");
}

#[test]
fn a_search_for_white_space_is_refused() {
    let mut session = Session::new();
    session.handle_key(Key::CycleSearch);
    assert_eq!(message(session.handle_key(Key::Char(' '))), "No search term entered");
    assert_eq!(session.query, " ");
}

#[test]
fn an_empty_line_in_a_search_brings_the_greeting_back() {
    let mut session = Session::new();
    session.handle_key(Key::CycleSearch);
    session.handle_key(Key::Char('x'));
    assert!(matches!(session.handle_key(Key::Backspace), Effect::Banner));
}

#[test]
fn what_the_store_found_becomes_the_results() {
    let mut session = Session::new();
    assert!(matches!(session.search_finished(vec![command(1, "a"), command(2, "b")], "search a"), Effect::List));
    assert_eq!(session.results.get_results().len(), 2);
    assert_eq!(session.results.get_current_command().unwrap().cmd_id, 2);
    assert_eq!(message(session.search_finished(Vec::new(), "search zzz")), "No results found for search zzz");
    assert_eq!(session.results.get_results().len(), 2);
}

#[test]
fn arrows_move_through_the_results() {
    let mut session = Session::new();
    assert_eq!(message(session.handle_key(Key::Up)), "Search results are empty.");
    assert_eq!(message(session.handle_key(Key::Down)), "Search results are empty.");
    session.search_finished(vec![command(1, "a"), command(2, "b"), command(3, "c")], "search");
    assert!(matches!(session.handle_key(Key::Down), Effect::Highlight));
    assert_eq!(session.results.get_selected_result_index(), Some(0));
    assert!(matches!(session.handle_key(Key::Up), Effect::Highlight));
    assert_eq!(session.results.get_selected_result_index(), Some(2));
}

#[test]
fn enter_on_a_selection_takes_it() {
    let mut session = Session::new();
    session.handle_key(Key::CycleSearch);
    session.handle_key(Key::Char('n'));
    session.search_finished(vec![command(1, "nc [LHOST] 4444"), command(2, "ls")], "search n");
    session.variables.set_user_variable("lhost".to_string(), "10.0.0.1".to_string());
    session.handle_key(Key::Down);
    match session.handle_key(Key::Enter) {
        Effect::Copy { command, listing, text } => {
            assert_eq!(command.cmd_id, 1);
            assert_eq!(listing, "LHOST               : 10.0.0.1\n\r");
            assert_eq!(text, "nc 10.0.0.1 4444");
        }
        _ => panic!("no copy"),
    }
    assert_eq!(session.query, "");
    assert_eq!(session.results.get_search_mode(), OFF);
    assert!(!session.results.get_results_selection_mode());
    assert_eq!(session.results.get_history().len(), 1);
    assert_eq!(session.results.get_selected_history_command().unwrap().cmd_id, 1);
    assert_eq!(session.variables.command_variables.len(), 1);
}

#[test]
fn copy_keys_copy_the_current_result() {
    let mut session = with_history();
    session.variables.set_user_variable("dir".to_string(), "/tmp dir".to_string());
    match session.handle_key(Key::Copy) {
        Effect::Copy { command, listing, text } => {
            assert_eq!(command.cmd_id, 2);
            assert_eq!(text, "ls /tmp dir");
            assert_eq!(listing, "DIR                 : /tmp dir\n\r");
        }
        _ => panic!("no copy"),
    }
    match session.handle_key(Key::CopyEncoded) {
        Effect::Copy { text, .. } => assert_eq!(text, "ls%20%2Ftmp%20dir"),
        _ => panic!("no copy"),
    }
}

#[test]
fn copy_keys_without_a_selection_say_so() {
    let mut session = Session::new();
    assert_eq!(message(session.handle_key(Key::Copy)), "There isn't a command currently selected.");
    session.search_finished(vec![command(1, "a")], "search a");
    assert_eq!(message(session.handle_key(Key::CopyEncoded)), "There isn't a command currently selected.");
    let mut session = with_history();
    session.handle_key(Key::Escape);
    assert_eq!(message(session.handle_key(Key::Copy)), "There isn't a command currently selected.");
}

#[test]
fn escape_resets_and_shows_the_help() {
    let mut session = with_history();
    session.handle_key(Key::CycleSearch);
    type_line(&mut session, "abc");
    assert_eq!(text(session.handle_key(Key::Escape)), help_on(HelpTopic::General));
    assert_eq!(session.query, "");
    assert!(session.results.get_results().is_empty());
    assert_eq!(session.results.get_search_mode(), OFF);
    assert_eq!(session.results.get_history().len(), 1);
}

#[test]
fn the_history_is_listed_by_key_and_by_word() {
    let mut session = Session::new();
    assert_eq!(message(session.handle_key(Key::History)), "History is currently empty.");
    assert_eq!(message(enter(&mut session, "hist")), "History is currently empty.");
    let mut session = with_history();
    session.handle_key(Key::Escape);
    assert!(matches!(session.handle_key(Key::History), Effect::List));
    assert!(session.results.get_history_mode());
    assert_eq!(session.results.get_results().len(), 1);
    assert_eq!(session.results.get_current_mode(), "history");
    session.handle_key(Key::Escape);
    assert!(matches!(enter(&mut session, "hist"), Effect::List));
    assert!(session.results.get_history_mode());
    assert_eq!(session.results.get_results().len(), 1);
}

#[test]
fn paste_asks_for_the_clipboard_and_appends_its_text() {
    let mut session = Session::new();
    type_line(&mut session, "set ");
    assert!(matches!(session.handle_key(Key::Paste), Effect::Paste));
    assert_eq!(text(session.pasted("lhost 1.2.3.4")), "set lhost 1.2.3.4");
    assert_eq!(session.query, "set lhost 1.2.3.4");
}

#[test]
fn quit_key_and_exit_word_leave() {
    let mut session = Session::new();
    assert!(matches!(session.handle_key(Key::Quit), Effect::Quit));
    assert!(matches!(enter(&mut session, "exit"), Effect::Quit));
}

#[test]
fn add_asks_the_store_and_takes_the_new_command() {
    let mut session = Session::new();
    match enter(&mut session, "add -c ping [TARGET] -d checks a host") {
        Effect::Insert { text, comment } => {
            assert_eq!(text, "ping [TARGET]");
            assert_eq!(comment, "checks a host");
        }
        _ => panic!("no insert"),
    }
    assert_eq!(session.query, "");
    session.variables.set_user_variable("target".to_string(), "example.org".to_string());
    let added = Command::added(31, "ping [TARGET]".to_string(), "checks a host".to_string());
    match session.insert_finished(vec![command(1, "old"), added]) {
        Effect::Copy { command, text, listing } => {
            assert_eq!(command.cmd_id, 31);
            assert_eq!(text, "ping example.org");
            assert_eq!(listing, "TARGET              : example.org\n\r");
        }
        _ => panic!("no copy"),
    }
    assert_eq!(session.results.get_results().len(), 2);
    assert_eq!(session.results.get_selected_history_command().unwrap().cmd_id, 31);
    assert!(matches!(session.insert_finished(Vec::new()), Effect::Prompt));
    assert_eq!(session.results.get_results().len(), 2);
}

#[test]
fn add_without_a_command_says_how() {
    let mut session = Session::new();
    assert!(message(enter(&mut session, "add ls")).starts_with("To add a command to the database you must include -c"));
    assert_eq!(session.query, "");
}

#[test]
fn update_asks_the_store_and_changes_the_history() {
    let mut session = with_history();
    match enter(&mut session, "update comment lists   a directory") {
        Effect::Update { id, column, name, content } => {
            assert_eq!(id, 2);
            assert_eq!(column, Column::Comment);
            assert_eq!(name, "comment");
            assert_eq!(content, "lists a directory");
        }
        _ => panic!("no update"),
    }
    match session.update_finished(Column::Comment, "comment", "lists a directory".to_string(), 0) {
        Effect::Updated { command, listing, message } => {
            assert_eq!(command.cmd_id, 2);
            assert_eq!(command.cmnt, "lists a directory");
            assert_eq!(listing, "DIR                 : (empty)\n\r");
            assert_eq!(message, "Updated comment: lists a directory\n\r");
        }
        _ => panic!("no update"),
    }
    assert_eq!(session.results.get_history().len(), 1);
    assert_eq!(session.results.get_selected_history_command().unwrap().cmnt, "lists a directory");
    match session.update_finished(Column::References, "references", "man ls".to_string(), 77) {
        Effect::Updated { command, message, .. } => {
            assert_eq!(command.references.len(), 1);
            assert_eq!(command.references[0].ref_id, 77);
            assert_eq!(message, "Added man ls to references\n\r");
        }
        _ => panic!("no update"),
    }
    assert_eq!(session.results.get_selected_history_command().unwrap().references.len(), 1);
}

#[test]
fn update_needs_a_history_and_a_known_column() {
    let mut session = Session::new();
    assert_eq!(message(enter(&mut session, "update comment x")), "History is currently empty.");
    assert_eq!(message(enter(&mut session, "update")), "History is currently empty.");
    assert_eq!(message(session.update_finished(Column::Author, "author", "me".to_string(), 0)), "History is currently empty.");
    let mut session = with_history();
    for line in ["update", "update comment", "update tags x"] {
        assert_eq!(message(enter(&mut session, line)), "Check that you've entered a correct column name");
    }
}

#[test]
fn set_binds_a_variable_and_shows_the_selected_command() {
    let mut session = with_history();
    match enter(&mut session, "set dir /tmp") {
        Effect::Copy { command, listing, text } => {
            assert_eq!(command.cmd_id, 2);
            assert_eq!(listing, "DIR                 : /tmp\n\r");
            assert_eq!(text, "ls /tmp");
        }
        _ => panic!("no copy"),
    }
    assert_eq!(session.variables.user_variables.len(), 1);
    assert_eq!(session.variables.user_variables[0].key, "DIR");
}

#[test]
fn set_without_a_history_binds_and_says_that_the_history_is_empty() {
    let mut session = Session::new();
    assert_eq!(message(enter(&mut session, "set a b")), "History is empty.");
    assert_eq!(session.variables.user_variables.len(), 1);
    assert_eq!(message(enter(&mut session, "set a")), "You must supply a value");
    assert_eq!(message(enter(&mut session, "set")), "You must supply a variable");
    assert_eq!(session.variables.user_variables.len(), 1);
}

#[test]
fn info_shows_the_selected_command_of_the_history() {
    let mut session = Session::new();
    assert_eq!(message(enter(&mut session, "info")), "There isn't a command currently selected.");
    let mut session = with_history();
    match enter(&mut session, "info") {
        Effect::Copy { command, text, .. } => {
            assert_eq!(command.cmd_id, 2);
            assert_eq!(text, "ls [DIR]");
        }
        _ => panic!("no copy"),
    }
}

#[test]
fn a_search_by_word_looks_in_the_text_of_the_commands() {
    let mut session = Session::new();
    match enter(&mut session, "search reverse shell") {
        Effect::Search { store_column, pattern, line } => {
            assert_eq!(store_column, "Cmd");
            assert_eq!(pattern, "%reverse shell%");
            assert_eq!(line, "search reverse shell");
        }
        _ => panic!("no search"),
    }
    assert_eq!(message(enter(&mut session, "search")), "No search term entered");
}

#[test]
fn help_and_env_show_text() {
    let mut session = Session::new();
    assert_eq!(text(enter(&mut session, "help add")), help_on(HelpTopic::Add));
    assert_eq!(text(enter(&mut session, "help")), help_on(HelpTopic::General));
    assert_eq!(text(enter(&mut session, "env")), "");
    session.variables.set_user_variable("a".to_string(), "1".to_string());
    assert_eq!(text(enter(&mut session, "env")), "\n\rUser Variables\n\r----------------------------\n\rA                   : 1\n\r\n\r");
}

#[test]
fn an_unknown_line_is_not_found() {
    let mut session = Session::new();
    assert_eq!(message(enter(&mut session, "frobnicate")), "Command not found.");
    assert_eq!(message(session.handle_key(Key::Enter)), "Command not found.");
}

#[test]
fn enter_ends_the_history_mode() {
    let mut session = with_history();
    session.handle_key(Key::History);
    assert!(session.results.get_history_mode());
    enter(&mut session, "env");
    assert!(!session.results.get_history_mode());
}

#[test]
fn a_search_is_prepared_for_a_column() {
    match execute_search("cmnt".to_string(), "search  two words".to_string()) {
        Effect::Search { store_column, pattern, line } => {
            assert_eq!(store_column, "cmnt");
            assert_eq!(pattern, "% two words%");
            assert_eq!(line, "search  two words");
        }
        _ => panic!("no search"),
    }
    assert_eq!(message(execute_search("Cmd".to_string(), "search ".to_string())), "No search term entered");
}
