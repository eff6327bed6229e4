use redox::command::{Command, References, Tags};
use redox::search::{Results, SearchError, COMMAND_SEARCH, COMMENT_SEARCH, DOWN, OFF, UP};

fn command(id: i32, text: &str) -> Command {
    Command {
        cmd_id: id,
        cmd: text.to_string(),
        cmnt: String::new(),
        author: String::new(),
        references: Vec::new(),
        tags: Vec::new(),
    }
}

fn three() -> Vec<Command> {
    vec![command(1, "one"), command(2, "two"), command(3, "three")]
}

fn ids(list: &Vec<Command>) -> Vec<i32> {
    list.iter().map(|c| c.cmd_id).collect()
}

#[test]
fn a_new_session_holds_nothing() {
    let results = Results::new();
    assert!(results.get_results().is_empty());
    assert!(results.get_history().is_empty());
    assert_eq!(results.get_search_mode(), OFF);
    assert!(!results.get_history_mode());
    assert!(!results.get_results_selection_mode());
    assert_eq!(results.get_selected_result_index(), None);
    assert_eq!(results.get_selected_history_index(), None);
    assert!(results.get_current_command().is_none());
    assert!(results.get_current_history_command().is_none());
    assert_eq!(results.get_current_mode(), "");
}

#[test]
fn history_scenario_add_then_update() {
    let mut results = Results::new();
    results.add_command_to_history(command(5, "whoami"));
    assert_eq!(ids(&results.get_history()), vec![5]);
    assert_eq!(results.get_selected_history_index(), Some(0));
    let mut updated = command(5, "whoami");
    updated.cmnt = "updated".to_string();
    results.add_command_to_history(updated);
    let history = results.get_history();
    assert_eq!(history.len(), 1);
    assert_eq!(history[0].cmnt, "updated");
    assert_eq!(history[0].cmd, "whoami");
    assert_eq!(results.get_selected_history_index(), Some(0));
}

#[test]
fn navigation_scenario_up_up_down() {
    let mut results = Results::new();
    results.set_results(three());
    assert!(!results.get_results_selection_mode());
    assert_eq!(results.cycle_through_results(UP), Ok(()));
    assert!(results.get_results_selection_mode());
    assert_eq!(results.get_selected_result_index(), Some(2));
    assert_eq!(results.cycle_through_results(UP), Ok(()));
    assert_eq!(results.get_selected_result_index(), Some(1));
    assert_eq!(results.cycle_through_results(DOWN), Ok(()));
    assert_eq!(results.get_selected_result_index(), Some(2));
}

#[test]
fn the_first_move_down_starts_at_the_first_result() {
    let mut results = Results::new();
    results.set_results(three());
    assert_eq!(results.cycle_through_results(DOWN), Ok(()));
    assert_eq!(results.get_selected_result_index(), Some(0));
    assert_eq!(results.get_current_command().unwrap().cmd_id, 1);
}

#[test]
fn moves_wrap_around_both_ends() {
    let mut results = Results::new();
    results.set_results(three());
    results.cycle_through_results(DOWN).unwrap();
    results.cycle_through_results(UP).unwrap();
    assert_eq!(results.get_selected_result_index(), Some(2));
    results.cycle_through_results(DOWN).unwrap();
    assert_eq!(results.get_selected_result_index(), Some(0));
}

#[test]
fn as_many_moves_up_as_down_lead_back() {
    for len in 1..6 {
        for start in 0..len {
            let mut results = Results::new();
            results.set_results((0..len).map(|i| command(i, "c")).collect());
            results.cycle_through_results(DOWN).unwrap();
            for _ in 0..start {
                results.cycle_through_results(DOWN).unwrap();
            }
            assert_eq!(results.get_selected_result_index(), Some(start as usize));
            for _ in 0..len {
                results.cycle_through_results(UP).unwrap();
            }
            assert_eq!(results.get_selected_result_index(), Some(start as usize));
            for _ in 0..len {
                results.cycle_through_results(DOWN).unwrap();
            }
            assert_eq!(results.get_selected_result_index(), Some(start as usize));
        }
    }
}

#[test]
fn moving_without_results_changes_nothing_and_says_so() {
    let mut results = Results::new();
    assert_eq!(results.cycle_through_results(UP), Err(SearchError::EmptyResults));
    assert_eq!(results.cycle_through_results(DOWN), Err(SearchError::EmptyResults));
    assert!(!results.get_results_selection_mode());
    assert_eq!(results.get_selected_result_index(), None);
    assert_eq!(SearchError::EmptyResults.message(), "Search results are empty.");
}

#[test]
fn asking_for_the_selected_command_of_an_empty_history_is_an_error() {
    let results = Results::new();
    assert!(matches!(results.get_selected_history_command(), Err(SearchError::EmptyHistory)));
    assert_eq!(SearchError::EmptyHistory.message(), "History is empty.");
}

#[test]
fn the_selected_command_of_the_history_is_the_one_added_last() {
    let mut results = Results::new();
    results.add_command_to_history(command(1, "one"));
    results.add_command_to_history(command(2, "two"));
    assert_eq!(results.get_selected_history_command().unwrap().cmd_id, 2);
    assert_eq!(results.get_current_history_command().unwrap().cmd_id, 2);
    results.add_command_to_history(command(1, "one again"));
    assert_eq!(results.get_selected_history_index(), Some(0));
    let current = results.get_selected_history_command().unwrap();
    assert_eq!(current.cmd_id, 1);
    assert_eq!(current.cmd, "one again");
    assert_eq!(ids(&results.get_history()), vec![1, 2]);
}

#[test]
fn adding_an_identifier_again_keeps_the_length() {
    let mut results = Results::new();
    for id in [3, 1, 2] {
        results.add_command_to_history(command(id, "first"));
    }
    for id in [1, 2, 3, 3, 1] {
        results.add_command_to_history(command(id, "second"));
        assert_eq!(results.get_history().len(), 3);
        assert_eq!(results.get_selected_history_command().unwrap().cmd_id, id);
    }
    assert_eq!(ids(&results.get_history()), vec![3, 1, 2]);
    assert!(results.get_history().iter().all(|c| c.cmd == "second"));
}

#[test]
fn an_update_in_the_history_takes_text_comment_author_and_references() {
    let mut results = Results::new();
    let mut first = command(9, "old");
    first.tags = vec![Tags { tag_id: 1, tag_value: "kept".to_string() }];
    first.references = vec![References { ref_id: 1, ref_value: "old ref".to_string() }];
    results.add_command_to_history(first);
    let second = Command {
        cmd_id: 9,
        cmd: "new".to_string(),
        cmnt: "new comment".to_string(),
        author: "new author".to_string(),
        references: vec![References { ref_id: 2, ref_value: "new ref".to_string() }],
        tags: vec![Tags { tag_id: 2, tag_value: "dropped".to_string() }],
    };
    results.add_command_to_history(second);
    let kept = results.get_selected_history_command().unwrap();
    assert_eq!(kept.cmd, "new");
    assert_eq!(kept.cmnt, "new comment");
    assert_eq!(kept.author, "new author");
    assert_eq!(kept.references.len(), 1);
    assert_eq!(kept.references[0].ref_value, "new ref");
    assert_eq!(kept.tags.len(), 1);
    assert_eq!(kept.tags[0].tag_value, "kept");
}

#[test]
fn the_history_does_not_depend_on_the_results() {
    let mut results = Results::new();
    results.add_command_to_history(command(4, "four"));
    assert!(results.get_results().is_empty());
    assert_eq!(ids(&results.get_history()), vec![4]);
}

#[test]
fn new_results_replace_the_old_ones_and_end_the_selection() {
    let mut results = Results::new();
    results.set_results(three());
    results.cycle_through_results(UP).unwrap();
    results.cycle_through_results(UP).unwrap();
    results.set_results(vec![command(8, "eight"), command(9, "nine")]);
    assert_eq!(ids(&results.get_results()), vec![8, 9]);
    assert!(!results.get_results_selection_mode());
    assert_eq!(results.get_selected_result_index(), Some(1));
    assert_eq!(results.get_current_command().unwrap().cmd_id, 9);
    results.set_results(Vec::new());
    assert_eq!(results.get_selected_result_index(), None);
    assert!(results.get_current_command().is_none());
}

#[test]
fn reset_clears_all_but_the_history() {
    let mut results = Results::new();
    results.set_results(three());
    results.cycle_search_mode();
    results.set_history_mode(true);
    results.cycle_through_results(UP).unwrap();
    results.add_command_to_history(command(1, "one"));
    results.reset();
    assert!(results.get_results().is_empty());
    assert_eq!(results.get_search_mode(), OFF);
    assert!(!results.get_history_mode());
    assert!(!results.get_results_selection_mode());
    assert_eq!(results.get_selected_result_index(), None);
    assert_eq!(ids(&results.get_history()), vec![1]);
    assert_eq!(results.get_selected_history_index(), Some(0));
}

#[test]
fn the_search_key_cycles_through_the_modes_and_never_switches_off() {
    let mut results = Results::new();
    let mut seen = Vec::new();
    for _ in 0..5 {
        results.cycle_search_mode();
        seen.push(results.get_search_mode());
    }
    assert_eq!(seen, vec![COMMAND_SEARCH, COMMENT_SEARCH, COMMAND_SEARCH, COMMENT_SEARCH, COMMAND_SEARCH]);
}

#[test]
fn the_mode_is_shown_as_it_is() {
    let mut results = Results::new();
    assert_eq!(results.get_current_mode(), "");
    results.set_history_mode(true);
    assert_eq!(results.get_current_mode(), "history");
    results.cycle_search_mode();
    assert_eq!(results.get_current_mode(), "find[command]");
    assert_eq!(results.get_search_column(), "Cmd");
    results.cycle_search_mode();
    assert_eq!(results.get_current_mode(), "find[comment]");
    assert_eq!(results.get_search_column(), "cmnt");
    results.set_search_mode(OFF);
    assert_eq!(results.get_current_mode(), "history");
    results.set_history_mode(false);
    assert_eq!(results.get_current_mode(), "");
}

#[test]
fn switching_the_search_on_starts_in_the_first_mode() {
    let mut results = Results::new();
    results.set_search_mode(COMMENT_SEARCH);
    assert_eq!(results.get_search_mode(), COMMAND_SEARCH);
    results.set_search_mode(7);
    assert_eq!(results.get_search_mode(), COMMAND_SEARCH);
}

#[test]
fn switching_the_search_off_ends_the_selection() {
    let mut results = Results::new();
    results.set_results(three());
    results.cycle_search_mode();
    results.cycle_through_results(UP).unwrap();
    results.set_search_mode(OFF);
    assert_eq!(results.get_search_mode(), OFF);
    assert!(!results.get_results_selection_mode());
    assert_eq!(ids(&results.get_results()), vec![1, 2, 3]);
}

#[test]
fn entering_history_mode_ends_the_selection_and_leaving_it_does_not() {
    let mut results = Results::new();
    results.set_results(three());
    results.cycle_through_results(UP).unwrap();
    results.set_history_mode(false);
    assert!(results.get_results_selection_mode());
    results.set_history_mode(true);
    assert!(results.get_history_mode());
    assert!(!results.get_results_selection_mode());
}
