use redox::command::Command;
use redox::request::Column;
use redox::store::{group_rows, like_pattern, update_message, CommandRow};

fn row(id: i32, text: &str, ref_id: i32, reference: &str) -> CommandRow {
    CommandRow {
        cmd_id: id,
        cmd: text.to_string(),
        cmnt: format!("comment {}", id),
        author: format!("author {}", id),
        ref_id,
        ref_value: reference.to_string(),
    }
}

#[test]
fn rows_are_grouped_by_identifier_in_first_occurrence_order() {
    let rows = vec![row(2, "two", 10, "a"), row(1, "one", 11, "b"), row(2, "two", 12, "c"), row(3, "three", 13, "d"), row(1, "one", 14, "e")];
    let commands = group_rows(&rows);
    assert_eq!(commands.iter().map(|c| c.cmd_id).collect::<Vec<_>>(), vec![2, 1, 3]);
    assert_eq!(commands[0].cmd, "two");
    assert_eq!(commands[0].cmnt, "comment 2");
    assert_eq!(commands[0].author, "author 2");
    assert!(commands[0].tags.is_empty());
    let references: Vec<Vec<(i32, String)>> =
        commands.iter().map(|c| c.references.iter().map(|r| (r.ref_id, r.ref_value.clone())).collect()).collect();
    assert_eq!(
        references,
        vec![
            vec![(10, "a".to_string()), (12, "c".to_string())],
            vec![(11, "b".to_string()), (14, "e".to_string())],
            vec![(13, "d".to_string())],
        ]
    );
}

#[test]
fn a_later_row_does_not_change_the_texts_of_its_command() {
    let mut second = row(1, "changed", 2, "b");
    second.cmnt = "changed".to_string();
    let commands = group_rows(&vec![row(1, "one", 1, "a"), second]);
    assert_eq!(commands.len(), 1);
    assert_eq!(commands[0].cmd, "one");
    assert_eq!(commands[0].cmnt, "comment 1");
    assert_eq!(commands[0].references.len(), 2);
}

#[test]
fn no_rows_are_no_commands() {
    assert!(group_rows(&Vec::new()).is_empty());
}

#[test]
fn a_like_pattern_wraps_the_term() {
    assert_eq!(like_pattern("reverse shell"), "%reverse shell%");
    assert_eq!(like_pattern(""), "%%");
    assert_eq!(like_pattern("100%"), "%100%%");
}

#[test]
fn the_message_after_an_update_names_the_column_as_written() {
    assert_eq!(update_message(Column::Comment, "mycomment", "a b"), "Updated mycomment: a b\n\r");
    assert_eq!(update_message(Column::Author, "author", "me"), "Updated author: me\n\r");
    assert_eq!(update_message(Column::Command, "command", "ls"), "Updated command: ls\n\r");
    assert_eq!(update_message(Column::References, "references", "https://example.org"), "Added https://example.org to references\n\r");
}

#[test]
fn a_command_right_after_it_was_added() {
    let command = Command::added(12, "ls".to_string(), "None".to_string());
    assert_eq!(command.cmd_id, 12);
    assert_eq!(command.cmd, "ls");
    assert_eq!(command.cmnt, "None");
    assert_eq!(command.author, "");
    assert!(command.references.is_empty());
    assert!(command.tags.is_empty());
}

#[test]
fn an_update_changes_one_column() {
    let mut command = Command::added(1, "ls".to_string(), "None".to_string());
    command.apply_update(Column::Comment, "lists".to_string(), 0);
    command.apply_update(Column::Author, "me".to_string(), 0);
    command.apply_update(Column::Command, "ls -la".to_string(), 0);
    command.apply_update(Column::References, "man ls".to_string(), 5);
    command.apply_update(Column::References, "info ls".to_string(), 6);
    assert_eq!(command.cmd_id, 1);
    assert_eq!(command.cmnt, "lists");
    assert_eq!(command.author, "me");
    assert_eq!(command.cmd, "ls -la");
    assert_eq!(command.references.iter().map(|r| (r.ref_id, r.ref_value.as_str())).collect::<Vec<_>>(), vec![(5, "man ls"), (6, "info ls")]);
}
