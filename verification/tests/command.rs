use redox::command::{percent_encode, Command, References, Tags};
use redox::variables::Variables;

fn command(text: &str) -> Command {
    Command {
        cmd_id: 7,
        cmd: text.to_string(),
        cmnt: "a comment".to_string(),
        author: "someone".to_string(),
        references: vec![References { ref_id: 1, ref_value: "https://example.org".to_string() }],
        tags: vec![Tags { tag_id: 2, tag_value: "net".to_string() }],
    }
}

#[test]
fn command_variables_are_filled_in() {
    let mut variables = Variables::new();
    variables.set_user_variable("lhost".to_string(), "10.0.0.1".to_string());
    assert_eq!(command("nc [LHOST] [LPORT]").set_command_variables(variables), "nc 10.0.0.1 [LPORT]");
}

#[test]
fn url_encoding_keeps_unreserved_characters() {
    let text = "ABCXYZabcxyz0189-_.~";
    assert_eq!(command(text).url_encode(Variables::new()), text);
}

#[test]
fn url_encoding_writes_other_bytes_as_two_upper_case_hex_digits() {
    assert_eq!(command(" /?&=%+\n\t\"[x]").url_encode(Variables::new()), "%20%2F%3F%26%3D%25%2B%0A%09%22%5Bx%5D");
    assert_eq!(command("\u{0}\u{7f}@`{").url_encode(Variables::new()), "%00%7F%40%60%7B");
}

#[test]
fn url_encoding_works_on_the_bytes_of_utf8() {
    assert_eq!(command("é€😀").url_encode(Variables::new()), "%C3%A9%E2%82%AC%F0%9F%98%80");
}

#[test]
fn url_encoding_comes_after_substitution() {
    let mut variables = Variables::new();
    variables.set_user_variable("url".to_string(), "http://a b/".to_string());
    assert_eq!(command("curl [URL]").url_encode(variables), "curl%20http%3A%2F%2Fa%20b%2F");
}

#[test]
fn percent_encoding_of_nothing_is_nothing() {
    assert_eq!(percent_encode(""), "");
}

#[test]
fn a_clone_of_a_command_holds_the_same() {
    let first = command("ls");
    let copy = first.clone();
    assert_eq!(copy.cmd_id, 7);
    assert_eq!(copy.cmd, "ls");
    assert_eq!(copy.cmnt, "a comment");
    assert_eq!(copy.author, "someone");
    assert_eq!(copy.references.len(), 1);
    assert_eq!(copy.references[0].ref_id, 1);
    assert_eq!(copy.references[0].ref_value, "https://example.org");
    assert_eq!(copy.tags.len(), 1);
    assert_eq!(copy.tags[0].tag_id, 2);
    assert_eq!(copy.tags[0].tag_value, "net");
}
