use crate::request::{find_help_topic, help_topic, HelpTopic};
use crate::text::{begins_with, chars_of, starts_with};
use vstd::prelude::*;

verus! {

/// The help on a topic, each key or word in a column of ten characters.
pub open spec fn help_text(topic: HelpTopic) -> Seq<char> {
    match topic {
        HelpTopic::Add => "To add a command to the database\n\r'add -c command [optional: -d comment]"@,
        HelpTopic::Search => "Ctrl+r    Activates a dynamic search for a command or a command comment as you type.\n\r          Click Ctrl+r repeatedly to cycle between command search or comment search.\n\rEsc       Exit current mode\n\rOr use 'search' command followed by a term to search results."@,
        HelpTopic::General => "Ctrl+r    Activates a dynamic search for a command or a command comment as you type.\n\r          Click Ctrl+r repeatedly to cycle between command search or comment search.\n\rCtrl+c    Copy the selected command to the clipboard.\n\rCtrl+u    URL-encode and then copy the selected command to the clipboard.\n\rCrtl+h    Display selectable history of already selected commands.\n\rhist      Same as Crtl+h\n\rCrtl+v    Paste from the clipboard. Note: Your terminal's native paste key combination will not work.\n\rinfo      Display info on the selected command.\n\renv       Show user variables that have already been set.\n\rset       Set a user variable Example: set lhost 10.10.16.3\n\r          Variables are case insensitive\n\radd       Add a command to the database Example: add -c stty raw -echo;fg\n\rupdate    Update a database column (i.e. comment, command, author, and references) in the selected command\n\r          .\n\r          Example: update references https://blog.gregscharf.com\n\rEsc       Exit current mode\n\rhelp      Display help\n\rCtrl+q    Exit RedOx\n\r"@,
    }
}

/// The short help on a topic, each key or word in a column of seventeen characters.
pub open spec fn short_help_text(topic: HelpTopic) -> Seq<char> {
    match topic {
        HelpTopic::Add => "To add a command to the database\n\r'add -c command [optional: -d comment]\n\r"@,
        HelpTopic::Search => "Ctrl+r           Enter quick search mode to dynamically find commands as you type.\n\rEsc              Exit current mode\n\rOr use 'search' command followed by a term to search results.\n\r"@,
        HelpTopic::General => "Ctrl+r           Enter quick search mode to dynamically find commands as you type.\n\rCtrl+c           Copy currently selected command to clipboard.\n\rCtrl+u           URL-encode and then copy currently selected command to clipboard.\n\rCrtl+h or hist   Display selectable history of already selected commands.\n\rCrtl+v           Paste from clipboard\n\rinfo             Display info on the currently selected command.\n\renv              Show currently set user variables\n\radd              Add a command to the database e.g. 'add -c stty raw -echo;fg'\n\rupdate           update database columns of currently selected command\n\r                 Use the name to the left of the content e.g. update author\n\r                 Ex: update references http://blog.gregscharf.com\n\rEsc              Exit current mode\n\rhelp             Display help\n\rCtrl+q or exit   Exit RedOx\n\r\n\r"@,
    }
}

/// The help on a topic.
pub fn help_on(topic: HelpTopic) -> (out: String)
    ensures
        out@ == help_text(topic),
{
    match topic {
        HelpTopic::Add => "To add a command to the database\n\r'add -c command [optional: -d comment]".to_owned(),
        HelpTopic::Search => "Ctrl+r    Activates a dynamic search for a command or a command comment as you type.\n\r          Click Ctrl+r repeatedly to cycle between command search or comment search.\n\rEsc       Exit current mode\n\rOr use 'search' command followed by a term to search results.".to_owned(),
        HelpTopic::General => "Ctrl+r    Activates a dynamic search for a command or a command comment as you type.\n\r          Click Ctrl+r repeatedly to cycle between command search or comment search.\n\rCtrl+c    Copy the selected command to the clipboard.\n\rCtrl+u    URL-encode and then copy the selected command to the clipboard.\n\rCrtl+h    Display selectable history of already selected commands.\n\rhist      Same as Crtl+h\n\rCrtl+v    Paste from the clipboard. Note: Your terminal's native paste key combination will not work.\n\rinfo      Display info on the selected command.\n\renv       Show user variables that have already been set.\n\rset       Set a user variable Example: set lhost 10.10.16.3\n\r          Variables are case insensitive\n\radd       Add a command to the database Example: add -c stty raw -echo;fg\n\rupdate    Update a database column (i.e. comment, command, author, and references) in the selected command\n\r          .\n\r          Example: update references https://blog.gregscharf.com\n\rEsc       Exit current mode\n\rhelp      Display help\n\rCtrl+q    Exit RedOx\n\r".to_owned(),
    }
}

/// The help that a line asks for: on adding where `add` stands in it, else on searching
/// where `search` does, else on everything.
pub fn execute_help(command: &str) -> (out: String)
    ensures
        out@ == help_text(help_topic(command@)),
{
    let line = chars_of(command);
    help_on(find_help_topic(&line))
}

/// The answer to a line that can be answered without the store: the short help for a
/// line that begins with `help`, and an error for any other.
pub fn execute_command(command: &str) -> (r: Result<String, String>)
    ensures
        match r {
            Ok(out) => starts_with(command@, "help"@) && out@ == short_help_text(
                help_topic(command@),
            ),
            Err(e) => !starts_with(command@, "help"@) && e@ == "Invalid command"@,
        },
{
    let line = chars_of(command);
    if begins_with(&line, "help") {
        match find_help_topic(&line) {
            HelpTopic::Add => Ok("To add a command to the database\n\r'add -c command [optional: -d comment]\n\r".to_owned()),
            HelpTopic::Search => Ok("Ctrl+r           Enter quick search mode to dynamically find commands as you type.\n\rEsc              Exit current mode\n\rOr use 'search' command followed by a term to search results.\n\r".to_owned()),
            HelpTopic::General => Ok("Ctrl+r           Enter quick search mode to dynamically find commands as you type.\n\rCtrl+c           Copy currently selected command to clipboard.\n\rCtrl+u           URL-encode and then copy currently selected command to clipboard.\n\rCrtl+h or hist   Display selectable history of already selected commands.\n\rCrtl+v           Paste from clipboard\n\rinfo             Display info on the currently selected command.\n\renv              Show currently set user variables\n\radd              Add a command to the database e.g. 'add -c stty raw -echo;fg'\n\rupdate           update database columns of currently selected command\n\r                 Use the name to the left of the content e.g. update author\n\r                 Ex: update references http://blog.gregscharf.com\n\rEsc              Exit current mode\n\rhelp             Display help\n\rCtrl+q or exit   Exit RedOx\n\r\n\r".to_owned()),
        }
    } else {
        Err("Invalid command".to_owned())
    }
}

} // verus!
