use crate::variables::{substituted, Variables};
use vstd::prelude::*;
use vstd::string::StringSliceAdditionalSpecFns;

verus! {

/// A link or note that belongs to a command.
pub struct References {
    pub ref_id: i32,
    pub ref_value: String,
}

/// A reference, as an identifier and a text.
pub struct ReferenceView {
    pub id: int,
    pub value: Seq<char>,
}

impl View for References {
    type V = ReferenceView;

    open spec fn view(&self) -> ReferenceView {
        ReferenceView { id: self.ref_id as int, value: self.ref_value@ }
    }
}

impl DeepView for References {
    type V = ReferenceView;

    open spec fn deep_view(&self) -> ReferenceView {
        self@
    }
}

impl Clone for References {
    fn clone(&self) -> (r: Self)
        ensures
            r == *self,
    {
        References { ref_id: self.ref_id, ref_value: self.ref_value.clone() }
    }
}

/// A label that belongs to a command.
pub struct Tags {
    pub tag_id: i32,
    pub tag_value: String,
}

/// A tag, as an identifier and a text.
pub struct TagView {
    pub id: int,
    pub value: Seq<char>,
}

impl View for Tags {
    type V = TagView;

    open spec fn view(&self) -> TagView {
        TagView { id: self.tag_id as int, value: self.tag_value@ }
    }
}

impl DeepView for Tags {
    type V = TagView;

    open spec fn deep_view(&self) -> TagView {
        self@
    }
}

impl Clone for Tags {
    fn clone(&self) -> (r: Self)
        ensures
            r == *self,
    {
        Tags { tag_id: self.tag_id, tag_value: self.tag_value.clone() }
    }
}

/// A stored command: its identifier, its text, and what is noted about it.
pub struct Command {
    pub cmd_id: i32,
    pub cmd: String,
    pub cmnt: String,
    pub author: String,
    pub references: Vec<References>,
    pub tags: Vec<Tags>,
}

/// A command, as an identifier, texts and lists.
pub struct CommandView {
    pub id: int,
    pub text: Seq<char>,
    pub comment: Seq<char>,
    pub author: Seq<char>,
    pub references: Seq<ReferenceView>,
    pub tags: Seq<TagView>,
}

impl View for Command {
    type V = CommandView;

    open spec fn view(&self) -> CommandView {
        CommandView {
            id: self.cmd_id as int,
            text: self.cmd@,
            comment: self.cmnt@,
            author: self.author@,
            references: self.references.deep_view(),
            tags: self.tags.deep_view(),
        }
    }
}

impl DeepView for Command {
    type V = CommandView;

    open spec fn deep_view(&self) -> CommandView {
        self@
    }
}

/// A copy of a list of references.
pub fn clone_references(list: &Vec<References>) -> (r: Vec<References>)
    ensures
        r.deep_view() == list.deep_view(),
{
    let mut r: Vec<References> = Vec::new();
    let mut i: usize = 0;
    while i < list.len()
        invariant
            i <= list.len(),
            r.len() == i,
            forall|j: int| 0 <= j < i ==> r[j]@ == list[j]@,
        decreases list.len() - i,
    {
        r.push(list[i].clone());
        i += 1;
    }
    r
}

/// A copy of a list of tags.
pub fn clone_tags(list: &Vec<Tags>) -> (r: Vec<Tags>)
    ensures
        r.deep_view() == list.deep_view(),
{
    let mut r: Vec<Tags> = Vec::new();
    let mut i: usize = 0;
    while i < list.len()
        invariant
            i <= list.len(),
            r.len() == i,
            forall|j: int| 0 <= j < i ==> r[j]@ == list[j]@,
        decreases list.len() - i,
    {
        r.push(list[i].clone());
        i += 1;
    }
    r
}

impl Clone for Command {
    fn clone(&self) -> (r: Self)
        ensures
            r@ == self@,
    {
        Command {
            cmd_id: self.cmd_id,
            cmd: self.cmd.clone(),
            cmnt: self.cmnt.clone(),
            author: self.author.clone(),
            references: clone_references(&self.references),
            tags: clone_tags(&self.tags),
        }
    }
}

/// A copy of a list of commands.
pub fn clone_commands(list: &Vec<Command>) -> (r: Vec<Command>)
    ensures
        r.deep_view() == list.deep_view(),
{
    let mut r: Vec<Command> = Vec::new();
    let mut i: usize = 0;
    while i < list.len()
        invariant
            i <= list.len(),
            r.len() == i,
            forall|j: int| 0 <= j < i ==> r[j]@ == list[j]@,
        decreases list.len() - i,
    {
        r.push(list[i].clone());
        i += 1;
    }
    r
}

/// A byte that stands for itself in a percent-encoded text: an ASCII letter or digit,
/// or one of `-`, `_`, `.`, `~`.
pub open spec fn is_unreserved(b: u8) -> bool {
    ||| 0x41 <= b <= 0x5a
    ||| 0x61 <= b <= 0x7a
    ||| 0x30 <= b <= 0x39
    ||| b == 0x2d
    ||| b == 0x5f
    ||| b == 0x2e
    ||| b == 0x7e
}

/// The upper-case hexadecimal digit for a number below 16.
pub open spec fn hex_digit(n: u8) -> char {
    if n < 10 {
        (0x30 + n) as char
    } else {
        (0x37 + n) as char
    }
}

/// One byte, percent-encoded: itself where it is unreserved, else `%` and its two
/// hexadecimal digits.
pub open spec fn encoded_byte(b: u8) -> Seq<char> {
    if is_unreserved(b) {
        seq![b as char]
    } else {
        seq!['%', hex_digit(b / 16), hex_digit(b % 16)]
    }
}

/// The bytes from index `i` on, percent-encoded.
pub open spec fn percent_encoded_from(bytes: Seq<u8>, i: int) -> Seq<char>
    decreases bytes.len() - i,
{
    if 0 <= i < bytes.len() {
        encoded_byte(bytes[i]) + percent_encoded_from(bytes, i + 1)
    } else {
        Seq::empty()
    }
}

/// The bytes, percent-encoded one by one.
pub open spec fn percent_encoded(bytes: Seq<u8>) -> Seq<char> {
    percent_encoded_from(bytes, 0)
}

/// The upper-case hexadecimal digit for a number below 16.
fn hex_digit_of(n: u8) -> (c: char)
    requires
        n < 16,
    ensures
        c == hex_digit(n),
{
    if n < 10 {
        (0x30 + n) as char
    } else {
        (0x37 + n) as char
    }
}

/// The UTF-8 bytes of `text`, percent-encoded.
pub fn percent_encode(text: &str) -> (out: String)
    ensures
        out@ == percent_encoded(text.spec_bytes()),
{
    let bytes = text.as_bytes();
    let mut out = String::new();
    let mut i: usize = 0;
    while i < bytes.len()
        invariant
            i <= bytes.len(),
            bytes@ == text.spec_bytes(),
            out@ + percent_encoded_from(bytes@, i as int) == percent_encoded(bytes@),
        decreases bytes.len() - i,
    {
        let b = bytes[i];
        if (b >= 0x41 && b <= 0x5a) || (b >= 0x61 && b <= 0x7a) || (b >= 0x30 && b <= 0x39) || b
            == 0x2d || b == 0x5f || b == 0x2e || b == 0x7e {
            out.push(b as char);
        } else {
            out.push('%');
            out.push(hex_digit_of(b / 16));
            out.push(hex_digit_of(b % 16));
        }
        i += 1;
    }
    out
}

impl Command {
    /// The command's text with its tokens substituted from the user variables.
    pub fn set_command_variables(&self, command_variables: Variables) -> (out: String)
        ensures
            out@ == substituted(self@.text, command_variables@.user),
    {
        command_variables.replace_variables_in_command(self.cmd.as_str())
    }

    /// The command's text with its tokens substituted from the user variables, then
    /// its UTF-8 bytes percent-encoded.
    pub fn url_encode(&self, command_variables: Variables) -> (out: String)
        ensures
            out@ == percent_encoded(
                vstd::utf8::encode_utf8(substituted(self@.text, command_variables@.user)),
            ),
    {
        let filled = command_variables.replace_variables_in_command(self.cmd.as_str());
        percent_encode(filled.as_str())
    }
}

} // verus!
