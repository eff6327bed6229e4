use crate::text::{
    append_chars, chars_of, copy_range, eq_ignore_ascii_case, lowercase,
    same_ignoring_ascii_case, string_of, uppercase,
};
use crate::tokens::{
    is_numeric, piece_at, piece_end, piece_text, pieces, pieces_from,
    scan_piece, Piece,
};
use vstd::prelude::*;

verus! {

/// The width to which a key is padded in a printed list.
pub const KEY_COLUMN_WIDTH: usize = 20;

/// A key with its value.
pub struct Variable {
    pub key: String,
    pub value: String,
}

/// A key with its value, as texts.
pub struct VariableView {
    pub key: Seq<char>,
    pub value: Seq<char>,
}

impl View for Variable {
    type V = VariableView;

    open spec fn view(&self) -> VariableView {
        VariableView { key: self.key@, value: self.value@ }
    }
}

impl DeepView for Variable {
    type V = VariableView;

    open spec fn deep_view(&self) -> VariableView {
        self@
    }
}

impl Clone for Variable {
    fn clone(&self) -> (r: Self)
        ensures
            r == *self,
    {
        Variable { key: self.key.clone(), value: self.value.clone() }
    }
}

/// The value of the first variable from index `i` on whose key is `name` up to ASCII case.
pub open spec fn lookup_from(vars: Seq<VariableView>, name: Seq<char>, i: int) -> Option<Seq<char>>
    decreases vars.len() - i,
{
    if 0 <= i < vars.len() {
        if same_ignoring_ascii_case(vars[i].key, name) {
            Some(vars[i].value)
        } else {
            lookup_from(vars, name, i + 1)
        }
    } else {
        None
    }
}

/// The value of the first variable whose key is `name` up to ASCII case.
pub open spec fn lookup(vars: Seq<VariableView>, name: Seq<char>) -> Option<Seq<char>> {
    lookup_from(vars, name, 0)
}

/// The value that a token's payload is filled in with when a command is displayed:
/// that of the user variable of this name, or the empty text.
pub open spec fn default_value(user: Seq<VariableView>, payload: Seq<char>) -> Seq<char> {
    match lookup(user, payload) {
        Some(value) => value,
        None => Seq::empty(),
    }
}

/// What substitution puts in the place of a piece: a plain character stays; a token is
/// replaced, backslash included, by the value of the user variable that its lower-cased
/// payload names, and stays as it is where there is none.
pub open spec fn resolve(p: Piece, user: Seq<VariableView>) -> Seq<char> {
    match p {
        Piece::Plain(c) => seq![c],
        Piece::Token { escaped, payload } => match lookup(user, lowercase(payload)) {
            Some(value) => value,
            None => piece_text(p),
        },
    }
}

/// The pieces resolved one by one and joined.
pub open spec fn join_resolved(ps: Seq<Piece>, user: Seq<VariableView>) -> Seq<char>
    decreases ps.len(),
{
    if ps.len() == 0 {
        Seq::empty()
    } else {
        resolve(ps[0], user) + join_resolved(ps.drop_first(), user)
    }
}

/// A text with its tokens substituted.
pub open spec fn substituted(text: Seq<char>, user: Seq<VariableView>) -> Seq<char> {
    join_resolved(pieces(text), user)
}

/// Some variable of `vars` has exactly this key.
pub open spec fn has_key(vars: Seq<VariableView>, key: Seq<char>) -> bool {
    exists|i: int| 0 <= i < vars.len() && (#[trigger] vars[i]).key == key
}

/// `found` with the variable of a piece added: a token whose payload is not purely numeric
/// and is no key of `found` yet brings its payload, with the default value for it.
pub open spec fn with_piece(found: Seq<VariableView>, p: Piece, user: Seq<VariableView>) -> Seq<
    VariableView,
> {
    match p {
        Piece::Plain(_) => found,
        Piece::Token { escaped, payload } => if is_numeric(payload) || has_key(found, payload) {
            found
        } else {
            found.push(VariableView { key: payload, value: default_value(user, payload) })
        },
    }
}

/// `found` with the variables of the pieces added, from left to right.
pub open spec fn with_pieces(found: Seq<VariableView>, ps: Seq<Piece>, user: Seq<VariableView>) -> Seq<
    VariableView,
>
    decreases ps.len(),
{
    if ps.len() == 0 {
        found
    } else {
        with_pieces(with_piece(found, ps[0], user), ps.drop_first(), user)
    }
}

/// The variables of a text: one for each distinct token payload that is not purely numeric,
/// in the order of first occurrence.
pub open spec fn extracted(text: Seq<char>, user: Seq<VariableView>) -> Seq<VariableView> {
    with_pieces(Seq::empty(), pieces(text), user)
}

/// The index of the first variable from `i` on with exactly this key, or the length of `vars`.
pub open spec fn key_index_from(vars: Seq<VariableView>, key: Seq<char>, i: int) -> int
    decreases vars.len() - i,
{
    if 0 <= i < vars.len() && vars[i].key != key {
        key_index_from(vars, key, i + 1)
    } else {
        i
    }
}

/// `vars` with `key` bound to `value`: in the place of the first variable of this key,
/// or at the end where there is none.
pub open spec fn with_value(vars: Seq<VariableView>, key: Seq<char>, value: Seq<char>) -> Seq<
    VariableView,
> {
    let i = key_index_from(vars, key, 0);
    if i < vars.len() {
        vars.update(i, VariableView { key, value })
    } else {
        vars.push(VariableView { key, value })
    }
}

/// `vars` with `key` bound to `value` at the end, unless `vars` has this key already.
pub open spec fn with_default(vars: Seq<VariableView>, key: Seq<char>, value: Seq<char>) -> Seq<
    VariableView,
> {
    if key_index_from(vars, key, 0) < vars.len() {
        vars
    } else {
        vars.push(VariableView { key, value })
    }
}

/// `n` spaces, none for a negative `n`.
pub open spec fn spaces(n: int) -> Seq<char> {
    Seq::new(
        if n > 0 {
            n as nat
        } else {
            0
        },
        |i: int| ' ',
    )
}

/// The line of a printed list for one variable: the key, padded with spaces to the column
/// width, a colon and a space, the value or `(empty)`, and a line break.
pub open spec fn printable_line(v: VariableView) -> Seq<char> {
    v.key + spaces(KEY_COLUMN_WIDTH - v.key.len()) + seq![':', ' '] + (if v.value.len() == 0 {
        "(empty)"@
    } else {
        v.value
    }) + seq!['\n', '\r']
}

/// The lines of the variables from index `i` on.
pub open spec fn printable_from(vars: Seq<VariableView>, i: int) -> Seq<char>
    decreases vars.len() - i,
{
    if 0 <= i < vars.len() {
        printable_line(vars[i]) + printable_from(vars, i + 1)
    } else {
        Seq::empty()
    }
}

/// The printed list of `vars`: one line for each, in order.
pub open spec fn printable_list(vars: Seq<VariableView>) -> Seq<char> {
    printable_from(vars, 0)
}

/// The joined pieces from `i` on start with the resolved piece at `i`.
pub proof fn lemma_join_step(s: Seq<char>, i: int, user: Seq<VariableView>)
    requires
        0 <= i < s.len(),
    ensures
        join_resolved(pieces_from(s, i), user) == resolve(piece_at(s, i), user) + join_resolved(
            pieces_from(s, piece_end(s, i)),
            user,
        ),
{
    let rest = pieces_from(s, piece_end(s, i));
    assert((seq![piece_at(s, i)] + rest).drop_first() =~= rest);
}

/// The variables of the pieces from `i` on are those of the piece at `i` and then of the rest.
pub proof fn lemma_extract_step(
    found: Seq<VariableView>,
    s: Seq<char>,
    i: int,
    user: Seq<VariableView>,
)
    requires
        0 <= i < s.len(),
    ensures
        with_pieces(found, pieces_from(s, i), user) == with_pieces(
            with_piece(found, piece_at(s, i), user),
            pieces_from(s, piece_end(s, i)),
            user,
        ),
{
    let rest = pieces_from(s, piece_end(s, i));
    assert((seq![piece_at(s, i)] + rest).drop_first() =~= rest);
}

/// The index of the first variable whose key is `name` up to ASCII case.
pub fn find_variable(vars: &Vec<Variable>, name: &Vec<char>) -> (r: Option<usize>)
    ensures
        match r {
            Some(i) => i < vars.len() && lookup(vars.deep_view(), name@) == Some(vars[i as int].value@),
            None => lookup(vars.deep_view(), name@) is None,
        },
{
    let mut i: usize = 0;
    while i < vars.len()
        invariant
            i <= vars.len(),
            lookup_from(vars.deep_view(), name@, i as int) == lookup(vars.deep_view(), name@),
        decreases vars.len() - i,
    {
        let key = chars_of(vars[i].key.as_str());
        if eq_ignore_ascii_case(&key, name) {
            return Some(i);
        }
        i += 1;
    }
    None
}

/// The index of the first variable with exactly this key, or the length of `vars`.
pub fn find_key(vars: &Vec<Variable>, key: &String) -> (i: usize)
    ensures
        i == key_index_from(vars.deep_view(), key@, 0),
        i <= vars.len(),
        i < vars.len() ==> vars[i as int].key@ == key@,
        forall|j: int| 0 <= j < i ==> (#[trigger] vars.deep_view()[j]).key != key@,
{
    let mut i: usize = 0;
    while i < vars.len()
        invariant
            i <= vars.len(),
            key_index_from(vars.deep_view(), key@, i as int) == key_index_from(
                vars.deep_view(),
                key@,
                0,
            ),
            forall|j: int| 0 <= j < i ==> (#[trigger] vars.deep_view()[j]).key != key@,
        decreases vars.len() - i,
    {
        if vars[i].key == *key {
            return i;
        }
        i += 1;
    }
    i
}

/// Appends the line of one variable to `out`.
fn push_line(out: &mut String, v: &Variable)
    ensures
        final(out)@ == old(out)@ + printable_line(v@),
{
    out.append(v.key.as_str());
    let mut width: usize = v.key.as_str().unicode_len();
    let ghost start = out@;
    while width < KEY_COLUMN_WIDTH
        invariant
            v.key@.len() <= width,
            width == v.key@.len() || width <= KEY_COLUMN_WIDTH,
            out@ == start + spaces(width - v.key@.len()),
        decreases KEY_COLUMN_WIDTH - width,
    {
        out.push(' ');
        width += 1;
    }
    out.push(':');
    out.push(' ');
    if v.value.as_str().is_empty() {
        out.append("(empty)");
    } else {
        out.append(v.value.as_str());
    }
    out.push('\n');
    out.push('\r');
}

/// The printed list of `vars`.
fn print_list(vars: &Vec<Variable>) -> (out: String)
    ensures
        out@ == printable_list(vars.deep_view()),
{
    let mut out = String::new();
    let mut i: usize = 0;
    while i < vars.len()
        invariant
            i <= vars.len(),
            out@ + printable_from(vars.deep_view(), i as int) == printable_list(vars.deep_view()),
        decreases vars.len() - i,
    {
        push_line(&mut out, &vars[i]);
        i += 1;
    }
    out
}

/// The variables that a user has set, and those of the command that was looked at last.
pub struct Variables {
    pub user_variables: Vec<Variable>,
    pub command_variables: Vec<Variable>,
}

/// Two lists of variables, as texts.
pub struct VariablesView {
    pub user: Seq<VariableView>,
    pub command: Seq<VariableView>,
}

impl View for Variables {
    type V = VariablesView;

    open spec fn view(&self) -> VariablesView {
        VariablesView {
            user: self.user_variables.deep_view(),
            command: self.command_variables.deep_view(),
        }
    }
}

/// A copy of a list of variables.
pub fn clone_variables(list: &Vec<Variable>) -> (r: Vec<Variable>)
    ensures
        r.deep_view() == list.deep_view(),
{
    let mut r: Vec<Variable> = Vec::new();
    let mut i: usize = 0;
    while i < list.len()
        invariant
            i <= list.len(),
            r.len() == i,
            forall|j: int| 0 <= j < i ==> r[j]@ == list[j]@,
        decreases list.len() - i,
    {
        r.push(list[i].clone());
        i += 1;
    }
    r
}

impl Clone for Variables {
    fn clone(&self) -> (r: Self)
        ensures
            r@ == self@,
    {
        Variables {
            user_variables: clone_variables(&self.user_variables),
            command_variables: clone_variables(&self.command_variables),
        }
    }
}

impl Variables {
    /// No variable of either kind.
    pub fn new() -> (r: Self)
        ensures
            r@.user.len() == 0,
            r@.command.len() == 0,
    {
        Variables { user_variables: Vec::new(), command_variables: Vec::new() }
    }

    /// The printed list of `variables`: for each, in order, its line.
    pub fn get_printable_variable_list(&self, variables: Vec<Variable>) -> (out: String)
        ensures
            out@ == printable_list(variables.deep_view()),
    {
        print_list(&variables)
    }

    /// The printed list of the user variables.
    pub fn list_user_variables(&self) -> (out: String)
        ensures
            out@ == printable_list(self@.user),
    {
        print_list(&self.user_variables)
    }

    /// The printed list of the command variables.
    pub fn list_command_variables(&self) -> (out: String)
        ensures
            out@ == printable_list(self@.command),
    {
        print_list(&self.command_variables)
    }

    /// Binds the upper-cased `key` to `value` among the user variables, in the place of
    /// an earlier value for it. The command variables get `key` as it was written, with
    /// `value`, unless they hold it already.
    pub fn set_user_variable(&mut self, key: String, value: String)
        ensures
            final(self)@.user == with_value(old(self)@.user, uppercase(key@), value@),
            final(self)@.command == with_default(old(self)@.command, key@, value@),
    {
        let stored = key.as_str().to_uppercase();
        let at = find_key(&self.user_variables, &stored);
        if at < self.user_variables.len() {
            self.user_variables.set(at, Variable { key: stored, value: value.clone() });
        } else {
            self.user_variables.push(Variable { key: stored, value: value.clone() });
        }
        let seen = find_key(&self.command_variables, &key);
        if seen >= self.command_variables.len() {
            self.command_variables.push(Variable { key, value });
        }
    }

    /// `command` with every token substituted: replaced, with the backslash before it,
    /// by the value of the user variable that its lower-cased payload names up to ASCII
    /// case, and left as it is where there is none.
    pub fn replace_variables_in_command(&self, command: &str) -> (out: String)
        ensures
            out@ == substituted(command@, self@.user),
    {
        let text = chars_of(command);
        let mut out: Vec<char> = Vec::new();
        let mut i: usize = 0;
        while i < text.len()
            invariant
                i <= text.len(),
                text@ == command@,
                out@ + join_resolved(pieces_from(text@, i as int), self@.user) == substituted(
                    command@,
                    self@.user,
                ),
            decreases text.len() - i,
        {
            let scan = scan_piece(&text, i);
            proof {
                lemma_join_step(text@, i as int, self@.user);
            }
            if scan.token {
                let payload = copy_range(&text, scan.payload_start, scan.payload_end);
                let name = chars_of(string_of(&payload).as_str().to_lowercase().as_str());
                match find_variable(&self.user_variables, &name) {
                    Some(k) => {
                        let value = chars_of(self.user_variables[k].value.as_str());
                        append_chars(&mut out, &value);
                    },
                    None => {
                        let literal = copy_range(&text, i, scan.end);
                        append_chars(&mut out, &literal);
                    },
                }
            } else {
                out.push(text[i]);
            }
            i = scan.end;
        }
        string_of(&out)
    }

    /// Replaces the command variables by those of `command`: one for each distinct token
    /// payload that is not purely numeric, in the order of first occurrence, with the
    /// value of the user variable of that name up to ASCII case, or the empty text.
    /// Returns their printed list.
    pub fn extract_variables_from_command(&mut self, command: &str) -> (listing: String)
        ensures
            final(self)@.user == old(self)@.user,
            final(self)@.command == extracted(command@, old(self)@.user),
            listing@ == printable_list(final(self)@.command),
    {
        let text = chars_of(command);
        let mut found: Vec<Variable> = Vec::new();
        let mut i: usize = 0;
        assert(found.deep_view() =~= Seq::empty());
        while i < text.len()
            invariant
                i <= text.len(),
                text@ == command@,
                self@.user == old(self)@.user,
                with_pieces(found.deep_view(), pieces_from(text@, i as int), self@.user)
                    == extracted(command@, self@.user),
            decreases text.len() - i,
        {
            let scan = scan_piece(&text, i);
            proof {
                lemma_extract_step(found.deep_view(), text@, i as int, self@.user);
            }
            if scan.token {
                let payload = copy_range(&text, scan.payload_start, scan.payload_end);
                if !all_digits(&payload) {
                    let key = string_of(&payload);
                    let seen = find_key(&found, &key);
                    assert(has_key(found.deep_view(), payload@) <==> seen < found.len()) by {
                        if seen < found.len() {
                            assert(found.deep_view()[seen as int].key == payload@);
                        }
                    }
                    if seen >= found.len() {
                        let value = match find_variable(&self.user_variables, &payload) {
                            Some(k) => self.user_variables[k].value.clone(),
                            None => String::new(),
                        };
                        let ghost earlier = found.deep_view();
                        found.push(Variable { key, value });
                        assert(found.deep_view() =~= earlier.push(
                            VariableView {
                                key: payload@,
                                value: default_value(self@.user, payload@),
                            },
                        ));
                    }
                }
            }
            i = scan.end;
        }
        self.command_variables = found;
        print_list(&self.command_variables)
    }
}

/// Whether every character is an ASCII digit.
pub fn all_digits(v: &Vec<char>) -> (r: bool)
    ensures
        r == is_numeric(v@),
{
    let mut i: usize = 0;
    while i < v.len()
        invariant
            i <= v.len(),
            forall|j: int| 0 <= j < i ==> '0' <= #[trigger] v@[j] <= '9',
        decreases v.len() - i,
    {
        if v[i] < '0' || v[i] > '9' {
            return false;
        }
        i += 1;
    }
    true
}

} // verus!
