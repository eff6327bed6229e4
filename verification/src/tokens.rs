use vstd::prelude::*;

verus! {

/// One of the two characters that delimit a token.
pub open spec fn is_bracket(c: char) -> bool {
    c == '[' || c == ']'
}

/// The first index at or after `i` that holds a bracket, or the length of `s` where none follows.
pub open spec fn run_end(s: Seq<char>, i: int) -> int
    decreases s.len() - i,
{
    if 0 <= i < s.len() && !is_bracket(s[i]) {
        run_end(s, i + 1)
    } else {
        i
    }
}

/// A token `[payload]` starts at `i`: an opening bracket, a payload of at least one
/// character none of which is a bracket, and a closing bracket.
pub open spec fn token_at(s: Seq<char>, i: int) -> bool {
    &&& 0 <= i < s.len()
    &&& s[i] == '['
    &&& i + 1 < run_end(s, i + 1) < s.len()
    &&& s[run_end(s, i + 1)] == ']'
}

/// The payload of the token that starts at `i`.
pub open spec fn token_payload(s: Seq<char>, i: int) -> Seq<char> {
    s.subrange(i + 1, run_end(s, i + 1))
}

/// The index just behind the closing bracket of the token that starts at `i`.
pub open spec fn token_end(s: Seq<char>, i: int) -> int {
    run_end(s, i + 1) + 1
}

/// A backslash at `i` with a token directly behind it.
pub open spec fn escaped_token_at(s: Seq<char>, i: int) -> bool {
    0 <= i < s.len() && s[i] == '\\' && token_at(s, i + 1)
}

/// What a left-to-right reading of a text is made of.
pub enum Piece {
    /// A character outside every token.
    Plain(char),
    /// A token, with the backslash before it where there is one.
    Token { escaped: bool, payload: Seq<char> },
}

/// The piece is a token with this payload.
pub open spec fn is_token_with(p: Piece, payload: Seq<char>) -> bool {
    match p {
        Piece::Plain(_) => false,
        Piece::Token { escaped, payload: own } => own == payload,
    }
}

/// The piece is a token whose payload is not purely numeric.
pub open spec fn is_variable_token(p: Piece) -> bool {
    match p {
        Piece::Plain(_) => false,
        Piece::Token { escaped, payload } => !is_numeric(payload),
    }
}

/// The payload of a token; the empty text for a plain character.
pub open spec fn payload_of(p: Piece) -> Seq<char> {
    match p {
        Piece::Plain(_) => Seq::empty(),
        Piece::Token { escaped, payload } => payload,
    }
}

/// The piece that starts at `i`. A backslash belongs to the token behind it.
pub open spec fn piece_at(s: Seq<char>, i: int) -> Piece {
    if escaped_token_at(s, i) {
        Piece::Token { escaped: true, payload: token_payload(s, i + 1) }
    } else if token_at(s, i) {
        Piece::Token { escaped: false, payload: token_payload(s, i) }
    } else {
        Piece::Plain(s[i])
    }
}

/// The index just behind the piece that starts at `i`.
pub open spec fn piece_end(s: Seq<char>, i: int) -> int {
    if escaped_token_at(s, i) {
        token_end(s, i + 1)
    } else if token_at(s, i) {
        token_end(s, i)
    } else {
        i + 1
    }
}

/// The pieces of `s` from index `i` on, in order.
pub open spec fn pieces_from(s: Seq<char>, i: int) -> Seq<Piece>
    decreases s.len() - i,
{
    if 0 <= i < s.len() {
        seq![piece_at(s, i)] + pieces_from(s, piece_end(s, i))
    } else {
        Seq::empty()
    }
}

/// The pieces of a whole text.
pub open spec fn pieces(s: Seq<char>) -> Seq<Piece> {
    pieces_from(s, 0)
}

/// The characters that a piece stands for in its text.
pub open spec fn piece_text(p: Piece) -> Seq<char> {
    match p {
        Piece::Plain(c) => seq![c],
        Piece::Token { escaped, payload } => {
            let token = seq!['['] + payload + seq![']'];
            if escaped {
                seq!['\\'] + token
            } else {
                token
            }
        },
    }
}

/// Every character is an ASCII digit.
pub open spec fn is_numeric(s: Seq<char>) -> bool {
    forall|i: int| 0 <= i < s.len() ==> '0' <= #[trigger] s[i] <= '9'
}

/// `run_end` stops at the first bracket.
pub proof fn lemma_run_end(s: Seq<char>, i: int)
    requires
        0 <= i <= s.len(),
    ensures
        i <= run_end(s, i) <= s.len(),
        forall|k: int| i <= k < run_end(s, i) ==> !is_bracket(#[trigger] s[k]),
        run_end(s, i) < s.len() ==> is_bracket(s[run_end(s, i)]),
    decreases s.len() - i,
{
    if i < s.len() && !is_bracket(s[i]) {
        lemma_run_end(s, i + 1);
    }
}

/// Where a token starts, the text holds its opening bracket, its payload and its closing bracket.
pub proof fn lemma_token_text(s: Seq<char>, i: int)
    requires
        token_at(s, i),
    ensures
        i + 2 < token_end(s, i) <= s.len(),
        token_payload(s, i).len() > 0,
        forall|k: int| 0 <= k < token_payload(s, i).len() ==> !is_bracket(#[trigger] token_payload(s, i)[k]),
        s.subrange(i, token_end(s, i)) == seq!['['] + token_payload(s, i) + seq![']'],
{
    lemma_run_end(s, i + 1);
}

/// The reading of `s` from index `from` on comes to a piece that starts at index `p`.
pub open spec fn reads_to(s: Seq<char>, from: int, p: int) -> bool
    decreases s.len() - from,
{
    if from == p {
        true
    } else if 0 <= from < p && from < s.len() {
        reads_to(s, piece_end(s, from), p)
    } else {
        false
    }
}

/// Where the piece begins that holds the token at `i`: at the backslash before it where
/// that belongs to it, else at `i`.
pub open spec fn piece_start_of(s: Seq<char>, i: int) -> int {
    if escaped_token_at(s, i - 1) {
        i - 1
    } else {
        i
    }
}

/// No token is passed over: a reading that starts at or before the piece of a token
/// comes to that piece. So the tokens that are read are all the tokens of the text.
pub proof fn lemma_every_token_is_read(s: Seq<char>, from: int, i: int)
    requires
        token_at(s, i),
        0 <= from <= piece_start_of(s, i),
    ensures
        reads_to(s, from, piece_start_of(s, i)),
        piece_at(s, piece_start_of(s, i)) == (Piece::Token {
            escaped: piece_start_of(s, i) != i,
            payload: token_payload(s, i),
        }),
    decreases s.len() - from,
{
    let start = piece_start_of(s, i);
    if from < start {
        if escaped_token_at(s, from) {
            lemma_run_end(s, from + 2);
            let end = token_end(s, from + 1);
            if start < end {
                assert(!is_bracket(s[i]) || i == end - 1);
            }
        } else if token_at(s, from) {
            lemma_run_end(s, from + 1);
            let end = token_end(s, from);
            if start < end {
                assert(!is_bracket(s[i]) || i == end - 1);
            }
        }
        lemma_every_token_is_read(s, piece_end(s, from), i);
    }
}

/// The result of scanning one piece.
pub struct Scan {
    /// Whether the piece is a token.
    pub token: bool,
    /// Whether a backslash stands before the token.
    pub escaped: bool,
    /// Where the payload starts, for a token.
    pub payload_start: usize,
    /// Where the payload ends, for a token.
    pub payload_end: usize,
    /// The index just behind the piece.
    pub end: usize,
}

impl Scan {
    /// The scan describes the piece of `s` that starts at `i`.
    pub open spec fn describes(self, s: Seq<char>, i: int) -> bool {
        &&& self.end == piece_end(s, i)
        &&& i < self.end <= s.len()
        &&& piece_at(s, i) matches Piece::Token { escaped, payload } ==> {
            &&& self.token
            &&& self.escaped == escaped
            &&& i <= self.payload_start < self.payload_end < self.end
            &&& payload == s.subrange(self.payload_start as int, self.payload_end as int)
        }
        &&& piece_at(s, i) is Plain ==> !self.token
    }
}

/// The first index at or after `i` that holds a bracket, or the length of `v`.
pub fn find_run_end(v: &Vec<char>, i: usize) -> (e: usize)
    requires
        i <= v.len(),
    ensures
        e == run_end(v@, i as int),
        i <= e <= v.len(),
{
    let mut e: usize = i;
    while e < v.len() && v[e] != '[' && v[e] != ']'
        invariant
            i <= e <= v.len(),
            run_end(v@, e as int) == run_end(v@, i as int),
        decreases v.len() - e,
    {
        e += 1;
    }
    e
}

/// Whether a token starts at `i`, and where its payload ends.
pub fn find_token(v: &Vec<char>, i: usize) -> (r: Option<usize>)
    requires
        i <= v.len(),
    ensures
        r is Some <==> token_at(v@, i as int),
        r matches Some(e) ==> e == run_end(v@, i + 1) && i + 1 < e < v.len(),
{
    if i >= v.len() || v[i] != '[' {
        return None;
    }
    let e = find_run_end(v, i + 1);
    if e > i + 1 && e < v.len() && v[e] == ']' {
        Some(e)
    } else {
        None
    }
}

/// Reads the piece that starts at `i`.
pub fn scan_piece(v: &Vec<char>, i: usize) -> (r: Scan)
    requires
        i < v.len(),
    ensures
        r.describes(v@, i as int),
{
    if v[i] == '\\' {
        if let Some(e) = find_token(v, i + 1) {
            return Scan { token: true, escaped: true, payload_start: i + 2, payload_end: e, end: e + 1 };
        }
    }
    if let Some(e) = find_token(v, i) {
        return Scan { token: true, escaped: false, payload_start: i + 1, payload_end: e, end: e + 1 };
    }
    Scan { token: false, escaped: false, payload_start: i, payload_end: i, end: i + 1 }
}

} // verus!
