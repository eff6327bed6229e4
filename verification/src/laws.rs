use crate::command::CommandView;
use crate::search::{id_index, id_index_from, merged, next_search_mode, ResultsView, DOWN, OFF, UP};
use crate::text::{ascii_lower, ascii_upper, lowercase, same_ignoring_ascii_case, uppercase};
use crate::tokens::{
    is_numeric, is_token_with, is_variable_token, lemma_token_text, payload_of, piece_at,
    piece_end, pieces, pieces_from, Piece,
};
use crate::variables::{
    default_value, extracted, has_key, join_resolved, key_index_from, lemma_join_step, lookup_from, resolve, substituted, with_piece, with_pieces, with_value, VariableView,
};
use vstd::prelude::*;
use vstd::utf8::is_ascii_chars;

verus! {

/// The session `s` with a selection going on at `index`.
pub open spec fn selecting(s: ResultsView, index: int) -> ResultsView {
    ResultsView { selection_active: true, selected_result_index: index, ..s }
}

/// `n` moves up from a selection go `n` places towards the start, through the end of
/// the list where the start is passed.
pub proof fn lemma_moves_up(s: ResultsView, n: nat)
    requires
        s.wf(),
        s.selection_active,
        n <= s.results.len(),
    ensures
        s.moved_times(UP as int, n) == selecting(
            s,
            if n <= s.selected_result_index {
                s.selected_result_index - n
            } else {
                s.results.len() + s.selected_result_index - n
            },
        ),
    decreases n,
{
    if n > 0 {
        lemma_moves_up(s.moved(UP as int), (n - 1) as nat);
    }
}

/// `n` moves down from a selection go `n` places towards the end, through the start of
/// the list where the end is passed.
pub proof fn lemma_moves_down(s: ResultsView, n: nat)
    requires
        s.wf(),
        s.selection_active,
        n <= s.results.len(),
    ensures
        s.moved_times(DOWN as int, n) == selecting(
            s,
            if s.selected_result_index + n < s.results.len() {
                s.selected_result_index + n
            } else {
                s.selected_result_index + n - s.results.len()
            },
        ),
    decreases n,
{
    if n > 0 {
        lemma_moves_down(s.moved(DOWN as int), (n - 1) as nat);
    }
}

/// Moving in a circle: with results that are not empty, as many moves up as there are
/// results, then as many moves down, lead back to the result that was current before.
/// This holds of a session in which a selection is going on, and of one whose current
/// result is the first; from any other the first move up jumps to the last result.
pub proof fn lemma_up_then_down_returns(s: ResultsView)
    requires
        s.wf(),
        s.results.len() > 0,
        s.selection_active || s.selected_result_index == 0,
    ensures
        s.moved_times(UP as int, s.results.len()).moved_times(DOWN as int, s.results.len())
            == selecting(s, s.selected_result_index),
{
    let n = s.results.len();
    if s.selection_active {
        lemma_moves_up(s, n);
    } else {
        lemma_moves_up(s.moved(UP as int), (n - 1) as nat);
    }
    lemma_moves_down(s.moved_times(UP as int, n), n);
}

/// Where the first command with an identifier stands.
pub proof fn lemma_id_index(list: Seq<CommandView>, id: int, i: int)
    requires
        0 <= i <= list.len(),
    ensures
        i <= id_index_from(list, id, i) <= list.len(),
        id_index_from(list, id, i) < list.len() ==> list[id_index_from(list, id, i)].id == id,
        forall|j: int| i <= j < id_index_from(list, id, i) ==> (#[trigger] list[j]).id != id,
    decreases list.len() - i,
{
    if i < list.len() && list[i].id != id {
        lemma_id_index(list, id, i + 1);
    }
}

/// In a history without repeated identifiers, a command stands where the search for
/// its identifier ends.
pub proof fn lemma_id_index_found(list: Seq<CommandView>, at: int)
    requires
        0 <= at < list.len(),
        forall|i: int, j: int|
            0 <= i < j < list.len() ==> (#[trigger] list[i]).id != (#[trigger] list[j]).id,
    ensures
        id_index(list, list[at].id) == at,
{
    lemma_id_index(list, list[at].id, 0);
    let found = id_index(list, list[at].id);
    if found < at {
    }
}

/// Adding a command keeps a session well formed.
pub proof fn lemma_added_wf(s: ResultsView, c: CommandView)
    requires
        s.wf(),
    ensures
        s.added(c).wf(),
        s.added(c).history.len() == if id_index(s.history, c.id) < s.history.len() {
            s.history.len()
        } else {
            s.history.len() + 1
        },
        s.added(c).history[s.added(c).selected_history_index].id == c.id,
{
    lemma_id_index(s.history, c.id, 0);
    let i = id_index(s.history, c.id);
    let t = s.added(c);
}

/// Adding an identifier again: a second command with the identifier of one that was just
/// added leaves the history as long as it was and every other command in it as it was;
/// the command of this identifier takes the new values, and stays the current one.
pub proof fn lemma_adding_twice(s: ResultsView, first: CommandView, second: CommandView)
    requires
        s.wf(),
        first.id == second.id,
    ensures
        s.added(first).added(second) == (ResultsView {
            history: s.added(first).history.update(
                s.added(first).selected_history_index,
                merged(s.added(first).history[s.added(first).selected_history_index], second),
            ),
            ..s.added(first)
        }),
        s.added(first).added(second).history.len() == s.added(first).history.len(),
{
    lemma_added_wf(s, first);
    let t = s.added(first);
    lemma_id_index_found(t.history, t.selected_history_index);
}

/// Adding the same command twice is the same as adding it once.
pub proof fn lemma_adding_is_idempotent(s: ResultsView, c: CommandView)
    requires
        s.wf(),
    ensures
        s.added(c).added(c) == s.added(c),
{
    lemma_adding_twice(s, c, c);
    let t = s.added(c);
    let i = t.selected_history_index;
    lemma_id_index(s.history, c.id, 0);
    assert(t.history.update(i, t.history[i]) =~= t.history);
}

/// Lower-casing the ASCII letters twice is the same as doing it once.
pub proof fn lemma_ascii_lower_twice(s: Seq<char>)
    ensures
        ascii_lower(ascii_lower(s)) == ascii_lower(s),
{
}

/// The lower-case form of a text of ASCII characters is the text up to ASCII case.
pub proof fn lemma_lowercase_of_ascii(s: Seq<char>)
    requires
        is_ascii_chars(s),
    ensures
        same_ignoring_ascii_case(lowercase(s), s),
{
    lemma_ascii_lower_twice(s);
}

/// A name whose lower-case form is the name up to ASCII case finds the same variable
/// in both forms.
pub proof fn lemma_lookup_lowercase(vars: Seq<VariableView>, name: Seq<char>, i: int)
    requires
        same_ignoring_ascii_case(lowercase(name), name),
        0 <= i,
    ensures
        lookup_from(vars, lowercase(name), i) == lookup_from(vars, name, i),
    decreases vars.len() - i,
{
    if i < vars.len() {
        lemma_lookup_lowercase(vars, name, i + 1);
    }
}

/// Every variable of `vars` has the default value for its key.
pub open spec fn holds_defaults(vars: Seq<VariableView>, user: Seq<VariableView>) -> bool {
    forall|j: int|
        0 <= j < vars.len() ==> (#[trigger] vars[j]).value == default_value(user, vars[j].key)
}

/// No key of `vars` is purely numeric.
pub open spec fn no_numeric_key(vars: Seq<VariableView>) -> bool {
    forall|j: int| 0 <= j < vars.len() ==> !is_numeric((#[trigger] vars[j]).key)
}

/// No two variables of `vars` have the same key.
pub open spec fn distinct_keys(vars: Seq<VariableView>) -> bool {
    forall|i: int, j: int|
        0 <= i < j < vars.len() ==> (#[trigger] vars[i]).key != (#[trigger] vars[j]).key
}

/// `payload` is the payload of a token among `ps`.
pub open spec fn is_token_of(ps: Seq<Piece>, payload: Seq<char>) -> bool {
    exists|k: int| 0 <= k < ps.len() && is_token_with(#[trigger] ps[k], payload)
}

/// What adding the variables of some pieces keeps and brings.
pub proof fn lemma_with_pieces(found: Seq<VariableView>, ps: Seq<Piece>, user: Seq<VariableView>)
    requires
        holds_defaults(found, user),
        no_numeric_key(found),
        distinct_keys(found),
    ensures
        holds_defaults(with_pieces(found, ps, user), user),
        no_numeric_key(with_pieces(found, ps, user)),
        distinct_keys(with_pieces(found, ps, user)),
        found.len() <= with_pieces(found, ps, user).len(),
        forall|j: int| 0 <= j < found.len() ==> with_pieces(found, ps, user)[j] == found[j],
        forall|j: int|
            found.len() <= j < with_pieces(found, ps, user).len() ==> is_token_of(
                ps,
                (#[trigger] with_pieces(found, ps, user)[j]).key,
            ),
        forall|k: int|
            0 <= k < ps.len() && is_variable_token(#[trigger] ps[k]) ==> has_key(
                with_pieces(found, ps, user),
                payload_of(ps[k]),
            ),
    decreases ps.len(),
{
    if ps.len() > 0 {
        let next = with_piece(found, ps[0], user);
        let rest = ps.drop_first();
        let all = with_pieces(found, ps, user);
        lemma_with_pieces(next, rest, user);
        assert forall|j: int| 0 <= j < found.len() implies all[j] == found[j] by {
            assert(all[j] == next[j]);
        }
        assert forall|j: int| found.len() <= j < all.len() implies is_token_of(
            ps,
            (#[trigger] all[j]).key,
        ) by {
            if j < next.len() {
                assert(all[j] == next[j]);
            } else {
                let k = choose|k: int|
                    0 <= k < rest.len() && is_token_with(#[trigger] rest[k], all[j].key);
            }
        }
        assert forall|k: int| 0 <= k < ps.len() && is_variable_token(#[trigger] ps[k]) implies has_key(
            all,
            payload_of(ps[k]),
        ) by {
            if k == 0 {
                let payload = payload_of(ps[0]);
                if has_key(found, payload) {
                    let i = choose|i: int|
                        0 <= i < found.len() && (#[trigger] found[i]).key == payload;
                } else {
                    assert(all[found.len() as int] == next[found.len() as int]);
                }
            } else {
                assert(ps[k] == rest[k - 1]);
            }
        }
    }
}

/// What the variables of a text are: the payloads of its tokens that are not purely
/// numeric, each once, each with the default value for it.
pub proof fn lemma_extracted(text: Seq<char>, user: Seq<VariableView>)
    ensures
        holds_defaults(extracted(text, user), user),
        no_numeric_key(extracted(text, user)),
        distinct_keys(extracted(text, user)),
        forall|j: int|
            0 <= j < extracted(text, user).len() ==> is_token_of(
                pieces(text),
                (#[trigger] extracted(text, user)[j]).key,
            ),
        forall|k: int|
            0 <= k < pieces(text).len() && is_variable_token(#[trigger] pieces(text)[k])
                ==> has_key(extracted(text, user), payload_of(pieces(text)[k])),
{
    lemma_with_pieces(Seq::empty(), pieces(text), user);
}

/// Extraction and substitution agree: a token whose payload is the key of an extracted
/// variable with a value that is not empty does not stay in the substituted text; what
/// stands in its place is that value. This holds of a payload whose lower-case form is
/// the payload up to ASCII case, as that of every payload of ASCII characters is; the
/// lower-case form of another payload may name no variable where the payload names one.
pub proof fn lemma_extracted_values_are_substituted(
    text: Seq<char>,
    user: Seq<VariableView>,
    j: int,
    k: int,
)
    requires
        0 <= j < extracted(text, user).len(),
        extracted(text, user)[j].value.len() > 0,
        0 <= k < pieces(text).len(),
        is_token_with(pieces(text)[k], extracted(text, user)[j].key),
        same_ignoring_ascii_case(
            lowercase(extracted(text, user)[j].key),
            extracted(text, user)[j].key,
        ),
    ensures
        resolve(pieces(text)[k], user) == extracted(text, user)[j].value,
{
    lemma_extracted(text, user);
    let v = extracted(text, user)[j];
    lemma_lookup_lowercase(user, v.key, 0);
}

/// The search key never switches the search off: from any mode, and from no search,
/// it leads to a search mode.
pub proof fn lemma_cycling_never_switches_off(s: ResultsView)
    requires
        s.wf(),
    ensures
        s.with_next_search_mode().wf(),
        s.with_next_search_mode().search_mode != OFF,
        s.search_mode == OFF ==> s.with_next_search_mode().search_mode == next_search_mode(
            OFF as int,
        ),
{
}

/// Without user variables the pieces of a text from index `i` on are joined to the text
/// from `i` on.
pub proof fn lemma_pieces_spell_text(text: Seq<char>, i: int)
    requires
        0 <= i <= text.len(),
    ensures
        join_resolved(pieces_from(text, i), Seq::empty()) == text.subrange(i, text.len() as int),
    decreases text.len() - i,
{
    let none = Seq::<VariableView>::empty();
    if i < text.len() {
        lemma_join_step(text, i, none);
        let end = piece_end(text, i);
        match piece_at(text, i) {
            Piece::Plain(c) => {
            },
            Piece::Token { escaped, payload } => {
                if escaped {
                    lemma_token_text(text, i + 1);
                } else {
                    lemma_token_text(text, i);
                }
            },
        }
        lemma_pieces_spell_text(text, end);
    } else {
    }
}

/// Substitution leaves a text as it is where no user variable is set.
pub proof fn lemma_substitution_without_variables(text: Seq<char>)
    ensures
        substituted(text, Seq::empty()) == text,
{
    lemma_pieces_spell_text(text, 0);
}

/// Upper-casing the ASCII letters does not change a text up to ASCII case.
pub proof fn lemma_ascii_upper_same(s: Seq<char>)
    ensures
        same_ignoring_ascii_case(ascii_upper(s), s),
{
    assert(ascii_lower(ascii_upper(s)) =~= ascii_lower(s));
}

/// In `vars`, whatever has the key `key` up to ASCII case has exactly the key `key`.
pub open spec fn only_spelling(vars: Seq<VariableView>, key: Seq<char>) -> bool {
    forall|i: int|
        0 <= i < vars.len() && same_ignoring_ascii_case((#[trigger] vars[i]).key, key)
            ==> vars[i].key == key
}

/// Where the first variable with a key stands.
pub proof fn lemma_key_index(vars: Seq<VariableView>, key: Seq<char>, i: int)
    requires
        0 <= i <= vars.len(),
    ensures
        i <= key_index_from(vars, key, i) <= vars.len(),
        key_index_from(vars, key, i) < vars.len() ==> vars[key_index_from(vars, key, i)].key
            == key,
    decreases vars.len() - i,
{
    if i < vars.len() && vars[i].key != key {
        lemma_key_index(vars, key, i + 1);
    }
}

/// After `key` was bound to `value`, a name that is `key` up to ASCII case finds `value`.
proof fn lemma_bound_is_found(
    vars: Seq<VariableView>,
    key: Seq<char>,
    value: Seq<char>,
    name: Seq<char>,
    i: int,
)
    requires
        only_spelling(vars, key),
        same_ignoring_ascii_case(key, name),
        0 <= i <= key_index_from(vars, key, 0),
        key_index_from(vars, key, i) == key_index_from(vars, key, 0),
    ensures
        lookup_from(with_value(vars, key, value), name, i) == Some(value),
    decreases vars.len() - i,
{
    let bound = with_value(vars, key, value);
    let at = key_index_from(vars, key, 0);
    lemma_key_index(vars, key, 0);
    if i < vars.len() && vars[i].key != key {
        lemma_key_index(vars, key, i + 1);
        lemma_bound_is_found(vars, key, value, name, i + 1);
    } else {
    }
}

/// Setting and substituting: after a variable was set under a key of ASCII characters,
/// a token whose payload is that key up to ASCII case is replaced by the value. This
/// holds where no other spelling of the key stands among the user variables.
pub proof fn lemma_set_then_substituted(
    user: Seq<VariableView>,
    key: Seq<char>,
    value: Seq<char>,
    payload: Seq<char>,
    escaped: bool,
)
    requires
        is_ascii_chars(key),
        is_ascii_chars(payload),
        same_ignoring_ascii_case(key, payload),
        only_spelling(user, uppercase(key)),
    ensures
        resolve(Piece::Token { escaped, payload }, with_value(user, uppercase(key), value))
            == value,
{
    lemma_ascii_upper_same(key);
    lemma_lowercase_of_ascii(payload);
    lemma_ascii_lower_twice(payload);
    lemma_key_index(user, uppercase(key), 0);
    lemma_bound_is_found(user, uppercase(key), value, lowercase(payload), 0);
}

} // verus!
