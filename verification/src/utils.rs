//! Normalising user input, looking moves up and shortening text.
use vstd::prelude::*;
use vstd::utf8::encode_utf8;
use vstd::string::StringSliceAdditionalSpecFns;
use crate::error::AppError;
use crate::models::{MoveAliases, MoveInfo};
use crate::search::{first_index, lemma_first_index_is, lemma_first_index_none};
use crate::text::{
    ascii_lowered, eq_ascii_ci, is_ascii_text, lemma_ascii_lowered, lemma_lowered_fixed,
    lemma_without_absent, lemma_without_lowered,
    chars_eq, chars_of, extend_str, lemma_without_excludes, lowercase, remove_char, string_of,
    to_lowercase, without,
};

verus! {

/// An input with case folded and spaces (ASCII and ideographic) and dots removed.
pub open spec fn input_key(s: Seq<char>) -> Seq<char> {
    without(without(without(lowercase(s), ' '), '　'), '.')
}

/// A move name with case folded and spaces (ASCII and ideographic), hyphens
/// and underscores removed.
pub open spec fn name_key(s: Seq<char>) -> Seq<char> {
    without(without(without(without(lowercase(s), ' '), '　'), '-'), '_')
}

/// Normalises an input: lower case, without spaces or dots.
pub fn normalize_input(input: &str) -> (r: String)
    ensures
        r@ == input_key(input@),
{
    let low = to_lowercase(input);
    let v = chars_of(low.as_str());
    let v = remove_char(&v, ' ');
    let v = remove_char(&v, '　');
    let v = remove_char(&v, '.');
    string_of(&v)
}

/// Normalises a move name: lower case, without spaces, hyphens or underscores.
pub fn normalize_move_name(name: &str) -> (r: String)
    ensures
        r@ == name_key(name@),
{
    let low = to_lowercase(name);
    let v = chars_of(low.as_str());
    let v = remove_char(&v, ' ');
    let v = remove_char(&v, '　');
    let v = remove_char(&v, '-');
    let v = remove_char(&v, '_');
    string_of(&v)
}

/// Removing one character keeps out a character that was already absent.
proof fn lemma_without_keeps_absent(s: Seq<char>, c: char, d: char)
    requires
        forall|i: int| 0 <= i < s.len() ==> s[i] != d,
    ensures
        forall|i: int| 0 <= i < without(s, c).len() ==> without(s, c)[i] != d,
    decreases s.len(),
{
    if s.len() > 0 {
        lemma_without_keeps_absent(s.drop_last(), c, d);
        let w = without(s.drop_last(), c);
        assert forall|i: int| 0 <= i < without(s, c).len() implies without(s, c)[i] != d by {
            if s.last() != c && i == w.len() {
            } else {
                assert(without(s, c)[i] == w[i]);
            }
        }
    }
}

/// A normalised input holds no space, ideographic space or dot.
pub proof fn lemma_input_key_clean(s: Seq<char>)
    ensures
        forall|i: int|
            0 <= i < input_key(s).len() ==> {
                let c = #[trigger] input_key(s)[i];
                c != ' ' && c != '　' && c != '.'
            },
{
    let a = without(lowercase(s), ' ');
    let b = without(a, '　');
    lemma_without_excludes(lowercase(s), ' ');
    lemma_without_excludes(a, '　');
    lemma_without_keeps_absent(a, '　', ' ');
    lemma_without_excludes(b, '.');
    lemma_without_keeps_absent(b, '.', ' ');
    lemma_without_keeps_absent(b, '.', '　');
}

/// A normalised move name holds no space, ideographic space, hyphen or underscore.
pub proof fn lemma_name_key_clean(s: Seq<char>)
    ensures
        forall|i: int|
            0 <= i < name_key(s).len() ==> {
                let c = #[trigger] name_key(s)[i];
                c != ' ' && c != '　' && c != '-' && c != '_'
            },
{
    let a = without(lowercase(s), ' ');
    let b = without(a, '　');
    let c = without(b, '-');
    lemma_without_excludes(lowercase(s), ' ');
    lemma_without_excludes(a, '　');
    lemma_without_keeps_absent(a, '　', ' ');
    lemma_without_excludes(b, '-');
    lemma_without_keeps_absent(b, '-', ' ');
    lemma_without_keeps_absent(b, '-', '　');
    lemma_without_excludes(c, '_');
    lemma_without_keeps_absent(c, '_', ' ');
    lemma_without_keeps_absent(c, '_', '　');
    lemma_without_keeps_absent(c, '_', '-');
}

/// Whether move `i` has the normalised input `key`.
pub open spec fn input_is(moves: Seq<MoveInfo>, key: Seq<char>) -> spec_fn(int) -> bool {
    |i: int| input_key(moves[i].input@) == key
}

/// Whether move `i` has the normalised name `key`.
pub open spec fn name_is(moves: Seq<MoveInfo>, key: Seq<char>) -> spec_fn(int) -> bool {
    |i: int| name_key(moves[i].name@) == key
}

/// Whether alias entry `k` lists an alias with normalised form `key`.
pub open spec fn alias_listed(aliases: Seq<MoveAliases>, key: Seq<char>, k: int) -> bool {
    exists|a: int|
        0 <= a < aliases[k].aliases@.len() && input_key(#[trigger] aliases[k].aliases@[a]@) == key
}

/// Whether alias entry `k` lists `key` and names the input of some move.
pub open spec fn alias_leads(moves: Seq<MoveInfo>, aliases: Seq<MoveAliases>, key: Seq<char>) -> spec_fn(
    int,
) -> bool {
    |k: int|
        alias_listed(aliases, key, k) && first_index(
            moves.len() as int,
            input_is(moves, input_key(aliases[k].input@)),
        ) is Some
}

/// The move that `find_move` picks for `query`: first by input, then by
/// name, then through the first alias entry that lists the query and names
/// an existing move.
pub open spec fn found_move(moves: Seq<MoveInfo>, aliases: Seq<MoveAliases>, query: Seq<char>) -> Option<int> {
    let q = input_key(query);
    match first_index(moves.len() as int, input_is(moves, q)) {
        Some(i) => Some(i),
        None => match first_index(moves.len() as int, name_is(moves, name_key(q))) {
            Some(i) => Some(i),
            None => match first_index(aliases.len() as int, alias_leads(moves, aliases, q)) {
                Some(k) => first_index(
                    moves.len() as int,
                    input_is(moves, input_key(aliases[k].input@)),
                ),
                None => None,
            },
        },
    }
}

/// The first move whose normalised input is `key`.
fn first_with_input(moves: &[MoveInfo], key: &String) -> (r: Option<usize>)
    ensures
        r matches Some(i) ==> first_index(moves@.len() as int, input_is(moves@, key@)) == Some(
            i as int,
        ),
        r is None ==> first_index(moves@.len() as int, input_is(moves@, key@)) is None,
        r matches Some(i) ==> i < moves@.len(),
{
    let ghost p = input_is(moves@, key@);
    let kc = chars_of(key.as_str());
    let mut i: usize = 0;
    while i < moves.len()
        invariant
            i <= moves@.len(),
            kc@ == key@,
            p == input_is(moves@, key@),
            forall|j: int| 0 <= j < i ==> !#[trigger] p(j),
        decreases moves.len() - i,
    {
        let n = normalize_input(moves[i].input.as_str());
        let nc = chars_of(n.as_str());
        if chars_eq(&nc, &kc) {
            proof {
                lemma_first_index_is(moves@.len() as int, p, i as int);
            }
            return Some(i);
        }
        i = i + 1;
    }
    proof {
        lemma_first_index_none(moves@.len() as int, p);
    }
    None
}

/// Looks a move up by input, name or alias.
pub fn find_move(moves: &[MoveInfo], aliases: &[MoveAliases], query: &str) -> (r: Option<MoveInfo>)
    ensures
        found_move(moves@, aliases@, query@) matches Some(i) ==> (r matches Some(m) && m@
            == moves@[i]@),
        found_move(moves@, aliases@, query@) is None ==> r is None,
{
    let normalized_query = normalize_input(query);
    let ghost q = normalized_query@;
    match first_with_input(moves, &normalized_query) {
        Some(i) => {
            return Some(moves[i].duplicate());
        },
        None => {},
    }
    let key_name = normalize_move_name(normalized_query.as_str());
    let kn = chars_of(key_name.as_str());
    let ghost pn = name_is(moves@, name_key(q));
    let mut i: usize = 0;
    while i < moves.len()
        invariant
            i <= moves@.len(),
            kn@ == name_key(q),
            q == input_key(query@),
            first_index(moves@.len() as int, input_is(moves@, q)) is None,
            pn == name_is(moves@, name_key(q)),
            forall|j: int| 0 <= j < i ==> !#[trigger] pn(j),
        decreases moves.len() - i,
    {
        let n = normalize_move_name(moves[i].name.as_str());
        let nc = chars_of(n.as_str());
        if chars_eq(&nc, &kn) {
            proof {
                lemma_first_index_is(moves@.len() as int, pn, i as int);
            }
            return Some(moves[i].duplicate());
        }
        i = i + 1;
    }
    proof {
        lemma_first_index_none(moves@.len() as int, pn);
    }
    let qc = chars_of(normalized_query.as_str());
    let ghost pa = alias_leads(moves@, aliases@, q);
    let mut k: usize = 0;
    while k < aliases.len()
        invariant
            k <= aliases@.len(),
            qc@ == q,
            q == input_key(query@),
            pa == alias_leads(moves@, aliases@, q),
            first_index(moves@.len() as int, input_is(moves@, q)) is None,
            first_index(moves@.len() as int, name_is(moves@, name_key(q))) is None,
            forall|j: int| 0 <= j < k ==> !#[trigger] pa(j),
        decreases aliases.len() - k,
    {
        let entry = &aliases[k];
        let mut listed = false;
        let mut a: usize = 0;
        while a < entry.aliases.len()
            invariant
                a <= entry.aliases@.len(),
                k < aliases@.len(),
                entry == aliases@[k as int],
                qc@ == q,
                listed == exists|b: int|
                    0 <= b < a && input_key(#[trigger] entry.aliases@[b]@) == q,
            decreases entry.aliases.len() - a,
        {
            let n = normalize_input(entry.aliases[a].as_str());
            let nc = chars_of(n.as_str());
            if chars_eq(&nc, &qc) {
                listed = true;
            }
            a = a + 1;
        }
        assert(listed == alias_listed(aliases@, q, k as int));
        if listed {
            let target = normalize_input(entry.input.as_str());
            match first_with_input(moves, &target) {
                Some(i) => {
                    proof {
                        lemma_first_index_is(aliases@.len() as int, pa, k as int);
                    }
                    return Some(moves[i].duplicate());
                },
                None => {},
            }
        }
        k = k + 1;
    }
    proof {
        lemma_first_index_none(aliases@.len() as int, pa);
    }
    None
}

/// The first `n` characters of `s`, or all of them when there are fewer.
pub open spec fn prefix_chars(s: Seq<char>, n: int) -> Seq<char> {
    if n >= s.len() {
        s
    } else {
        s.take(n)
    }
}

/// What `truncate_string` gives: `s` itself when its UTF-8 encoding is at most
/// `max_len` bytes long, else its first `max_len - 3` characters and `...`.
pub open spec fn truncated(s: Seq<char>, max_len: nat) -> Seq<char> {
    if encode_utf8(s).len() <= max_len {
        s
    } else {
        prefix_chars(s, max_len - 3) + "..."@
    }
}

/// Shortens `s` to fit `max_len` bytes, marking the cut with `...`.
pub fn truncate_string(s: &str, max_len: usize) -> (r: String)
    requires
        s.spec_bytes().len() <= usize::MAX,
        s.spec_bytes().len() <= max_len || max_len >= 3,
    ensures
        r@ == truncated(s@, max_len as nat),
{
    if s.len() <= max_len {
        crate::text::owned(s)
    } else {
        let v = chars_of(s);
        let n: usize = max_len - 3;
        let mut r: Vec<char> = Vec::new();
        let mut i: usize = 0;
        while i < n && i < v.len()
            invariant
                i <= n,
                i <= v.len(),
                r@ == v@.take(i as int),
            decreases n - i,
        {
            r.push(v[i]);
            i = i + 1;
            assert(r@ =~= v@.take(i as int));
        }
        proof {
            if n >= v.len() {
                assert(v@.take(i as int) =~= v@);
            }
        }
        extend_str(&mut r, "...");
        string_of(&r)
    }
}

/// The UTF-8 encoding of a string has at least one byte per character.
pub proof fn lemma_encoding_at_least_chars(s: Seq<char>)
    ensures
        encode_utf8(s).len() >= s.len(),
    decreases s.len(),
{
    if s.len() > 0 {
        lemma_encoding_at_least_chars(s.drop_first());
    }
}

/// A shortened string has at most `max_len` characters.
pub proof fn lemma_truncated_fits(s: Seq<char>, max_len: nat)
    requires
        encode_utf8(s).len() <= max_len || max_len >= 3,
    ensures
        truncated(s, max_len).len() <= max_len,
{
    reveal_strlit("...");
    lemma_encoding_at_least_chars(s);
}

/// `base` joined with `part` as `Path::join` joins them: an absolute `part`
/// (one that starts with `/`) replaces `base`, and a `/` is put between
/// the two unless `base` is empty or already ends with one.
pub open spec fn path_join(base: Seq<char>, part: Seq<char>) -> Seq<char> {
    if part.len() > 0 && part[0] == '/' {
        part
    } else if base.len() == 0 {
        part
    } else if base.last() == '/' {
        base + part
    } else {
        base + "/"@ + part
    }
}

/// Joins two parts of a path.
pub fn join_path(base: &str, part: &str) -> (r: String)
    ensures
        r@ == path_join(base@, part@),
{
    let b = chars_of(base);
    let p = chars_of(part);
    if p.len() > 0 && p[0] == '/' {
        return string_of(&p);
    }
    if b.len() == 0 {
        return string_of(&p);
    }
    let mut v = b;
    if v[v.len() - 1] != '/' {
        extend_str(&mut v, "/");
    }
    extend_str(&mut v, part);
    proof {
        reveal_strlit("/");
    }
    string_of(&v)
}

/// The path of one of a character's data files: the data directory, then
/// the character's directory, then the file.
pub fn character_file_path(data_dir: &str, char_name: &str, file_name: &str) -> (r: String)
    ensures
        r@ == path_join(path_join(data_dir@, char_name@), file_name@),
{
    let dir = join_path(data_dir, char_name);
    join_path(dir.as_str(), file_name)
}

/// The error for a character whose information file is missing.
pub fn missing_character_info(char_name: &str) -> (r: AppError)
    ensures
        r matches AppError::CharacterNotFound(m) && m@ == "キャラクター情報が見つかりません: "@ + char_name@,
{
    let mut v = chars_of("キャラクター情報が見つかりません: ");
    extend_str(&mut v, char_name);
    AppError::CharacterNotFound(string_of(&v))
}

/// The moves of a character, given what reading its `moves.json` gave
/// (`None` when the file is missing): a missing file is an error that names
/// the character.
pub fn load_move_info(char_name: &str, file: Option<Result<Vec<MoveInfo>, AppError>>) -> (r: Result<Vec<MoveInfo>, AppError>)
    ensures
        file is None ==> (r matches Err(AppError::CharacterNotFound(m)) && m@ == "技情報が見つかりません: "@ + char_name@),
        file matches Some(x) ==> r == x,
{
    match file {
        None => {
            let mut v = chars_of("技情報が見つかりません: ");
            extend_str(&mut v, char_name);
            Err(AppError::CharacterNotFound(string_of(&v)))
        },
        Some(x) => x,
    }
}

/// The move aliases of a character, given what reading its `aliases.json`
/// gave (`None` when the file is missing): a missing file means no aliases.
pub fn load_move_aliases(file: Option<Result<Vec<MoveAliases>, AppError>>) -> (r: Result<Vec<MoveAliases>, AppError>)
    ensures
        file is None ==> (r matches Ok(v) && v@.len() == 0),
        file matches Some(x) ==> r == x,
{
    match file {
        None => Ok(Vec::new()),
        Some(x) => x,
    }
}

/// Looking a move up is case insensitive: two queries equal ignoring case
/// find the same move.
pub proof fn lemma_find_move_ignores_case(
    moves: Seq<MoveInfo>,
    aliases: Seq<MoveAliases>,
    q1: Seq<char>,
    q2: Seq<char>,
)
    requires
        lowercase(q1) == lowercase(q2),
    ensures
        found_move(moves, aliases, q1) == found_move(moves, aliases, q2),
{
}

/// Normalising an ASCII input twice gives what normalising it once gives.
pub proof fn lemma_input_key_idempotent(s: Seq<char>)
    requires
        is_ascii_text(s),
    ensures
        input_key(input_key(s)) == input_key(s),
{
    let r = input_key(s);
    lemma_ascii_lowered(s);
    let a = without(lowercase(s), ' ');
    let b = without(a, '　');
    lemma_without_lowered(lowercase(s), ' ');
    lemma_without_lowered(a, '　');
    lemma_without_lowered(b, '.');
    lemma_lowered_fixed(r);
    lemma_input_key_clean(s);
    lemma_without_absent(r, ' ');
    lemma_without_absent(r, '　');
    lemma_without_absent(r, '.');
}

/// Normalising an ASCII move name twice gives what normalising it once gives.
pub proof fn lemma_name_key_idempotent(s: Seq<char>)
    requires
        is_ascii_text(s),
    ensures
        name_key(name_key(s)) == name_key(s),
{
    let r = name_key(s);
    lemma_ascii_lowered(s);
    let a = without(lowercase(s), ' ');
    let b = without(a, '　');
    let c = without(b, '-');
    lemma_without_lowered(lowercase(s), ' ');
    lemma_without_lowered(a, '　');
    lemma_without_lowered(b, '-');
    lemma_without_lowered(c, '_');
    lemma_lowered_fixed(r);
    lemma_name_key_clean(s);
    lemma_without_absent(r, ' ');
    lemma_without_absent(r, '　');
    lemma_without_absent(r, '-');
    lemma_without_absent(r, '_');
}

/// Two ASCII texts equal ignoring ASCII case lower-case alike.
pub proof fn lemma_ascii_ci_lowercase(a: Seq<char>, b: Seq<char>)
    requires
        is_ascii_text(a),
        is_ascii_text(b),
        eq_ascii_ci(a, b),
    ensures
        lowercase(a) == lowercase(b),
{
    assert(ascii_lowered(a) =~= ascii_lowered(b));
}

/// Looking a move up ignores ASCII case: two ASCII queries equal ignoring
/// case find the same move.
pub proof fn lemma_find_move_ignores_ascii_case(
    moves: Seq<MoveInfo>,
    aliases: Seq<MoveAliases>,
    q1: Seq<char>,
    q2: Seq<char>,
)
    requires
        is_ascii_text(q1),
        is_ascii_text(q2),
        eq_ascii_ci(q1, q2),
    ensures
        found_move(moves, aliases, q1) == found_move(moves, aliases, q2),
{
    lemma_ascii_ci_lowercase(q1, q2);
}

} // verus!
