//! Resolving the character and the move that a user asked for.
use vstd::prelude::*;
use crate::error::AppError;
use crate::models::{MoveAliases, MoveInfo};
use crate::search::{first_index, lemma_first_index, lemma_first_index_is, lemma_first_index_none};
use crate::text::{
    eq_ascii_ci, is_ascii_text, lemma_trim_end_ci, lemma_trim_start_ci, trim_start,
    chars_eq, chars_of, contains_chars, contains_seq, copy_string, extend_str,
    find_char, first_pos, lemma_first_pos, lowercase, remove_char, string_of, to_lowercase,
    trim_chars, trimmed, without,
};

verus! {

/// A character's official name and the nicknames users may type for it.
#[derive(Debug)]
pub struct Nicknames {
    /// The official name.
    pub character: String,
    /// The nicknames.
    pub nicknames: Vec<String>,
}

/// Whether entry `i` lists a nickname whose lower case is `key`.
pub open spec fn nickname_hit(ns: Seq<Nicknames>, key: Seq<char>) -> spec_fn(int) -> bool {
    |i: int|
        exists|j: int|
            0 <= j < ns[i].nicknames@.len() && lowercase(#[trigger] ns[i].nicknames@[j]@) == key
}

/// Whether the lower-cased name of entry `i` contains `q`, with or without its hyphens.
pub open spec fn name_hit(ns: Seq<Nicknames>, q: Seq<char>) -> spec_fn(int) -> bool {
    |i: int|
        contains_seq(without(lowercase(ns[i].character@), '-'), q) || contains_seq(
            lowercase(ns[i].character@),
            q,
        )
}

/// The official name that `find_character` resolves `c` to: by nickname
/// (ignoring case and surrounding white space), then by a part of an official
/// name (ignoring case), then the empty name for `all`.
pub open spec fn resolved_character(ns: Seq<Nicknames>, c: Seq<char>) -> Option<Seq<char>> {
    match first_index(ns.len() as int, nickname_hit(ns, trimmed(lowercase(c)))) {
        Some(i) => Some(ns[i].character@),
        None => match first_index(ns.len() as int, name_hit(ns, lowercase(c))) {
            Some(i) => Some(ns[i].character@),
            None => if lowercase(trimmed(c)) == lowercase("all"@) {
                Some(Seq::<char>::empty())
            } else {
                None
            },
        },
    }
}

/// Resolves a character name or nickname to the character's official name.
pub fn find_character(vec_nicknames: &Vec<Nicknames>, character: &String) -> (r: Result<String, AppError>)
    ensures
        resolved_character(vec_nicknames@, character@) matches Some(n) ==> (r matches Ok(s) && s@
            == n),
        resolved_character(vec_nicknames@, character@) is None ==> (r matches Err(
            AppError::CharacterNotFound(m),
        ) && m@ == "Character `"@ + character@ + "` was not found!"@),
{
    let ghost ns = vec_nicknames@;
    let low = to_lowercase(character.as_str());
    let low_c = chars_of(low.as_str());
    let key = trim_chars(&low_c);
    let ghost p = nickname_hit(ns, key@);
    let mut i: usize = 0;
    while i < vec_nicknames.len()
        invariant
            i <= ns.len(),
            ns == vec_nicknames@,
            key@ == trimmed(lowercase(character@)),
            p == nickname_hit(ns, key@),
            forall|j: int| 0 <= j < i ==> !#[trigger] p(j),
        decreases vec_nicknames.len() - i,
    {
        let entry = &vec_nicknames[i];
        let mut j: usize = 0;
        while j < entry.nicknames.len()
            invariant
                j <= entry.nicknames@.len(),
                i < ns.len(),
                entry == ns[i as int],
                ns == vec_nicknames@,
                key@ == trimmed(lowercase(character@)),
                p == nickname_hit(ns, key@),
                forall|b: int| 0 <= b < i ==> !#[trigger] p(b),
                forall|b: int| 0 <= b < j ==> lowercase(#[trigger] entry.nicknames@[b]@) != key@,
            decreases entry.nicknames.len() - j,
        {
            let nl = to_lowercase(entry.nicknames[j].as_str());
            let nc = chars_of(nl.as_str());
            if chars_eq(&nc, &key) {
                proof {
                    assert(lowercase(ns[i as int].nicknames@[j as int]@) == key@);
                    assert(p(i as int));
                    lemma_first_index_is(ns.len() as int, p, i as int);
                }
                return Ok(copy_string(&entry.character));
            }
            j = j + 1;
        }
        assert(!p(i as int));
        i = i + 1;
    }
    proof {
        lemma_first_index_none(ns.len() as int, p);
    }
    let ghost pn = name_hit(ns, low@);
    let mut i: usize = 0;
    while i < vec_nicknames.len()
        invariant
            i <= ns.len(),
            ns == vec_nicknames@,
            low_c@ == lowercase(character@),
            low@ == lowercase(character@),
            key@ == trimmed(lowercase(character@)),
            first_index(ns.len() as int, nickname_hit(ns, key@)) is None,
            pn == name_hit(ns, low@),
            forall|j: int| 0 <= j < i ==> !#[trigger] pn(j),
        decreases vec_nicknames.len() - i,
    {
        let nl = to_lowercase(vec_nicknames[i].character.as_str());
        let nc = chars_of(nl.as_str());
        let stripped = remove_char(&nc, '-');
        if contains_chars(&stripped, &low_c) || contains_chars(&nc, &low_c) {
            proof {
                assert(pn(i as int));
                lemma_first_index_is(ns.len() as int, pn, i as int);
            }
            return Ok(copy_string(&vec_nicknames[i].character));
        }
        assert(!pn(i as int));
        i = i + 1;
    }
    proof {
        lemma_first_index_none(ns.len() as int, pn);
    }
    let cc = chars_of(character.as_str());
    let ct = trim_chars(&cc);
    let ct_s = string_of(&ct);
    let tl = to_lowercase(ct_s.as_str());
    let tl_c = chars_of(tl.as_str());
    let all_l = to_lowercase("all");
    let all_c = chars_of(all_l.as_str());
    if chars_eq(&tl_c, &all_c) {
        return Ok(String::new());
    }
    let mut msg = chars_of("Character `");
    extend_str(&mut msg, character.as_str());
    extend_str(&mut msg, "` was not found!");
    Err(AppError::CharacterNotFound(string_of(&msg)))
}

/// The move input that a move name resolves to through the alias table,
/// applying entries `0..k` in order: an entry that lists the current name
/// (ignoring case) replaces it with the entry's input.
pub open spec fn alias_resolved(aliases: Seq<MoveAliases>, k: int, m: Seq<char>) -> Seq<char>
    decreases k,
{
    if k <= 0 {
        m
    } else {
        let prev = alias_resolved(aliases, k - 1, m);
        if exists|j: int|
            0 <= j < aliases[k - 1].aliases@.len() && lowercase(
                #[trigger] aliases[k - 1].aliases@[j]@,
            ) == lowercase(prev) {
            aliases[k - 1].input@
        } else {
            prev
        }
    }
}

/// A text without square brackets: charged inputs such as `[4]6S` are
/// compared as `46S`.
pub open spec fn unbracketed(s: Seq<char>) -> Seq<char> {
    without(without(s, '['), ']')
}

/// The index that `find_move_index` picks for move text `m` (after alias
/// resolution): a name equal ignoring case, then an input equal ignoring
/// case, spaces and square brackets, then a name containing it, then an
/// input containing it (square brackets ignored on both sides).
pub open spec fn move_index_for(moves: Seq<MoveInfo>, m: Seq<char>) -> Option<int> {
    let lm = lowercase(m);
    match first_index(moves.len() as int, |i: int| lowercase(moves[i].name@) == lm) {
        Some(i) => Some(i),
        None => match first_index(
            moves.len() as int,
            |i: int| without(unbracketed(lowercase(moves[i].input@)), ' ') == without(unbracketed(lm), ' '),
        ) {
            Some(i) => Some(i),
            None => match first_index(
                moves.len() as int,
                |i: int| contains_seq(lowercase(moves[i].name@), lm),
            ) {
                Some(i) => Some(i),
                None => first_index(
                    moves.len() as int,
                    |i: int| contains_seq(unbracketed(lowercase(moves[i].input@)), unbracketed(lm)),
                ),
            },
        },
    }
}

/// A picked move index lies within the move list.
pub proof fn lemma_move_index_bounds(moves: Seq<MoveInfo>, m: Seq<char>)
    ensures
        move_index_for(moves, m) matches Some(i) ==> 0 <= i < moves.len(),
{
    let lm = lowercase(m);
    lemma_first_index(moves.len() as int, |i: int| lowercase(moves[i].name@) == lm);
    lemma_first_index(
        moves.len() as int,
        |i: int| without(unbracketed(lowercase(moves[i].input@)), ' ') == without(unbracketed(lm), ' '),
    );
    lemma_first_index(moves.len() as int, |i: int| contains_seq(lowercase(moves[i].name@), lm));
    lemma_first_index(
        moves.len() as int,
        |i: int| contains_seq(unbracketed(lowercase(moves[i].input@)), unbracketed(lm)),
    );
}

/// Resolves `character_move` through the alias table.
fn resolve_alias(move_aliases: &Vec<MoveAliases>, character_move: String) -> (r: String)
    ensures
        r@ == alias_resolved(move_aliases@, move_aliases@.len() as int, character_move@),
{
    let ghost m0 = character_move@;
    let mut cur = character_move;
    let mut k: usize = 0;
    while k < move_aliases.len()
        invariant
            k <= move_aliases@.len(),
            cur@ == alias_resolved(move_aliases@, k as int, m0),
        decreases move_aliases.len() - k,
    {
        let entry = &move_aliases[k];
        let cl = to_lowercase(cur.as_str());
        let cl_c = chars_of(cl.as_str());
        let mut hit = false;
        let mut j: usize = 0;
        while j < entry.aliases.len()
            invariant
                j <= entry.aliases@.len(),
                k < move_aliases@.len(),
                entry == move_aliases@[k as int],
                cl_c@ == lowercase(cur@),
                hit == exists|b: int|
                    0 <= b < j && lowercase(#[trigger] entry.aliases@[b]@) == lowercase(cur@),
            decreases entry.aliases.len() - j,
        {
            let al = to_lowercase(entry.aliases[j].as_str());
            let al_c = chars_of(al.as_str());
            if chars_eq(&al_c, &cl_c) {
                hit = true;
            }
            j = j + 1;
        }
        if hit {
            cur = copy_string(&entry.input);
        }
        k = k + 1;
    }
    cur
}

/// The first move index for which `test` holds, written out for each test.
fn first_move_where(moves_info: &[MoveInfo], lm: &Vec<char>, mode: u8) -> (r: Option<usize>)
    requires
        mode < 4,
    ensures
        ({
            let p = move_test(moves_info@, lm@, mode);
            &&& r matches Some(i) ==> i < moves_info@.len() && first_index(
                moves_info@.len() as int,
                p,
            ) == Some(i as int)
            &&& r is None ==> first_index(moves_info@.len() as int, p) is None
        }),
{
    let ghost p = move_test(moves_info@, lm@, mode);
    let lm_b = remove_char(&remove_char(lm, '['), ']');
    let lm_ns = remove_char(&lm_b, ' ');
    let mut i: usize = 0;
    while i < moves_info.len()
        invariant
            i <= moves_info@.len(),
            mode < 4,
            lm_b@ == unbracketed(lm@),
            lm_ns@ == without(unbracketed(lm@), ' '),
            p == move_test(moves_info@, lm@, mode),
            forall|j: int| 0 <= j < i ==> !#[trigger] p(j),
        decreases moves_info.len() - i,
    {
        let m = &moves_info[i];
        let hit = if mode == 0 {
            let l = to_lowercase(m.name.as_str());
            let lc = chars_of(l.as_str());
            chars_eq(&lc, lm)
        } else if mode == 1 {
            let l = to_lowercase(m.input.as_str());
            let lc = chars_of(l.as_str());
            let lcb = remove_char(&remove_char(&lc, '['), ']');
            let lcn = remove_char(&lcb, ' ');
            chars_eq(&lcn, &lm_ns)
        } else if mode == 2 {
            let l = to_lowercase(m.name.as_str());
            let lc = chars_of(l.as_str());
            contains_chars(&lc, lm)
        } else {
            let l = to_lowercase(m.input.as_str());
            let lc = chars_of(l.as_str());
            let lcb = remove_char(&remove_char(&lc, '['), ']');
            contains_chars(&lcb, &lm_b)
        };
        if hit {
            proof {
                lemma_first_index_is(moves_info@.len() as int, p, i as int);
            }
            return Some(i);
        }
        i = i + 1;
    }
    proof {
        lemma_first_index_none(moves_info@.len() as int, p);
    }
    None
}

/// The four tests of `move_index_for`, by number.
pub open spec fn move_test(moves: Seq<MoveInfo>, lm: Seq<char>, mode: u8) -> spec_fn(int) -> bool {
    if mode == 0 {
        |i: int| lowercase(moves[i].name@) == lm
    } else if mode == 1 {
        |i: int| without(unbracketed(lowercase(moves[i].input@)), ' ') == without(unbracketed(lm), ' ')
    } else if mode == 2 {
        |i: int| contains_seq(lowercase(moves[i].name@), lm)
    } else {
        |i: int| contains_seq(unbracketed(lowercase(moves[i].input@)), unbracketed(lm))
    }
}

/// Finds the index of the move that a user's text names, after resolving
/// it through the character's alias table.
pub fn find_move_index(
    character_arg_altered: &String,
    character_move: String,
    moves_info: &[MoveInfo],
    move_aliases: &Vec<MoveAliases>,
) -> (r: Result<usize, AppError>)
    ensures
        ({
            let m = alias_resolved(move_aliases@, move_aliases@.len() as int, character_move@);
            &&& move_index_for(moves_info@, m) matches Some(i) ==> r == Ok::<usize, AppError>(
                i as usize,
            )
            &&& move_index_for(moves_info@, m) is None ==> (r matches Err(
                AppError::MoveNotFound(msg),
            ) && msg@ == "Move `"@ + m + "` was not found for character `"@
                + character_arg_altered@ + "`!"@)
        }),
        r matches Ok(i) ==> i < moves_info@.len() && move_index_for(
            moves_info@,
            alias_resolved(move_aliases@, move_aliases@.len() as int, character_move@),
        ) == Some(i as int),
{
    let resolved = resolve_alias(move_aliases, character_move);
    let lm_s = to_lowercase(resolved.as_str());
    let lm = chars_of(lm_s.as_str());
    let ghost m = resolved@;
    proof {
        assert(move_test(moves_info@, lm@, 0) == (|i: int| lowercase(moves_info@[i].name@) == lm@));
    }
    if let Some(i) = first_move_where(moves_info, &lm, 0) {
        return Ok(i);
    }
    if let Some(i) = first_move_where(moves_info, &lm, 1) {
        return Ok(i);
    }
    if let Some(i) = first_move_where(moves_info, &lm, 2) {
        return Ok(i);
    }
    if let Some(i) = first_move_where(moves_info, &lm, 3) {
        return Ok(i);
    }
    let mut msg = chars_of("Move `");
    extend_str(&mut msg, resolved.as_str());
    extend_str(&mut msg, "` was not found for character `");
    extend_str(&mut msg, character_arg_altered.as_str());
    extend_str(&mut msg, "`!");
    Err(AppError::MoveNotFound(string_of(&msg)))
}

/// The text between the first `(` and the first `)` of `s`, when the `)`
/// comes after the `(`.
pub open spec fn bracket_content(s: Seq<char>) -> Option<Seq<char>> {
    match (first_pos(s, '('), first_pos(s, ')')) {
        (Some(a), Some(b)) => if b > a {
            Some(s.subrange(a + 1, b))
        } else {
            None
        },
        _ => None,
    }
}

/// Extracts the text inside the first pair of round brackets.
pub fn extract_bracket_content(input: &str) -> (r: Option<String>)
    ensures
        bracket_content(input@) matches Some(c) ==> (r matches Some(s) && s@ == c),
        bracket_content(input@) is None ==> r is None,
{
    let v = chars_of(input);
    match (find_char(&v, '('), find_char(&v, ')')) {
        (Some(start), Some(end)) => {
            proof {
                lemma_first_pos(v@, '(');
                lemma_first_pos(v@, ')');
            }
            if end > start {
                let mut out: Vec<char> = Vec::new();
                let mut k: usize = start + 1;
                while k < end
                    invariant
                        start + 1 <= k <= end,
                        end < v.len(),
                        out@ == v@.subrange(start + 1, k as int),
                    decreases end - k,
                {
                    out.push(v[k]);
                    k = k + 1;
                    assert(out@ =~= v@.subrange(start + 1, k as int));
                }
                Some(string_of(&out))
            } else {
                None
            }
        },
        _ => None,
    }
}

/// The input of the first alias entry that lists `alias`, ignoring case.
pub open spec fn alias_target(aliases: Seq<MoveAliases>, alias: Seq<char>) -> Option<Seq<char>> {
    match first_index(
        aliases.len() as int,
        |i: int|
            exists|j: int|
                0 <= j < aliases[i].aliases@.len() && lowercase(#[trigger] aliases[i].aliases@[j]@)
                    == lowercase(alias),
    ) {
        Some(i) => Some(aliases[i].input@),
        None => None,
    }
}

/// Finds the input of the move that `alias` names.
pub fn find_move_by_alias(alias: &str, moves_aliases: &[MoveAliases]) -> (r: Result<String, AppError>)
    ensures
        alias_target(moves_aliases@, alias@) matches Some(t) ==> (r matches Ok(s) && s@ == t),
        alias_target(moves_aliases@, alias@) is None ==> (r matches Err(AppError::MoveNotFound(m))
            && m@ == "技 '"@ + alias@ + "' が見つかりませんでした"@),
{
    let ghost p = |i: int|
        exists|j: int|
            0 <= j < moves_aliases@[i].aliases@.len() && lowercase(
                #[trigger] moves_aliases@[i].aliases@[j]@,
            ) == lowercase(alias@);
    let al = to_lowercase(alias);
    let al_c = chars_of(al.as_str());
    let mut i: usize = 0;
    while i < moves_aliases.len()
        invariant
            i <= moves_aliases@.len(),
            al_c@ == lowercase(alias@),
            p == (|i: int|
                exists|j: int|
                    0 <= j < moves_aliases@[i].aliases@.len() && lowercase(
                        #[trigger] moves_aliases@[i].aliases@[j]@,
                    ) == lowercase(alias@)),
            forall|j: int| 0 <= j < i ==> !#[trigger] p(j),
        decreases moves_aliases.len() - i,
    {
        let entry = &moves_aliases[i];
        let mut j: usize = 0;
        while j < entry.aliases.len()
            invariant
                j <= entry.aliases@.len(),
                i < moves_aliases@.len(),
                entry == moves_aliases@[i as int],
                al_c@ == lowercase(alias@),
                p == (|i: int|
                    exists|j: int|
                        0 <= j < moves_aliases@[i].aliases@.len() && lowercase(
                            #[trigger] moves_aliases@[i].aliases@[j]@,
                        ) == lowercase(alias@)),
                forall|b: int| 0 <= b < j ==> lowercase(#[trigger] entry.aliases@[b]@) != lowercase(
                    alias@,
                ),
                forall|b: int| 0 <= b < i ==> !#[trigger] p(b),
            decreases entry.aliases.len() - j,
        {
            let l = to_lowercase(entry.aliases[j].as_str());
            let lc = chars_of(l.as_str());
            if chars_eq(&lc, &al_c) {
                proof {
                    assert(lowercase(moves_aliases@[i as int].aliases@[j as int]@) == lowercase(alias@));
                    assert(p(i as int));
                    lemma_first_index_is(moves_aliases@.len() as int, p, i as int);
                }
                return Ok(copy_string(&entry.input));
            }
            j = j + 1;
        }
        assert(!p(i as int));
        i = i + 1;
    }
    proof {
        lemma_first_index_none(moves_aliases@.len() as int, p);
    }
    let mut m = chars_of("技 '");
    extend_str(&mut m, alias);
    extend_str(&mut m, "' が見つかりませんでした");
    Err(AppError::MoveNotFound(string_of(&m)))
}

/// Alias resolution sees the move text only through its lower case: texts
/// equal ignoring case resolve to texts equal ignoring case.
proof fn lemma_alias_resolved_case(aliases: Seq<MoveAliases>, k: int, m1: Seq<char>, m2: Seq<char>)
    requires
        lowercase(m1) == lowercase(m2),
    ensures
        lowercase(alias_resolved(aliases, k, m1)) == lowercase(alias_resolved(aliases, k, m2)),
    decreases k,
{
    if k > 0 {
        lemma_alias_resolved_case(aliases, k - 1, m1, m2);
    }
}

/// Move search is case insensitive: two move texts that are equal ignoring
/// case pick the same move of a character.
pub proof fn lemma_move_search_ignores_case(
    moves: Seq<MoveInfo>,
    aliases: Seq<MoveAliases>,
    m1: Seq<char>,
    m2: Seq<char>,
)
    requires
        lowercase(m1) == lowercase(m2),
    ensures
        move_index_for(moves, alias_resolved(aliases, aliases.len() as int, m1)) == move_index_for(
            moves,
            alias_resolved(aliases, aliases.len() as int, m2),
        ),
{
    lemma_alias_resolved_case(aliases, aliases.len() as int, m1, m2);
}

/// Alias lookup is case insensitive: two aliases equal ignoring case name
/// the same move.
pub proof fn lemma_alias_lookup_ignores_case(aliases: Seq<MoveAliases>, a1: Seq<char>, a2: Seq<char>)
    requires
        lowercase(a1) == lowercase(a2),
    ensures
        alias_target(aliases, a1) == alias_target(aliases, a2),
{
    let p1 = |i: int|
        exists|j: int|
            0 <= j < aliases[i].aliases@.len() && lowercase(#[trigger] aliases[i].aliases@[j]@)
                == lowercase(a1);
    let p2 = |i: int|
        exists|j: int|
            0 <= j < aliases[i].aliases@.len() && lowercase(#[trigger] aliases[i].aliases@[j]@)
                == lowercase(a2);
    assert(p1 == p2);
}

/// Character search is case insensitive: two texts equal ignoring case,
/// also once trimmed, resolve to the same character.
pub proof fn lemma_character_search_ignores_case(ns: Seq<Nicknames>, c1: Seq<char>, c2: Seq<char>)
    requires
        lowercase(c1) == lowercase(c2),
        lowercase(trimmed(c1)) == lowercase(trimmed(c2)),
    ensures
        resolved_character(ns, c1) == resolved_character(ns, c2),
{
}

/// Charged moves can be found with or without square brackets: when some
/// move's input equals the text ignoring case, spaces and square brackets
/// (`46S` for `[4]6S`, or the other way round), the search finds a move.
pub proof fn lemma_charged_input_found(moves: Seq<MoveInfo>, m: Seq<char>, k: int)
    requires
        0 <= k < moves.len(),
        without(unbracketed(lowercase(moves[k].input@)), ' ') == without(unbracketed(lowercase(m)), ' '),
    ensures
        move_index_for(moves, m) is Some,
{
    let lm = lowercase(m);
    let p1 = |i: int| without(unbracketed(lowercase(moves[i].input@)), ' ') == without(unbracketed(lm), ' ');
    assert(p1(k));
    lemma_first_index(moves.len() as int, p1);
    lemma_first_index(moves.len() as int, |i: int| lowercase(moves[i].name@) == lm);
}

/// Move search ignores ASCII case: two ASCII move texts equal ignoring
/// ASCII case pick the same move of a character.
pub proof fn lemma_move_search_ignores_ascii_case(
    moves: Seq<MoveInfo>,
    aliases: Seq<MoveAliases>,
    m1: Seq<char>,
    m2: Seq<char>,
)
    requires
        is_ascii_text(m1),
        is_ascii_text(m2),
        eq_ascii_ci(m1, m2),
    ensures
        move_index_for(moves, alias_resolved(aliases, aliases.len() as int, m1)) == move_index_for(
            moves,
            alias_resolved(aliases, aliases.len() as int, m2),
        ),
{
    crate::utils::lemma_ascii_ci_lowercase(m1, m2);
    lemma_move_search_ignores_case(moves, aliases, m1, m2);
}

/// Alias lookup ignores ASCII case: two ASCII aliases equal ignoring ASCII
/// case name the same move.
pub proof fn lemma_alias_lookup_ignores_ascii_case(aliases: Seq<MoveAliases>, a1: Seq<char>, a2: Seq<char>)
    requires
        is_ascii_text(a1),
        is_ascii_text(a2),
        eq_ascii_ci(a1, a2),
    ensures
        alias_target(aliases, a1) == alias_target(aliases, a2),
{
    crate::utils::lemma_ascii_ci_lowercase(a1, a2);
    lemma_alias_lookup_ignores_case(aliases, a1, a2);
}

/// Character search ignores ASCII case: two ASCII texts equal ignoring
/// ASCII case (`SOL` and `sol`) resolve to the same character.
pub proof fn lemma_character_search_ignores_ascii_case(ns: Seq<Nicknames>, c1: Seq<char>, c2: Seq<char>)
    requires
        is_ascii_text(c1),
        is_ascii_text(c2),
        eq_ascii_ci(c1, c2),
    ensures
        resolved_character(ns, c1) == resolved_character(ns, c2),
{
    crate::utils::lemma_ascii_ci_lowercase(c1, c2);
    lemma_trim_start_ci(c1, c2);
    lemma_trim_end_ci(trim_start(c1), trim_start(c2));
    crate::utils::lemma_ascii_ci_lowercase(trimmed(c1), trimmed(c2));
    lemma_character_search_ignores_case(ns, c1, c2);
}

/// A move whose name equals the text ignoring case is found, the first such
/// move when there are several.
pub proof fn lemma_exact_name_found(moves: Seq<MoveInfo>, m: Seq<char>, k: int)
    requires
        0 <= k < moves.len(),
        lowercase(moves[k].name@) == lowercase(m),
        forall|j: int| 0 <= j < k ==> lowercase(#[trigger] moves[j].name@) != lowercase(m),
    ensures
        move_index_for(moves, m) == Some(k),
{
    let lm = lowercase(m);
    let p0 = |i: int| lowercase(moves[i].name@) == lm;
    assert forall|j: int| 0 <= j < k implies !#[trigger] p0(j) by {
        assert(lowercase(moves[j].name@) != lm);
    }
    lemma_first_index_is(moves.len() as int, p0, k);
}

/// A move whose name contains the text anywhere (ignoring case) is found
/// when no name equals the text and no input matches it: the first move
/// whose name contains it.
pub proof fn lemma_name_part_found(moves: Seq<MoveInfo>, m: Seq<char>, k: int, pos: int)
    requires
        0 <= k < moves.len(),
        crate::text::occurs_at(lowercase(moves[k].name@), lowercase(m), pos),
        forall|j: int| 0 <= j < moves.len() ==> lowercase(#[trigger] moves[j].name@) != lowercase(m),
        forall|j: int|
            0 <= j < moves.len() ==> without(unbracketed(lowercase(#[trigger] moves[j].input@)), ' ')
                != without(unbracketed(lowercase(m)), ' '),
        forall|j: int, q: int|
            0 <= j < k ==> !#[trigger] crate::text::occurs_at(lowercase(moves[j].name@), lowercase(m), q),
    ensures
        move_index_for(moves, m) == Some(k),
{
    let lm = lowercase(m);
    let p0 = |i: int| lowercase(moves[i].name@) == lm;
    let p1 = |i: int| without(unbracketed(lowercase(moves[i].input@)), ' ') == without(unbracketed(lm), ' ');
    let p2 = |i: int| contains_seq(lowercase(moves[i].name@), lm);
    assert forall|j: int| 0 <= j < moves.len() implies !#[trigger] p0(j) by {
        assert(lowercase(moves[j].name@) != lm);
    }
    assert forall|j: int| 0 <= j < moves.len() implies !#[trigger] p1(j) by {
        assert(without(unbracketed(lowercase(moves[j].input@)), ' ') != without(unbracketed(lm), ' '));
    }
    lemma_first_index_none(moves.len() as int, p0);
    lemma_first_index_none(moves.len() as int, p1);
    assert(p2(k));
    assert forall|j: int| 0 <= j < k implies !#[trigger] p2(j) by {
        if p2(j) {
            let q = choose|q: int| crate::text::occurs_at(lowercase(moves[j].name@), lm, q);
            assert(!crate::text::occurs_at(lowercase(moves[j].name@), lowercase(m), q));
        }
    }
    lemma_first_index_is(moves.len() as int, p2, k);
}

/// A move whose input contains the text anywhere (ignoring case and square
/// brackets) is found when no earlier stage matches: the first such move.
pub proof fn lemma_input_part_found(moves: Seq<MoveInfo>, m: Seq<char>, k: int, pos: int)
    requires
        0 <= k < moves.len(),
        crate::text::occurs_at(unbracketed(lowercase(moves[k].input@)), unbracketed(lowercase(m)), pos),
        forall|j: int| 0 <= j < moves.len() ==> lowercase(#[trigger] moves[j].name@) != lowercase(m),
        forall|j: int|
            0 <= j < moves.len() ==> without(unbracketed(lowercase(#[trigger] moves[j].input@)), ' ')
                != without(unbracketed(lowercase(m)), ' '),
        forall|j: int, q: int|
            0 <= j < moves.len() ==> !#[trigger] crate::text::occurs_at(lowercase(moves[j].name@), lowercase(m), q),
        forall|j: int, q: int|
            0 <= j < k ==> !#[trigger] crate::text::occurs_at(unbracketed(lowercase(moves[j].input@)), unbracketed(lowercase(m)), q),
    ensures
        move_index_for(moves, m) == Some(k),
{
    let lm = lowercase(m);
    let p0 = |i: int| lowercase(moves[i].name@) == lm;
    let p1 = |i: int| without(unbracketed(lowercase(moves[i].input@)), ' ') == without(unbracketed(lm), ' ');
    let p2 = |i: int| contains_seq(lowercase(moves[i].name@), lm);
    let p3 = |i: int| contains_seq(unbracketed(lowercase(moves[i].input@)), unbracketed(lm));
    assert forall|j: int| 0 <= j < moves.len() implies !#[trigger] p0(j) by {
        assert(lowercase(moves[j].name@) != lm);
    }
    assert forall|j: int| 0 <= j < moves.len() implies !#[trigger] p1(j) by {
        assert(without(unbracketed(lowercase(moves[j].input@)), ' ') != without(unbracketed(lm), ' '));
    }
    assert forall|j: int| 0 <= j < moves.len() implies !#[trigger] p2(j) by {
        if p2(j) {
            let q = choose|q: int| crate::text::occurs_at(lowercase(moves[j].name@), lm, q);
            assert(!crate::text::occurs_at(lowercase(moves[j].name@), lowercase(m), q));
        }
    }
    lemma_first_index_none(moves.len() as int, p0);
    lemma_first_index_none(moves.len() as int, p1);
    lemma_first_index_none(moves.len() as int, p2);
    assert(p3(k));
    assert forall|j: int| 0 <= j < k implies !#[trigger] p3(j) by {
        if p3(j) {
            let q = choose|q: int| crate::text::occurs_at(unbracketed(lowercase(moves[j].input@)), unbracketed(lm), q);
            assert(!crate::text::occurs_at(unbracketed(lowercase(moves[j].input@)), unbracketed(lowercase(m)), q));
        }
    }
    lemma_first_index_is(moves.len() as int, p3, k);
}

} // verus!
