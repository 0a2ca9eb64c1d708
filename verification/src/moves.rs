//! The move lists of a character, with their aliases.
use vstd::prelude::*;
use crate::embeds::{blank_embed, character_url, embed_views, make_character_url, EmbedSpec, EmbedView};
use crate::models::{strs, MoveAliases, MoveInfo};
use crate::text::{
    chars_eq, chars_of, extend_chars, extend_str, lowercase, owned, replace_all, replaced,
    str_eq, string_of, to_lowercase,
};

verus! {

/// Which moves a move list shows.
pub enum TypeChoice {
    /// Every kind.
    All,
    /// Normal moves.
    Normals,
    /// Special moves.
    Specials,
    /// Super moves.
    Supers,
}

/// `parts` joined with `sep` between consecutive parts.
pub open spec fn joined(parts: Seq<Seq<char>>, sep: Seq<char>) -> Seq<char>
    decreases parts.len(),
{
    if parts.len() == 0 {
        Seq::<char>::empty()
    } else if parts.len() == 1 {
        parts[0]
    } else {
        joined(parts.drop_last(), sep) + sep + parts.last()
    }
}

/// The alias line of an alias entry: its aliases in code quotes, separated by commas.
pub open spec fn alias_block(a: MoveAliases) -> Seq<char> {
    "\n\tAliases → `"@ + joined(strs(a.aliases@), "`, `"@) + "`\n"@
}

/// The alias lines of the entries `0..n` whose input is `input`.
pub open spec fn alias_lines(input: Seq<char>, aliases: Seq<MoveAliases>, n: int) -> Seq<char>
    decreases n,
{
    if n <= 0 {
        Seq::<char>::empty()
    } else {
        alias_lines(input, aliases, n - 1) + (if aliases[n - 1].input@ == input {
            alias_block(aliases[n - 1])
        } else {
            Seq::<char>::empty()
        })
    }
}

/// The entry of one move in a list: its input and name in bold, then the
/// alias lines for its input.
pub open spec fn move_entry(m: MoveInfo, aliases: Seq<MoveAliases>) -> Seq<char> {
    "\n- **"@ + m.input@ + " / "@ + m.name@ + "**"@ + alias_lines(m.input@, aliases, aliases.len() as int)
}

/// The entries of moves `lo..hi`.
pub open spec fn move_entries(moves: Seq<MoveInfo>, aliases: Seq<MoveAliases>, lo: int, hi: int) -> Seq<char>
    decreases hi - lo,
{
    if hi <= lo {
        Seq::<char>::empty()
    } else {
        move_entries(moves, aliases, lo, hi - 1) + move_entry(moves[hi - 1], aliases)
    }
}

/// The first position from `lo` on whose move kind, lower-cased, is (when
/// `is` holds) or is not (otherwise) one of `words`; the list's length when
/// there is none.
pub open spec fn scan(moves: Seq<MoveInfo>, lo: int, words: Seq<Seq<char>>, is: bool) -> int
    decreases moves.len() - lo,
{
    if lo >= moves.len() {
        moves.len() as int
    } else if words.contains(lowercase(moves[lo].move_type@)) == is {
        lo
    } else {
        scan(moves, lo + 1, words, is)
    }
}

/// `scan` stays within `lo..=len`.
pub proof fn lemma_scan_bounds(moves: Seq<MoveInfo>, lo: int, words: Seq<Seq<char>>, is: bool)
    requires
        0 <= lo <= moves.len(),
    ensures
        lo <= scan(moves, lo, words, is) <= moves.len(),
    decreases moves.len() - lo,
{
    if lo < moves.len() && words.contains(lowercase(moves[lo].move_type@)) != is {
        lemma_scan_bounds(moves, lo + 1, words, is);
    }
}

/// Finds `scan(moves, lo, words, is)`.
fn scan_moves(moves_info: &[MoveInfo], lo: usize, words: &Vec<Vec<char>>, is: bool) -> (r: usize)
    requires
        lo <= moves_info@.len(),
    ensures
        r == scan(moves_info@, lo as int, words@.map_values(|w: Vec<char>| w@), is),
{
    let ghost ws = words@.map_values(|w: Vec<char>| w@);
    let mut i = lo;
    while i < moves_info.len()
        invariant
            lo <= i <= moves_info@.len(),
            ws == words@.map_values(|w: Vec<char>| w@),
            scan(moves_info@, lo as int, ws, is) == scan(moves_info@, i as int, ws, is),
        decreases moves_info.len() - i,
    {
        let t = to_lowercase(moves_info[i].move_type.as_str());
        let tc = chars_of(t.as_str());
        let mut found = false;
        let mut k: usize = 0;
        while k < words.len()
            invariant
                k <= words@.len(),
                ws == words@.map_values(|w: Vec<char>| w@),
                tc@ == lowercase(moves_info@[i as int].move_type@),
                i < moves_info@.len(),
                found == exists|j: int| 0 <= j < k && #[trigger] ws[j] == tc@,
            decreases words.len() - k,
        {
            assert(ws[k as int] == words@[k as int]@);
            if chars_eq(&words[k], &tc) {
                found = true;
            }
            k = k + 1;
        }
        assert(found == ws.contains(tc@));
        if found == is {
            return i;
        }
        i = i + 1;
    }
    i
}

/// The entries of moves `lo..hi`.
fn render_entries(moves_info: &[MoveInfo], aliases_data: &[MoveAliases], lo: usize, hi: usize) -> (r: String)
    requires
        lo <= hi <= moves_info@.len(),
    ensures
        r@ == move_entries(moves_info@, aliases_data@, lo as int, hi as int),
{
    let mut out: Vec<char> = Vec::new();
    let mut i = lo;
    while i < hi
        invariant
            lo <= i <= hi,
            hi <= moves_info@.len(),
            out@ == move_entries(moves_info@, aliases_data@, lo as int, i as int),
        decreases hi - i,
    {
        let m = &moves_info[i];
        let ghost before = out@;
        extend_str(&mut out, "\n- **");
        extend_str(&mut out, m.input.as_str());
        extend_str(&mut out, " / ");
        extend_str(&mut out, m.name.as_str());
        extend_str(&mut out, "**");
        let ghost head = out@;
        let mut k: usize = 0;
        while k < aliases_data.len()
            invariant
                k <= aliases_data@.len(),
                m == moves_info@[i as int],
                out@ == head + alias_lines(m.input@, aliases_data@, k as int),
            decreases aliases_data.len() - k,
        {
            let a = &aliases_data[k];
            let ghost mid = out@;
            if str_eq(m.input.as_str(), a.input.as_str()) {
                extend_str(&mut out, "\n\tAliases → `");
                let n = a.aliases.len();
                let ghost start = out@;
                let mut j: usize = 0;
                while j < n
                    invariant
                        j <= n,
                        n == a.aliases@.len(),
                        out@ == start + joined(strs(a.aliases@).take(j as int), "`, `"@) + (if j > 0
                            && j < n {
                            "`, `"@
                        } else {
                            Seq::<char>::empty()
                        }),
                    decreases n - j,
                {
                    let ghost pre = joined(strs(a.aliases@).take(j as int), "`, `"@);
                    assert(strs(a.aliases@).take(j + 1).drop_last() =~= strs(a.aliases@).take(j as int));
                    assert(strs(a.aliases@).take(j + 1).last() == a.aliases@[j as int]@);
                    if j != n - 1 {
                        extend_str(&mut out, a.aliases[j].as_str());
                        extend_str(&mut out, "`, `");
                    } else {
                        extend_str(&mut out, a.aliases[j].as_str());
                    }
                    proof {
                        if j == 0 {
                            assert(strs(a.aliases@).take(1) =~= seq![a.aliases@[0]@]);
                        }
                    }
                    assert(out@ =~= start + joined(strs(a.aliases@).take(j + 1), "`, `"@) + (if j
                        + 1 > 0 && j + 1 < n {
                        "`, `"@
                    } else {
                        Seq::<char>::empty()
                    }));
                    j = j + 1;
                }
                assert(strs(a.aliases@).take(n as int) =~= strs(a.aliases@));
                extend_str(&mut out, "`\n");
                assert(out@ =~= mid + alias_block(*a));
            }
            assert(out@ =~= head + alias_lines(m.input@, aliases_data@, k + 1));
            k = k + 1;
        }
        assert(out@ =~= before + move_entry(*m, aliases_data@));
        i = i + 1;
    }
    string_of(&out)
}

/// The words that mark normal moves.
pub open spec fn normal_words() -> Seq<Seq<char>> {
    seq!["normal"@]
}

/// The words that mark special moves.
pub open spec fn special_words() -> Seq<Seq<char>> {
    seq!["special"@, "other"@]
}

/// The words that mark super moves.
pub open spec fn super_words() -> Seq<Seq<char>> {
    seq!["super"@]
}

/// One word as a list of words.
fn words_of(a: &str) -> (r: Vec<Vec<char>>)
    ensures
        r@.map_values(|w: Vec<char>| w@) == seq![a@],
{
    let mut r: Vec<Vec<char>> = Vec::new();
    r.push(chars_of(a));
    assert(r@.map_values(|w: Vec<char>| w@) =~= seq![a@]);
    r
}

/// The list of the leading run of normal moves.
pub fn get_normal_moves(moves_info: &[MoveInfo], aliases_data: &[MoveAliases]) -> (r: String)
    ensures
        r@ == move_entries(
            moves_info@,
            aliases_data@,
            0,
            scan(moves_info@, 0, normal_words(), false),
        ),
{
    let w = words_of("normal");
    let end = scan_moves(moves_info, 0, &w, false);
    proof {
        lemma_scan_bounds(moves_info@, 0, normal_words(), false);
    }
    render_entries(moves_info, aliases_data, 0, end)
}

/// The list of the special (or other) moves that follow the leading normal moves.
pub fn get_special_moves(moves_info: &[MoveInfo], aliases_data: &[MoveAliases]) -> (r: String)
    ensures
        ({
            let start = scan(moves_info@, 0, normal_words(), false);
            r@ == move_entries(
                moves_info@,
                aliases_data@,
                start,
                scan(moves_info@, start, special_words(), false),
            )
        }),
{
    let w = words_of("normal");
    let start = scan_moves(moves_info, 0, &w, false);
    proof {
        lemma_scan_bounds(moves_info@, 0, normal_words(), false);
    }
    let mut s: Vec<Vec<char>> = Vec::new();
    s.push(chars_of("special"));
    s.push(chars_of("other"));
    assert(s@.map_values(|w: Vec<char>| w@) =~= special_words());
    let end = scan_moves(moves_info, start, &s, false);
    proof {
        lemma_scan_bounds(moves_info@, start as int, special_words(), false);
    }
    render_entries(moves_info, aliases_data, start, end)
}

/// The list of the moves from the first super move on.
pub fn get_super_moves(moves_info: &[MoveInfo], aliases_data: &[MoveAliases]) -> (r: String)
    ensures
        r@ == move_entries(
            moves_info@,
            aliases_data@,
            scan(moves_info@, 0, super_words(), true),
            moves_info@.len() as int,
        ),
{
    let w = words_of("super");
    let start = scan_moves(moves_info, 0, &w, true);
    proof {
        lemma_scan_bounds(moves_info@, 0, super_words(), true);
    }
    render_entries(moves_info, aliases_data, start, moves_info.len())
}


/// The title of a character's move list.
pub open spec fn moves_title(character: Seq<char>) -> Seq<char> {
    "__**"@ + replaced(character, "_"@, " "@) + " Moves / Aliases**__"@
}

/// The footer of a character's move list.
pub open spec fn moves_footer() -> Seq<char> {
    "Try the \"/help notes\" command for usage notes and specifics.\nOr \"/report\" to request a new aliases."@
}

/// A message of a move list: a description, with the list's title and link
/// when `head` holds and its footer when `foot` holds.
pub open spec fn list_view(description: Seq<char>, character: Seq<char>, head: bool, foot: bool) -> EmbedView {
    EmbedView {
        color: crate::EMBED_COLOR,
        title: if head { Some(moves_title(character)) } else { None },
        url: if head { Some(character_url(character)) } else { None },
        description: Some(description),
        image: None,
        footer: if foot { Some(moves_footer()) } else { None },
        fields: Seq::empty(),
    }
}

/// The messages of a move list for a choice of moves: for all moves, the
/// normal, special and super lists in three messages (the first with the
/// title, the last with the footer); otherwise one message with both.
pub open spec fn move_list_views(
    category: TypeChoice,
    normals: Seq<char>,
    specials: Seq<char>,
    supers: Seq<char>,
    character: Seq<char>,
) -> Seq<EmbedView> {
    match category {
        TypeChoice::All => seq![
            list_view(normals, character, true, false),
            list_view(specials, character, false, false),
            list_view(supers, character, false, true),
        ],
        TypeChoice::Normals => seq![list_view(normals, character, true, true)],
        TypeChoice::Specials => seq![list_view(specials, character, true, true)],
        TypeChoice::Supers => seq![list_view(supers, character, true, true)],
    }
}

/// Builds one message of a move list.
fn list_embed(description: String, character: &str, head: bool, foot: bool) -> (r: EmbedSpec)
    ensures
        r@ == list_view(description@, character@, head, foot),
{
    let mut e = blank_embed();
    if head {
        let mut t = chars_of("__**");
        let cc = chars_of(character);
        let under = chars_of("_");
        let space = chars_of(" ");
        proof {
            reveal_strlit("_");
        }
        let shown = replace_all(&cc, &under, &space);
        extend_chars(&mut t, &shown);
        extend_str(&mut t, " Moves / Aliases**__");
        e.title = Some(string_of(&t));
        e.url = Some(make_character_url(character));
    }
    e.description = Some(description);
    if foot {
        e.footer = Some(owned(
            "Try the \"/help notes\" command for usage notes and specifics.\nOr \"/report\" to request a new aliases.",
        ));
    }
    e
}

/// Builds the messages of a character's move list.
pub fn create_embeds_for_move_type(
    category: &TypeChoice,
    moves_info: &[MoveInfo],
    aliases_data: &[MoveAliases],
    character_arg_altered: &str,
) -> (r: Vec<EmbedSpec>)
    ensures
        ({
            let start = scan(moves_info@, 0, normal_words(), false);
            embed_views(r@) == move_list_views(
                *category,
                move_entries(moves_info@, aliases_data@, 0, start),
                move_entries(
                    moves_info@,
                    aliases_data@,
                    start,
                    scan(moves_info@, start, special_words(), false),
                ),
                move_entries(
                    moves_info@,
                    aliases_data@,
                    scan(moves_info@, 0, super_words(), true),
                    moves_info@.len() as int,
                ),
                character_arg_altered@,
            )
        }),
{
    let mut r: Vec<EmbedSpec> = Vec::new();
    match category {
        TypeChoice::All => {
            let n = get_normal_moves(moves_info, aliases_data);
            let s = get_special_moves(moves_info, aliases_data);
            let u = get_super_moves(moves_info, aliases_data);
            r.push(list_embed(n, character_arg_altered, true, false));
            r.push(list_embed(s, character_arg_altered, false, false));
            r.push(list_embed(u, character_arg_altered, false, true));
        },
        TypeChoice::Normals => {
            let n = get_normal_moves(moves_info, aliases_data);
            r.push(list_embed(n, character_arg_altered, true, true));
        },
        TypeChoice::Specials => {
            let s = get_special_moves(moves_info, aliases_data);
            r.push(list_embed(s, character_arg_altered, true, true));
        },
        TypeChoice::Supers => {
            let u = get_super_moves(moves_info, aliases_data);
            r.push(list_embed(u, character_arg_altered, true, true));
        },
    }
    proof {
        let start = scan(moves_info@, 0, normal_words(), false);
        assert(embed_views(r@) =~= move_list_views(
            *category,
            move_entries(moves_info@, aliases_data@, 0, start),
            move_entries(
                moves_info@,
                aliases_data@,
                start,
                scan(moves_info@, start, special_words(), false),
            ),
            move_entries(
                moves_info@,
                aliases_data@,
                scan(moves_info@, 0, super_words(), true),
                moves_info@.len() as int,
            ),
            character_arg_altered@,
        ));
    }
    r
}

/// The text of one character's nicknames: each followed by `, `, except
/// the last one and empty ones.
pub open spec fn nickname_pieces(s: Seq<Seq<char>>, n: int) -> Seq<char>
    decreases n,
{
    if n <= 0 {
        Seq::<char>::empty()
    } else {
        let x = n - 1;
        nickname_pieces(s, x) + (if x == s.len() - 1 || s[x].len() == 0 {
            s[x]
        } else {
            s[x] + ", "@
        })
    }
}

/// The lines of the nickname list for entries `0..n`.
pub open spec fn nickname_lines(ns: Seq<crate::find::Nicknames>, n: int) -> Seq<char>
    decreases n,
{
    if n <= 0 {
        Seq::<char>::empty()
    } else {
        let e = ns[n - 1];
        nickname_lines(ns, n - 1) + "\n* Character: "@ + e.character@ + "\n+ Nicknames: "@
            + nickname_pieces(strs(e.nicknames@), e.nicknames@.len() as int) + ".\n"@
    }
}

/// The message listing every character's nicknames.
pub open spec fn nicknames_text(ns: Seq<crate::find::Nicknames>) -> Seq<char> {
    "__**Character Nicknames**__\n```diff"@ + nickname_lines(ns, ns.len() as int) + "```"@
}

/// Builds the message listing every character's nicknames.
pub fn nicknames_message(vec_nicknames: &Vec<crate::find::Nicknames>) -> (r: String)
    ensures
        r@ == nicknames_text(vec_nicknames@),
{
    let mut msg = chars_of("__**Character Nicknames**__\n```diff");
    let ghost head = msg@;
    let mut i: usize = 0;
    while i < vec_nicknames.len()
        invariant
            i <= vec_nicknames@.len(),
            msg@ == head + nickname_lines(vec_nicknames@, i as int),
        decreases vec_nicknames.len() - i,
    {
        let e = &vec_nicknames[i];
        let ghost before = msg@;
        extend_str(&mut msg, "\n* Character: ");
        extend_str(&mut msg, e.character.as_str());
        extend_str(&mut msg, "\n+ Nicknames: ");
        let ghost mid = msg@;
        let n = e.nicknames.len();
        let mut x: usize = 0;
        while x < n
            invariant
                x <= n,
                n == e.nicknames@.len(),
                e == vec_nicknames@[i as int],
                i < vec_nicknames@.len(),
                msg@ == mid + nickname_pieces(strs(e.nicknames@), x as int),
            decreases n - x,
        {
            let ghost pre = msg@;
            if x == n - 1 {
                extend_str(&mut msg, e.nicknames[x].as_str());
            } else if e.nicknames[x].as_str().is_empty() {
                extend_str(&mut msg, e.nicknames[x].as_str());
            } else {
                extend_str(&mut msg, e.nicknames[x].as_str());
                extend_str(&mut msg, ", ");
            }
            assert(msg@ =~= mid + nickname_pieces(strs(e.nicknames@), x + 1));
            x = x + 1;
        }
        extend_str(&mut msg, ".\n");
        assert(msg@ =~= head + nickname_lines(vec_nicknames@, i + 1));
        i = i + 1;
    }
    extend_str(&mut msg, "```");
    string_of(&msg)
}

} // verus!
