//! Choosing the hitbox images of a move.
use vstd::prelude::*;
use crate::ImageLinks;
use crate::embeds::{
    blank_embed, bold_title, character_url, embed_views, make_bold_title, make_character_url,
    EmbedSpec, EmbedView,
};
use crate::error::AppError;
use crate::find::{alias_resolved, find_move_index, move_index_for};
use crate::models::{strs, MoveAliases, MoveInfo};
use crate::search::{first_index, lemma_first_index_is, lemma_first_index_none};
use crate::text::{
    chars_eq, chars_of, contains_chars, contains_seq, copy_string, eq_ascii_ci,
    eq_ignore_ascii_case_chars, extend_str, lowercase, owned, remove_char, starts_with,
    string_of, to_lowercase, usize_to_string, decimal, without,
};

verus! {

/// The image shown when a move has no hitbox image.
pub const HITBOX_DEFAULT: &'static str = "https://raw.githubusercontent.com/eda3/Edallumo/main/data/images/no_hitbox.png";

/// The simpler form of a move input that a search falls back to: `5h`, `2h`,
/// `6h` or `jh` for a heavy slash (`hs`) normal starting with that
/// character, else the lower-cased input itself.
pub open spec fn simplified(s: Seq<char>) -> Seq<char> {
    let l = lowercase(s);
    if starts_with(l, seq!['5']) && contains_seq(l, seq!['h', 's']) {
        "5h"@
    } else if starts_with(l, seq!['2']) && contains_seq(l, seq!['h', 's']) {
        "2h"@
    } else if starts_with(l, seq!['6']) && contains_seq(l, seq!['h', 's']) {
        "6h"@
    } else if starts_with(l, seq!['j']) && contains_seq(l, seq!['h', 's']) {
        "jh"@
    } else {
        l
    }
}

/// Beginning with one character means having it first.
proof fn lemma_starts_with_char(s: Seq<char>, c: char)
    ensures
        starts_with(s, seq![c]) == (s.len() > 0 && s[0] == c),
{
    if s.len() > 0 {
        assert(s.take(1) =~= seq![s[0]]);
        if starts_with(s, seq![c]) {
            assert(s.take(1)[0] == s[0]);
            assert(seq![c][0] == c);
        }
    }
}

/// Simplifies a move input for a fallback search.
pub fn simplified_move_input(input: &str) -> (r: String)
    ensures
        r@ == simplified(input@),
{
    let ls = to_lowercase(input);
    let l = chars_of(ls.as_str());
    let mut hs: Vec<char> = Vec::new();
    hs.push('h');
    hs.push('s');
    assert(hs@ =~= seq!['h', 's']);
    let has_hs = contains_chars(&l, &hs);
    let nonempty_l = l.len() > 0;
    let c0: char = if nonempty_l { l[0] } else { ' ' };
    proof {
        lemma_starts_with_char(l@, '5');
        lemma_starts_with_char(l@, '2');
        lemma_starts_with_char(l@, '6');
        lemma_starts_with_char(l@, 'j');
    }
    if nonempty_l && c0 == '5' && has_hs {
        owned("5h")
    } else if nonempty_l && c0 == '2' && has_hs {
        owned("2h")
    } else if nonempty_l && c0 == '6' && has_hs {
        owned("6h")
    } else if nonempty_l && c0 == 'j' && has_hs {
        owned("jh")
    } else {
        string_of(&l)
    }
}

/// The non-empty strings of `s`, in order.
pub open spec fn nonempty(s: Seq<Seq<char>>) -> Seq<Seq<char>>
    decreases s.len(),
{
    if s.len() == 0 {
        s
    } else if s.last().len() == 0 {
        nonempty(s.drop_last())
    } else {
        nonempty(s.drop_last()).push(s.last())
    }
}

/// The non-empty strings of `v`.
fn nonempty_strings(v: &Vec<String>) -> (r: Vec<String>)
    ensures
        strs(r@) == nonempty(strs(v@)),
{
    let mut r: Vec<String> = Vec::new();
    let mut i: usize = 0;
    while i < v.len()
        invariant
            i <= v.len(),
            strs(r@) == nonempty(strs(v@).take(i as int)),
        decreases v.len() - i,
    {
        assert(strs(v@).take(i + 1).drop_last() =~= strs(v@).take(i as int));
        assert(strs(v@).take(i + 1).last() == v@[i as int]@);
        if !v[i].as_str().is_empty() {
            r.push(copy_string(&v[i]));
            assert(strs(r@) =~= nonempty(strs(v@).take(i as int)).push(v@[i as int]@));
        }
        i = i + 1;
    }
    assert(strs(v@).take(v.len() as int) =~= strs(v@));
    r
}

/// A hitbox message: the move's title and page with one image.
pub open spec fn hitbox_view(title: Seq<char>, url: Seq<char>, image: Seq<char>, footer: Option<Seq<char>>, description: Option<Seq<char>>) -> EmbedView {
    EmbedView {
        color: crate::EMBED_COLOR,
        title: Some(title),
        url: Some(url),
        description,
        image: Some(image),
        footer,
        fields: Seq::empty(),
    }
}

/// The messages for a move's hitbox images: the default image when there
/// is none, the image alone when there is one, and each image with a
/// footer counting them when there are several.
pub open spec fn hitbox_views(valid: Seq<Seq<char>>, title: Seq<char>, url: Seq<char>) -> Seq<EmbedView> {
    if valid.len() == 0 {
        seq![hitbox_view(title, url, HITBOX_DEFAULT@, None, None)]
    } else if valid.len() == 1 {
        seq![hitbox_view(title, url, valid[0], None, None)]
    } else {
        Seq::new(
            valid.len(),
            |i: int|
                hitbox_view(
                    title,
                    url,
                    valid[i],
                    Some("Move has "@ + decimal(valid.len()) + " hitbox images."@),
                    None,
                ),
        )
    }
}

/// The messages for partially matching hitbox images: each image with a
/// footer naming the entry and counting its images.
pub open spec fn partial_views(valid: Seq<Seq<char>>, entry: Seq<char>, title: Seq<char>, url: Seq<char>) -> Seq<EmbedView> {
    Seq::new(
        valid.len(),
        |i: int|
            hitbox_view(
                title,
                url,
                valid[i],
                Some("Partial match: '"@ + entry + "' - "@ + decimal(valid.len()) + " images"@),
                None,
            ),
    )
}

/// Whether entry `i` has the input of the move, ignoring ASCII case.
pub open spec fn same_input_ci(links: Seq<ImageLinks>, input: Seq<char>) -> spec_fn(int) -> bool {
    |i: int| eq_ascii_ci(links[i].input@, input)
}

/// Whether entry `i` has the normalised input `key` (lower case, no spaces).
pub open spec fn same_input_key(links: Seq<ImageLinks>, key: Seq<char>) -> spec_fn(int) -> bool {
    |i: int| without(lowercase(links[i].input@), ' ') == key
}

/// Whether entry `i` contains `key` or its simplified form and has a hitbox image.
pub open spec fn partial_hit(links: Seq<ImageLinks>, key: Seq<char>) -> spec_fn(int) -> bool {
    |i: int|
        {
            let n = without(lowercase(links[i].input@), ' ');
            (contains_seq(n, key) || contains_seq(n, simplified(key))) && nonempty(
                strs(links[i].hitbox_img@),
            ).len() > 0
        }
}

/// The hitbox messages of a move: from the entry with its input ignoring
/// ASCII case, else from the entry with its normalised input, else from the
/// first entry that contains it (or its simplified form) and has images,
/// else one message saying that no hitbox image was found.
pub open spec fn hitbox_embeds(m: MoveInfo, links: Seq<ImageLinks>, character: Seq<char>) -> Seq<EmbedView> {
    let title = bold_title(m.input@);
    let url = character_url(character);
    let key = without(lowercase(m.input@), ' ');
    match first_index(links.len() as int, same_input_ci(links, m.input@)) {
        Some(i) => hitbox_views(nonempty(strs(links[i].hitbox_img@)), title, url),
        None => match first_index(links.len() as int, same_input_key(links, key)) {
            Some(k) => hitbox_views(nonempty(strs(links[k].hitbox_img@)), title, url),
            None => match first_index(links.len() as int, partial_hit(links, key)) {
                Some(p) => partial_views(
                    nonempty(strs(links[p].hitbox_img@)),
                    links[p].input@,
                    title,
                    url,
                ),
                None => seq![
                    hitbox_view(
                        title,
                        url,
                        HITBOX_DEFAULT@,
                        None,
                        Some("No hitbox images found for this move."@),
                    ),
                ],
            },
        },
    }
}

/// Builds one hitbox message.
fn make_hitbox_embed(title: &String, url: &String, image: &str, footer: Option<String>, description: Option<String>) -> (r: EmbedSpec)
    ensures
        r@ == hitbox_view(
            title@,
            url@,
            image@,
            crate::embeds::opt_chars(footer),
            crate::embeds::opt_chars(description),
        ),
{
    let mut e = blank_embed();
    e.title = Some(copy_string(title));
    e.url = Some(copy_string(url));
    e.image = Some(owned(image));
    e.footer = footer;
    e.description = description;
    e
}

/// Builds the messages for a list of valid hitbox images.
fn build_hitbox_views(valid: &Vec<String>, title: &String, url: &String) -> (r: Vec<EmbedSpec>)
    ensures
        embed_views(r@) == hitbox_views(strs(valid@), title@, url@),
{
    let mut r: Vec<EmbedSpec> = Vec::new();
    if valid.len() == 0 {
        r.push(make_hitbox_embed(title, url, HITBOX_DEFAULT, None, None));
        assert(embed_views(r@) =~= hitbox_views(strs(valid@), title@, url@));
    } else if valid.len() == 1 {
        r.push(make_hitbox_embed(title, url, valid[0].as_str(), None, None));
        assert(embed_views(r@) =~= hitbox_views(strs(valid@), title@, url@));
    } else {
        let n = usize_to_string(valid.len());
        let mut f = chars_of("Move has ");
        extend_str(&mut f, n.as_str());
        extend_str(&mut f, " hitbox images.");
        let footer = string_of(&f);
        let ghost want = hitbox_views(strs(valid@), title@, url@);
        let mut i: usize = 0;
        while i < valid.len()
            invariant
                i <= valid@.len(),
                valid@.len() > 1,
                footer@ == "Move has "@ + decimal(valid@.len()) + " hitbox images."@,
                want == hitbox_views(strs(valid@), title@, url@),
                r@.len() == i,
                forall|j: int| 0 <= j < i ==> #[trigger] r@[j]@ == want[j],
            decreases valid.len() - i,
        {
            r.push(make_hitbox_embed(title, url, valid[i].as_str(), Some(copy_string(&footer)), None));
            i = i + 1;
        }
        assert(embed_views(r@) =~= want);
    }
    r
}

/// Builds the messages for partially matching hitbox images.
fn build_partial_views(valid: &Vec<String>, entry: &String, title: &String, url: &String) -> (r: Vec<EmbedSpec>)
    ensures
        embed_views(r@) == partial_views(strs(valid@), entry@, title@, url@),
{
    let n = usize_to_string(valid.len());
    let mut f = chars_of("Partial match: '");
    extend_str(&mut f, entry.as_str());
    extend_str(&mut f, "' - ");
    extend_str(&mut f, n.as_str());
    extend_str(&mut f, " images");
    let footer = string_of(&f);
    let ghost want = partial_views(strs(valid@), entry@, title@, url@);
    let mut r: Vec<EmbedSpec> = Vec::new();
    let mut i: usize = 0;
    while i < valid.len()
        invariant
            i <= valid@.len(),
            footer@ == "Partial match: '"@ + entry@ + "' - "@ + decimal(valid@.len()) + " images"@,
            want == partial_views(strs(valid@), entry@, title@, url@),
            r@.len() == i,
            forall|j: int| 0 <= j < i ==> #[trigger] r@[j]@ == want[j],
        decreases valid.len() - i,
    {
        r.push(make_hitbox_embed(title, url, valid[i].as_str(), Some(copy_string(&footer)), None));
        i = i + 1;
    }
    assert(embed_views(r@) =~= want);
    r
}

/// Builds the hitbox messages of a move.
pub fn create_hitbox_embeds(move_info: &MoveInfo, image_links: &Vec<ImageLinks>, character_arg_altered: &str) -> (r: Vec<EmbedSpec>)
    ensures
        embed_views(r@) == hitbox_embeds(*move_info, image_links@, character_arg_altered@),
{
    let ghost links = image_links@;
    let title = make_bold_title(move_info.input.as_str());
    let url = make_character_url(character_arg_altered);
    let input_c = chars_of(move_info.input.as_str());
    let low = to_lowercase(move_info.input.as_str());
    let low_c = chars_of(low.as_str());
    let key = remove_char(&low_c, ' ');
    let ghost p1 = same_input_ci(links, move_info.input@);
    let mut i: usize = 0;
    while i < image_links.len()
        invariant
            i <= links.len(),
            links == image_links@,
            title@ == bold_title(move_info.input@),
            url@ == character_url(character_arg_altered@),
            input_c@ == move_info.input@,
            p1 == same_input_ci(links, move_info.input@),
            forall|j: int| 0 <= j < i ==> !#[trigger] p1(j),
        decreases image_links.len() - i,
    {
        let ic = chars_of(image_links[i].input.as_str());
        if eq_ignore_ascii_case_chars(&ic, &input_c) {
            proof {
                assert(p1(i as int));
                lemma_first_index_is(links.len() as int, p1, i as int);
            }
            let valid = nonempty_strings(&image_links[i].hitbox_img);
            return build_hitbox_views(&valid, &title, &url);
        }
        i = i + 1;
    }
    proof {
        lemma_first_index_none(links.len() as int, p1);
    }
    let ghost p2 = same_input_key(links, key@);
    let mut i: usize = 0;
    while i < image_links.len()
        invariant
            i <= links.len(),
            links == image_links@,
            title@ == bold_title(move_info.input@),
            url@ == character_url(character_arg_altered@),
            key@ == without(lowercase(move_info.input@), ' '),
            first_index(links.len() as int, p1) is None,
            p1 == same_input_ci(links, move_info.input@),
            p2 == same_input_key(links, key@),
            forall|j: int| 0 <= j < i ==> !#[trigger] p2(j),
        decreases image_links.len() - i,
    {
        let l = to_lowercase(image_links[i].input.as_str());
        let lc = chars_of(l.as_str());
        let n = remove_char(&lc, ' ');
        if chars_eq(&n, &key) {
            proof {
                assert(p2(i as int));
                lemma_first_index_is(links.len() as int, p2, i as int);
            }
            let valid = nonempty_strings(&image_links[i].hitbox_img);
            return build_hitbox_views(&valid, &title, &url);
        }
        i = i + 1;
    }
    proof {
        lemma_first_index_none(links.len() as int, p2);
    }
    let key_s = string_of(&key);
    let simple = simplified_move_input(key_s.as_str());
    let simple_c = chars_of(simple.as_str());
    let ghost p3 = partial_hit(links, key@);
    let mut i: usize = 0;
    while i < image_links.len()
        invariant
            i <= links.len(),
            links == image_links@,
            title@ == bold_title(move_info.input@),
            url@ == character_url(character_arg_altered@),
            key@ == without(lowercase(move_info.input@), ' '),
            simple_c@ == simplified(key@),
            first_index(links.len() as int, p1) is None,
            first_index(links.len() as int, p2) is None,
            p1 == same_input_ci(links, move_info.input@),
            p2 == same_input_key(links, key@),
            p3 == partial_hit(links, key@),
            forall|j: int| 0 <= j < i ==> !#[trigger] p3(j),
        decreases image_links.len() - i,
    {
        let l = to_lowercase(image_links[i].input.as_str());
        let lc = chars_of(l.as_str());
        let n = remove_char(&lc, ' ');
        if contains_chars(&n, &key) || contains_chars(&n, &simple_c) {
            let valid = nonempty_strings(&image_links[i].hitbox_img);
            if valid.len() > 0 {
                proof {
                    assert(p3(i as int));
                    lemma_first_index_is(links.len() as int, p3, i as int);
                }
                return build_partial_views(&valid, &image_links[i].input, &title, &url);
            }
        }
        i = i + 1;
    }
    proof {
        lemma_first_index_none(links.len() as int, p3);
    }
    let mut r: Vec<EmbedSpec> = Vec::new();
    r.push(make_hitbox_embed(&title, &url, HITBOX_DEFAULT, None, Some(owned("No hitbox images found for this move."))));
    assert(embed_views(r@) =~= hitbox_embeds(*move_info, image_links@, character_arg_altered@));
    r
}


/// A stand-in move with only an input and a name.
pub open spec fn placeholder(input: Seq<char>) -> crate::models::MoveInfoView {
    crate::models::MoveInfoView {
        input,
        name: input,
        damage: None,
        guard: Seq::empty(),
        startup: None,
        active: Seq::empty(),
        recovery: None,
        on_hit: Seq::empty(),
        on_block: Seq::empty(),
        level: Seq::empty(),
        counter: Seq::empty(),
        move_type: Seq::empty(),
        wall_damage: None,
        invincibility: Seq::empty(),
        cancel: Seq::empty(),
        caption: Seq::empty(),
        notes: Seq::empty(),
    }
}

/// Whether image entry `i` matches the user's text directly: equal after
/// lower-casing and removing spaces, or equal ignoring ASCII case.
pub open spec fn direct_image(links: Seq<ImageLinks>, typed: Seq<char>) -> spec_fn(int) -> bool {
    |i: int|
        without(lowercase(links[i].input@), ' ') == without(lowercase(typed), ' ') || eq_ascii_ci(
            links[i].input@,
            typed,
        )
}

/// Whether move `i` matches an image entry's input (ignoring ASCII case) or
/// the user's text (lower case, no spaces).
pub open spec fn move_for_image(moves: Seq<MoveInfo>, img_input: Seq<char>, typed: Seq<char>) -> spec_fn(int) -> bool {
    |i: int|
        eq_ascii_ci(moves[i].input@, img_input) || without(lowercase(typed), ' ') == without(
            lowercase(moves[i].input@),
            ' ',
        )
}

/// The move whose hitboxes are shown, when an image entry matches the
/// user's text directly: the first move matching that entry, or a stand-in
/// named after the entry.
pub open spec fn direct_move(moves: Seq<MoveInfo>, links: Seq<ImageLinks>, typed: Seq<char>, i: int) -> crate::models::MoveInfoView {
    match first_index(moves.len() as int, move_for_image(moves, links[i].input@, typed)) {
        Some(k) => moves[k]@,
        None => placeholder(links[i].input@),
    }
}

/// Finds the move whose hitboxes are shown: through an image entry that
/// matches the text directly, else by the move search on the lower-cased
/// text (its failure message wrapped as a move-not-found error).
pub fn find_hitbox_move(
    character_arg_altered: &str,
    character_move: &str,
    moves_info: &Vec<MoveInfo>,
    move_aliases: &Vec<MoveAliases>,
    image_links: &Vec<ImageLinks>,
) -> (r: Result<MoveInfo, AppError>)
    ensures
        first_index(image_links@.len() as int, direct_image(image_links@, character_move@)) matches Some(i) ==> (
        r matches Ok(m) && m@ == direct_move(moves_info@, image_links@, character_move@, i)),
        first_index(image_links@.len() as int, direct_image(image_links@, character_move@)) is None ==> ({
            let t = alias_resolved(move_aliases@, move_aliases@.len() as int, lowercase(character_move@));
            &&& move_index_for(moves_info@, t) matches Some(k) ==> (r matches Ok(m) && m@
                == moves_info@[k]@)
            &&& move_index_for(moves_info@, t) is None ==> (r matches Err(AppError::MoveNotFound(msg))
                && msg@ == "技が見つかりません: "@ + "Move `"@ + t
                + "` was not found for character `"@ + character_arg_altered@ + "`!"@)
        }),
{
    let ghost links = image_links@;
    let ghost moves = moves_info@;
    let typed = chars_of(character_move);
    let tl = to_lowercase(character_move);
    let tl_c = chars_of(tl.as_str());
    let key = remove_char(&tl_c, ' ');
    let ghost pd = direct_image(links, character_move@);
    let mut i: usize = 0;
    while i < image_links.len()
        invariant
            i <= links.len(),
            links == image_links@,
            moves == moves_info@,
            typed@ == character_move@,
            key@ == without(lowercase(character_move@), ' '),
            pd == direct_image(links, character_move@),
            forall|j: int| 0 <= j < i ==> !#[trigger] pd(j),
        decreases image_links.len() - i,
    {
        let il = to_lowercase(image_links[i].input.as_str());
        let il_c = chars_of(il.as_str());
        let ik = remove_char(&il_c, ' ');
        let ic = chars_of(image_links[i].input.as_str());
        if chars_eq(&ik, &key) || eq_ignore_ascii_case_chars(&ic, &typed) {
            proof {
                assert(pd(i as int));
                lemma_first_index_is(links.len() as int, pd, i as int);
            }
            let ghost pm = move_for_image(moves, links[i as int].input@, character_move@);
            let mut k: usize = 0;
            while k < moves_info.len()
                invariant
                    k <= moves.len(),
                    i < links.len(),
                    links == image_links@,
                    moves == moves_info@,
                    ic@ == links[i as int].input@,
                    key@ == without(lowercase(character_move@), ' '),
                    pm == move_for_image(moves, links[i as int].input@, character_move@),
                    pd == direct_image(links, character_move@),
                    first_index(links.len() as int, pd) == Some(i as int),
                    forall|j: int| 0 <= j < k ==> !#[trigger] pm(j),
                decreases moves_info.len() - k,
            {
                let mc = chars_of(moves_info[k].input.as_str());
                let ml = to_lowercase(moves_info[k].input.as_str());
                let ml_c = chars_of(ml.as_str());
                let mk = remove_char(&ml_c, ' ');
                if eq_ignore_ascii_case_chars(&mc, &ic) || chars_eq(&key, &mk) {
                    proof {
                        assert(pm(k as int));
                        lemma_first_index_is(moves.len() as int, pm, k as int);
                    }
                    return Ok(moves_info[k].duplicate());
                }
                k = k + 1;
            }
            proof {
                lemma_first_index_none(moves.len() as int, pm);
            }
            let name = copy_string(&image_links[i].input);
            let input = copy_string(&image_links[i].input);
            return Ok(MoveInfo {
                name,
                input,
                damage: None,
                guard: String::new(),
                startup: None,
                active: String::new(),
                recovery: None,
                on_hit: String::new(),
                on_block: String::new(),
                level: String::new(),
                counter: String::new(),
                move_type: String::new(),
                wall_damage: None,
                invincibility: String::new(),
                cancel: String::new(),
                caption: String::new(),
                notes: String::new(),
            });
        }
        i = i + 1;
    }
    proof {
        lemma_first_index_none(links.len() as int, pd);
    }
    let who = owned(character_arg_altered);
    proof {
        crate::find::lemma_move_index_bounds(
            moves,
            alias_resolved(move_aliases@, move_aliases@.len() as int, tl@),
        );
    }
    match find_move_index(&who, tl, moves_info.as_slice(), move_aliases) {
        Ok(idx) => {
            Ok(moves_info[idx].duplicate())
        },
        Err(err) => {
            let text = err.to_string();
            Err(AppError::MoveNotFound(text))
        },
    }
}

/// The hitbox reply always holds at least one message, and every message
/// shows an image.
pub proof fn lemma_hitbox_embeds_nonempty(m: MoveInfo, links: Seq<ImageLinks>, character: Seq<char>)
    ensures
        hitbox_embeds(m, links, character).len() >= 1,
        forall|i: int| 0 <= i < hitbox_embeds(m, links, character).len() ==> (#[trigger] hitbox_embeds(m, links, character)[i]).image is Some,
{
    let title = bold_title(m.input@);
    let url = character_url(character);
    let key = without(lowercase(m.input@), ' ');
    let e = hitbox_embeds(m, links, character);
    match first_index(links.len() as int, same_input_ci(links, m.input@)) {
        Some(i) => {
            lemma_hitbox_views_nonempty(nonempty(strs(links[i].hitbox_img@)), title, url);
        },
        None => match first_index(links.len() as int, same_input_key(links, key)) {
            Some(k) => {
                lemma_hitbox_views_nonempty(nonempty(strs(links[k].hitbox_img@)), title, url);
            },
            None => match first_index(links.len() as int, partial_hit(links, key)) {
                Some(p) => {
                    crate::search::lemma_first_index(links.len() as int, partial_hit(links, key));
                    assert(partial_hit(links, key)(p));
                    let valid = nonempty(strs(links[p].hitbox_img@));
                    assert(valid.len() > 0);
                    assert(e == partial_views(valid, links[p].input@, title, url));
                },
                None => {
                    assert(e.len() == 1);
                },
            },
        },
    }
}

/// Hitbox messages for a list of images: at least one, each with an image.
proof fn lemma_hitbox_views_nonempty(valid: Seq<Seq<char>>, title: Seq<char>, url: Seq<char>)
    ensures
        hitbox_views(valid, title, url).len() >= 1,
        forall|i: int| 0 <= i < hitbox_views(valid, title, url).len() ==> (#[trigger] hitbox_views(valid, title, url)[i]).image is Some,
{
}

/// The non-empty strings of a list are exactly its non-empty elements.
pub proof fn lemma_nonempty_members(s: Seq<Seq<char>>)
    ensures
        forall|i: int| 0 <= i < nonempty(s).len() ==> (#[trigger] nonempty(s)[i]).len() > 0 && s.contains(nonempty(s)[i]),
        forall|j: int| 0 <= j < s.len() && (#[trigger] s[j]).len() > 0 ==> nonempty(s).contains(s[j]),
    decreases s.len(),
{
    if s.len() > 0 {
        let d = s.drop_last();
        lemma_nonempty_members(d);
        let n = nonempty(s);
        let nd = nonempty(d);
        assert forall|i: int| 0 <= i < n.len() implies (#[trigger] n[i]).len() > 0 && s.contains(n[i]) by {
            if i < nd.len() {
                assert(n[i] == nd[i]);
                let j = choose|j: int| 0 <= j < d.len() && d[j] == nd[i];
                assert(s[j] == d[j]);
            } else {
                assert(n[i] == s.last());
                assert(s[s.len() - 1] == s.last());
            }
        }
        assert forall|j: int| 0 <= j < s.len() && (#[trigger] s[j]).len() > 0 implies n.contains(s[j]) by {
            if j < d.len() {
                assert(d[j] == s[j]);
                let i = choose|i: int| 0 <= i < nd.len() && nd[i] == d[j];
                assert(n[i] == nd[i]);
            } else {
                assert(n[n.len() - 1] == s[j]);
            }
        }
    }
}

/// The hitbox messages for a list of images show each image once, in
/// order, whether the entry matched fully or in part; the default picture
/// appears only when the list is empty.
pub proof fn lemma_hitbox_views_images(valid: Seq<Seq<char>>, title: Seq<char>, url: Seq<char>)
    ensures
        valid.len() == 0 ==> hitbox_views(valid, title, url).len() == 1 && hitbox_views(valid, title, url)[0].image
            == Some(HITBOX_DEFAULT@),
        valid.len() > 0 ==> hitbox_views(valid, title, url).len() == valid.len() && forall|k: int|
            0 <= k < valid.len() ==> (#[trigger] hitbox_views(valid, title, url)[k]).image == Some(valid[k]),
        forall|entry: Seq<char>| #[trigger] partial_views(valid, entry, title, url).len() == valid.len(),
        forall|entry: Seq<char>, k: int| 0 <= k < valid.len() ==> (#[trigger] partial_views(valid, entry, title, url)[k]).image
            == Some(valid[k]),
{
}

/// The images of a hitbox reply, when some image entry has the move's input
/// (ignoring ASCII case): every non-empty hitbox image of the first such
/// entry is shown, every message shows one of them, and the default
/// picture is shown only when the entry has no non-empty image.
pub proof fn lemma_hitbox_images_of_entry(m: MoveInfo, links: Seq<ImageLinks>, character: Seq<char>, k: int)
    requires
        0 <= k < links.len(),
        eq_ascii_ci(links[k].input@, m.input@),
        forall|j: int| 0 <= j < k ==> !eq_ascii_ci(#[trigger] links[j].input@, m.input@),
    ensures
        ({
            let e = hitbox_embeds(m, links, character);
            let imgs = strs(links[k].hitbox_img@);
            &&& forall|j: int| 0 <= j < imgs.len() && (#[trigger] imgs[j]).len() > 0 ==> exists|i: int|
                0 <= i < e.len() && e[i].image == Some(imgs[j])
            &&& (exists|j: int| 0 <= j < imgs.len() && (#[trigger] imgs[j]).len() > 0) ==> forall|i: int|
                0 <= i < e.len() ==> ((#[trigger] e[i]).image matches Some(x) && imgs.contains(x) && x.len() > 0)
            &&& (forall|j: int| 0 <= j < imgs.len() ==> (#[trigger] imgs[j]).len() == 0) ==> e.len() == 1
                && e[0].image == Some(HITBOX_DEFAULT@)
        }),
{
    let title = bold_title(m.input@);
    let url = character_url(character);
    let p = same_input_ci(links, m.input@);
    assert forall|j: int| 0 <= j < k implies !#[trigger] p(j) by {
        assert(!eq_ascii_ci(links[j].input@, m.input@));
    }
    assert(p(k));
    lemma_first_index_is(links.len() as int, p, k);
    let imgs = strs(links[k].hitbox_img@);
    let valid = nonempty(imgs);
    let e = hitbox_embeds(m, links, character);
    assert(e == hitbox_views(valid, title, url));
    lemma_nonempty_members(imgs);
    lemma_hitbox_views_images(valid, title, url);
    assert forall|j: int| 0 <= j < imgs.len() && (#[trigger] imgs[j]).len() > 0 implies exists|i: int|
        0 <= i < e.len() && e[i].image == Some(imgs[j]) by {
        assert(valid.contains(imgs[j]));
        let i = choose|i: int| 0 <= i < valid.len() && valid[i] == imgs[j];
        assert(e[i].image == Some(valid[i]));
    }
    if exists|j: int| 0 <= j < imgs.len() && (#[trigger] imgs[j]).len() > 0 {
        let j = choose|j: int| 0 <= j < imgs.len() && (#[trigger] imgs[j]).len() > 0;
        assert(valid.contains(imgs[j]));
        assert(valid.len() > 0);
        assert forall|i: int| 0 <= i < e.len() implies ((#[trigger] e[i]).image matches Some(x) && imgs.contains(x) && x.len() > 0) by {
            assert(e[i].image == Some(valid[i]));
        }
    }
    if forall|j: int| 0 <= j < imgs.len() ==> (#[trigger] imgs[j]).len() == 0 {
        if valid.len() > 0 {
            assert(valid[0].len() > 0 && imgs.contains(valid[0]));
        }
    }
}

} // verus!
