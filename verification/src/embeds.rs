//! The content of the bot's embedded messages, as plain values.
use vstd::prelude::*;
use crate::ImageLinks;
use crate::models::MoveInfo;
use crate::search::{first_index, last_index, lemma_first_index_is, lemma_first_index_none};
use crate::text::{
    before_first, chars_eq, chars_of, contains_chars, contains_seq, copy_string, extend_str,
    find_char, first_pos, lemma_first_pos, lowercase, owned, string_of, to_lowercase, trim_chars,
    trimmed,
};

verus! {

/// The image shown when a move has none.
pub const IMAGE_DEFAULT: &'static str = "https://www.dustloop.com/wiki/images/5/54/GGST_Logo_Sparkly.png";

/// One field of an embedded message.
#[derive(Debug)]
pub struct EmbedField {
    /// The field's name.
    pub name: String,
    /// The field's value.
    pub value: String,
    /// Whether the field is shown inline.
    pub inline: bool,
}

/// The content of one embedded message.
#[derive(Debug)]
pub struct EmbedSpec {
    /// The colour of the side bar.
    pub color: u32,
    /// The title, if any.
    pub title: Option<String>,
    /// The link of the title, if any.
    pub url: Option<String>,
    /// The description, if any.
    pub description: Option<String>,
    /// The image, if any.
    pub image: Option<String>,
    /// The footer, if any.
    pub footer: Option<String>,
    /// The fields.
    pub fields: Vec<EmbedField>,
}

/// The characters of an optional string.
pub open spec fn opt_chars(o: Option<String>) -> Option<Seq<char>> {
    match o {
        Some(s) => Some(s@),
        None => None,
    }
}

/// The value of an embedded message: its strings as character sequences,
/// its fields as (name, value, inline) triples.
pub struct EmbedView {
    pub color: u32,
    pub title: Option<Seq<char>>,
    pub url: Option<Seq<char>>,
    pub description: Option<Seq<char>>,
    pub image: Option<Seq<char>>,
    pub footer: Option<Seq<char>>,
    pub fields: Seq<(Seq<char>, Seq<char>, bool)>,
}

impl View for EmbedSpec {
    type V = EmbedView;

    open spec fn view(&self) -> EmbedView {
        EmbedView {
            color: self.color,
            title: opt_chars(self.title),
            url: opt_chars(self.url),
            description: opt_chars(self.description),
            image: opt_chars(self.image),
            footer: opt_chars(self.footer),
            fields: self.fields@.map_values(|f: EmbedField| (f.name@, f.value@, f.inline)),
        }
    }
}

/// The views of a sequence of embedded messages.
pub open spec fn embed_views(v: Seq<EmbedSpec>) -> Seq<EmbedView> {
    v.map_values(|e: EmbedSpec| e@)
}

/// The link to a character's page.
pub open spec fn character_url(character: Seq<char>) -> Seq<char> {
    "https://dustloop.com/w/GGST/"@ + character + "#Overview"@
}

/// Builds the link to a character's page.
pub fn make_character_url(character: &str) -> (r: String)
    ensures
        r@ == character_url(character@),
{
    let mut v = chars_of("https://dustloop.com/w/GGST/");
    extend_str(&mut v, character);
    extend_str(&mut v, "#Overview");
    string_of(&v)
}

/// A title in bold underline: `__**text**__`.
pub open spec fn bold_title(text: Seq<char>) -> Seq<char> {
    "__**"@ + text + "**__"@
}

/// Builds a bold underlined title.
pub fn make_bold_title(text: &str) -> (r: String)
    ensures
        r@ == bold_title(text@),
{
    let mut v = chars_of("__**");
    extend_str(&mut v, text);
    extend_str(&mut v, "**__");
    string_of(&v)
}

/// An embedded message with just a colour.
pub fn blank_embed() -> (r: EmbedSpec)
    ensures
        r@ == (EmbedView {
            color: crate::EMBED_COLOR,
            title: None,
            url: None,
            description: None,
            image: None,
            footer: None,
            fields: Seq::empty(),
        }),
{
    let r = EmbedSpec {
        color: crate::EMBED_COLOR,
        title: None,
        url: None,
        description: None,
        image: None,
        footer: None,
        fields: Vec::new(),
    };
    assert(r@.fields =~= Seq::<(Seq<char>, Seq<char>, bool)>::empty());
    r
}

// ---------------------------------------------------------------------------
// Choosing a move's image
// ---------------------------------------------------------------------------

/// The image of a move in the simple frame data view: the first image entry
/// with exactly the move's input and an image, else the default image.
pub open spec fn simple_image(m: MoveInfo, links: Seq<ImageLinks>) -> Seq<char> {
    match first_index(
        links.len() as int,
        |i: int| links[i].input@ == m.input@ && links[i].move_img@.len() > 0,
    ) {
        Some(i) => links[i].move_img@,
        None => IMAGE_DEFAULT@,
    }
}

/// Chooses the image of a move for the simple frame data view.
pub fn simple_move_image(move_data: &MoveInfo, image_links: &Vec<ImageLinks>) -> (r: String)
    ensures
        r@ == simple_image(*move_data, image_links@),
{
    let ghost p = |i: int|
        image_links@[i].input@ == move_data.input@ && image_links@[i].move_img@.len() > 0;
    let mi = chars_of(move_data.input.as_str());
    let mut i: usize = 0;
    while i < image_links.len()
        invariant
            i <= image_links@.len(),
            mi@ == move_data.input@,
            p == (|i: int|
                image_links@[i].input@ == move_data.input@ && image_links@[i].move_img@.len() > 0),
            forall|j: int| 0 <= j < i ==> !#[trigger] p(j),
        decreases image_links.len() - i,
    {
        let li = chars_of(image_links[i].input.as_str());
        if chars_eq(&li, &mi) && !image_links[i].move_img.as_str().is_empty() {
            proof {
                assert(p(i as int));
                lemma_first_index_is(image_links@.len() as int, p, i as int);
            }
            return copy_string(&image_links[i].move_img);
        }
        i = i + 1;
    }
    proof {
        lemma_first_index_none(image_links@.len() as int, p);
    }
    owned(IMAGE_DEFAULT)
}

/// A move input without its bracketed part: the trimmed text before the
/// first `(`, or the whole input when there is none.
pub open spec fn cleaned_input(s: Seq<char>) -> Seq<char> {
    if first_pos(s, '(') is Some {
        trimmed(before_first(s, '('))
    } else {
        s
    }
}

/// The text between the first `(` and the first `)` of a move input, or the
/// empty text when there is no such non-empty text.
pub open spec fn inner_input(s: Seq<char>) -> Seq<char> {
    match (first_pos(s, '('), first_pos(s, ')')) {
        (Some(a), Some(b)) => if a + 1 < b {
            s.subrange(a + 1, b)
        } else {
            Seq::<char>::empty()
        },
        _ => Seq::<char>::empty(),
    }
}

/// Computes `cleaned_input`.
fn make_cleaned_input(v: &Vec<char>) -> (r: Vec<char>)
    ensures
        r@ == cleaned_input(v@),
{
    match find_char(v, '(') {
        Some(a) => {
            proof {
                lemma_first_pos(v@, '(');
            }
            let mut head: Vec<char> = Vec::new();
            let mut k: usize = 0;
            while k < a
                invariant
                    k <= a,
                    a < v.len(),
                    head@ == v@.take(k as int),
                decreases a - k,
            {
                head.push(v[k]);
                k = k + 1;
                assert(head@ =~= v@.take(k as int));
            }
            trim_chars(&head)
        },
        None => {
            let mut r: Vec<char> = Vec::new();
            crate::text::extend_chars(&mut r, v);
            assert(r@ =~= v@);
            r
        },
    }
}

/// Computes `inner_input`.
fn make_inner_input(v: &Vec<char>) -> (r: Vec<char>)
    ensures
        r@ == inner_input(v@),
{
    let mut r: Vec<char> = Vec::new();
    match (find_char(v, '('), find_char(v, ')')) {
        (Some(a), Some(b)) => {
            proof {
                lemma_first_pos(v@, '(');
                lemma_first_pos(v@, ')');
            }
            if a < b && b - a > 1 {
                let mut k: usize = a + 1;
                while k < b
                    invariant
                        a + 1 <= k <= b,
                        b < v.len(),
                        r@ == v@.subrange(a + 1, k as int),
                    decreases b - k,
                {
                    r.push(v[k]);
                    k = k + 1;
                    assert(r@ =~= v@.subrange(a + 1, k as int));
                }
            }
        },
        _ => {},
    }
    assert(r@ =~= inner_input(v@));
    r
}

/// Whether an image entry belongs to a move: its input equals, ignoring
/// case, the move's input, the move's input without its bracketed part, or
/// the text inside the brackets (the last two only when non-empty).
pub open spec fn image_matches(m: MoveInfo, img: ImageLinks) -> bool {
    let li = lowercase(img.input@);
    lowercase(m.input@) == li || (cleaned_input(m.input@).len() > 0 && lowercase(
        cleaned_input(m.input@),
    ) == li) || (inner_input(m.input@).len() > 0 && lowercase(inner_input(m.input@)) == li)
}

/// Whether an image entry's input contains the move's input, ignoring case,
/// and the entry has an image.
pub open spec fn image_contains(m: MoveInfo, img: ImageLinks) -> bool {
    contains_seq(lowercase(img.input@), lowercase(m.input@)) && img.move_img@.len() > 0
}

/// The lower-cased forms that image entries are compared with.
struct MatchKeys {
    full: Vec<char>,
    has_cleaned: bool,
    cleaned: Vec<char>,
    has_inner: bool,
    inner: Vec<char>,
}

/// Computes the lower-cased forms of a move's input.
fn match_keys(m: &MoveInfo) -> (r: MatchKeys)
    ensures
        r.full@ == lowercase(m.input@),
        r.has_cleaned <==> cleaned_input(m.input@).len() > 0,
        r.cleaned@ == lowercase(cleaned_input(m.input@)),
        r.has_inner <==> inner_input(m.input@).len() > 0,
        r.inner@ == lowercase(inner_input(m.input@)),
{
    let full_s = to_lowercase(m.input.as_str());
    let full = chars_of(full_s.as_str());
    let iv = chars_of(m.input.as_str());
    let c = make_cleaned_input(&iv);
    let cs = string_of(&c);
    let cl = to_lowercase(cs.as_str());
    let cleaned = chars_of(cl.as_str());
    let n = make_inner_input(&iv);
    let ns = string_of(&n);
    let nl = to_lowercase(ns.as_str());
    let inner = chars_of(nl.as_str());
    MatchKeys { full, has_cleaned: c.len() > 0, cleaned, has_inner: n.len() > 0, inner }
}

/// Whether an image entry belongs to the move with these keys.
fn entry_matches(k: &MatchKeys, img: &ImageLinks) -> (r: bool)
    ensures
        r == (k.full@ == lowercase(img.input@) || (k.has_cleaned && k.cleaned@ == lowercase(
            img.input@,
        )) || (k.has_inner && k.inner@ == lowercase(img.input@))),
{
    let l = to_lowercase(img.input.as_str());
    let lc = chars_of(l.as_str());
    chars_eq(&k.full, &lc) || (k.has_cleaned && chars_eq(&k.cleaned, &lc)) || (k.has_inner
        && chars_eq(&k.inner, &lc))
}

/// Whether an image entry's input contains the move's input, ignoring case,
/// and the entry has an image.
fn entry_contains(k: &MatchKeys, img: &ImageLinks) -> (r: bool)
    ensures
        r == (contains_seq(lowercase(img.input@), k.full@) && img.move_img@.len() > 0),
{
    let l = to_lowercase(img.input.as_str());
    let lc = chars_of(l.as_str());
    contains_chars(&lc, &k.full) && !img.move_img.as_str().is_empty()
}

/// The image of a move in the detailed frame data view: the first entry
/// that belongs to the move and has an image; failing that, the last entry
/// whose input contains the move's input and has an image; else the default.
pub open spec fn advanced_image(m: MoveInfo, links: Seq<ImageLinks>) -> Seq<char> {
    match first_index(
        links.len() as int,
        |i: int| image_matches(m, links[i]) && links[i].move_img@.len() > 0,
    ) {
        Some(k) => links[k].move_img@,
        None => match last_index(links.len() as int, |i: int| image_contains(m, links[i])) {
            Some(j) => links[j].move_img@,
            None => IMAGE_DEFAULT@,
        },
    }
}

/// Chooses the image of a move for the detailed frame data view.
pub fn get_move_image_url(move_data: &MoveInfo, image_links: &Vec<ImageLinks>) -> (r: String)
    ensures
        r@ == advanced_image(*move_data, image_links@),
{
    let ghost m = *move_data;
    let ghost links = image_links@;
    let ghost pe = |i: int| image_matches(m, links[i]) && links[i].move_img@.len() > 0;
    let ghost pc = |i: int| image_contains(m, links[i]);
    let keys = match_keys(move_data);
    let mut partial: Option<usize> = None;
    let mut i: usize = 0;
    while i < image_links.len()
        invariant
            i <= links.len(),
            links == image_links@,
            m == *move_data,
            keys.full@ == lowercase(m.input@),
            keys.has_cleaned <==> cleaned_input(m.input@).len() > 0,
            keys.cleaned@ == lowercase(cleaned_input(m.input@)),
            keys.has_inner <==> inner_input(m.input@).len() > 0,
            keys.inner@ == lowercase(inner_input(m.input@)),
            pe == (|i: int| image_matches(m, links[i]) && links[i].move_img@.len() > 0),
            pc == (|i: int| image_contains(m, links[i])),
            forall|j: int| 0 <= j < i ==> !#[trigger] pe(j),
            partial matches Some(j) ==> last_index(i as int, pc) == Some(j as int) && j < i,
            partial is None ==> last_index(i as int, pc) is None,
        decreases image_links.len() - i,
    {
        let img = &image_links[i];
        if entry_matches(&keys, img) && !img.move_img.as_str().is_empty() {
            proof {
                assert(pe(i as int));
                lemma_first_index_is(links.len() as int, pe, i as int);
            }
            return copy_string(&img.move_img);
        }
        if entry_contains(&keys, img) {
            partial = Some(i);
        }
        i = i + 1;
    }
    proof {
        lemma_first_index_none(links.len() as int, pe);
    }
    match partial {
        Some(j) => copy_string(&image_links[j].move_img),
        None => owned(IMAGE_DEFAULT),
    }
}

/// The image of a move in the frame meter view: the first entry that
/// belongs to the move (its image, or the default when it has none);
/// failing that, the first entry whose input contains the move's input and
/// has an image; else the default.
pub open spec fn meter_image(m: MoveInfo, links: Seq<ImageLinks>) -> Seq<char> {
    match first_index(links.len() as int, |i: int| image_matches(m, links[i])) {
        Some(k) => if links[k].move_img@.len() > 0 {
            links[k].move_img@
        } else {
            IMAGE_DEFAULT@
        },
        None => match first_index(links.len() as int, |i: int| image_contains(m, links[i])) {
            Some(j) => links[j].move_img@,
            None => IMAGE_DEFAULT@,
        },
    }
}

/// Chooses the image of a move for the frame meter view.
pub fn find_move_image(selected_move_info: &MoveInfo, image_links: &Vec<ImageLinks>) -> (r: String)
    ensures
        r@ == meter_image(*selected_move_info, image_links@),
{
    let ghost m = *selected_move_info;
    let ghost links = image_links@;
    let ghost pe = |i: int| image_matches(m, links[i]);
    let ghost pc = |i: int| image_contains(m, links[i]);
    let keys = match_keys(selected_move_info);
    let mut i: usize = 0;
    while i < image_links.len()
        invariant
            i <= links.len(),
            links == image_links@,
            m == *selected_move_info,
            keys.full@ == lowercase(m.input@),
            keys.has_cleaned <==> cleaned_input(m.input@).len() > 0,
            keys.cleaned@ == lowercase(cleaned_input(m.input@)),
            keys.has_inner <==> inner_input(m.input@).len() > 0,
            keys.inner@ == lowercase(inner_input(m.input@)),
            pe == (|i: int| image_matches(m, links[i])),
            forall|j: int| 0 <= j < i ==> !#[trigger] pe(j),
        decreases image_links.len() - i,
    {
        let img = &image_links[i];
        if entry_matches(&keys, img) {
            proof {
                assert(pe(i as int));
                lemma_first_index_is(links.len() as int, pe, i as int);
            }
            if img.move_img.as_str().is_empty() {
                return owned(IMAGE_DEFAULT);
            }
            return copy_string(&img.move_img);
        }
        i = i + 1;
    }
    proof {
        lemma_first_index_none(links.len() as int, pe);
    }
    let mut i: usize = 0;
    while i < image_links.len()
        invariant
            i <= links.len(),
            links == image_links@,
            m == *selected_move_info,
            keys.full@ == lowercase(m.input@),
            pe == (|i: int| image_matches(m, links[i])),
            first_index(links.len() as int, pe) is None,
            pc == (|i: int| image_contains(m, links[i])),
            forall|j: int| 0 <= j < i ==> !#[trigger] pc(j),
        decreases image_links.len() - i,
    {
        let img = &image_links[i];
        if entry_contains(&keys, img) {
            proof {
                assert(pc(i as int));
                lemma_first_index_is(links.len() as int, pc, i as int);
            }
            return copy_string(&img.move_img);
        }
        i = i + 1;
    }
    proof {
        lemma_first_index_none(links.len() as int, pc);
    }
    owned(IMAGE_DEFAULT)
}


// ---------------------------------------------------------------------------
// Frame data views
// ---------------------------------------------------------------------------

/// The view of a field.
pub open spec fn field_view(name: Seq<char>, value: Seq<char>) -> (Seq<char>, Seq<char>, bool) {
    (name, value, true)
}

/// Builds an inline field.
fn field(name: &str, value: String) -> (r: EmbedField)
    ensures
        r.name@ == name@,
        r.value@ == value@,
        r.inline,
{
    EmbedField { name: owned(name), value, inline: true }
}

/// Appends an inline field to a list of fields.
fn push_field(fields: &mut Vec<EmbedField>, name: &str, value: String)
    ensures
        final(fields)@.map_values(|f: EmbedField| (f.name@, f.value@, f.inline)) == old(
            fields,
        )@.map_values(|f: EmbedField| (f.name@, f.value@, f.inline)).push(field_view(name@, value@)),
{
    let ghost before = fields@;
    let f = field(name, value);
    fields.push(f);
    assert(fields@.map_values(|f: EmbedField| (f.name@, f.value@, f.inline)) =~= before.map_values(
        |f: EmbedField| (f.name@, f.value@, f.inline),
    ).push(field_view(name@, value@)));
}

/// The fields of the simple frame data view of a move.
pub open spec fn simple_fields(m: MoveInfo) -> Seq<(Seq<char>, Seq<char>, bool)> {
    seq![
        field_view("ダメージ"@, crate::meter::count_text(m.damage)),
        field_view("ガード"@, m.guard@),
        field_view("無敵"@, m.invincibility@),
        field_view("始動"@, crate::meter::count_text(m.startup)),
        field_view("持続"@, m.active@),
        field_view("硬直"@, crate::meter::count_text(m.recovery)),
        field_view("ヒット時"@, m.on_hit@),
        field_view("ガード時"@, m.on_block@),
        field_view("カウンター"@, m.counter@),
    ]
}

/// The simple frame data view of a move.
pub open spec fn simple_embed(m: MoveInfo, image: Seq<char>, character: Seq<char>) -> EmbedView {
    EmbedView {
        color: crate::EMBED_COLOR,
        title: Some(bold_title(m.input@)),
        url: Some(character_url(character)),
        description: None,
        image: Some(image),
        footer: Some(m.caption@),
        fields: simple_fields(m),
    }
}

/// Builds the nine basic fields of a move.
fn basic_fields(m: &MoveInfo) -> (r: Vec<EmbedField>)
    ensures
        r@.map_values(|f: EmbedField| (f.name@, f.value@, f.inline)) == simple_fields(*m),
{
    let mut fields: Vec<EmbedField> = Vec::new();
    push_field(&mut fields, "ダメージ", crate::meter::count_to_string(m.damage));
    push_field(&mut fields, "ガード", copy_string(&m.guard));
    push_field(&mut fields, "無敵", copy_string(&m.invincibility));
    push_field(&mut fields, "始動", crate::meter::count_to_string(m.startup));
    push_field(&mut fields, "持続", copy_string(&m.active));
    push_field(&mut fields, "硬直", crate::meter::count_to_string(m.recovery));
    push_field(&mut fields, "ヒット時", copy_string(&m.on_hit));
    push_field(&mut fields, "ガード時", copy_string(&m.on_block));
    push_field(&mut fields, "カウンター", copy_string(&m.counter));
    assert(fields@.map_values(|f: EmbedField| (f.name@, f.value@, f.inline)) =~= simple_fields(*m));
    fields
}

/// Builds the simple frame data view of a move.
pub fn create_move_embed(move_data: &MoveInfo, embed_image: &str, character_arg_altered: &str) -> (r: EmbedSpec)
    ensures
        r@ == simple_embed(*move_data, embed_image@, character_arg_altered@),
{
    let fields = basic_fields(move_data);
    EmbedSpec {
        color: crate::EMBED_COLOR,
        title: Some(make_bold_title(move_data.input.as_str())),
        url: Some(make_character_url(character_arg_altered)),
        description: None,
        image: Some(owned(embed_image)),
        footer: Some(copy_string(&move_data.caption)),
        fields,
    }
}

/// The texts of a move's fractional numbers, as the detailed view shows them.
pub struct AdvancedNumbers {
    /// The R.I.S.C. gain.
    pub risc_gain: String,
    /// The R.I.S.C. loss.
    pub risc_loss: String,
    /// The tension gained on input.
    pub input_tension: String,
    /// The chip damage ratio.
    pub chip_ratio: String,
    /// The damage scaling.
    pub scaling: String,
}

/// The fields of the detailed frame data view of a move.
pub open spec fn advanced_fields(m: MoveInfo, n: AdvancedNumbers) -> Seq<(Seq<char>, Seq<char>, bool)> {
    simple_fields(m) + seq![
        field_view("技レベル"@, m.level@),
        field_view("リスク増加"@, n.risc_gain@),
        field_view("リスク減少"@, n.risc_loss@),
        field_view("壁ダメージ"@, crate::meter::count_text(m.wall_damage)),
        field_view("入力緊張度"@, n.input_tension@),
        field_view("チップ比率"@, n.chip_ratio@),
        field_view("スケーリング"@, n.scaling@),
    ]
}

/// The detailed frame data view of a move: one message with its fields,
/// and a second with its notes when it has any.
pub open spec fn advanced_embeds(m: MoveInfo, n: AdvancedNumbers, image: Seq<char>, character: Seq<char>) -> Seq<EmbedView> {
    let main = EmbedView {
        color: crate::EMBED_COLOR,
        title: Some(character + "の"@ + m.input@),
        url: Some(character_url(character)),
        description: None,
        image: Some(image),
        footer: Some(m.caption@),
        fields: advanced_fields(m, n),
    };
    if m.notes@.len() > 0 {
        seq![
            main,
            EmbedView {
                color: crate::EMBED_COLOR,
                title: None,
                url: None,
                description: Some(m.notes@),
                image: None,
                footer: None,
                fields: Seq::empty(),
            },
        ]
    } else {
        seq![main]
    }
}

/// Builds the detailed frame data view of a move.
pub fn create_advanced_embeds(
    move_info: &MoveInfo,
    numbers: &AdvancedNumbers,
    embed_image: &str,
    character_arg_altered: &str,
) -> (r: Vec<EmbedSpec>)
    ensures
        embed_views(r@) == advanced_embeds(*move_info, *numbers, embed_image@, character_arg_altered@),
{
    let mut fields = basic_fields(move_info);
    push_field(&mut fields, "技レベル", copy_string(&move_info.level));
    push_field(&mut fields, "リスク増加", copy_string(&numbers.risc_gain));
    push_field(&mut fields, "リスク減少", copy_string(&numbers.risc_loss));
    push_field(&mut fields, "壁ダメージ", crate::meter::count_to_string(move_info.wall_damage));
    push_field(&mut fields, "入力緊張度", copy_string(&numbers.input_tension));
    push_field(&mut fields, "チップ比率", copy_string(&numbers.chip_ratio));
    push_field(&mut fields, "スケーリング", copy_string(&numbers.scaling));
    assert(fields@.map_values(|f: EmbedField| (f.name@, f.value@, f.inline)) =~= advanced_fields(
        *move_info,
        *numbers,
    ));
    let mut title = chars_of(character_arg_altered);
    extend_str(&mut title, "の");
    extend_str(&mut title, move_info.input.as_str());
    let main = EmbedSpec {
        color: crate::EMBED_COLOR,
        title: Some(string_of(&title)),
        url: Some(make_character_url(character_arg_altered)),
        description: None,
        image: Some(owned(embed_image)),
        footer: Some(copy_string(&move_info.caption)),
        fields,
    };
    let mut r: Vec<EmbedSpec> = Vec::new();
    r.push(main);
    if !move_info.notes.as_str().is_empty() {
        let mut notes = blank_embed();
        notes.description = Some(copy_string(&move_info.notes));
        r.push(notes);
        assert(notes@.fields =~= Seq::<(Seq<char>, Seq<char>, bool)>::empty());
    }
    assert(embed_views(r@) =~= advanced_embeds(*move_info, *numbers, embed_image@, character_arg_altered@));
    r
}

/// The frame meter view of a move: the three meters as fields with the
/// move's image, then the whole meter as a description.
pub open spec fn meter_embeds(m: &MoveInfo, image: Seq<char>, character: Seq<char>) -> Seq<EmbedView> {
    seq![
        EmbedView {
            color: crate::EMBED_COLOR,
            title: Some(bold_title(m.input@)),
            url: Some(character_url(character)),
            description: None,
            image: Some(image),
            footer: None,
            fields: seq![
                field_view("Startup"@, crate::meter::startup_meter_of(m).0),
                field_view("Active"@, crate::meter::active_meter_of(m)),
                field_view("Recovery"@, crate::meter::recovery_meter_of(m).0),
            ],
        },
        EmbedView {
            color: crate::EMBED_COLOR,
            title: None,
            url: None,
            description: Some(
                "`"@ + crate::meter::startup_meter_of(m).0 + crate::meter::active_meter_of(m)
                    + crate::meter::recovery_meter_of(m).0 + "`"@,
            ),
            image: None,
            footer: None,
            fields: Seq::empty(),
        },
    ]
}

/// Builds the frame meter view of a move.
pub fn create_meter_embeds(move_info: &MoveInfo, embed_image: &str, character_arg_altered: &str) -> (r: Vec<EmbedSpec>)
    requires
        crate::meter::startup_meter_of(move_info).1,
        crate::meter::recovery_meter_of(move_info).1,
    ensures
        embed_views(r@) == meter_embeds(move_info, embed_image@, character_arg_altered@),
{
    let mut fields: Vec<EmbedField> = Vec::new();
    push_field(&mut fields, "Startup", crate::meter::startup_frames(move_info));
    push_field(&mut fields, "Active", crate::meter::active_frames(move_info));
    push_field(&mut fields, "Recovery", crate::meter::recovery_frames(move_info));
    let first = EmbedSpec {
        color: crate::EMBED_COLOR,
        title: Some(make_bold_title(move_info.input.as_str())),
        url: Some(make_character_url(character_arg_altered)),
        description: None,
        image: Some(owned(embed_image)),
        footer: None,
        fields,
    };
    let mut second = blank_embed();
    second.description = Some(crate::meter::meter_line(move_info));
    let mut r: Vec<EmbedSpec> = Vec::new();
    r.push(first);
    r.push(second);
    assert(first@.fields =~= meter_embeds(move_info, embed_image@, character_arg_altered@)[0].fields);
    assert(second@.fields =~= Seq::<(Seq<char>, Seq<char>, bool)>::empty());
    assert(embed_views(r@) =~= meter_embeds(move_info, embed_image@, character_arg_altered@));
    r
}

/// The frame meter view of a move when its startup and recovery can be
/// drawn; `None` otherwise.
pub fn checked_meter_embeds(move_info: &MoveInfo, embed_image: &str, character_arg_altered: &str) -> (r: Option<Vec<EmbedSpec>>)
    ensures
        (crate::meter::startup_meter_of(move_info).1 && crate::meter::recovery_meter_of(move_info).1)
            ==> (r matches Some(v) && embed_views(v@) == meter_embeds(move_info, embed_image@, character_arg_altered@)),
        !(crate::meter::startup_meter_of(move_info).1 && crate::meter::recovery_meter_of(move_info).1)
            ==> r is None,
{
    if crate::meter::startup_frames_drawable(move_info) && crate::meter::recovery_frames_drawable(move_info) {
        Some(create_meter_embeds(move_info, embed_image, character_arg_altered))
    } else {
        None
    }
}

/// Whether `fields` has a field named `name`, and every field with that
/// name shows `value`.
pub open spec fn shows(fields: Seq<(Seq<char>, Seq<char>, bool)>, name: Seq<char>, value: Seq<char>) -> bool {
    &&& exists|i: int| 0 <= i < fields.len() && (#[trigger] fields[i]).0 == name
    &&& forall|i: int| 0 <= i < fields.len() && (#[trigger] fields[i]).0 == name ==> fields[i].1 == value
}

/// The field names of the frame data views are all different.
proof fn lemma_field_names_distinct()
    ensures
        "ダメージ"@ != "ガード"@,
        "ダメージ"@ != "無敵"@,
        "ダメージ"@ != "始動"@,
        "ダメージ"@ != "持続"@,
        "ダメージ"@ != "硬直"@,
        "ダメージ"@ != "ヒット時"@,
        "ダメージ"@ != "ガード時"@,
        "ダメージ"@ != "カウンター"@,
        "ダメージ"@ != "技レベル"@,
        "ダメージ"@ != "リスク増加"@,
        "ダメージ"@ != "リスク減少"@,
        "ダメージ"@ != "壁ダメージ"@,
        "ダメージ"@ != "入力緊張度"@,
        "ダメージ"@ != "チップ比率"@,
        "ダメージ"@ != "スケーリング"@,
        "ガード"@ != "無敵"@,
        "ガード"@ != "始動"@,
        "ガード"@ != "持続"@,
        "ガード"@ != "硬直"@,
        "ガード"@ != "ヒット時"@,
        "ガード"@ != "ガード時"@,
        "ガード"@ != "カウンター"@,
        "ガード"@ != "技レベル"@,
        "ガード"@ != "リスク増加"@,
        "ガード"@ != "リスク減少"@,
        "ガード"@ != "壁ダメージ"@,
        "ガード"@ != "入力緊張度"@,
        "ガード"@ != "チップ比率"@,
        "ガード"@ != "スケーリング"@,
        "無敵"@ != "始動"@,
        "無敵"@ != "持続"@,
        "無敵"@ != "硬直"@,
        "無敵"@ != "ヒット時"@,
        "無敵"@ != "ガード時"@,
        "無敵"@ != "カウンター"@,
        "無敵"@ != "技レベル"@,
        "無敵"@ != "リスク増加"@,
        "無敵"@ != "リスク減少"@,
        "無敵"@ != "壁ダメージ"@,
        "無敵"@ != "入力緊張度"@,
        "無敵"@ != "チップ比率"@,
        "無敵"@ != "スケーリング"@,
        "始動"@ != "持続"@,
        "始動"@ != "硬直"@,
        "始動"@ != "ヒット時"@,
        "始動"@ != "ガード時"@,
        "始動"@ != "カウンター"@,
        "始動"@ != "技レベル"@,
        "始動"@ != "リスク増加"@,
        "始動"@ != "リスク減少"@,
        "始動"@ != "壁ダメージ"@,
        "始動"@ != "入力緊張度"@,
        "始動"@ != "チップ比率"@,
        "始動"@ != "スケーリング"@,
        "持続"@ != "硬直"@,
        "持続"@ != "ヒット時"@,
        "持続"@ != "ガード時"@,
        "持続"@ != "カウンター"@,
        "持続"@ != "技レベル"@,
        "持続"@ != "リスク増加"@,
        "持続"@ != "リスク減少"@,
        "持続"@ != "壁ダメージ"@,
        "持続"@ != "入力緊張度"@,
        "持続"@ != "チップ比率"@,
        "持続"@ != "スケーリング"@,
        "硬直"@ != "ヒット時"@,
        "硬直"@ != "ガード時"@,
        "硬直"@ != "カウンター"@,
        "硬直"@ != "技レベル"@,
        "硬直"@ != "リスク増加"@,
        "硬直"@ != "リスク減少"@,
        "硬直"@ != "壁ダメージ"@,
        "硬直"@ != "入力緊張度"@,
        "硬直"@ != "チップ比率"@,
        "硬直"@ != "スケーリング"@,
        "ヒット時"@ != "ガード時"@,
        "ヒット時"@ != "カウンター"@,
        "ヒット時"@ != "技レベル"@,
        "ヒット時"@ != "リスク増加"@,
        "ヒット時"@ != "リスク減少"@,
        "ヒット時"@ != "壁ダメージ"@,
        "ヒット時"@ != "入力緊張度"@,
        "ヒット時"@ != "チップ比率"@,
        "ヒット時"@ != "スケーリング"@,
        "ガード時"@ != "カウンター"@,
        "ガード時"@ != "技レベル"@,
        "ガード時"@ != "リスク増加"@,
        "ガード時"@ != "リスク減少"@,
        "ガード時"@ != "壁ダメージ"@,
        "ガード時"@ != "入力緊張度"@,
        "ガード時"@ != "チップ比率"@,
        "ガード時"@ != "スケーリング"@,
        "カウンター"@ != "技レベル"@,
        "カウンター"@ != "リスク増加"@,
        "カウンター"@ != "リスク減少"@,
        "カウンター"@ != "壁ダメージ"@,
        "カウンター"@ != "入力緊張度"@,
        "カウンター"@ != "チップ比率"@,
        "カウンター"@ != "スケーリング"@,
        "技レベル"@ != "リスク増加"@,
        "技レベル"@ != "リスク減少"@,
        "技レベル"@ != "壁ダメージ"@,
        "技レベル"@ != "入力緊張度"@,
        "技レベル"@ != "チップ比率"@,
        "技レベル"@ != "スケーリング"@,
        "リスク増加"@ != "リスク減少"@,
        "リスク増加"@ != "壁ダメージ"@,
        "リスク増加"@ != "入力緊張度"@,
        "リスク増加"@ != "チップ比率"@,
        "リスク増加"@ != "スケーリング"@,
        "リスク減少"@ != "壁ダメージ"@,
        "リスク減少"@ != "入力緊張度"@,
        "リスク減少"@ != "チップ比率"@,
        "リスク減少"@ != "スケーリング"@,
        "壁ダメージ"@ != "入力緊張度"@,
        "壁ダメージ"@ != "チップ比率"@,
        "壁ダメージ"@ != "スケーリング"@,
        "入力緊張度"@ != "チップ比率"@,
        "入力緊張度"@ != "スケーリング"@,
        "チップ比率"@ != "スケーリング"@,
{
    reveal_strlit("ダメージ");
    reveal_strlit("ガード");
    reveal_strlit("無敵");
    reveal_strlit("始動");
    reveal_strlit("持続");
    reveal_strlit("硬直");
    reveal_strlit("ヒット時");
    reveal_strlit("ガード時");
    reveal_strlit("カウンター");
    reveal_strlit("技レベル");
    reveal_strlit("リスク増加");
    reveal_strlit("リスク減少");
    reveal_strlit("壁ダメージ");
    reveal_strlit("入力緊張度");
    reveal_strlit("チップ比率");
    reveal_strlit("スケーリング");
    assert("ダメージ"@.len() == 4 && "ダメージ"@[0] == 'ダ' && "ダメージ"@[3] == 'ジ');
    assert("ガード"@.len() == 3 && "ガード"@[0] == 'ガ' && "ガード"@[2] == 'ド');
    assert("無敵"@.len() == 2 && "無敵"@[0] == '無' && "無敵"@[1] == '敵');
    assert("始動"@.len() == 2 && "始動"@[0] == '始' && "始動"@[1] == '動');
    assert("持続"@.len() == 2 && "持続"@[0] == '持' && "持続"@[1] == '続');
    assert("硬直"@.len() == 2 && "硬直"@[0] == '硬' && "硬直"@[1] == '直');
    assert("ヒット時"@.len() == 4 && "ヒット時"@[0] == 'ヒ' && "ヒット時"@[3] == '時');
    assert("ガード時"@.len() == 4 && "ガード時"@[0] == 'ガ' && "ガード時"@[3] == '時');
    assert("カウンター"@.len() == 5 && "カウンター"@[0] == 'カ' && "カウンター"@[4] == 'ー');
    assert("技レベル"@.len() == 4 && "技レベル"@[0] == '技' && "技レベル"@[3] == 'ル');
    assert("リスク増加"@.len() == 5 && "リスク増加"@[0] == 'リ' && "リスク増加"@[4] == '加');
    assert("リスク減少"@.len() == 5 && "リスク減少"@[0] == 'リ' && "リスク減少"@[4] == '少');
    assert("壁ダメージ"@.len() == 5 && "壁ダメージ"@[0] == '壁' && "壁ダメージ"@[4] == 'ジ');
    assert("入力緊張度"@.len() == 5 && "入力緊張度"@[0] == '入' && "入力緊張度"@[4] == '度');
    assert("チップ比率"@.len() == 5 && "チップ比率"@[0] == 'チ' && "チップ比率"@[4] == '率');
    assert("スケーリング"@.len() == 6 && "スケーリング"@[0] == 'ス' && "スケーリング"@[5] == 'グ');
}

/// The plain frame data view shows each value under its own name: damage,
/// guard, invincibility, startup, active, recovery, on-hit and on-block
/// advantage, and counter.
pub proof fn lemma_simple_view_fields(m: MoveInfo, image: Seq<char>, character: Seq<char>)
    ensures
        ({
            let f = simple_embed(m, image, character).fields;
            &&& shows(f, "ダメージ"@, crate::meter::count_text(m.damage))
            &&& shows(f, "ガード"@, m.guard@)
            &&& shows(f, "無敵"@, m.invincibility@)
            &&& shows(f, "始動"@, crate::meter::count_text(m.startup))
            &&& shows(f, "持続"@, m.active@)
            &&& shows(f, "硬直"@, crate::meter::count_text(m.recovery))
            &&& shows(f, "ヒット時"@, m.on_hit@)
            &&& shows(f, "ガード時"@, m.on_block@)
            &&& shows(f, "カウンター"@, m.counter@)
        }),
{
    lemma_field_names_distinct();
    let f = simple_embed(m, image, character).fields;
    assert(f[0].0 == "ダメージ"@);
    assert(f[1].0 == "ガード"@);
    assert(f[2].0 == "無敵"@);
    assert(f[3].0 == "始動"@);
    assert(f[4].0 == "持続"@);
    assert(f[5].0 == "硬直"@);
    assert(f[6].0 == "ヒット時"@);
    assert(f[7].0 == "ガード時"@);
    assert(f[8].0 == "カウンター"@);
}

/// The detailed frame data view shows each value under its own name: the
/// nine of the plain view, then level, R.I.S.C. gain and loss, wall damage,
/// input tension, chip ratio and scaling.
pub proof fn lemma_advanced_view_fields(m: MoveInfo, n: AdvancedNumbers, image: Seq<char>, character: Seq<char>)
    ensures
        ({
            let g = advanced_embeds(m, n, image, character)[0].fields;
            &&& shows(g, "ダメージ"@, crate::meter::count_text(m.damage))
            &&& shows(g, "ガード"@, m.guard@)
            &&& shows(g, "無敵"@, m.invincibility@)
            &&& shows(g, "始動"@, crate::meter::count_text(m.startup))
            &&& shows(g, "持続"@, m.active@)
            &&& shows(g, "硬直"@, crate::meter::count_text(m.recovery))
            &&& shows(g, "ヒット時"@, m.on_hit@)
            &&& shows(g, "ガード時"@, m.on_block@)
            &&& shows(g, "カウンター"@, m.counter@)
            &&& shows(g, "技レベル"@, m.level@)
            &&& shows(g, "リスク増加"@, n.risc_gain@)
            &&& shows(g, "リスク減少"@, n.risc_loss@)
            &&& shows(g, "壁ダメージ"@, crate::meter::count_text(m.wall_damage))
            &&& shows(g, "入力緊張度"@, n.input_tension@)
            &&& shows(g, "チップ比率"@, n.chip_ratio@)
            &&& shows(g, "スケーリング"@, n.scaling@)
        }),
{
    lemma_field_names_distinct();
    let g = advanced_embeds(m, n, image, character)[0].fields;
    assert(g[0].0 == "ダメージ"@);
    assert(g[1].0 == "ガード"@);
    assert(g[2].0 == "無敵"@);
    assert(g[3].0 == "始動"@);
    assert(g[4].0 == "持続"@);
    assert(g[5].0 == "硬直"@);
    assert(g[6].0 == "ヒット時"@);
    assert(g[7].0 == "ガード時"@);
    assert(g[8].0 == "カウンター"@);
    assert(g[9].0 == "技レベル"@);
    assert(g[10].0 == "リスク増加"@);
    assert(g[11].0 == "リスク減少"@);
    assert(g[12].0 == "壁ダメージ"@);
    assert(g[13].0 == "入力緊張度"@);
    assert(g[14].0 == "チップ比率"@);
    assert(g[15].0 == "スケーリング"@);
}

} // verus!
