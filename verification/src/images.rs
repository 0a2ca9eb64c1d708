//! Turning the image table of a character into image links.
use vstd::prelude::*;
use vstd::utf8::encode_utf8;
use crate::embeds::opt_chars;
use crate::links::{link_for, make_link, md5_of};
use crate::models::strs;
use crate::preprocess::{preprocess_json, regex_stage, replace_each, replacement_table};
use crate::text::{
    chars_of, copy_string, extend_str, find_char, first_pos,
    lemma_split_on_nonempty, replace_str, replaced, split_chars, split_on, str_eq,
    string_of, trim_chars, trimmed,
};
use crate::ImageLinks;

verus! {

/// One row of the image table, as the table gives it.
pub struct ImageTitle {
    /// The input of the move.
    pub input: Option<String>,
    /// The name of the move.
    pub name: Option<String>,
    /// The image file names, separated by `;`.
    pub images: Option<String>,
    /// The hitbox image file names, separated by `;`.
    pub hitboxes: Option<String>,
}

/// One entry of the image table.
pub struct ImageData {
    /// The row.
    pub title: ImageTitle,
}

/// The value of an `ImageLinks`: input, move image link and hitbox links.
pub open spec fn links_view(l: ImageLinks) -> (Seq<char>, Seq<char>, Seq<Seq<char>>) {
    (l.input@, l.move_img@, strs(l.hitbox_img@))
}

/// The image table's JSON text made ready for reading: the common rewriting,
/// then escaped apostrophes turned back into apostrophes.
pub fn preprocess_images_json(json_str: String) -> (r: String)
    ensures
        r@ == replaced(replace_each(regex_stage(json_str@), replacement_table()), "&#039;"@, "'"@),
{
    let s = preprocess_json(json_str);
    replace_str(s.as_str(), "&#039;", "'")
}

/// A file name with its spaces turned into underscores.
pub open spec fn underscored(s: Seq<char>) -> Seq<char> {
    replaced(s, " "@, "_"@)
}

/// The link to the wiki's image file with the given name.
pub open spec fn file_link(name: Seq<char>) -> Seq<char> {
    link_for(name, md5_of(encode_utf8(name)))
}

/// The link made from one piece of a `;`-separated list of file names: the
/// piece trimmed, with its spaces turned into underscores.
pub open spec fn piece_link(piece: Seq<char>) -> Seq<char> {
    file_link(underscored(trimmed(piece)))
}

/// The hitbox links of a row: one empty link when there are no hitboxes,
/// else one link for each `;`-separated file name.
pub open spec fn hitbox_links(hitboxes: Option<Seq<char>>) -> Seq<Seq<char>> {
    match hitboxes {
        None => seq![Seq::<char>::empty()],
        Some(h) => split_on(h, ';').map_values(|p: Seq<char>| piece_link(p)),
    }
}

/// The link made from one piece of a list of file names.
fn link_of_piece(piece: &Vec<char>) -> (r: String)
    ensures
        r@ == piece_link(piece@),
{
    let t = trim_chars(piece);
    let ts = string_of(&t);
    let name = replace_str(ts.as_str(), " ", "_");
    make_link(name.as_str())
}

/// Builds the hitbox links of a row.
pub fn generate_hitbox_links(hitboxes: &Option<String>) -> (r: Vec<String>)
    ensures
        strs(r@) == hitbox_links(opt_chars(*hitboxes)),
{
    let mut links: Vec<String> = Vec::new();
    match hitboxes {
        None => {
            links.push(String::new());
            assert(strs(links@) =~= hitbox_links(opt_chars(*hitboxes)));
        },
        Some(h) => {
            let v = chars_of(h.as_str());
            let pieces = split_chars(&v, ';');
            let ghost want = split_on(v@, ';').map_values(|p: Seq<char>| piece_link(p));
            let mut i: usize = 0;
            while i < pieces.len()
                invariant
                    i <= pieces.len(),
                    pieces@.len() == split_on(v@, ';').len(),
                    forall|k: int| 0 <= k < pieces@.len() ==> #[trigger] pieces@[k]@ == split_on(v@, ';')[k],
                    want == split_on(v@, ';').map_values(|p: Seq<char>| piece_link(p)),
                    links@.len() == i,
                    forall|k: int| 0 <= k < i ==> #[trigger] links@[k]@ == want[k],
                decreases pieces.len() - i,
            {
                let l = link_of_piece(&pieces[i]);
                links.push(l);
                i = i + 1;
            }
            assert(strs(links@) =~= want);
        },
    }
    links
}

/// The move image link of a row: empty when there is no image or only
/// white space; the link of the first `;`-separated name (trimmed, spaces
/// turned into underscores) when there are several; else the link of the
/// name as it is.
pub open spec fn image_link(images: Option<Seq<char>>) -> Seq<char> {
    match images {
        None => Seq::empty(),
        Some(s) => if trimmed(s).len() == 0 {
            Seq::empty()
        } else if first_pos(s, ';') is Some {
            piece_link(split_on(s, ';')[0])
        } else {
            file_link(s)
        },
    }
}

/// Builds the move image link of a row.
pub fn generate_image_link(images: &Option<String>) -> (r: String)
    ensures
        r@ == image_link(opt_chars(*images)),
{
    match images {
        None => String::new(),
        Some(s) => {
            let v = chars_of(s.as_str());
            let t = trim_chars(&v);
            if t.len() == 0 {
                return String::new();
            }
            if find_char(&v, ';').is_some() {
                let pieces = split_chars(&v, ';');
                proof {
                    lemma_split_on_nonempty(v@, ';');
                }
                link_of_piece(&pieces[0])
            } else {
                make_link(s.as_str())
            }
        },
    }
}

/// The inputs that are shown as they are, without the move's name.
pub const INPUTS_SHOWN_ALONE: [&'static str; 52] = [
    "2D",
    "2HS",
    "2K",
    "2P",
    "2S",
    "3K",
    "5D",
    "5HS",
    "5K",
    "5P",
    "5S",
    "6K",
    "6P",
    "Fスタート",
    "Jスタート",
    "JD",
    "JHS",
    "JK",
    "JP",
    "JS",
    "Pスタート",
    "Sスタート",
    "エアダッシュ",
    "ガトリング",
    "クローゼライン",
    "ジャンプ",
    "スタンプ",
    "ダッシュ",
    "ダブルジャンプ",
    "バックステップ",
    "フォルト",
    "ロマンキャンセル",
    "入力猶予",
    "前ジャンプ",
    "後ジャンプ",
    "攻撃判定",
    "特殊技",
    "置換表",
    "通常技",
    "必殺技",
    "打撃無敵",
    "投げ",
    "投げ無敵",
    "歩き",
    "殴られ判定",
    "空中ダッシュ",
    "空中投げ",
    "立ち",
    "起き上がり",
    "走り",
    "通常投げ",
    "ステイン",
];

/// Whether an input is shown as it is.
pub open spec fn shown_alone(input: Seq<char>) -> bool {
    exists|k: int| 0 <= k < INPUTS_SHOWN_ALONE@.len() && #[trigger] INPUTS_SHOWN_ALONE@[k]@ == input
}

/// The input shown for a row: the input alone when it is listed in
/// `INPUTS_SHOWN_ALONE`, else the name followed by the input in brackets.
pub open spec fn shown_input(input: Seq<char>, name: Seq<char>) -> Seq<char> {
    if shown_alone(input) {
        input
    } else {
        name + "("@ + input + ")"@
    }
}

/// The text of an optional field, or the empty text when it is missing.
pub open spec fn text_of(o: Option<String>) -> Seq<char> {
    match o {
        Some(s) => s@,
        None => Seq::empty(),
    }
}

/// The text of an optional field, or the empty text when it is missing.
fn text_or_empty(o: &Option<String>) -> (r: String)
    ensures
        r@ == text_of(*o),
{
    match o {
        Some(s) => copy_string(s),
        None => String::new(),
    }
}

/// Whether an input is shown as it is.
fn is_shown_alone(input: &str) -> (r: bool)
    ensures
        r == shown_alone(input@),
{
    let mut k: usize = 0;
    while k < 52
        invariant
            k <= 52,
            forall|j: int| 0 <= j < k ==> #[trigger] INPUTS_SHOWN_ALONE@[j]@ != input@,
        decreases 52 - k,
    {
        if str_eq(INPUTS_SHOWN_ALONE[k], input) {
            return true;
        }
        k = k + 1;
    }
    false
}

/// Builds the input shown for a row of the image table.
pub fn format_input_name(input: &Option<String>, name: &Option<String>) -> (r: String)
    ensures
        r@ == shown_input(text_of(*input), text_of(*name)),
{
    let input_str = text_or_empty(input);
    if is_shown_alone(input_str.as_str()) {
        input_str
    } else {
        let name_str = text_or_empty(name);
        let mut v = chars_of(name_str.as_str());
        extend_str(&mut v, "(");
        extend_str(&mut v, input_str.as_str());
        extend_str(&mut v, ")");
        string_of(&v)
    }
}

/// Whether a row is the homing jump row, which gives no image links.
pub open spec fn homing_jump_row(t: ImageTitle) -> bool {
    opt_chars(t.input) == Some("j.XX during Homing Jump"@)
}

/// The name of a row once filled in: the (filled in) input when missing.
pub open spec fn filled_image_name(t: ImageTitle) -> Seq<char> {
    match opt_chars(t.name) {
        Some(n) => n,
        None => text_of(t.input),
    }
}

/// The image links of a row: empty for the homing jump row; else the shown
/// input, the move image link and the hitbox links.
pub open spec fn row_links(t: ImageTitle) -> (Seq<char>, Seq<char>, Seq<Seq<char>>) {
    if homing_jump_row(t) {
        (Seq::empty(), Seq::empty(), Seq::empty())
    } else {
        (
            shown_input(text_of(t.input), filled_image_name(t)),
            image_link(opt_chars(t.images)),
            hitbox_links(opt_chars(t.hitboxes)),
        )
    }
}

/// Makes the image links of a row. A missing input becomes empty and a
/// missing name becomes the input; the homing jump row is left as it is.
pub fn process_image_data(image_data: &mut ImageData) -> (r: ImageLinks)
    ensures
        links_view(r) == row_links(old(image_data).title),
        homing_jump_row(old(image_data).title) ==> opt_chars(final(image_data).title.input)
            == opt_chars(old(image_data).title.input) && opt_chars(final(image_data).title.name)
            == opt_chars(old(image_data).title.name),
        !homing_jump_row(old(image_data).title) ==> opt_chars(final(image_data).title.input)
            == Some(text_of(old(image_data).title.input)) && opt_chars(final(image_data).title.name)
            == Some(filled_image_name(old(image_data).title)),
        opt_chars(final(image_data).title.images) == opt_chars(old(image_data).title.images),
        opt_chars(final(image_data).title.hitboxes) == opt_chars(old(image_data).title.hitboxes),
{
    match &image_data.title.input {
        None => {
            image_data.title.input = Some(String::new());
        },
        Some(i) => {
            if str_eq(i.as_str(), "j.XX during Homing Jump") {
                let r = ImageLinks { input: String::new(), move_img: String::new(), hitbox_img: Vec::new() };
                assert(links_view(r) =~= row_links(old(image_data).title));
                return r;
            }
        },
    }
    proof {
        reveal_strlit("j.XX during Homing Jump");
    }
    if image_data.title.name.is_none() {
        let n = text_or_empty(&image_data.title.input);
        image_data.title.name = Some(n);
    }
    let image_link = generate_image_link(&image_data.title.images);
    let hitbox_links = generate_hitbox_links(&image_data.title.hitboxes);
    let input_name = format_input_name(&image_data.title.input, &image_data.title.name);
    ImageLinks { input: input_name, move_img: image_link, hitbox_img: hitbox_links }
}

/// Whether the links of a row are all empty, which leaves the row out.
pub open spec fn all_empty(l: (Seq<char>, Seq<char>, Seq<Seq<char>>)) -> bool {
    l.0.len() == 0 && l.1.len() == 0 && l.2.len() == 0
}

/// The image links of a table: those of each row, in order, leaving out the
/// homing jump row and rows whose links are all empty.
pub open spec fn image_records(rows: Seq<ImageData>) -> Seq<(Seq<char>, Seq<char>, Seq<Seq<char>>)>
    decreases rows.len(),
{
    if rows.len() == 0 {
        Seq::empty()
    } else {
        let before = image_records(rows.drop_last());
        let t = rows.last().title;
        if homing_jump_row(t) || all_empty(row_links(t)) {
            before
        } else {
            before.push(row_links(t))
        }
    }
}

/// Makes the image links of each row of a table, leaving out the homing
/// jump row and rows whose links are all empty.
pub fn process_images(rows: Vec<ImageData>) -> (r: Vec<ImageLinks>)
    ensures
        r@.map_values(|l: ImageLinks| links_view(l)) == image_records(rows@),
{
    let ghost all = rows@;
    let mut out: Vec<ImageLinks> = Vec::new();
    let mut i: usize = 0;
    let mut rest = rows;
    let n = rest.len();
    while rest.len() > 0
        invariant
            all.len() == n,
            rest@ == all.subrange(i as int, all.len() as int),
            i <= all.len(),
            out@.map_values(|l: ImageLinks| links_view(l)) == image_records(all.take(i as int)),
        decreases rest.len(),
    {
        let mut row = rest.remove(0);
        proof {
            assert(all.take(i as int + 1).drop_last() =~= all.take(i as int));
            assert(all.take(i as int + 1).last() == row);
        }
        let ghost before = out@;
        let homing = match &row.title.input {
            Some(v) => str_eq(v.as_str(), "j.XX during Homing Jump"),
            None => false,
        };
        if !homing {
            let links = process_image_data(&mut row);
            if !(links.input.as_str().is_empty() && links.move_img.as_str().is_empty()
                && links.hitbox_img.len() == 0) {
                out.push(links);
                assert(out@.map_values(|l: ImageLinks| links_view(l)) =~= before.map_values(
                    |l: ImageLinks| links_view(l),
                ).push(links_view(links)));
            }
        }
        assert(rest@ =~= all.subrange(i as int + 1, all.len() as int));
        i = i + 1;
    }
    proof {
        assert(all.take(i as int) =~= all);
    }
    out
}

/// The image links of a table never hold the homing jump row's empty links
/// nor any row whose links are all empty, and there are no more of them
/// than rows.
pub proof fn lemma_image_records_not_empty(rows: Seq<ImageData>)
    ensures
        forall|k: int| 0 <= k < image_records(rows).len() ==> !all_empty(#[trigger] image_records(rows)[k]),
        image_records(rows).len() <= rows.len(),
    decreases rows.len(),
{
    if rows.len() > 0 {
        lemma_image_records_not_empty(rows.drop_last());
    }
}

} // verus!
