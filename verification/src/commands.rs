//! The decisions of the bot's commands: what each one replies, given the
//! data that was read for it.
use vstd::prelude::*;
use crate::embeds::{
    advanced_image, find_move_image, get_move_image_url, meter_image, simple_image,
    simple_move_image, IMAGE_DEFAULT,
};
use crate::error::AppError;
use crate::find::{alias_resolved, find_character, find_move_index, move_index_for, resolved_character, Nicknames};
use crate::models::{MoveAliases, MoveInfo};
use crate::text::{chars_of, copy_string, extend_str, owned, str_eq, string_of};
use crate::ImageLinks;

verus! {

/// The hint added to the reply when a move is not found.
pub const MOVES_HINT: &'static str = "\nView the moves of a character by executing `/moves`.";

/// The official name a character text resolves to, or the reply and the
/// error when it does not resolve: the reply is the error's text, and the
/// error is a character-not-found error carrying that text.
pub fn load_character_data(vec_nicknames: &Vec<Nicknames>, character: &String) -> (r: Result<String, (String, AppError)>)
    ensures
        resolved_character(vec_nicknames@, character@) matches Some(n) ==> (r matches Ok(s) && s@ == n),
        resolved_character(vec_nicknames@, character@) is None ==> (r matches Err((reply, AppError::CharacterNotFound(m)))
            && reply@ == "キャラクターが見つかりません: "@ + "Character `"@ + character@ + "` was not found!"@
            && m@ == reply@),
{
    match find_character(vec_nicknames, character) {
        Ok(name) => Ok(name),
        Err(err) => {
            let text = err.to_string();
            let again = copy_string(&text);
            Err((text, AppError::CharacterNotFound(again)))
        },
    }
}

/// The text of the error for a move that is not found.
pub open spec fn missing_move_text(character: Seq<char>, m: Seq<char>) -> Seq<char> {
    "技が見つかりません: "@ + "Move `"@ + m + "` was not found for character `"@ + character + "`!"@
}

/// The move that a text picks, after alias resolution.
pub open spec fn picked_move(moves: Seq<MoveInfo>, aliases: Seq<MoveAliases>, m: Seq<char>) -> Option<int> {
    move_index_for(moves, alias_resolved(aliases, aliases.len() as int, m))
}

/// How a frame data view finds the image of its move.
pub enum ImageRule {
    /// The first image entry with the same input and an image.
    Simple,
    /// The matching rules of the detailed view.
    Advanced,
    /// The matching rules of the frame meter view.
    Meter,
}

/// The image a rule finds for a move.
pub open spec fn image_by(rule: ImageRule, m: MoveInfo, links: Seq<ImageLinks>) -> Seq<char> {
    match rule {
        ImageRule::Simple => simple_image(m, links),
        ImageRule::Advanced => advanced_image(m, links),
        ImageRule::Meter => meter_image(m, links),
    }
}

/// Finds the move a text names and its image. When the move is not found,
/// the reply is the error's text followed by the hint to `/moves`, and the
/// error is a move-not-found error carrying the error's text.
pub fn find_move_with_image(
    character_arg_altered: &str,
    character_move: &str,
    moves_info: &Vec<MoveInfo>,
    move_aliases: &Vec<MoveAliases>,
    image_links: &Vec<ImageLinks>,
    rule: ImageRule,
) -> (r: Result<(MoveInfo, String), (String, AppError)>)
    ensures
        picked_move(moves_info@, move_aliases@, character_move@) matches Some(k) ==> (r matches Ok((m, img))
            && 0 <= k < moves_info@.len() && m@ == moves_info@[k]@ && img@ == image_by(rule, moves_info@[k], image_links@)),
        picked_move(moves_info@, move_aliases@, character_move@) is None ==> (r matches Err((reply, AppError::MoveNotFound(e)))
            && e@ == missing_move_text(character_arg_altered@, alias_resolved(move_aliases@, move_aliases@.len() as int, character_move@))
            && reply@ == e@ + MOVES_HINT@),
{
    let who = owned(character_arg_altered);
    match find_move_index(&who, owned(character_move), moves_info.as_slice(), move_aliases) {
        Ok(i) => {
            let m = moves_info[i].duplicate();
            let img = match rule {
                ImageRule::Simple => simple_move_image(&moves_info[i], image_links),
                ImageRule::Advanced => get_move_image_url(&moves_info[i], image_links),
                ImageRule::Meter => find_move_image(&moves_info[i], image_links),
            };
            Ok((m, img))
        },
        Err(err) => {
            let text = err.to_string();
            let mut reply = chars_of(text.as_str());
            extend_str(&mut reply, MOVES_HINT);
            Err((string_of(&reply), AppError::MoveNotFound(text)))
        },
    }
}

/// Finds the move of the plain frame data view and its image.
pub fn find_move_data(
    character_arg_altered: &str,
    character_move: &str,
    moves_info: &Vec<MoveInfo>,
    move_aliases: &Vec<MoveAliases>,
    image_links: &Vec<ImageLinks>,
) -> (r: Result<(MoveInfo, String), (String, AppError)>)
    ensures
        picked_move(moves_info@, move_aliases@, character_move@) matches Some(k) ==> (r matches Ok((m, img))
            && m@ == moves_info@[k]@ && img@ == simple_image(moves_info@[k], image_links@)),
        picked_move(moves_info@, move_aliases@, character_move@) is None ==> (r matches Err((reply, AppError::MoveNotFound(e)))
            && e@ == missing_move_text(character_arg_altered@, alias_resolved(move_aliases@, move_aliases@.len() as int, character_move@))
            && reply@ == e@ + MOVES_HINT@),
{
    find_move_with_image(character_arg_altered, character_move, moves_info, move_aliases, image_links, ImageRule::Simple)
}

/// Finds the move of the detailed frame data view and its image.
pub fn find_move_and_images(
    character_arg_altered: &str,
    character_move: &str,
    moves_info: &Vec<MoveInfo>,
    move_aliases: &Vec<MoveAliases>,
    image_links: &Vec<ImageLinks>,
) -> (r: Result<(MoveInfo, String), (String, AppError)>)
    ensures
        picked_move(moves_info@, move_aliases@, character_move@) matches Some(k) ==> (r matches Ok((m, img))
            && m@ == moves_info@[k]@ && img@ == advanced_image(moves_info@[k], image_links@)),
        picked_move(moves_info@, move_aliases@, character_move@) is None ==> (r matches Err((reply, AppError::MoveNotFound(e)))
            && e@ == missing_move_text(character_arg_altered@, alias_resolved(move_aliases@, move_aliases@.len() as int, character_move@))
            && reply@ == e@ + MOVES_HINT@),
{
    find_move_with_image(character_arg_altered, character_move, moves_info, move_aliases, image_links, ImageRule::Advanced)
}

/// Finds the move of the frame meter view and its image.
pub fn find_meter_move(
    character_arg_altered: &str,
    character_move: &str,
    moves_info: &Vec<MoveInfo>,
    move_aliases: &Vec<MoveAliases>,
    image_links: &Vec<ImageLinks>,
) -> (r: Result<(MoveInfo, String), (String, AppError)>)
    ensures
        picked_move(moves_info@, move_aliases@, character_move@) matches Some(k) ==> (r matches Ok((m, img))
            && m@ == moves_info@[k]@ && img@ == meter_image(moves_info@[k], image_links@)),
        picked_move(moves_info@, move_aliases@, character_move@) is None ==> (r matches Err((reply, AppError::MoveNotFound(e)))
            && e@ == missing_move_text(character_arg_altered@, alias_resolved(move_aliases@, move_aliases@.len() as int, character_move@))
            && reply@ == e@ + MOVES_HINT@),
{
    find_move_with_image(character_arg_altered, character_move, moves_info, move_aliases, image_links, ImageRule::Meter)
}

/// The heading posted before a move's image in the frame meter view.
pub open spec fn move_heading(input: Seq<char>) -> Seq<char> {
    "__**Move: "@ + input + "**__"@
}

/// What the frame meter view posts for the images of a move: for each
/// image entry with exactly the move's input, in order, a heading and the
/// entry's image (the default image when the entry has none).
pub open spec fn fmeter_posts(input: Seq<char>, links: Seq<ImageLinks>) -> Seq<(Seq<char>, Seq<char>)>
    decreases links.len(),
{
    if links.len() == 0 {
        Seq::empty()
    } else {
        let before = fmeter_posts(input, links.drop_last());
        let l = links.last();
        if l.input@ == input {
            before.push(
                (
                    move_heading(l.input@),
                    if l.move_img@.len() > 0 {
                        l.move_img@
                    } else {
                        IMAGE_DEFAULT@
                    },
                ),
            )
        } else {
            before
        }
    }
}

/// The headings and images that the frame meter view posts for a move.
pub fn fmeter_image_posts(move_info: &MoveInfo, image_links: &Vec<ImageLinks>) -> (r: Vec<(String, String)>)
    ensures
        r@.map_values(|p: (String, String)| (p.0@, p.1@)) == fmeter_posts(move_info.input@, image_links@),
{
    let mut out: Vec<(String, String)> = Vec::new();
    let mut i: usize = 0;
    while i < image_links.len()
        invariant
            i <= image_links@.len(),
            out@.map_values(|p: (String, String)| (p.0@, p.1@)) == fmeter_posts(
                move_info.input@,
                image_links@.take(i as int),
            ),
        decreases image_links.len() - i,
    {
        let l = &image_links[i];
        proof {
            assert(image_links@.take(i + 1).drop_last() =~= image_links@.take(i as int));
        }
        let ghost before = out@;
        if str_eq(move_info.input.as_str(), l.input.as_str()) {
            let mut h = chars_of("__**Move: ");
            extend_str(&mut h, l.input.as_str());
            extend_str(&mut h, "**__");
            let img = if l.move_img.as_str().is_empty() {
                owned(IMAGE_DEFAULT)
            } else {
                copy_string(&l.move_img)
            };
            out.push((string_of(&h), img));
            assert(out@.map_values(|p: (String, String)| (p.0@, p.1@)) =~= before.map_values(
                |p: (String, String)| (p.0@, p.1@),
            ).push((move_heading(l.input@), img@)));
        }
        i = i + 1;
    }
    assert(image_links@.take(image_links@.len() as int) =~= image_links@);
    out
}

/// The reply to a feedback that was kept.
pub const FEEDBACK_REPLY: &'static str = "Submitted successfully!";

/// The entry a feedback adds to the request file: the text and a blank line.
pub fn feedback_entry(text: &str) -> (r: String)
    ensures
        r@ == text@ + "\n\n"@,
{
    let mut v = chars_of(text);
    extend_str(&mut v, "\n\n");
    string_of(&v)
}

/// The failures that reach the bot's error handler.
pub enum FrameworkFailure {
    /// The framework could not be set up; the text describes the error.
    Setup(String),
    /// A command returned an error; the text is the error's debug form.
    Command(String),
    /// A command panicked.
    CommandPanic,
    /// Any other failure.
    Other,
}

/// The colour of error messages.
pub const ERROR_COLOR: u32 = 0x00FF_0000;

/// The error message shown for a failure, as title and description.
pub open spec fn failure_message(f: FrameworkFailure) -> Option<(Seq<char>, Seq<char>)> {
    match f {
        FrameworkFailure::Command(d) => Some(("エラーが発生しました"@, "```"@ + d@ + "```"@)),
        FrameworkFailure::CommandPanic => Some(
            ("内部エラーが発生しました"@, "開発者に問題が報告されました。ご迷惑をおかけして申し訳ありません。"@),
        ),
        _ => None,
    }
}

/// What the error handler does with a failure: the message it shows (title
/// and description), and what it returns; only a failed setup is returned
/// as an error.
pub fn on_error(f: &FrameworkFailure) -> (r: (Option<(String, String)>, Result<(), AppError>))
    ensures
        r.0 matches Some(m) ==> failure_message(*f) == Some((m.0@, m.1@)),
        r.0 is None ==> failure_message(*f) is None,
        f matches FrameworkFailure::Setup(e) ==> (r.1 matches Err(AppError::Discord(m)) && m@
            == "セットアップエラー: "@ + e@),
        !(f is Setup) ==> r.1 is Ok,
{
    match f {
        FrameworkFailure::Setup(e) => {
            let mut v = chars_of("セットアップエラー: ");
            extend_str(&mut v, e.as_str());
            (None, Err(AppError::Discord(string_of(&v))))
        },
        FrameworkFailure::Command(d) => {
            let mut v = chars_of("```");
            extend_str(&mut v, d.as_str());
            extend_str(&mut v, "```");
            (Some((owned("エラーが発生しました"), string_of(&v))), Ok(()))
        },
        FrameworkFailure::CommandPanic => (
            Some(
                (
                    owned("内部エラーが発生しました"),
                    owned("開発者に問題が報告されました。ご迷惑をおかけして申し訳ありません。"),
                ),
            ),
            Ok(()),
        ),
        FrameworkFailure::Other => (None, Ok(())),
    }
}

} // verus!
