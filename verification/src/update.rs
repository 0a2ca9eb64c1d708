//! The frame data update: which characters it covers, where it asks the
//! wiki and where it writes.
use vstd::prelude::*;
use crate::text::{chars_of, extend_str, owned, replace_str, replaced, str_eq, string_of};
use crate::CHARS;

verus! {

/// The part of the wiki's frame data query before the character's name.
pub const SITE_LINK: &'static str = "https://www.dustloop.com/wiki/api.php?action=cargoquery&format=json&limit=100&tables=MoveData_GGST&fields=MoveData_GGST.input%2C%20MoveData_GGST.name%2C%20MoveData_GGST.damage%2C%20MoveData_GGST.guard%2C%20MoveData_GGST.startup%2C%20MoveData_GGST.active%2C%20MoveData_GGST.recovery%2C%20MoveData_GGST.onHit%2C%20MoveData_GGST.onBlock%2C%20MoveData_GGST.level%2C%20MoveData_GGST.counter%2C%20MoveData_GGST.type%2C%20MoveData_GGST.riscGain%2C%20MoveData_GGST.riscLoss%2C%20MoveData_GGST.wallDamage%2C%20MoveData_GGST.inputTension%2C%20MoveData_GGST.chipRatio%2C%20MoveData_GGST.OTGRatio%2C%20MoveData_GGST.prorate%2C%20MoveData_GGST.invuln%2C%20MoveData_GGST.cancel%2C%20MoveData_GGST.caption%2C%20MoveData_GGST.notes%2C%20MoveData_GGST.hitboxCaption%2C%20MoveData_GGST.images%2C%20MoveData_GGST.hitboxes%2C&where=chara%3D%22";

/// The part of the wiki's frame data query after the character's name.
pub const SITE_HALF: &'static str = "%22&order_by=MoveData_GGST.type%20ASC%2C%20MoveData_GGST.input%20ASC&utf8=1";

/// What an update covers.
#[derive(Debug, Clone, Copy, PartialEq, Eq, Structural)]
pub enum UpdateChoice {
    /// Frame data and images.
    All,
    /// Frame data only.
    Frames,
    /// Images only.
    Images,
}

impl UpdateChoice {
    /// The name users pick this choice by.
    pub fn name(&self) -> (r: &'static str)
        ensures
            r@ == match *self {
                UpdateChoice::All => "all"@,
                UpdateChoice::Frames => "frames"@,
                UpdateChoice::Images => "images"@,
            },
    {
        match self {
            UpdateChoice::All => "all",
            UpdateChoice::Frames => "frames",
            UpdateChoice::Images => "images",
        }
    }
}

/// The wiki query for a character's frame data: its name, with
/// underscores turned into spaces, between the two parts of the query.
pub open spec fn character_query(char_id: Seq<char>) -> Seq<char> {
    SITE_LINK@ + replaced(char_id, "_"@, " "@) + SITE_HALF@
}

/// Builds the wiki query for a character's frame data.
pub fn character_link(char_id: &str) -> (r: String)
    ensures
        r@ == character_query(char_id@),
{
    let name = replace_str(char_id, "_", " ");
    let mut v = chars_of(SITE_LINK);
    extend_str(&mut v, name.as_str());
    extend_str(&mut v, SITE_HALF);
    string_of(&v)
}

/// The file a character's frame data is written to.
pub open spec fn character_json(char_id: Seq<char>) -> Seq<char> {
    "data/"@ + char_id + "/"@ + char_id + ".json"@
}

/// Builds the path of a character's frame data file.
pub fn character_json_path(char_id: &str) -> (r: String)
    ensures
        r@ == character_json(char_id@),
{
    let mut v = chars_of("data/");
    extend_str(&mut v, char_id);
    extend_str(&mut v, "/");
    extend_str(&mut v, char_id);
    extend_str(&mut v, ".json");
    string_of(&v)
}

/// The characters an update covers, each with its number: every character
/// in order for `all`, else the one named, numbered 0.
pub open spec fn update_targets_of(specific_char: Seq<char>) -> Seq<(Seq<char>, usize)> {
    if specific_char == "all"@ {
        Seq::new(CHARS@.len(), |i: int| (CHARS@[i]@, i as usize))
    } else {
        seq![(specific_char, 0usize)]
    }
}

/// Lists the characters an update covers.
pub fn update_targets(specific_char: &str) -> (r: Vec<(String, usize)>)
    ensures
        r@.map_values(|t: (String, usize)| (t.0@, t.1)) == update_targets_of(specific_char@),
{
    let mut out: Vec<(String, usize)> = Vec::new();
    if str_eq(specific_char, "all") {
        let mut i: usize = 0;
        while i < 29
            invariant
                i <= 29,
                CHARS@.len() == 29,
                out@.len() == i,
                forall|k: int| 0 <= k < i ==> (#[trigger] out@[k]).0@ == CHARS@[k]@ && out@[k].1 == k,
            decreases 29 - i,
        {
            out.push((owned(CHARS[i]), i));
            i = i + 1;
        }
        assert(out@.map_values(|t: (String, usize)| (t.0@, t.1)) =~= update_targets_of(specific_char@));
    } else {
        out.push((owned(specific_char), 0));
        assert(out@.map_values(|t: (String, usize)| (t.0@, t.1)) =~= update_targets_of(specific_char@));
    }
    out
}

/// Whether the wiki's answer asks for the query to be sent again: the
/// update repeats a query while the answer has status 500.
pub fn should_retry(status: u16) -> (r: bool)
    ensures
        r == (status == 500),
{
    status == 500
}

} // verus!
