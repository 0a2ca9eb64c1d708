//! Frame data, move lookup and message building for a Guilty Gear Strive
//! Discord bot, with verified specifications.
use vstd::prelude::*;

pub mod check;
pub mod commands;
pub mod embeds;
pub mod error;
pub mod find;
pub mod framedata;
pub mod help;
pub mod hitboxes;
pub mod images;
pub mod links;
pub mod meter;
pub mod models;
pub mod moves;
pub mod preprocess;
pub mod search;
pub mod test_utils;
pub mod text;
pub mod update;
pub mod utils;

verus! {

/// The colour of the bot's embedded messages.
pub const EMBED_COLOR: u32 = 0x00FF_FF99;

/// The official names of the playable characters.
pub const CHARS: [&'static str; 29] = [
    "A.B.A",
    "Anji_Mito",
    "Asuka_R",
    "Axl_Low",
    "Baiken",
    "Bedman",
    "Bridget",
    "Chipp_Zanuff",
    "Elphelt_Valentine",
    "Faust",
    "Giovanna",
    "Goldlewis_Dickinson",
    "Happy_Chaos",
    "I-No",
    "Jack-O",
    "Johnny",
    "Ky_Kiske",
    "Leo_Whitefang",
    "May",
    "Millia_Rage",
    "Nagoriyuki",
    "Potemkin",
    "Queen_Dizzy",
    "Ramlethal_Valentine",
    "Sin_Kiske",
    "Slayer",
    "Sol_Badguy",
    "Testament",
    "Zato-1",
];

/// The data every command receives.
#[derive(Debug)]
pub struct Data {
    /// The directory holding the character data.
    pub data_dir: String,
}

/// The image links of one move.
#[derive(Debug)]
pub struct ImageLinks {
    /// The input of the move.
    pub input: String,
    /// The link to the move's image.
    pub move_img: String,
    /// The links to the move's hitbox images.
    pub hitbox_img: Vec<String>,
}

} // verus!
