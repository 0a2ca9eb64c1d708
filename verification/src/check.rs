//! The checks of the data folder: the paths they look at and the messages
//! they report, given what was found on disk.
use vstd::prelude::*;
use crate::error::AppError;
use crate::text::{chars_of, extend_str, replace_str, replaced, string_of};
use crate::CHARS;

verus! {

/// Where the data folder can be had, added to most check messages.
pub const DATA_SOURCE: &'static str = "\nDownload and import the `data` folder from:\nhttps://github.com/yakiimoninja/baiken.";

/// The message for a missing data folder.
pub const DATA_FOLDER_MISSING: &'static str = "Error: The 'data' folder does not exist.\nDownload and import the 'data' folder from:\nhttps://github.com/yakiimoninja/baiken.";

/// The message for a nicknames file that cannot be read.
pub const NICKNAMES_UNREADABLE: &'static str = "Error: Failed to read 'nicknames.json' file.\nDownload and import the `data` folder from:\nhttps://github.com/yakiimoninja/baiken.";

/// The message for a nicknames file that does not parse.
pub const NICKNAMES_INVALID: &'static str = "Error: Failed to deserialize 'nicknames.json' file.\nDownload and import the `data` folder from:\nhttps://github.com/yakiimoninja/baiken.";

/// The folder of a character.
pub open spec fn character_folder(c: Seq<char>) -> Seq<char> {
    "data/"@ + c
}

/// The frame data file of a character.
pub open spec fn character_file(c: Seq<char>) -> Seq<char> {
    "data/"@ + c + "/"@ + c + ".json"@
}

/// The image links file of a character.
pub open spec fn images_file(c: Seq<char>) -> Seq<char> {
    "data/"@ + c + "/images.json"@
}

/// The kinds of data the folder checks look for, one per character.
pub enum CharacterCheck {
    /// The character's folder.
    Folder,
    /// The character's frame data file.
    FrameData,
    /// The character's image links file.
    Images,
}

/// The path a check looks at for a character.
pub open spec fn check_path(kind: CharacterCheck, c: Seq<char>) -> Seq<char> {
    match kind {
        CharacterCheck::Folder => character_folder(c),
        CharacterCheck::FrameData => character_file(c),
        CharacterCheck::Images => images_file(c),
    }
}

/// Builds the path a check looks at for a character.
pub fn check_path_of(kind: &CharacterCheck, c: &str) -> (r: String)
    ensures
        r@ == check_path(*kind, c@),
{
    let mut v = chars_of("data/");
    extend_str(&mut v, c);
    match kind {
        CharacterCheck::Folder => {},
        CharacterCheck::FrameData => {
            extend_str(&mut v, "/");
            extend_str(&mut v, c);
            extend_str(&mut v, ".json");
        },
        CharacterCheck::Images => {
            extend_str(&mut v, "/images.json");
        },
    }
    string_of(&v)
}

/// The message reported when a check finds a path missing.
pub open spec fn missing_message(kind: CharacterCheck, path: Seq<char>) -> Seq<char> {
    match kind {
        CharacterCheck::Folder => "Error: Missing '"@ + path + "' folder."@ + DATA_SOURCE@,
        CharacterCheck::FrameData => "Error: Missing '"@ + path + "' file.\nPlease execute the '/update' command."@,
        CharacterCheck::Images => "Error: Missing '"@ + path + "' file."@ + DATA_SOURCE@,
    }
}

/// The first character, in the order of `CHARS`, whose data is missing.
pub open spec fn first_missing(present: Seq<bool>) -> Option<int> {
    crate::search::first_index(present.len() as int, |i: int| !present[i])
}

/// The message of a folder check, given for each character (in the order
/// of `CHARS`) whether its path exists: `None` when all exist, else the
/// message for the first that is missing.
pub fn character_check(kind: &CharacterCheck, present: &Vec<bool>) -> (r: Option<String>)
    requires
        present@.len() == CHARS@.len(),
    ensures
        first_missing(present@) is None ==> r is None,
        first_missing(present@) matches Some(i) ==> (r matches Some(m) && m@ == missing_message(
            *kind,
            check_path(*kind, CHARS@[i]@),
        )),
{
    let ghost p = |i: int| !present@[i];
    let mut i: usize = 0;
    while i < present.len()
        invariant
            i <= present@.len(),
            present@.len() == CHARS@.len(),
            p == (|i: int| !present@[i]),
            forall|j: int| 0 <= j < i ==> !#[trigger] p(j),
        decreases present.len() - i,
    {
        if !present[i] {
            proof {
                crate::search::lemma_first_index_is(present@.len() as int, p, i as int);
            }
            let path = check_path_of(kind, CHARS[i]);
            let mut v = chars_of("Error: Missing '");
            extend_str(&mut v, path.as_str());
            match kind {
                CharacterCheck::Folder => {
                    extend_str(&mut v, "' folder.");
                    extend_str(&mut v, DATA_SOURCE);
                },
                CharacterCheck::FrameData => {
                    extend_str(&mut v, "' file.\nPlease execute the '/update' command.");
                },
                CharacterCheck::Images => {
                    extend_str(&mut v, "' file.");
                    extend_str(&mut v, DATA_SOURCE);
                },
            }
            return Some(string_of(&v));
        }
        i = i + 1;
    }
    proof {
        crate::search::lemma_first_index_none(present@.len() as int, p);
    }
    None
}

/// The text a failed check sends to Discord: its apostrophes turned into
/// back quotes.
pub fn check_reply(error_msg: &str) -> (r: String)
    ensures
        r@ == replaced(error_msg@, "'"@, "`"@),
{
    replace_str(error_msg, "'", "`")
}

/// The text a failed check stops the bot with: its line breaks turned
/// into spaces.
pub fn check_panic_text(error_msg: &str) -> (r: String)
    ensures
        r@ == replaced(error_msg@, "\n"@, " "@),
{
    replace_str(error_msg, "\n", " ")
}

/// The characters whose folders the data folder must hold.
pub const ESSENTIAL_CHARS: [&'static str; 3] = ["Sol_Badguy", "Ky_Kiske", "May"];

/// The verdict on a data folder, given whether it exists, whether it is a
/// folder, and for each essential character whether its folder is there:
/// the first failing condition, in this order, gives the error, marked
/// `true` when the folder is missing.
pub open spec fn data_dir_verdict_of(data_dir: Seq<char>, exists: bool, is_dir: bool, essential: Seq<bool>) -> Result<(), (bool, Seq<char>)> {
    if !exists {
        Err((true, "データディレクトリが見つかりません: "@ + data_dir))
    } else if !is_dir {
        Err((false, "指定されたパスはディレクトリではありません: "@ + data_dir))
    } else {
        match first_missing(essential) {
            Some(i) => Err((false, "必要なキャラクターディレクトリが見つかりません: "@ + ESSENTIAL_CHARS@[i]@)),
            None => Ok(()),
        }
    }
}

/// Judges a data folder. A missing folder is a file-not-found error; a
/// path that is no folder, or a missing essential character folder, is a
/// configuration error.
pub fn data_dir_verdict(data_dir: &str, exists: bool, is_dir: bool, essential: &Vec<bool>) -> (r: Result<(), AppError>)
    requires
        essential@.len() == 3,
    ensures
        data_dir_verdict_of(data_dir@, exists, is_dir, essential@) is Ok ==> r is Ok,
        data_dir_verdict_of(data_dir@, exists, is_dir, essential@) matches Err((true, m)) ==> (r matches Err(AppError::FileNotFound(e)) && e@ == m),
        data_dir_verdict_of(data_dir@, exists, is_dir, essential@) matches Err((false, m)) ==> (r matches Err(AppError::Config(e)) && e@ == m),
{
    if !exists {
        let mut v = chars_of("データディレクトリが見つかりません: ");
        extend_str(&mut v, data_dir);
        return Err(AppError::FileNotFound(string_of(&v)));
    }
    if !is_dir {
        let mut v = chars_of("指定されたパスはディレクトリではありません: ");
        extend_str(&mut v, data_dir);
        return Err(AppError::Config(string_of(&v)));
    }
    let ghost p = |i: int| !essential@[i];
    let mut i: usize = 0;
    while i < 3
        invariant
            i <= 3,
            exists && is_dir,
            essential@.len() == 3,
            p == (|i: int| !essential@[i]),
            forall|j: int| 0 <= j < i ==> !#[trigger] p(j),
        decreases 3 - i,
    {
        if !essential[i] {
            proof {
                crate::search::lemma_first_index_is(3, p, i as int);
            }
            let mut v = chars_of("必要なキャラクターディレクトリが見つかりません: ");
            extend_str(&mut v, ESSENTIAL_CHARS[i]);
            return Err(AppError::Config(string_of(&v)));
        }
        i = i + 1;
    }
    proof {
        crate::search::lemma_first_index_none(3, p);
    }
    Ok(())
}

} // verus!
