//! The help command: which text and picture each topic shows, and which
//! topics match what a user has typed so far.
use vstd::prelude::*;
use crate::text::{
    chars_of, contains_chars, contains_seq, extend_str, lowercase, owned, str_eq, string_of,
    to_lowercase, trim_chars, trimmed,
};

verus! {

/// The help text for `general`.
pub const HELP_GENERAL: &'static str = r#"
__**コマンドリスト**__
```frames``````
hitboxes``````
fmeter``````
moves``````
nicknames``````
feedback``````
help```

__**参考にさせてもらったソースコード:**__
__<https://github.com/yakiimoninja/baiken>__

"#;

/// The help text for `feedback`.
pub const HELP_FEEDBACK: &'static str = r#"
__**Command**__: `/feedback`.

__**text**__: Any text. Cannot be empty.

Sends feedback or a request to the dev."#;

/// The picture shown with the help for `feedback`.
pub const HELP_FEEDBACK_IMAGE: &'static str = "https://raw.githubusercontent.com/yakiimoninja/baiken/main/data/images/feedback.png";

/// The help text for `fmeter`.
pub const HELP_FMETER: &'static str = r#"
__**Command**__: `/fmeter`.
__**Example**__: `/fmeter cz super`.

__**character_arg**__: キャラクター名は空欄に出来ないよ！
__**character_move_arg**__: キャラクターのコマンド名や技名は空欄に出来ないよ！

キャラクターの技の始動フレーム、持続フレーム、後隙フレームを視覚的に表示するよ！"#;

/// The picture shown with the help for `fmeter`.
pub const HELP_FMETER_IMAGE: &'static str = "https://raw.githubusercontent.com/yakiimoninja/baiken/main/data/images/fmeter.png";

/// The help text for `frames`.
pub const HELP_FRAMES: &'static str = r#"
__**Command**__: `/frames`.
__**Example**__: `/frames baiken 236K`.

__**character_arg**__: Character name or nickname. Cannot be empty.
__**character_move_arg**__: Character move name, input or alias. Cannot be empty.

Displays the frame data of a move along with an image."#;

/// The picture shown with the help for `frames`.
pub const HELP_FRAMES_IMAGE: &'static str = "https://raw.githubusercontent.com/yakiimoninja/baiken/test/data/images/frames.png";

/// The help text for `hitboxes`.
pub const HELP_HITBOXES: &'static str = r#"
__**Command**__: `/hitboxes`. 
__**Example**__: `/hitboxes goldlewis 426H`.

__**character_arg**__: Character name or nickname. Cannot be empty.
__**character_move_arg**__: Character move name, input or alias. Cannot be empty.

Displays the hitbox images of a character's move."#;

/// The picture shown with the help for `hitboxes`.
pub const HELP_HITBOXES_IMAGE: &'static str = "https://raw.githubusercontent.com/yakiimoninja/baiken/test/data/images/hitboxes.png";

/// The help text for `moves`.
pub const HELP_MOVES: &'static str = r#"
__**Command**__: `/moves`.
__**Example**__: `/moves sol`.

__**character_arg**__: Character name or nickname. Cannot be empty.

Displays all the moves, inputs and move aliases of a character."#;

/// The picture shown with the help for `moves`.
pub const HELP_MOVES_IMAGE: &'static str = "https://raw.githubusercontent.com/yakiimoninja/baiken/test/data/images/moves.png";

/// The help text for `nicknames`.
pub const HELP_NICKNAMES: &'static str = r#"
__**Command**__: `/nicknames`.

Displays all the nicknames for each character."#;

/// The picture shown with the help for `nicknames`.
pub const HELP_NICKNAMES_IMAGE: &'static str = "https://raw.githubusercontent.com/yakiimoninja/baiken/test/data/images/nicknames.png";

/// The help text for `notes`.
pub const HELP_NOTES: &'static str = r#"
__**Usage notes.**__

- **`/` commands can be substituted with direct mentions if preferred.**
    - Doing so will enable the use of shorthand commands.
        - Example: `@Baiken f sol 2k` same as `/frames sol 2k`.
        - Example: `@Baiken h ky 6p` same as `/hitboxes ky 6p`.
        - Example: `@Baiken m leo` same as `/moves leo`.
        - Example: `@Baiken a chipp` same as `/aliases chipp`.

- **All searching is case insensitive.**
    - All names, nicknames, moves and aliases are case agnostic.
    - Example: `/hitboxes ky dp` = `/hitboxes KY dP`.

- **Character searching.**
    - Characters can be found either using a part of their name, or any of their nicknames.
    - Example: `/frames Happy Chaos cs` = `/frames happy cs` = `/frames hc cs`.

- **Move searching.**
    - Moves can be found either using a part of their name, their input, or any of the aliases that exist.
        - Example: `/frames Anji Needles` = `/frames Anji 236HP` = `/frames Anji ichi`.
    - Charged moves can be found with or without the use of `[]`.
        - Example `/frames may 46S` = `/frames may [4]6S`.
    - For a fully charged dust attack the alias `5D!` can be used instead.
        - Example: `/frames chipp 5D!`."#;

/// The help text for `register`.
pub const HELP_REGISTER: &'static str = r#"
__**Command**__: `/register`.

**This command only works for owners.**
Registers or removes all slash commands in the current server or every server the bot is in."#;

/// The picture shown with the help for `register`.
pub const HELP_REGISTER_IMAGE: &'static str = "https://raw.githubusercontent.com/yakiimoninja/baiken/test/data/images/register.png";

/// The help text for `specifics`.
pub const HELP_SPECIFICS: &'static str = r#"
__**Character specifics.**__

- **For normals that have levels like Nagoriyuki.**
  - Add the level number next to the normal.
  - For Level 1 `fS`: `/frames nago fs`. 
  - For Level 2 `fS`: `/frames nago fs2`.
  - For Level 3 `fS`: `/frames nago fs3`.
  - If it's a level 1 normal nothing needs to be added since it's the default state.

- **For specials that have levels like Goldlewis.**
  - Add the level number next to the special.
  - For Level 1 `Thunderbird`: `/frames gold Drone`.
  - For Level 2 `Thunderbird`: `/frames gold Drone 2`.
  - For Level 3 `Thunderbird`: `/frames gold Drone 3`.
  - The above is not always the case depending on the special move and alias used.
  - For Level 1 `Thunderbird`: `/frames gold D1`.
  - For Level 2 `Thunderbird`: `/frames gold D2`.
  - For Level 3 `Thunderbird`: `/frames gold D3`.
  - See `/aliases gold` for more info on his aliases.

- **For Testament's different Grave Reaper versions use as shown.**
  - Regular version: `/frames testament 236S`.
  - Partially charged version: `/frames testament 236S!`.
  - Fully charged version: `/frames testament 236S!!`.
"#;

/// The help text for `update`.
pub const HELP_UPDATE: &'static str = r#"
__**Command**: `/update`.
__**Example**__: `/update frames all`.

__**frames_or_images**__: `frames`, `images` or `all`. Cannot be empty.
__**character_arg**__: Character name or nickname. Cannot be empty.

**This command only works for owners.**
Meaning that it requires an instance of the source code to use it.
Updates the frame data and or image links for all or a specific character according to dustloop."#;

/// The picture shown with the help for `update`.
pub const HELP_UPDATE_IMAGE: &'static str = "https://raw.githubusercontent.com/yakiimoninja/baiken/test/data/images/update.png";

/// The help for a topic: its text, and the picture sent after it if any.
pub open spec fn help_for(topic: Seq<char>) -> Option<(Seq<char>, Option<Seq<char>>)> {
    if topic == "general"@ {
        Some((HELP_GENERAL@, None))
    } else
    if topic == "feedback"@ {
        Some((HELP_FEEDBACK@, Some(HELP_FEEDBACK_IMAGE@)))
    } else
    if topic == "fmeter"@ {
        Some((HELP_FMETER@, Some(HELP_FMETER_IMAGE@)))
    } else
    if topic == "frames"@ {
        Some((HELP_FRAMES@, Some(HELP_FRAMES_IMAGE@)))
    } else
    if topic == "hitboxes"@ {
        Some((HELP_HITBOXES@, Some(HELP_HITBOXES_IMAGE@)))
    } else
    if topic == "moves"@ {
        Some((HELP_MOVES@, Some(HELP_MOVES_IMAGE@)))
    } else
    if topic == "nicknames"@ {
        Some((HELP_NICKNAMES@, Some(HELP_NICKNAMES_IMAGE@)))
    } else
    if topic == "notes"@ {
        Some((HELP_NOTES@, None))
    } else
    if topic == "register"@ {
        Some((HELP_REGISTER@, Some(HELP_REGISTER_IMAGE@)))
    } else
    if topic == "specifics"@ {
        Some((HELP_SPECIFICS@, None))
    } else
    if topic == "update"@ {
        Some((HELP_UPDATE@, Some(HELP_UPDATE_IMAGE@)))
    } else {
        None
    }
}

/// The reply to a help request: the topic's text and picture for a known
/// topic (white space around it ignored), else a message that no help was
/// found, quoting the request as it was given.
pub fn help_reply(option: &str) -> (r: (String, Option<String>))
    ensures
        help_for(trimmed(option@)) matches Some((text, img)) ==> r.0@ == text && (match img {
            Some(i) => r.1 matches Some(x) && x@ == i,
            None => r.1 is None,
        }),
        help_for(trimmed(option@)) is None ==> r.0@ == "Help for `"@ + option@ + "` not found!"@ && r.1 is None,
{
    let oc = chars_of(option);
    let tc = trim_chars(&oc);
    let t = string_of(&tc);
    if str_eq(t.as_str(), "general") {
        return (owned(HELP_GENERAL), None);
    }
    if str_eq(t.as_str(), "feedback") {
        return (owned(HELP_FEEDBACK), Some(owned(HELP_FEEDBACK_IMAGE)));
    }
    if str_eq(t.as_str(), "fmeter") {
        return (owned(HELP_FMETER), Some(owned(HELP_FMETER_IMAGE)));
    }
    if str_eq(t.as_str(), "frames") {
        return (owned(HELP_FRAMES), Some(owned(HELP_FRAMES_IMAGE)));
    }
    if str_eq(t.as_str(), "hitboxes") {
        return (owned(HELP_HITBOXES), Some(owned(HELP_HITBOXES_IMAGE)));
    }
    if str_eq(t.as_str(), "moves") {
        return (owned(HELP_MOVES), Some(owned(HELP_MOVES_IMAGE)));
    }
    if str_eq(t.as_str(), "nicknames") {
        return (owned(HELP_NICKNAMES), Some(owned(HELP_NICKNAMES_IMAGE)));
    }
    if str_eq(t.as_str(), "notes") {
        return (owned(HELP_NOTES), None);
    }
    if str_eq(t.as_str(), "register") {
        return (owned(HELP_REGISTER), Some(owned(HELP_REGISTER_IMAGE)));
    }
    if str_eq(t.as_str(), "specifics") {
        return (owned(HELP_SPECIFICS), None);
    }
    if str_eq(t.as_str(), "update") {
        return (owned(HELP_UPDATE), Some(owned(HELP_UPDATE_IMAGE)));
    }
    let mut v = chars_of("Help for `");
    extend_str(&mut v, option);
    extend_str(&mut v, "` not found!");
    (string_of(&v), None)
}

/// The topics help can be asked for, in the order they are offered.
pub const HELP_TOPICS: [&'static str; 11] = ["general", "frames", "hitboxes", "fmeter", "moves", "nicknames", "notes", "specifics", "register", "update", "feedback"];

/// The topics whose lower case contains the lower case of `partial`, in order.
pub open spec fn matching_topics(partial: Seq<char>, n: int) -> Seq<Seq<char>>
    decreases n,
{
    if n <= 0 {
        Seq::empty()
    } else {
        let before = matching_topics(partial, n - 1);
        if contains_seq(lowercase(HELP_TOPICS@[n - 1]@), lowercase(partial)) {
            before.push(HELP_TOPICS@[n - 1]@)
        } else {
            before
        }
    }
}

/// The topics offered while a user types `partial`: those that contain it,
/// ignoring case.
pub fn autocomplete_help(partial: &str) -> (r: Vec<String>)
    ensures
        r@.map_values(|s: String| s@) == matching_topics(partial@, HELP_TOPICS@.len() as int),
{
    let pl = to_lowercase(partial);
    let pc = chars_of(pl.as_str());
    let mut out: Vec<String> = Vec::new();
    let mut i: usize = 0;
    while i < 11
        invariant
            i <= 11,
            HELP_TOPICS@.len() == 11,
            pc@ == lowercase(partial@),
            out@.map_values(|s: String| s@) == matching_topics(partial@, i as int),
        decreases 11 - i,
    {
        let name = HELP_TOPICS[i];
        let nl = to_lowercase(name);
        let nc = chars_of(nl.as_str());
        let ghost before = out@;
        if contains_chars(&nc, &pc) {
            out.push(owned(name));
            assert(out@.map_values(|s: String| s@) =~= before.map_values(|s: String| s@).push(name@));
        }
        i = i + 1;
    }
    out
}

/// Whether help exists for a request (white space around it ignored).
pub fn help_topic_known(option: &str) -> (r: bool)
    ensures
        r == help_for(trimmed(option@)) is Some,
{
    let oc = chars_of(option);
    let tc = trim_chars(&oc);
    let t = string_of(&tc);
    let mut k: usize = 0;
    let mut found = false;
    while k < 11
        invariant
            k <= 11,
            HELP_TOPICS@.len() == 11,
            t@ == trimmed(option@),
            found == exists|j: int| 0 <= j < k && HELP_TOPICS@[j]@ == t@,
        decreases 11 - k,
    {
        if str_eq(HELP_TOPICS[k], t.as_str()) {
            found = true;
        }
        k = k + 1;
    }
    proof {
        assert(help_for(t@) is Some <==> exists|j: int| 0 <= j < 11 && HELP_TOPICS@[j]@ == t@) by {
            assert(HELP_TOPICS@[0]@ == "general"@);
            assert(HELP_TOPICS@[1]@ == "frames"@);
            assert(HELP_TOPICS@[2]@ == "hitboxes"@);
            assert(HELP_TOPICS@[3]@ == "fmeter"@);
            assert(HELP_TOPICS@[4]@ == "moves"@);
            assert(HELP_TOPICS@[5]@ == "nicknames"@);
            assert(HELP_TOPICS@[6]@ == "notes"@);
            assert(HELP_TOPICS@[7]@ == "specifics"@);
            assert(HELP_TOPICS@[8]@ == "register"@);
            assert(HELP_TOPICS@[9]@ == "update"@);
            assert(HELP_TOPICS@[10]@ == "feedback"@);
        }
    }
    found
}

} // verus!
