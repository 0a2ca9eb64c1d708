//! The data model: moves, move aliases and guard types.
use vstd::prelude::*;
use crate::text::{chars_of, copy_string, extend_str, str_eq, string_of};

verus! {

/// The characters of each string in a sequence of strings.
pub open spec fn strs(v: Seq<String>) -> Seq<Seq<char>> {
    v.map_values(|s: String| s@)
}

/// The information about one move: its input, name and frame data.
///
/// Numbers that a frame data table gives as integers are `Option<i32>`;
/// the rest is kept as the text the table gives.
#[derive(Debug)]
pub struct MoveInfo {
    /// The input of the move.
    pub input: String,
    /// The name of the move.
    pub name: String,
    /// The damage.
    pub damage: Option<i32>,
    /// The guard.
    pub guard: String,
    /// The startup frames.
    pub startup: Option<i32>,
    /// The active frames.
    pub active: String,
    /// The recovery frames.
    pub recovery: Option<i32>,
    /// The frame advantage on hit.
    pub on_hit: String,
    /// The frame advantage on block.
    pub on_block: String,
    /// The attack level.
    pub level: String,
    /// The counter hit type.
    pub counter: String,
    /// The kind of move.
    pub move_type: String,
    /// The damage to the wall.
    pub wall_damage: Option<i32>,
    /// The invincibility.
    pub invincibility: String,
    /// The cancel options.
    pub cancel: String,
    /// The caption.
    pub caption: String,
    /// The notes.
    pub notes: String,
}

/// The value of a `MoveInfo`: its strings as character sequences.
pub struct MoveInfoView {
    pub input: Seq<char>,
    pub name: Seq<char>,
    pub damage: Option<i32>,
    pub guard: Seq<char>,
    pub startup: Option<i32>,
    pub active: Seq<char>,
    pub recovery: Option<i32>,
    pub on_hit: Seq<char>,
    pub on_block: Seq<char>,
    pub level: Seq<char>,
    pub counter: Seq<char>,
    pub move_type: Seq<char>,
    pub wall_damage: Option<i32>,
    pub invincibility: Seq<char>,
    pub cancel: Seq<char>,
    pub caption: Seq<char>,
    pub notes: Seq<char>,
}

impl View for MoveInfo {
    type V = MoveInfoView;

    open spec fn view(&self) -> MoveInfoView {
        MoveInfoView {
            input: self.input@,
            name: self.name@,
            damage: self.damage,
            guard: self.guard@,
            startup: self.startup,
            active: self.active@,
            recovery: self.recovery,
            on_hit: self.on_hit@,
            on_block: self.on_block@,
            level: self.level@,
            counter: self.counter@,
            move_type: self.move_type@,
            wall_damage: self.wall_damage,
            invincibility: self.invincibility@,
            cancel: self.cancel@,
            caption: self.caption@,
            notes: self.notes@,
        }
    }
}

impl MoveInfo {
    /// A copy of this move.
    pub fn duplicate(&self) -> (r: MoveInfo)
        ensures
            r@ == self@,
    {
        MoveInfo {
            input: copy_string(&self.input),
            name: copy_string(&self.name),
            damage: self.damage,
            guard: copy_string(&self.guard),
            startup: self.startup,
            active: copy_string(&self.active),
            recovery: self.recovery,
            on_hit: copy_string(&self.on_hit),
            on_block: copy_string(&self.on_block),
            level: copy_string(&self.level),
            counter: copy_string(&self.counter),
            move_type: copy_string(&self.move_type),
            wall_damage: self.wall_damage,
            invincibility: copy_string(&self.invincibility),
            cancel: copy_string(&self.cancel),
            caption: copy_string(&self.caption),
            notes: copy_string(&self.notes),
        }
    }
}

/// The aliases of one move.
#[derive(Debug)]
pub struct MoveAliases {
    /// The input of the move.
    pub input: String,
    /// Other names for the move.
    pub aliases: Vec<String>,
}

/// The kind of guard a move asks for.
#[derive(Debug, Clone, Copy, PartialEq, Eq, Structural)]
pub enum GuardType {
    /// Guarded standing.
    High,
    /// Guarded standing or crouching.
    Mid,
    /// Guarded crouching.
    Low,
    /// Cannot be guarded.
    Unblockable,
    /// A throw.
    Throw,
}

/// The guard type a name denotes, if any.
pub open spec fn guard_type_of(s: Seq<char>) -> Option<GuardType> {
    if s == "High"@ {
        Some(GuardType::High)
    } else if s == "Mid"@ {
        Some(GuardType::Mid)
    } else if s == "Low"@ {
        Some(GuardType::Low)
    } else if s == "Unblockable"@ {
        Some(GuardType::Unblockable)
    } else if s == "Throw"@ {
        Some(GuardType::Throw)
    } else {
        None
    }
}

impl GuardType {
    /// The guard type named by `s`; for any other text an error message
    /// that quotes it.
    pub fn from_name(s: &str) -> (r: Result<GuardType, String>)
        ensures
            guard_type_of(s@) matches Some(g) ==> r == Ok::<GuardType, String>(g),
            guard_type_of(s@) is None ==> (r matches Err(m) && m@ == "不正なガードタイプ: "@ + s@),
    {
        if str_eq(s, "High") {
            Ok(GuardType::High)
        } else if str_eq(s, "Mid") {
            Ok(GuardType::Mid)
        } else if str_eq(s, "Low") {
            Ok(GuardType::Low)
        } else if str_eq(s, "Unblockable") {
            Ok(GuardType::Unblockable)
        } else if str_eq(s, "Throw") {
            Ok(GuardType::Throw)
        } else {
            let mut m = chars_of("不正なガードタイプ: ");
            extend_str(&mut m, s);
            Err(string_of(&m))
        }
    }
}

impl std::str::FromStr for GuardType {
    type Err = String;

    /// The guard type named by `s`; for any other text an error message
    /// that quotes it.
    fn from_str(s: &str) -> (r: Result<GuardType, String>)
        ensures
            guard_type_of(s@) matches Some(g) ==> r == Ok::<GuardType, String>(g),
            guard_type_of(s@) is None ==> (r matches Err(m) && m@ == "不正なガードタイプ: "@ + s@),
    {
        GuardType::from_name(s)
    }
}

} // verus!
