//! Sample data and a stand-in for the Discord context, for tests.
use vstd::prelude::*;
use crate::models::{strs, MoveAliases, MoveInfo, MoveInfoView};
use crate::text::owned;

verus! {

/// The value of a `MoveAliases`: its input and its aliases.
pub open spec fn aliases_view(a: MoveAliases) -> (Seq<char>, Seq<Seq<char>>) {
    (a.input@, strs(a.aliases@))
}

/// The sample aliases: `5P` is `Punch` or `P`, and `236K` is `Stun Edge`
/// or `Fireball`.
pub open spec fn sample_aliases() -> Seq<(Seq<char>, Seq<Seq<char>>)> {
    seq![("5P"@, seq!["Punch"@, "P"@]), ("236K"@, seq!["Stun Edge"@, "Fireball"@])]
}

/// The sample aliases of two moves.
pub fn create_test_move_aliases() -> (r: Vec<MoveAliases>)
    ensures
        r@.map_values(|a: MoveAliases| aliases_view(a)) == sample_aliases(),
{
    let first = MoveAliases { input: owned("5P"), aliases: vec![owned("Punch"), owned("P")] };
    let second = MoveAliases {
        input: owned("236K"),
        aliases: vec![owned("Stun Edge"), owned("Fireball")],
    };
    let r = vec![first, second];
    assert(strs(r@[0].aliases@) =~= seq!["Punch"@, "P"@]);
    assert(strs(r@[1].aliases@) =~= seq!["Stun Edge"@, "Fireball"@]);
    assert(r@.map_values(|a: MoveAliases| aliases_view(a)) =~= sample_aliases());
    r
}

/// The value of a sample move: guard `Mid`, counter `3`, no invincibility,
/// empty caption and notes, and the given rest.
pub open spec fn sample_view(
    input: Seq<char>,
    name: Seq<char>,
    damage: i32,
    startup: i32,
    active: Seq<char>,
    recovery: i32,
    on_hit: Seq<char>,
    on_block: Seq<char>,
    level: Seq<char>,
    move_type: Seq<char>,
    wall_damage: i32,
    cancel: Seq<char>,
) -> MoveInfoView {
    MoveInfoView {
        input,
        name,
        damage: Some(damage),
        guard: "Mid"@,
        startup: Some(startup),
        active,
        recovery: Some(recovery),
        on_hit,
        on_block,
        level,
        counter: "3"@,
        move_type,
        wall_damage: Some(wall_damage),
        invincibility: "None"@,
        cancel,
        caption: Seq::empty(),
        notes: Seq::empty(),
    }
}

/// A sample move with the given input, name and numbers.
fn sample_move(
    input: &str,
    name: &str,
    damage: i32,
    startup: i32,
    active: &str,
    recovery: i32,
    on_hit: &str,
    on_block: &str,
    level: &str,
    move_type: &str,
    wall_damage: i32,
    cancel: &str,
) -> (m: MoveInfo)
    ensures
        m@ == sample_view(input@, name@, damage, startup, active@, recovery, on_hit@, on_block@, level@, move_type@, wall_damage, cancel@),
{
    MoveInfo {
        input: owned(input),
        name: owned(name),
        damage: Some(damage),
        guard: owned("Mid"),
        startup: Some(startup),
        active: owned(active),
        recovery: Some(recovery),
        on_hit: owned(on_hit),
        on_block: owned(on_block),
        level: owned(level),
        counter: owned("3"),
        move_type: owned(move_type),
        wall_damage: Some(wall_damage),
        invincibility: owned("None"),
        cancel: owned(cancel),
        caption: String::new(),
        notes: String::new(),
    }
}

/// The sample moves: `5P` (Punch) and `236K` (Stun Edge).
pub fn create_test_move_info() -> (r: Vec<MoveInfo>)
    ensures
        r@.len() == 2,
        r@[0]@ == sample_view("5P"@, "Punch"@, 26, 4, "3"@, 9, "+2"@, "-1"@, "0"@, "Normal"@, 9, "Special, Super"@),
        r@[1]@ == sample_view("236K"@, "Stun Edge"@, 35, 13, "Until Hit"@, 24, "-7"@, "-10"@, "2"@, "Special"@, 12, "None"@),
{
    vec![
        sample_move("5P", "Punch", 26, 4, "3", 9, "+2", "-1", "0", "Normal", 9, "Special, Super"),
        sample_move("236K", "Stun Edge", 35, 13, "Until Hit", 24, "-7", "-10", "2", "Special", 12, "None"),
    ]
}

/// A stand-in for the Discord context that keeps what is sent.
pub struct _MockDiscordContext {
    /// The messages sent, in order.
    pub messages: Vec<String>,
    /// The embedded messages sent, in order.
    pub embeds: Vec<String>,
}

impl _MockDiscordContext {
    /// A context that has sent nothing.
    pub fn new() -> (r: Self)
        ensures
            r.messages@.len() == 0,
            r.embeds@.len() == 0,
    {
        _MockDiscordContext { messages: Vec::new(), embeds: Vec::new() }
    }

    /// Sends a message: it is kept after those sent before.
    pub fn send_message(&mut self, content: &str) -> (r: Result<(), ()>)
        ensures
            r is Ok,
            strs(final(self).messages@) == strs(old(self).messages@).push(content@),
            strs(final(self).embeds@) == strs(old(self).embeds@),
    {
        self.messages.push(owned(content));
        assert(strs(self.messages@) =~= strs(old(self).messages@).push(content@));
        Ok(())
    }

    /// Sends an embedded message: it is kept after those sent before.
    pub fn send_embed(&mut self, content: &str) -> (r: Result<(), ()>)
        ensures
            r is Ok,
            strs(final(self).embeds@) == strs(old(self).embeds@).push(content@),
            strs(final(self).messages@) == strs(old(self).messages@),
    {
        self.embeds.push(owned(content));
        assert(strs(self.embeds@) =~= strs(old(self).embeds@).push(content@));
        Ok(())
    }
}

} // verus!
