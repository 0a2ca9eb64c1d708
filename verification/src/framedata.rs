//! Turning the frame data table of a character into move records.
use vstd::prelude::*;
use crate::embeds::opt_chars;
use crate::models::{MoveInfo, MoveInfoView};
use crate::preprocess::{preprocess_json, regex_stage, replace_each, replacement_table};
use crate::text::{
    chars_of, copy_string, extend_str, owned, parse_i32, parsed_i32, replace_str, replaced, str_eq,
    string_of,
};

verus! {

/// One row of the frame data table, as the table gives it.
pub struct Title {
    pub input: Option<String>,
    pub name: Option<String>,
    pub damage: Option<String>,
    pub guard: Option<String>,
    pub startup: Option<String>,
    pub active: Option<String>,
    pub recovery: Option<String>,
    pub on_hit: Option<String>,
    pub on_block: Option<String>,
    pub level: Option<String>,
    pub counter: Option<String>,
    pub move_type: Option<String>,
    pub risc_gain: Option<String>,
    pub risc_loss: Option<String>,
    pub wall_damage: Option<String>,
    pub input_tension: Option<String>,
    pub chip_ratio: Option<String>,
    pub scaling: Option<String>,
    pub invincibility: Option<String>,
    pub cancel: Option<String>,
    pub caption: Option<String>,
    pub notes: Option<String>,
}

/// One entry of the frame data table.
pub struct Data {
    /// The row.
    pub title: Title,
}

/// Whether an optional string holds exactly `s`.
pub open spec fn holds(o: Option<String>, s: Seq<char>) -> bool {
    opt_chars(o) == Some(s)
}

/// Whether an optional string holds exactly `s`.
fn opt_is(o: &Option<String>, s: &str) -> (r: bool)
    ensures
        r == holds(*o, s@),
{
    match o {
        Some(v) => str_eq(v.as_str(), s),
        None => false,
    }
}

/// Whether a row is left out of the move records: the homing jump row and
/// a few system mechanics.
pub open spec fn skipped(t: Title) -> bool {
    holds(t.input, "j.XX during Homing Jump"@) || holds(t.name, "Dash Cancel"@) || holds(
        t.name,
        "Hoverdash"@,
    ) || holds(t.name, "Finish Blow"@) || holds(t.name, "Flight"@) || holds(t.name, "Escape"@)
}

/// Whether a row is left out of the move records.
pub fn should_skip_move(move_data: &Data) -> (r: bool)
    ensures
        r == skipped(move_data.title),
{
    let t = &move_data.title;
    if opt_is(&t.input, "j.XX during Homing Jump") {
        return true;
    }
    opt_is(&t.name, "Dash Cancel") || opt_is(&t.name, "Hoverdash") || opt_is(&t.name, "Finish Blow")
        || opt_is(&t.name, "Flight") || opt_is(&t.name, "Escape")
}

/// A copy of an optional string.
fn copy_opt(o: &Option<String>) -> (r: Option<String>)
    ensures
        opt_chars(r) == opt_chars(*o),
{
    match o {
        Some(v) => Some(copy_string(v)),
        None => None,
    }
}

/// Fills in a row: a missing input becomes `-`, a missing name becomes the
/// input, and a caption that only says `Ground` or `Air` becomes empty.
pub fn preprocess_move_data(move_data: &mut Data)
    ensures
        opt_chars(final(move_data).title.input) == Some(
            match opt_chars(old(move_data).title.input) {
                Some(i) => i,
                None => "-"@,
            },
        ),
        opt_chars(final(move_data).title.name) == Some(
            match opt_chars(old(move_data).title.name) {
                Some(n) => n,
                None => match opt_chars(old(move_data).title.input) {
                    Some(i) => i,
                    None => "-"@,
                },
            },
        ),
        opt_chars(final(move_data).title.caption) == (if holds(old(move_data).title.caption, "Ground"@)
            || holds(old(move_data).title.caption, "Air"@) {
            Some(Seq::<char>::empty())
        } else {
            opt_chars(old(move_data).title.caption)
        }),
        ({
            let (a, b) = (final(move_data).title, old(move_data).title);
            &&& opt_chars(a.damage) == opt_chars(b.damage)
            &&& opt_chars(a.guard) == opt_chars(b.guard)
            &&& opt_chars(a.startup) == opt_chars(b.startup)
            &&& opt_chars(a.active) == opt_chars(b.active)
            &&& opt_chars(a.recovery) == opt_chars(b.recovery)
            &&& opt_chars(a.on_hit) == opt_chars(b.on_hit)
            &&& opt_chars(a.on_block) == opt_chars(b.on_block)
            &&& opt_chars(a.level) == opt_chars(b.level)
            &&& opt_chars(a.counter) == opt_chars(b.counter)
            &&& opt_chars(a.move_type) == opt_chars(b.move_type)
            &&& opt_chars(a.risc_gain) == opt_chars(b.risc_gain)
            &&& opt_chars(a.risc_loss) == opt_chars(b.risc_loss)
            &&& opt_chars(a.wall_damage) == opt_chars(b.wall_damage)
            &&& opt_chars(a.input_tension) == opt_chars(b.input_tension)
            &&& opt_chars(a.chip_ratio) == opt_chars(b.chip_ratio)
            &&& opt_chars(a.scaling) == opt_chars(b.scaling)
            &&& opt_chars(a.invincibility) == opt_chars(b.invincibility)
            &&& opt_chars(a.cancel) == opt_chars(b.cancel)
            &&& opt_chars(a.notes) == opt_chars(b.notes)
        }),
{
    if move_data.title.input.is_none() {
        move_data.title.input = Some(owned("-"));
    }
    if move_data.title.name.is_none() {
        let copy = copy_opt(&move_data.title.input);
        move_data.title.name = copy;
    }
    if opt_is(&move_data.title.caption, "Ground") || opt_is(&move_data.title.caption, "Air") {
        move_data.title.caption = Some(String::new());
    }
}

/// The input shown for a move: the input alone for a few special rows,
/// else the name followed by the input in brackets.
pub open spec fn input_name(input: Seq<char>, name: Seq<char>) -> Seq<char> {
    if input == "Shooting Time Stretch (Accelerate)"@ || input == "Shooting Time Stretch (Decelerate)"@
        || input == "Terra Metron"@ || input == "ステイン"@ {
        input
    } else {
        name + "("@ + input + ")"@
    }
}

/// Builds the input shown for a move.
pub fn format_input_name(input: &str, name: &str) -> (r: String)
    ensures
        r@ == input_name(input@, name@),
{
    if str_eq(input, "Shooting Time Stretch (Accelerate)") || str_eq(
        input,
        "Shooting Time Stretch (Decelerate)",
    ) || str_eq(input, "Terra Metron") || str_eq(input, "ステイン") {
        owned(input)
    } else {
        let mut v = chars_of(name);
        extend_str(&mut v, "(");
        extend_str(&mut v, input);
        extend_str(&mut v, ")");
        string_of(&v)
    }
}

/// The text of an optional field, or `empty` when it is missing.
pub open spec fn or_text(o: Option<String>, empty: Seq<char>) -> Seq<char> {
    match o {
        Some(s) => s@,
        None => empty,
    }
}

/// The text of an optional field, or `empty` when it is missing.
fn text_or(o: &Option<String>, empty: &str) -> (r: String)
    ensures
        r@ == or_text(*o, empty@),
{
    match o {
        Some(s) => copy_string(s),
        None => owned(empty),
    }
}

/// The ten text fields of a move record, in order.
pub type StringFields = (String, String, String, String, String, String, String, String, String, String);

/// Reads the ten text fields of a row (name, guard, active, on hit, on
/// block, level, counter, type, invincibility, cancel), each defaulting to `empty`.
pub fn set_string_fields(move_data: &Data, empty: &str) -> (r: StringFields)
    ensures
        ({
            let t = move_data.title;
            &&& r.0@ == or_text(t.name, empty@)
            &&& r.1@ == or_text(t.guard, empty@)
            &&& r.2@ == or_text(t.active, empty@)
            &&& r.3@ == or_text(t.on_hit, empty@)
            &&& r.4@ == or_text(t.on_block, empty@)
            &&& r.5@ == or_text(t.level, empty@)
            &&& r.6@ == or_text(t.counter, empty@)
            &&& r.7@ == or_text(t.move_type, empty@)
            &&& r.8@ == or_text(t.invincibility, empty@)
            &&& r.9@ == or_text(t.cancel, empty@)
        }),
{
    let t = &move_data.title;
    (
        text_or(&t.name, empty),
        text_or(&t.guard, empty),
        text_or(&t.active, empty),
        text_or(&t.on_hit, empty),
        text_or(&t.on_block, empty),
        text_or(&t.level, empty),
        text_or(&t.counter, empty),
        text_or(&t.move_type, empty),
        text_or(&t.invincibility, empty),
        text_or(&t.cancel, empty),
    )
}

/// The integer an optional field holds, if it holds one.
pub open spec fn int_field(o: Option<String>) -> Option<i32> {
    match o {
        Some(s) => parsed_i32(s@),
        None => None,
    }
}

/// Reads an optional field as an integer.
fn parse_field(o: &Option<String>) -> (r: Option<i32>)
    ensures
        r == int_field(*o),
{
    match o {
        Some(s) => parse_i32(s.as_str()),
        None => None,
    }
}

/// The four integer fields of a move record, in order.
pub type IntegerFields = (Option<i32>, Option<i32>, Option<i32>, Option<i32>);

/// Reads the four integer fields of a row: damage, startup, recovery and
/// wall damage.
pub fn set_integer_fields(move_data: &Data) -> (r: IntegerFields)
    ensures
        r == (
            int_field(move_data.title.damage),
            int_field(move_data.title.startup),
            int_field(move_data.title.recovery),
            int_field(move_data.title.wall_damage),
        ),
{
    let t = &move_data.title;
    (
        parse_field(&t.damage),
        parse_field(&t.startup),
        parse_field(&t.recovery),
        parse_field(&t.wall_damage),
    )
}

/// The move record made from a row.
pub open spec fn record_of(t: Title, empty: Seq<char>) -> MoveInfoView {
    MoveInfoView {
        input: input_name(or_text(t.input, ""@), or_text(t.name, ""@)),
        name: or_text(t.name, empty),
        damage: int_field(t.damage),
        guard: or_text(t.guard, empty),
        startup: int_field(t.startup),
        active: or_text(t.active, empty),
        recovery: int_field(t.recovery),
        on_hit: or_text(t.on_hit, empty),
        on_block: or_text(t.on_block, empty),
        level: or_text(t.level, empty),
        counter: or_text(t.counter, empty),
        move_type: or_text(t.move_type, empty),
        wall_damage: int_field(t.wall_damage),
        invincibility: or_text(t.invincibility, empty),
        cancel: or_text(t.cancel, empty),
        caption: or_text(t.caption, ""@),
        notes: or_text(t.notes, ""@),
    }
}

/// Makes the move record of a row.
pub fn create_move_info(move_data: &Data, empty: &str) -> (r: MoveInfo)
    ensures
        r@ == record_of(move_data.title, empty@),
{
    let t = &move_data.title;
    let input_str = text_or(&t.input, "");
    let name_str = text_or(&t.name, "");
    let input_name = format_input_name(input_str.as_str(), name_str.as_str());
    let (name, guard, active, on_hit, on_block, level, counter, move_type, invincibility, cancel) =
        set_string_fields(move_data, empty);
    let (damage, startup, recovery, wall_damage) = set_integer_fields(move_data);
    let caption = text_or(&t.caption, "");
    let notes = text_or(&t.notes, "");
    MoveInfo {
        input: input_name,
        name,
        damage,
        guard,
        startup,
        active,
        recovery,
        on_hit,
        on_block,
        level,
        counter,
        move_type,
        wall_damage,
        invincibility,
        cancel,
        caption,
        notes,
    }
}

/// The input of a row once filled in: `-` when it is missing.
pub open spec fn filled_input(t: Title) -> Seq<char> {
    match opt_chars(t.input) {
        Some(i) => i,
        None => "-"@,
    }
}

/// The name of a row once filled in: the input when it is missing.
pub open spec fn filled_name(t: Title) -> Seq<char> {
    match opt_chars(t.name) {
        Some(n) => n,
        None => filled_input(t),
    }
}

/// The caption of a row once filled in: empty when it only says `Ground` or
/// `Air`, or when it is missing.
pub open spec fn filled_caption(t: Title) -> Seq<char> {
    if holds(t.caption, "Ground"@) || holds(t.caption, "Air"@) {
        Seq::empty()
    } else {
        or_text(t.caption, ""@)
    }
}

/// Whether a row gives a move record once filled in.
pub open spec fn kept_row(t: Title) -> bool {
    !(filled_input(t) == "j.XX during Homing Jump"@ || filled_name(t) == "Dash Cancel"@
        || filled_name(t) == "Hoverdash"@ || filled_name(t) == "Finish Blow"@ || filled_name(t)
        == "Flight"@ || filled_name(t) == "Escape"@)
}

/// The move record of a row once filled in, with `-` for missing text.
pub open spec fn row_record(t: Title) -> MoveInfoView {
    MoveInfoView {
        input: input_name(filled_input(t), filled_name(t)),
        name: filled_name(t),
        damage: int_field(t.damage),
        guard: or_text(t.guard, "-"@),
        startup: int_field(t.startup),
        active: or_text(t.active, "-"@),
        recovery: int_field(t.recovery),
        on_hit: or_text(t.on_hit, "-"@),
        on_block: or_text(t.on_block, "-"@),
        level: or_text(t.level, "-"@),
        counter: or_text(t.counter, "-"@),
        move_type: or_text(t.move_type, "-"@),
        wall_damage: int_field(t.wall_damage),
        invincibility: or_text(t.invincibility, "-"@),
        cancel: or_text(t.cancel, "-"@),
        caption: filled_caption(t),
        notes: or_text(t.notes, ""@),
    }
}

/// The move records of a table: one for each row that is kept, in order.
pub open spec fn move_records(rows: Seq<Data>) -> Seq<MoveInfoView>
    decreases rows.len(),
{
    if rows.len() == 0 {
        Seq::empty()
    } else {
        let before = move_records(rows.drop_last());
        if kept_row(rows.last().title) {
            before.push(row_record(rows.last().title))
        } else {
            before
        }
    }
}

/// The move record of one row of a table: the row is filled in, and `None`
/// comes back when it is skipped.
pub fn process_row(row: Data) -> (r: Option<MoveInfo>)
    ensures
        r is Some <==> kept_row(row.title),
        r matches Some(m) ==> m@ == row_record(row.title),
{
    let ghost t0 = row.title;
    let mut row = row;
    preprocess_move_data(&mut row);
    proof {
        reveal_strlit("-");
        reveal_strlit("j.XX during Homing Jump");
        assert(opt_chars(row.title.input) == Some(filled_input(t0)));
        assert(opt_chars(row.title.name) == Some(filled_name(t0)));
        assert(skipped(row.title) == !kept_row(t0));
    }
    if should_skip_move(&row) {
        None
    } else {
        let m = create_move_info(&row, "-");
        proof {
            assert(or_text(row.title.input, ""@) == filled_input(t0));
            assert(or_text(row.title.name, ""@) == filled_name(t0));
            assert(or_text(row.title.caption, ""@) == filled_caption(t0));
            assert(m@ == row_record(t0));
        }
        Some(m)
    }
}

/// Fills in each row of a table, leaves out those that are skipped, and
/// makes the move record of each of the others.
pub fn process_move_data(rows: Vec<Data>) -> (r: Vec<MoveInfo>)
    ensures
        r@.map_values(|m: MoveInfo| m@) == move_records(rows@),
{
    let ghost all = rows@;
    let mut out: Vec<MoveInfo> = Vec::new();
    let mut i: usize = 0;
    let mut rest = rows;
    let n = rest.len();
    while rest.len() > 0
        invariant
            all.len() == n,
            rest@ == all.subrange(i as int, all.len() as int),
            i <= all.len(),
            out@.map_values(|m: MoveInfo| m@) == move_records(all.take(i as int)),
        decreases rest.len(),
    {
        let row = rest.remove(0);
        proof {
            assert(all.take(i as int + 1).drop_last() =~= all.take(i as int));
            assert(all.take(i as int + 1).last() == row);
        }
        let ghost before = out@;
        match process_row(row) {
            Some(m) => {
                out.push(m);
                assert(out@.map_values(|m: MoveInfo| m@) =~= before.map_values(|m: MoveInfo| m@).push(m@));
            },
            None => {},
        }
        assert(rest@ =~= all.subrange(i as int + 1, all.len() as int));
        i = i + 1;
    }
    proof {
        assert(all.take(i as int) =~= all);
    }
    out
}

/// The markup of the frame data table taken out of a text: colour spans,
/// line breaks (which become `, `), the low profile tooltip, escaped
/// apostrophes and spaces, bold marks, semicolons (which become `\n`) and
/// doubled backslashes.
pub open spec fn tags_removed(s: Seq<char>) -> Seq<char> {
    let s0 = replaced(s, r#"&lt;span class=&quot;colorful-text-4&quot; &gt;"#@, r#""#@);
    let s1 = replaced(s0, r#"&lt;span class=&quot;colorful-text-2&quot; &gt;"#@, r#""#@);
    let s2 = replaced(s1, r#"&lt;span class=&quot;colorful-text-3&quot; &gt;"#@, r#""#@);
    let s3 = replaced(s2, r#"&lt;span class=&quot;colorful-text-1&quot; &gt;"#@, r#""#@);
    let s4 = replaced(s3, r#"&lt;/span&gt;"#@, r#""#@);
    let s5 = replaced(s4, r#"&lt;br&gt;"#@, r#", "#@);
    let s6 = replaced(s5, r#"&lt;br/&gt;"#@, r#", "#@);
    let s7 = replaced(s6, r#" &lt;span class=&quot;tooltip&quot; &gt;Low Profile&lt;span class=&quot;tooltiptext&quot; style=&quot;&quot;&gt;When a character's hurtbox is entirely beneath an opponent's attack. This can be caused by crouching, certain moves, and being short.&lt;/span&gt;&lt;/span&gt;"#@, r#""#@);
    let s8 = replaced(s7, r#"&#039;"#@, r#"'"#@);
    let s9 = replaced(s8, r#"&amp;#32;"#@, r#""#@);
    let s10 = replaced(s9, r#"'''"#@, r#""#@);
    let s11 = replaced(s10, r#"; "#@, r#"\n"#@);
    let s12 = replaced(s11, r#";"#@, r#"\n"#@);
    replaced(s12, r#"\\"#@, r#""#@)
}

/// The frame data table's JSON text made ready for reading: the common
/// rewriting, then its markup taken out.
pub fn remove_tags(char_page_response_json: String) -> (r: String)
    ensures
        r@ == tags_removed(replace_each(regex_stage(char_page_response_json@), replacement_table())),
{
    let mut r = preprocess_json(char_page_response_json);
    r = replace_str(r.as_str(), r#"&lt;span class=&quot;colorful-text-4&quot; &gt;"#, r#""#);
    r = replace_str(r.as_str(), r#"&lt;span class=&quot;colorful-text-2&quot; &gt;"#, r#""#);
    r = replace_str(r.as_str(), r#"&lt;span class=&quot;colorful-text-3&quot; &gt;"#, r#""#);
    r = replace_str(r.as_str(), r#"&lt;span class=&quot;colorful-text-1&quot; &gt;"#, r#""#);
    r = replace_str(r.as_str(), r#"&lt;/span&gt;"#, r#""#);
    r = replace_str(r.as_str(), r#"&lt;br&gt;"#, r#", "#);
    r = replace_str(r.as_str(), r#"&lt;br/&gt;"#, r#", "#);
    r = replace_str(r.as_str(), r#" &lt;span class=&quot;tooltip&quot; &gt;Low Profile&lt;span class=&quot;tooltiptext&quot; style=&quot;&quot;&gt;When a character's hurtbox is entirely beneath an opponent's attack. This can be caused by crouching, certain moves, and being short.&lt;/span&gt;&lt;/span&gt;"#, r#""#);
    r = replace_str(r.as_str(), r#"&#039;"#, r#"'"#);
    r = replace_str(r.as_str(), r#"&amp;#32;"#, r#""#);
    r = replace_str(r.as_str(), r#"'''"#, r#""#);
    r = replace_str(r.as_str(), r#"; "#, r#"\n"#);
    r = replace_str(r.as_str(), r#";"#, r#"\n"#);
    r = replace_str(r.as_str(), r#"\\"#, r#""#);
    r
}

/// No move record of a table is one of the skipped system rows: its name is
/// never `Dash Cancel`, `Hoverdash`, `Finish Blow`, `Flight` or `Escape`.
pub proof fn lemma_records_leave_out_system_moves(rows: Seq<Data>)
    ensures
        forall|k: int|
            0 <= k < move_records(rows).len() ==> {
                let n = #[trigger] move_records(rows)[k].name;
                n != "Dash Cancel"@ && n != "Hoverdash"@ && n != "Finish Blow"@ && n != "Flight"@
                    && n != "Escape"@
            },
        move_records(rows).len() <= rows.len(),
    decreases rows.len(),
{
    if rows.len() > 0 {
        lemma_records_leave_out_system_moves(rows.drop_last());
    }
}

/// Each field of a move record is read from the row's column of the same
/// name: the integer fields are the column parsed as an `i32` (`None` when
/// missing or not a number), the text fields the column's text (`empty`
/// when missing).
pub proof fn lemma_record_reads_columns(t: Title, empty: Seq<char>)
    ensures
        record_of(t, empty).damage == (match t.damage { Some(x) => parsed_i32(x@), None => None }),
        record_of(t, empty).startup == (match t.startup { Some(x) => parsed_i32(x@), None => None }),
        record_of(t, empty).recovery == (match t.recovery { Some(x) => parsed_i32(x@), None => None }),
        record_of(t, empty).wall_damage == (match t.wall_damage { Some(x) => parsed_i32(x@), None => None }),
        t.guard matches Some(x) ==> record_of(t, empty).guard == x@,
        t.guard is None ==> record_of(t, empty).guard == empty,
        t.active matches Some(x) ==> record_of(t, empty).active == x@,
        t.active is None ==> record_of(t, empty).active == empty,
        t.on_hit matches Some(x) ==> record_of(t, empty).on_hit == x@,
        t.on_hit is None ==> record_of(t, empty).on_hit == empty,
        t.on_block matches Some(x) ==> record_of(t, empty).on_block == x@,
        t.on_block is None ==> record_of(t, empty).on_block == empty,
        t.level matches Some(x) ==> record_of(t, empty).level == x@,
        t.level is None ==> record_of(t, empty).level == empty,
        t.counter matches Some(x) ==> record_of(t, empty).counter == x@,
        t.counter is None ==> record_of(t, empty).counter == empty,
        t.move_type matches Some(x) ==> record_of(t, empty).move_type == x@,
        t.move_type is None ==> record_of(t, empty).move_type == empty,
        t.invincibility matches Some(x) ==> record_of(t, empty).invincibility == x@,
        t.invincibility is None ==> record_of(t, empty).invincibility == empty,
        t.cancel matches Some(x) ==> record_of(t, empty).cancel == x@,
        t.cancel is None ==> record_of(t, empty).cancel == empty,
        t.notes matches Some(x) ==> record_of(t, empty).notes == x@,
        t.notes is None ==> record_of(t, empty).notes == Seq::<char>::empty(),
        t.name matches Some(x) ==> record_of(t, empty).name == x@,
        t.name is None ==> record_of(t, empty).name == empty,
{
    reveal_strlit("");
}

/// Each field of a table's move record is read from the filled-in row's
/// column of the same name (`-` for missing text): the integer fields are
/// the column parsed as an `i32`, the text fields the column's text.
pub proof fn lemma_row_record_reads_columns(t: Title)
    ensures
        row_record(t).damage == (match t.damage { Some(x) => parsed_i32(x@), None => None }),
        row_record(t).startup == (match t.startup { Some(x) => parsed_i32(x@), None => None }),
        row_record(t).recovery == (match t.recovery { Some(x) => parsed_i32(x@), None => None }),
        row_record(t).wall_damage == (match t.wall_damage { Some(x) => parsed_i32(x@), None => None }),
        t.guard matches Some(x) ==> row_record(t).guard == x@,
        t.guard is None ==> row_record(t).guard == "-"@,
        t.active matches Some(x) ==> row_record(t).active == x@,
        t.active is None ==> row_record(t).active == "-"@,
        t.on_hit matches Some(x) ==> row_record(t).on_hit == x@,
        t.on_hit is None ==> row_record(t).on_hit == "-"@,
        t.on_block matches Some(x) ==> row_record(t).on_block == x@,
        t.on_block is None ==> row_record(t).on_block == "-"@,
        t.level matches Some(x) ==> row_record(t).level == x@,
        t.level is None ==> row_record(t).level == "-"@,
        t.counter matches Some(x) ==> row_record(t).counter == x@,
        t.counter is None ==> row_record(t).counter == "-"@,
        t.move_type matches Some(x) ==> row_record(t).move_type == x@,
        t.move_type is None ==> row_record(t).move_type == "-"@,
        t.invincibility matches Some(x) ==> row_record(t).invincibility == x@,
        t.invincibility is None ==> row_record(t).invincibility == "-"@,
        t.cancel matches Some(x) ==> row_record(t).cancel == x@,
        t.cancel is None ==> row_record(t).cancel == "-"@,
        t.notes matches Some(x) ==> row_record(t).notes == x@,
        t.notes is None ==> row_record(t).notes == Seq::<char>::empty(),
        t.name matches Some(x) ==> row_record(t).name == x@,
        t.name is None ==> (t.input matches Some(i) ==> row_record(t).name == i@),
        t.name is None && t.input is None ==> row_record(t).name == "-"@,
{
    reveal_strlit("");
}

} // verus!
