//! Frame meters: drawing a move's startup, active and recovery frames as
//! rows of symbols.
use vstd::prelude::*;
use crate::models::{strs, MoveInfo};
use crate::text::{
    bounded_count, char_is_alphanumeric, chars_eq, chars_of, extend_chars, extend_str,
    i32_to_string, is_alphanumeric, is_digit, lowercase, read_bounded_count, signed_decimal, str_eq,
    string_of, to_lowercase,
};

verus! {

// ---------------------------------------------------------------------------
// Splitting frame data into tokens
// ---------------------------------------------------------------------------

/// A finished run as tokens: none when it is empty, else the run itself.
pub open spec fn flushed(run: Seq<char>) -> Seq<Seq<char>> {
    if run.len() == 0 {
        Seq::<Seq<char>>::empty()
    } else {
        seq![run]
    }
}

/// Whether an alphanumeric character continues a run: the run is empty, or
/// it and the character are both ASCII digits or both not.
pub open spec fn continues(run: Seq<char>, c: char) -> bool {
    run.len() == 0 || is_digit(run.last()) == is_digit(c)
}

/// The run of `run` followed by the tokens of `s`: maximal runs of ASCII
/// digits, maximal runs of other alphanumeric characters (so `236K` gives
/// `236` and `K`), and every other character as a token of its own.
pub open spec fn tokens_from(s: Seq<char>, run: Seq<char>) -> Seq<Seq<char>>
    decreases s.len(),
{
    if s.len() == 0 {
        flushed(run)
    } else if is_alphanumeric(s[0]) {
        if continues(run, s[0]) {
            tokens_from(s.drop_first(), run.push(s[0]))
        } else {
            seq![run] + tokens_from(s.drop_first(), seq![s[0]])
        }
    } else {
        flushed(run) + (seq![seq![s[0]]] + tokens_from(s.drop_first(), Seq::<char>::empty()))
    }
}

/// Whether a token is dropped: the word `total` in any case, an empty
/// token, or a single space.
pub open spec fn droppable(t: Seq<char>) -> bool {
    lowercase(t) == "total"@ || t.len() == 0 || t == " "@
}

/// The tokens of `v` that are not droppable, in order.
pub open spec fn kept(v: Seq<Seq<char>>) -> Seq<Seq<char>>
    decreases v.len(),
{
    if v.len() == 0 {
        v
    } else if droppable(v.last()) {
        kept(v.drop_last())
    } else {
        kept(v.drop_last()).push(v.last())
    }
}

/// The tokens of frame data text: digit runs, other alphanumeric runs and
/// single other characters, with every droppable token removed.
pub open spec fn frame_tokens(s: Seq<char>) -> Seq<Seq<char>> {
    kept(tokens_from(s, Seq::<char>::empty()))
}

/// Splits frame data text into its raw tokens.
fn raw_tokens(text: &Vec<char>) -> (r: Vec<Vec<char>>)
    ensures
        r@.len() == tokens_from(text@, Seq::<char>::empty()).len(),
        forall|k: int| 0 <= k < r@.len() ==> #[trigger] r@[k]@ == tokens_from(text@, Seq::<char>::empty())[k],
{
    let mut out: Vec<Vec<char>> = Vec::new();
    let mut run: Vec<char> = Vec::new();
    let mut i: usize = 0;
    let ghost whole = tokens_from(text@, Seq::<char>::empty());
    assert(text@.skip(0) =~= text@);
    assert(out@.map_values(|t: Vec<char>| t@) + tokens_from(text@.skip(0), run@) =~= whole);
    while i < text.len()
        invariant
            i <= text.len(),
            whole == tokens_from(text@, Seq::<char>::empty()),
            out@.map_values(|t: Vec<char>| t@) + tokens_from(text@.skip(i as int), run@) == whole,
        decreases text.len() - i,
    {
        let ghost rest = text@.skip(i as int);
        let ghost before = out@.map_values(|t: Vec<char>| t@);
        assert(rest.drop_first() =~= text@.skip(i + 1));
        let c = text[i];
        let ghost had = run@;
        if char_is_alphanumeric(c) {
            let same = run.len() == 0 || (('0' <= run[run.len() - 1] && run[run.len() - 1] <= '9')
                == ('0' <= c && c <= '9'));
            if same {
                run.push(c);
            } else {
                let done = run;
                out.push(done);
                run = Vec::new();
                run.push(c);
                assert(run@ =~= seq![c]);
                assert(out@.map_values(|t: Vec<char>| t@) =~= before + seq![had]);
                assert(before + seq![had] + tokens_from(text@.skip(i + 1), run@) =~= before + (
                seq![had] + tokens_from(rest.drop_first(), seq![c])));
            }
        } else {
            if run.len() > 0 {
                let done = run;
                out.push(done);
                run = Vec::new();
            } else {
                run = Vec::new();
            }
            let mut single: Vec<char> = Vec::new();
            single.push(c);
            out.push(single);
            proof {
                assert(out@.map_values(|t: Vec<char>| t@) =~= before + flushed(had) + seq![seq![c]]);
                assert(run@ =~= Seq::<char>::empty());
                assert(before + flushed(had) + seq![seq![c]] + tokens_from(text@.skip(i + 1), run@)
                    =~= before + (flushed(had) + (seq![seq![c]] + tokens_from(
                    rest.drop_first(),
                    Seq::<char>::empty(),
                ))));
            }
        }
        i = i + 1;
    }
    let ghost before = out@.map_values(|t: Vec<char>| t@);
    assert(text@.skip(text.len() as int) =~= Seq::<char>::empty());
    if run.len() > 0 {
        out.push(run);
        assert(out@.map_values(|t: Vec<char>| t@) =~= whole);
    } else {
        assert(out@.map_values(|t: Vec<char>| t@) =~= whole);
    }
    assert forall|k: int| 0 <= k < out@.len() implies #[trigger] out@[k]@ == whole[k] by {
        assert(out@.map_values(|t: Vec<char>| t@)[k] == out@[k]@);
    }
    out
}

/// Whether a token is droppable.
fn is_droppable(t: &Vec<char>) -> (r: bool)
    ensures
        r == droppable(t@),
{
    let s = string_of(t);
    let low = to_lowercase(s.as_str());
    let total = chars_of("total");
    let lc = chars_of(low.as_str());
    let space = chars_of(" ");
    chars_eq(&lc, &total) || t.len() == 0 || chars_eq(t, &space)
}

/// Splits frame data into tokens, keeping the separators and dropping
/// empty tokens, single spaces and the word `total`.
pub fn sep_frame_vec(text: &str) -> (r: Vec<String>)
    ensures
        strs(r@) == frame_tokens(text@),
{
    let tc = chars_of(text);
    let raw = raw_tokens(&tc);
    let ghost rs = tokens_from(text@, Seq::<char>::empty());
    let mut out: Vec<String> = Vec::new();
    let mut k: usize = 0;
    while k < raw.len()
        invariant
            k <= raw@.len(),
            rs.len() == raw@.len(),
            forall|j: int| 0 <= j < raw@.len() ==> #[trigger] raw@[j]@ == rs[j],
            strs(out@) == kept(rs.take(k as int)),
        decreases raw.len() - k,
    {
        assert(rs.take(k + 1).drop_last() =~= rs.take(k as int));
        assert(rs.take(k + 1).last() == raw@[k as int]@);
        if !is_droppable(&raw[k]) {
            out.push(string_of(&raw[k]));
            assert(strs(out@) =~= kept(rs.take(k as int)).push(raw@[k as int]@));
        }
        k = k + 1;
    }
    assert(rs.take(rs.len() as int) =~= rs);
    out
}

// ---------------------------------------------------------------------------
// Drawing the meters
// ---------------------------------------------------------------------------

/// `g` written `k` times.
pub open spec fn repeat(g: Seq<char>, k: nat) -> Seq<char>
    decreases k,
{
    if k == 0 {
        Seq::<char>::empty()
    } else {
        repeat(g, (k - 1) as nat) + g
    }
}

/// Appends `g` to `msg` `k` times.
fn push_repeat(msg: &mut Vec<char>, g: &Vec<char>, k: u32)
    ensures
        final(msg)@ == old(msg)@ + repeat(g@, k as nat),
{
    let mut i: u32 = 0;
    while i < k
        invariant
            i <= k,
            msg@ == old(msg)@ + repeat(g@, i as nat),
        decreases k - i,
    {
        extend_chars(msg, g);
        i = i + 1;
        assert(msg@ =~= old(msg)@ + repeat(g@, i as nat));
    }
}

/// The meter drawn so far, whether a bracket is open, and whether the
/// drawing has gone without a failure so far.
pub struct MeterState {
    pub text: Seq<char>,
    pub open: bool,
    pub ok: bool,
}

/// How a meter reads frame counts: the largest count it accepts, and
/// whether its arithmetic is signed (a difference below zero draws nothing)
/// or unsigned (a difference below zero is a failure).
pub struct CountMode {
    pub limit: u32,
    pub signed: bool,
}

/// The state before any token is drawn.
pub open spec fn start_state() -> MeterState {
    MeterState { text: Seq::<char>::empty(), open: false, ok: true }
}

/// Draws startup token `x` of `v`: a count `n` draws `n - 1` symbols, or,
/// inside a bracket, as many as it exceeds the count two tokens back; other
/// tokens are copied (a `+` before a last count of 1 becomes a symbol) and
/// `[` or `~` open a bracket that `]` closes.
pub open spec fn startup_step(v: Seq<Seq<char>>, x: int, st: MeterState, mode: CountMode, g: Seq<char>) -> MeterState {
    let t = v[x];
    match bounded_count(t, mode.limit as nat) {
        Some(num) => if num <= 1 {
            MeterState { ok: st.ok && (mode.signed || num != 0), ..st }
        } else if st.open {
            if x < 2 {
                MeterState { ok: false, ..st }
            } else {
                match bounded_count(v[x - 2], mode.limit as nat) {
                    None => MeterState { ok: false, ..st },
                    Some(p) => if p > num {
                        MeterState { ok: st.ok && mode.signed, ..st }
                    } else {
                        MeterState { text: st.text + repeat(g, (num - p) as nat), ..st }
                    },
                }
            }
        } else {
            MeterState { text: st.text + repeat(g, (num - 1) as nat), ..st }
        },
        None => {
            let piece = if x == v.len() - 2 && t == "+"@ {
                match bounded_count(v[x + 1], mode.limit as nat) {
                    Some(n) => if n == 1 {
                        g
                    } else {
                        g + t
                    },
                    None => t,
                }
            } else {
                t
            };
            MeterState {
                text: st.text + piece,
                open: if t == "["@ || t == "~"@ {
                    true
                } else if t == "]"@ {
                    false
                } else {
                    st.open
                },
                ok: st.ok,
            }
        },
    }
}

/// The startup meter state after tokens `0..n`.
pub open spec fn startup_run(v: Seq<Seq<char>>, n: int, mode: CountMode, g: Seq<char>) -> MeterState
    decreases n,
{
    if n <= 0 {
        start_state()
    } else {
        startup_step(v, n - 1, startup_run(v, n - 1, mode, g), mode, g)
    }
}

/// The startup meter for tokens `v` and whether it is drawn without failure:
/// a lone `-` or a lone count of 1 draws `-`; a lone token that is neither
/// `-` nor a count fails.
pub open spec fn startup_meter(v: Seq<Seq<char>>, mode: CountMode, g: Seq<char>) -> (Seq<char>, bool) {
    if v.len() == 1 && v[0] == "-"@ {
        ("-"@, true)
    } else if v.len() == 1 && bounded_count(v[0], mode.limit as nat) is None {
        (Seq::<char>::empty(), false)
    } else if v.len() == 1 && bounded_count(v[0], mode.limit as nat) == Some(1nat) {
        ("-"@, true)
    } else {
        let st = startup_run(v, v.len() as int, mode, g);
        (st.text, st.ok)
    }
}

/// Draws active token `x`: a count draws that many symbols (`blue` inside
/// round brackets, `red` outside); other tokens are copied, `(` and `)`
/// opening and closing a bracket.
pub open spec fn active_step(v: Seq<Seq<char>>, x: int, st: MeterState, mode: CountMode, red: Seq<char>, blue: Seq<char>) -> MeterState {
    let t = v[x];
    match bounded_count(t, mode.limit as nat) {
        Some(num) => MeterState {
            text: st.text + repeat(if st.open { blue } else { red }, num),
            ..st
        },
        None => MeterState {
            text: st.text + t,
            open: if t == "("@ {
                true
            } else if t == ")"@ {
                false
            } else {
                st.open
            },
            ok: st.ok,
        },
    }
}

/// The active meter state after tokens `0..n`.
pub open spec fn active_run(v: Seq<Seq<char>>, n: int, mode: CountMode, red: Seq<char>, blue: Seq<char>) -> MeterState
    decreases n,
{
    if n <= 0 {
        start_state()
    } else {
        active_step(v, n - 1, active_run(v, n - 1, mode, red, blue), mode, red, blue)
    }
}

/// The active meter for tokens `v`: a lone `-` draws `-`.
pub open spec fn active_meter(v: Seq<Seq<char>>, mode: CountMode, red: Seq<char>, blue: Seq<char>) -> Seq<char> {
    if v.len() == 1 && v[0] == "-"@ {
        "-"@
    } else {
        active_run(v, v.len() as int, mode, red, blue).text
    }
}

/// Draws recovery token `x`: a count `n` draws `n` symbols, or, after `~` or
/// `(`, as many as it exceeds the count two tokens back; other tokens are
/// copied, and the bracket is open exactly after `~` or `(`.
pub open spec fn recovery_step(v: Seq<Seq<char>>, x: int, st: MeterState, mode: CountMode, blue: Seq<char>) -> MeterState {
    let t = v[x];
    match bounded_count(t, mode.limit as nat) {
        Some(num) => if num == 0 {
            st
        } else if st.open {
            if x < 2 {
                MeterState { ok: false, ..st }
            } else {
                match bounded_count(v[x - 2], mode.limit as nat) {
                    None => MeterState { ok: false, ..st },
                    Some(p) => if p > num {
                        MeterState { ok: st.ok && mode.signed, ..st }
                    } else {
                        MeterState { text: st.text + repeat(blue, (num - p) as nat), ..st }
                    },
                }
            }
        } else {
            MeterState { text: st.text + repeat(blue, num), ..st }
        },
        None => MeterState { text: st.text + t, open: t == "~"@ || t == "("@, ok: st.ok },
    }
}

/// The recovery meter state after tokens `0..n`.
pub open spec fn recovery_run(v: Seq<Seq<char>>, n: int, mode: CountMode, blue: Seq<char>) -> MeterState
    decreases n,
{
    if n <= 0 {
        start_state()
    } else {
        recovery_step(v, n - 1, recovery_run(v, n - 1, mode, blue), mode, blue)
    }
}

/// The recovery meter for tokens `v` and whether it is drawn without
/// failure: a lone `-` draws `-`.
pub open spec fn recovery_meter(v: Seq<Seq<char>>, mode: CountMode, blue: Seq<char>) -> (Seq<char>, bool) {
    if v.len() == 1 && v[0] == "-"@ {
        ("-"@, true)
    } else {
        let st = recovery_run(v, v.len() as int, mode, blue);
        (st.text, st.ok)
    }
}

/// Reads token `t` as a count.
fn token_count(t: &String, limit: u32) -> (r: Option<u32>)
    ensures
        r matches Some(n) ==> bounded_count(t@, limit as nat) == Some(n as nat),
        r is None ==> bounded_count(t@, limit as nat) is None,
{
    let c = chars_of(t.as_str());
    read_bounded_count(&c, limit)
}

/// Draws the startup meter of tokens `v`.
fn draw_startup(v: &Vec<String>, limit: u32, signed: bool, g: &Vec<char>) -> (r: (Vec<char>, bool))
    ensures
        ({
            let m = startup_meter(strs(v@), CountMode { limit, signed }, g@);
            r.0@ == m.0 || !m.1
        }),
        r.1 == startup_meter(strs(v@), CountMode { limit, signed }, g@).1,
{
    let ghost vs = strs(v@);
    let ghost mode = CountMode { limit, signed };
    let n = v.len();
    if n == 1 && str_eq(v[0].as_str(), "-") {
        let d = chars_of("-");
        return (d, true);
    }
    if n == 1 {
        match token_count(&v[0], limit) {
            None => {
                return (Vec::new(), false);
            },
            Some(c) => {
                if c == 1 {
                    let d = chars_of("-");
                    return (d, true);
                }
            },
        }
    }
    let mut text: Vec<char> = Vec::new();
    let mut open = false;
    let mut ok = true;
    let mut x: usize = 0;
    while x < n
        invariant
            x <= n,
            n == v@.len(),
            vs == strs(v@),
            mode == (CountMode { limit, signed }),
            startup_run(vs, x as int, mode, g@) == (MeterState { text: text@, open, ok }),
        decreases n - x,
    {
        let t = &v[x];
        assert(vs[x as int] == t@);
        match token_count(t, limit) {
            Some(num) => {
                if num <= 1 {
                    if !signed && num == 0 {
                        ok = false;
                    }
                } else if open {
                    if x < 2 {
                        ok = false;
                    } else {
                        assert(vs[x - 2] == v@[x - 2]@);
                        match token_count(&v[x - 2], limit) {
                            None => {
                                ok = false;
                            },
                            Some(p) => {
                                if p > num {
                                    if !signed {
                                        ok = false;
                                    }
                                } else {
                                    push_repeat(&mut text, g, num - p);
                                }
                            },
                        }
                    }
                } else {
                    push_repeat(&mut text, g, num - 1);
                }
            },
            None => {
                let tc = chars_of(t.as_str());
                let mut piece: Vec<char> = Vec::new();
                if n >= 2 && x == n - 2 && str_eq(t.as_str(), "+") {
                    assert(vs[x + 1] == v@[x + 1]@);
                    match token_count(&v[x + 1], limit) {
                        Some(c) => {
                            if c == 1 {
                                extend_chars(&mut piece, g);
                            } else {
                                extend_chars(&mut piece, g);
                                extend_chars(&mut piece, &tc);
                            }
                        },
                        None => {
                            extend_chars(&mut piece, &tc);
                        },
                    }
                } else {
                    extend_chars(&mut piece, &tc);
                }
                assert(Seq::<char>::empty() + g@ =~= g@);
                assert(Seq::<char>::empty() + tc@ =~= tc@);
                extend_chars(&mut text, &piece);
                if str_eq(t.as_str(), "[") || str_eq(t.as_str(), "~") {
                    open = true;
                } else if str_eq(t.as_str(), "]") {
                    open = false;
                }
            },
        }
        x = x + 1;
    }
    (text, ok)
}

/// Draws the active meter of tokens `v`.
fn draw_active(v: &Vec<String>, limit: u32, signed: bool, red: &Vec<char>, blue: &Vec<char>) -> (r: Vec<char>)
    ensures
        r@ == active_meter(strs(v@), CountMode { limit, signed }, red@, blue@),
{
    let ghost vs = strs(v@);
    let ghost mode = CountMode { limit, signed };
    let n = v.len();
    if n == 1 && str_eq(v[0].as_str(), "-") {
        return chars_of("-");
    }
    let mut text: Vec<char> = Vec::new();
    let mut open = false;
    let mut x: usize = 0;
    while x < n
        invariant
            x <= n,
            n == v@.len(),
            vs == strs(v@),
            mode == (CountMode { limit, signed }),
            active_run(vs, x as int, mode, red@, blue@) == (MeterState { text: text@, open, ok: true }),
        decreases n - x,
    {
        let t = &v[x];
        assert(vs[x as int] == t@);
        match token_count(t, limit) {
            Some(num) => {
                if open {
                    push_repeat(&mut text, blue, num);
                } else {
                    push_repeat(&mut text, red, num);
                }
            },
            None => {
                let tc = chars_of(t.as_str());
                extend_chars(&mut text, &tc);
                if str_eq(t.as_str(), "(") {
                    open = true;
                } else if str_eq(t.as_str(), ")") {
                    open = false;
                }
            },
        }
        x = x + 1;
    }
    text
}

/// Draws the recovery meter of tokens `v`.
fn draw_recovery(v: &Vec<String>, limit: u32, signed: bool, blue: &Vec<char>) -> (r: (Vec<char>, bool))
    ensures
        ({
            let m = recovery_meter(strs(v@), CountMode { limit, signed }, blue@);
            r.0@ == m.0 || !m.1
        }),
        r.1 == recovery_meter(strs(v@), CountMode { limit, signed }, blue@).1,
{
    let ghost vs = strs(v@);
    let ghost mode = CountMode { limit, signed };
    let n = v.len();
    if n == 1 && str_eq(v[0].as_str(), "-") {
        return (chars_of("-"), true);
    }
    let mut text: Vec<char> = Vec::new();
    let mut open = false;
    let mut ok = true;
    let mut x: usize = 0;
    while x < n
        invariant
            x <= n,
            n == v@.len(),
            vs == strs(v@),
            mode == (CountMode { limit, signed }),
            recovery_run(vs, x as int, mode, blue@) == (MeterState { text: text@, open, ok }),
        decreases n - x,
    {
        let t = &v[x];
        assert(vs[x as int] == t@);
        match token_count(t, limit) {
            Some(num) => {
                if num == 0 {
                } else if open {
                    if x < 2 {
                        ok = false;
                    } else {
                        assert(vs[x - 2] == v@[x - 2]@);
                        match token_count(&v[x - 2], limit) {
                            None => {
                                ok = false;
                            },
                            Some(p) => {
                                if p > num {
                                    if !signed {
                                        ok = false;
                                    }
                                } else {
                                    push_repeat(&mut text, blue, num - p);
                                }
                            },
                        }
                    }
                } else {
                    push_repeat(&mut text, blue, num);
                }
            },
            None => {
                let tc = chars_of(t.as_str());
                extend_chars(&mut text, &tc);
                open = str_eq(t.as_str(), "~") || str_eq(t.as_str(), "(");
            },
        }
        x = x + 1;
    }
    (text, ok)
}


// ---------------------------------------------------------------------------
// Meters of a move
// ---------------------------------------------------------------------------

/// How the frame meter command reads counts: as `u16`.
pub open spec fn meter_mode() -> CountMode {
    CountMode { limit: 65535, signed: false }
}

/// How the frame meter message reads counts: as `i8`.
pub open spec fn fmeter_mode() -> CountMode {
    CountMode { limit: 127, signed: true }
}

/// The text of an optional frame count: its numeral, or `-` when absent.
pub open spec fn count_text(c: Option<i32>) -> Seq<char> {
    match c {
        Some(v) => signed_decimal(v as int),
        None => "-"@,
    }
}

/// The text of an optional frame count.
pub fn count_to_string(c: Option<i32>) -> (r: String)
    ensures
        r@ == count_text(c),
{
    match c {
        Some(v) => i32_to_string(v),
        None => crate::text::owned("-"),
    }
}

/// The startup meter of a move in the frame meter command.
pub open spec fn startup_meter_of(m: &MoveInfo) -> (Seq<char>, bool) {
    startup_meter(frame_tokens(count_text(m.startup)), meter_mode(), "🟢\u{200b}"@)
}

/// The active meter of a move in the frame meter command.
pub open spec fn active_meter_of(m: &MoveInfo) -> Seq<char> {
    active_meter(frame_tokens(m.active@), meter_mode(), "🟥\u{200b}"@, "🔷\u{200b}"@)
}

/// The recovery meter of a move in the frame meter command.
pub open spec fn recovery_meter_of(m: &MoveInfo) -> (Seq<char>, bool) {
    recovery_meter(frame_tokens(count_text(m.recovery)), meter_mode(), "🔷\u{200b}"@)
}

/// Whether the startup meter of a move can be drawn.
pub fn startup_frames_drawable(move_info: &MoveInfo) -> (r: bool)
    ensures
        r == startup_meter_of(move_info).1,
{
    let text = count_to_string(move_info.startup);
    let v = sep_frame_vec(text.as_str());
    let g = chars_of("🟢\u{200b}");
    let (_, ok) = draw_startup(&v, 65535, false, &g);
    ok
}

/// The startup frames of a move as a row of green circles.
pub fn startup_frames(move_info: &MoveInfo) -> (r: String)
    requires
        startup_meter_of(move_info).1,
    ensures
        r@ == startup_meter_of(move_info).0,
{
    let text = count_to_string(move_info.startup);
    let v = sep_frame_vec(text.as_str());
    let g = chars_of("🟢\u{200b}");
    let (t, _) = draw_startup(&v, 65535, false, &g);
    string_of(&t)
}

/// The active frames of a move as a row of red squares (blue diamonds
/// inside round brackets).
pub fn active_frames(move_info: &MoveInfo) -> (r: String)
    ensures
        r@ == active_meter_of(move_info),
{
    let v = sep_frame_vec(move_info.active.as_str());
    let red = chars_of("🟥\u{200b}");
    let blue = chars_of("🔷\u{200b}");
    let t = draw_active(&v, 65535, false, &red, &blue);
    string_of(&t)
}

/// Whether the recovery meter of a move can be drawn.
pub fn recovery_frames_drawable(move_info: &MoveInfo) -> (r: bool)
    ensures
        r == recovery_meter_of(move_info).1,
{
    let text = count_to_string(move_info.recovery);
    let v = sep_frame_vec(text.as_str());
    let blue = chars_of("🔷\u{200b}");
    let (_, ok) = draw_recovery(&v, 65535, false, &blue);
    ok
}

/// The recovery frames of a move as a row of blue diamonds.
pub fn recovery_frames(move_info: &MoveInfo) -> (r: String)
    requires
        recovery_meter_of(move_info).1,
    ensures
        r@ == recovery_meter_of(move_info).0,
{
    let text = count_to_string(move_info.recovery);
    let v = sep_frame_vec(text.as_str());
    let blue = chars_of("🔷\u{200b}");
    let (t, _) = draw_recovery(&v, 65535, false, &blue);
    string_of(&t)
}

/// The whole frame meter of a move: startup, active and recovery, in code quotes.
pub fn meter_line(move_info: &MoveInfo) -> (r: String)
    requires
        startup_meter_of(move_info).1,
        recovery_meter_of(move_info).1,
    ensures
        r@ == "`"@ + startup_meter_of(move_info).0 + active_meter_of(move_info)
            + recovery_meter_of(move_info).0 + "`"@,
{
    let mut v = chars_of("`");
    let s = startup_frames(move_info);
    extend_str(&mut v, s.as_str());
    let a = active_frames(move_info);
    extend_str(&mut v, a.as_str());
    let rc = recovery_frames(move_info);
    extend_str(&mut v, rc.as_str());
    extend_str(&mut v, "`");
    string_of(&v)
}

/// The startup meter of a move in the frame meter message.
pub open spec fn fmeter_startup_of(m: &MoveInfo) -> (Seq<char>, bool) {
    startup_meter(frame_tokens(count_text(m.startup)), fmeter_mode(), "🟢"@)
}

/// The recovery meter of a move in the frame meter message.
pub open spec fn fmeter_recovery_of(m: &MoveInfo) -> (Seq<char>, bool) {
    recovery_meter(frame_tokens(count_text(m.recovery)), fmeter_mode(), "🔷"@)
}

/// The frame meter message of a move: each kind of frame with its value
/// and its meter.
pub open spec fn fmeter_text(m: &MoveInfo) -> Seq<char> {
    "__発生__: "@ + count_text(m.startup) + " → `"@ + fmeter_startup_of(m).0 + "`\n__持続__: "@
        + m.active@ + " → `"@ + active_meter(frame_tokens(m.active@), fmeter_mode(), "🟥"@, "🔷"@)
        + "`\n__硬直__: "@ + count_text(m.recovery) + " → `"@ + fmeter_recovery_of(m).0 + "`"@
}

/// Whether the frame meter message of a move can be drawn.
pub fn fmeter_drawable(move_info: &MoveInfo) -> (r: bool)
    ensures
        r == (fmeter_startup_of(move_info).1 && fmeter_recovery_of(move_info).1),
{
    let st = count_to_string(move_info.startup);
    let sv = sep_frame_vec(st.as_str());
    let g = chars_of("🟢");
    let (_, ok1) = draw_startup(&sv, 127, true, &g);
    let rt = count_to_string(move_info.recovery);
    let rv = sep_frame_vec(rt.as_str());
    let blue = chars_of("🔷");
    let (_, ok2) = draw_recovery(&rv, 127, true, &blue);
    ok1 && ok2
}

/// The frame meter message of a move.
pub fn fmeter_message(move_info: &MoveInfo) -> (r: String)
    requires
        fmeter_startup_of(move_info).1,
        fmeter_recovery_of(move_info).1,
    ensures
        r@ == fmeter_text(move_info),
{
    let green = chars_of("🟢");
    let red = chars_of("🟥");
    let blue = chars_of("🔷");
    let st = count_to_string(move_info.startup);
    let sv = sep_frame_vec(st.as_str());
    let (sm, _) = draw_startup(&sv, 127, true, &green);
    let av = sep_frame_vec(move_info.active.as_str());
    let am = draw_active(&av, 127, true, &red, &blue);
    let rt = count_to_string(move_info.recovery);
    let rv = sep_frame_vec(rt.as_str());
    let (rm, _) = draw_recovery(&rv, 127, true, &blue);
    let mut v = chars_of("__発生__: ");
    extend_str(&mut v, st.as_str());
    extend_str(&mut v, " → `");
    extend_chars(&mut v, &sm);
    extend_str(&mut v, "`\n__持続__: ");
    extend_str(&mut v, move_info.active.as_str());
    extend_str(&mut v, " → `");
    extend_chars(&mut v, &am);
    extend_str(&mut v, "`\n__硬直__: ");
    extend_str(&mut v, rt.as_str());
    extend_str(&mut v, " → `");
    extend_chars(&mut v, &rm);
    extend_str(&mut v, "`");
    string_of(&v)
}

/// A meter of a single count `n` draws one symbol per frame: `n - 1`
/// startup symbols (the last startup frame is the first active one) when
/// `n` is at least 2, `n` active symbols, and `n` recovery symbols when `n`
/// is at least 1.
pub proof fn lemma_single_count_meters(t: Seq<char>, mode: CountMode, g: Seq<char>, red: Seq<char>, blue: Seq<char>)
    requires
        bounded_count(t, mode.limit as nat) is Some,
    ensures
        ({
            let n = bounded_count(t, mode.limit as nat)->0;
            &&& n >= 2 ==> startup_meter(seq![t], mode, g) == (repeat(g, (n - 1) as nat), true)
            &&& active_meter(seq![t], mode, red, blue) == repeat(red, n)
            &&& n >= 1 ==> recovery_meter(seq![t], mode, blue) == (repeat(blue, n), true)
        }),
{
    let v = seq![t];
    reveal_strlit("-");
    all_digits_dash_false();
    assert(v[0] != "-"@);
    assert(startup_run(v, 0, mode, g) == start_state());
    assert(active_run(v, 0, mode, red, blue) == start_state());
    assert(recovery_run(v, 0, mode, blue) == start_state());
    assert(startup_run(v, 1, mode, g) == startup_step(v, 0, start_state(), mode, g));
    assert(active_run(v, 1, mode, red, blue) == active_step(v, 0, start_state(), mode, red, blue));
    assert(recovery_run(v, 1, mode, blue) == recovery_step(v, 0, start_state(), mode, blue));
    assert(Seq::<char>::empty() + repeat(red, bounded_count(t, mode.limit as nat)->0) =~= repeat(red, bounded_count(t, mode.limit as nat)->0));
    assert(Seq::<char>::empty() + repeat(blue, bounded_count(t, mode.limit as nat)->0) =~= repeat(blue, bounded_count(t, mode.limit as nat)->0));
    if bounded_count(t, mode.limit as nat)->0 >= 2 {
        let k = (bounded_count(t, mode.limit as nat)->0 - 1) as nat;
        assert(Seq::<char>::empty() + repeat(g, k) =~= repeat(g, k));
    }
}

/// The dash is no count.
proof fn all_digits_dash_false()
    ensures
        !crate::text::all_digits("-"@),
{
    reveal_strlit("-");
    assert("-"@[0] == '-');
}

/// `kept` keeps no droppable token.
proof fn lemma_kept_clean(v: Seq<Seq<char>>)
    ensures
        forall|i: int| 0 <= i < kept(v).len() ==> !droppable(#[trigger] kept(v)[i]),
    decreases v.len(),
{
    if v.len() > 0 {
        lemma_kept_clean(v.drop_last());
        let before = kept(v.drop_last());
        if !droppable(v.last()) {
            assert forall|i: int| 0 <= i < kept(v).len() implies !droppable(#[trigger] kept(v)[i]) by {
                if i < before.len() {
                    assert(kept(v)[i] == before[i]);
                }
            }
        }
    }
}

/// The tokens of frame data hold no empty token, no lone space and no
/// `total` (in any case).
pub proof fn lemma_frame_tokens_clean(s: Seq<char>)
    ensures
        forall|i: int| 0 <= i < frame_tokens(s).len() ==> !droppable(#[trigger] frame_tokens(s)[i]),
{
    lemma_kept_clean(tokens_from(s, Seq::<char>::empty()));
}

/// The digit character of a value below ten is an ASCII digit with that value.
proof fn lemma_digit_char(d: nat)
    requires
        d < 10,
    ensures
        is_digit(crate::text::digit_char(d)),
        (crate::text::digit_char(d) as u32) == d + 48,
{
    let b: u8 = (d + 48) as u8;
    assert(b as u32 == d + 48);
    assert((b as char) as u32 == b as u32);
}

/// The decimal numeral of a number is a run of ASCII digits worth that number.
proof fn lemma_decimal_digits(n: nat)
    ensures
        crate::text::all_digits(crate::text::decimal(n)),
        crate::text::digits_value(crate::text::decimal(n)) == n,
    decreases n,
{
    let d = crate::text::decimal(n);
    if n >= 10 {
        lemma_decimal_digits(n / 10);
        lemma_digit_char(n % 10);
        let e = crate::text::decimal(n / 10);
        assert(d.drop_last() =~= e);
        assert forall|i: int| 0 <= i < d.len() implies is_digit(#[trigger] d[i]) by {
            if i < e.len() {
                assert(d[i] == e[i]);
            }
        }
        assert(crate::text::digits_value(d) == crate::text::digits_value(e) * 10 + n % 10);
    } else {
        lemma_digit_char(n);
        assert(d.drop_last() =~= Seq::<char>::empty());
        assert(crate::text::digits_value(d) == crate::text::digits_value(d.drop_last()) * 10 + n);
    }
}

/// A run of ASCII digits after a run of digits (or nothing) stays one token.
proof fn lemma_digit_tokens(s: Seq<char>, run: Seq<char>)
    requires
        forall|i: int| 0 <= i < s.len() ==> is_digit(#[trigger] s[i]),
        run.len() == 0 || is_digit(run.last()),
    ensures
        tokens_from(s, run) == flushed(run + s),
    decreases s.len(),
{
    if s.len() > 0 {
        assert(is_digit(s[0]));
        lemma_digit_tokens(s.drop_first(), run.push(s[0]));
        assert(run.push(s[0]) + s.drop_first() =~= run + s);
    } else {
        assert(run + s =~= run);
    }
}

/// A run of ASCII digits is one frame token.
proof fn lemma_digits_one_token(s: Seq<char>)
    requires
        crate::text::all_digits(s),
    ensures
        frame_tokens(s) == seq![s],
{
    lemma_digit_tokens(s, Seq::<char>::empty());
    assert(Seq::<char>::empty() + s =~= s);
    let raw = tokens_from(s, Seq::<char>::empty());
    assert(raw =~= seq![s]);
    reveal_strlit("total");
    reveal_strlit(" ");
    assert(crate::text::is_ascii_text(s));
    assert(lowercase(s)[0] == s[0]);
    assert(!droppable(s));
    assert(raw.drop_last() =~= Seq::<Seq<char>>::empty());
    assert(kept(Seq::<Seq<char>>::empty()) == Seq::<Seq<char>>::empty());
    assert(kept(raw) =~= seq![s]);
}

/// A plain count draws one symbol per frame: a startup of `n` (at least 2)
/// draws `n - 1` green circles, an active text that is the numeral of `a`
/// draws `a` red squares, and a recovery of `r` (at least 1) draws `r` blue
/// diamonds, both in the frame meter view and in the frame meter message.
pub proof fn lemma_plain_count_meters(m: MoveInfo, a: nat)
    ensures
        m.startup matches Some(n) ==> (2 <= n <= 127 ==> fmeter_startup_of(&m) == (repeat("🟢"@, (n - 1) as nat), true)),
        m.startup matches Some(n) ==> (2 <= n <= 65535 ==> startup_meter_of(&m) == (repeat("🟢\u{200b}"@, (n - 1) as nat), true)),
        m.active@ == crate::text::decimal(a) && a <= 65535 ==> active_meter_of(&m) == repeat("🟥\u{200b}"@, a),
        m.recovery matches Some(r) ==> (1 <= r <= 127 ==> fmeter_recovery_of(&m) == (repeat("🔷"@, r as nat), true)),
        m.recovery matches Some(r) ==> (1 <= r <= 65535 ==> recovery_meter_of(&m) == (repeat("🔷\u{200b}"@, r as nat), true)),
{
    if let Some(n) = m.startup {
        if n >= 0 {
            let t = crate::text::decimal(n as nat);
            lemma_decimal_digits(n as nat);
            lemma_digits_one_token(t);
            assert(count_text(m.startup) == t);
            if n <= 127 {
                lemma_single_count_meters(t, fmeter_mode(), "🟢"@, "🟥"@, "🔷"@);
            }
            if n <= 65535 {
                lemma_single_count_meters(t, meter_mode(), "🟢\u{200b}"@, "🟥\u{200b}"@, "🔷\u{200b}"@);
            }
        }
    }
    if m.active@ == crate::text::decimal(a) && a <= 65535 {
        lemma_decimal_digits(a);
        lemma_digits_one_token(m.active@);
        lemma_single_count_meters(m.active@, meter_mode(), "🟢\u{200b}"@, "🟥\u{200b}"@, "🔷\u{200b}"@);
    }
    if let Some(r) = m.recovery {
        if r >= 0 {
            let t = crate::text::decimal(r as nat);
            lemma_decimal_digits(r as nat);
            lemma_digits_one_token(t);
            assert(count_text(m.recovery) == t);
            if r <= 127 {
                lemma_single_count_meters(t, fmeter_mode(), "🟢"@, "🟥"@, "🔷"@);
            }
            if r <= 65535 {
                lemma_single_count_meters(t, meter_mode(), "🟢\u{200b}"@, "🟥\u{200b}"@, "🔷\u{200b}"@);
            }
        }
    }
}

/// The frame meter message of a move when its startup and recovery can be
/// drawn; `None` otherwise.
pub fn checked_fmeter_message(move_info: &MoveInfo) -> (r: Option<String>)
    ensures
        (fmeter_startup_of(move_info).1 && fmeter_recovery_of(move_info).1) ==> (r matches Some(t)
            && t@ == fmeter_text(move_info)),
        !(fmeter_startup_of(move_info).1 && fmeter_recovery_of(move_info).1) ==> r is None,
{
    if fmeter_drawable(move_info) {
        Some(fmeter_message(move_info))
    } else {
        None
    }
}

/// Digits followed by a separator: the digits join the current digit run.
proof fn lemma_digits_then(d: Seq<char>, rest: Seq<char>, run: Seq<char>)
    requires
        forall|i: int| 0 <= i < d.len() ==> is_digit(#[trigger] d[i]),
        run.len() == 0 || is_digit(run.last()),
    ensures
        tokens_from(d + rest, run) == tokens_from(rest, run + d),
    decreases d.len(),
{
    if d.len() > 0 {
        assert(is_digit(d[0]));
        assert((d + rest).drop_first() =~= d.drop_first() + rest);
        assert((d + rest)[0] == d[0]);
        lemma_digits_then(d.drop_first(), rest, run.push(d[0]));
        assert(run.push(d[0]) + d.drop_first() =~= run + d);
    } else {
        assert(d + rest =~= rest);
        assert(run + d =~= run);
    }
}

/// A kept token list without droppable tokens is itself.
proof fn lemma_kept_all(v: Seq<Seq<char>>)
    requires
        forall|i: int| 0 <= i < v.len() ==> !droppable(#[trigger] v[i]),
    ensures
        kept(v) == v,
    decreases v.len(),
{
    if v.len() > 0 {
        lemma_kept_all(v.drop_last());
        assert(!droppable(v[v.len() - 1]));
        assert(v.drop_last().push(v.last()) =~= v);
    }
}

/// A run of digits is not droppable.
proof fn lemma_digits_kept(s: Seq<char>)
    requires
        crate::text::all_digits(s),
    ensures
        !droppable(s),
{
    reveal_strlit("total");
    reveal_strlit(" ");
    assert(crate::text::is_ascii_text(s));
    assert(lowercase(s)[0] == s[0]);
}

/// The active meter of `a(b)c`, for counts `a`, `b` and `c`: `a` red
/// symbols, the bracket, `b` blue symbols (frames inside round brackets),
/// the closing bracket, then `c` red symbols.
pub proof fn lemma_active_meter_brackets(a: nat, b: nat, c: nat, mode: CountMode, red: Seq<char>, blue: Seq<char>)
    requires
        a <= mode.limit,
        b <= mode.limit,
        c <= mode.limit,
    ensures
        active_meter(
            frame_tokens(crate::text::decimal(a) + "("@ + crate::text::decimal(b) + ")"@ + crate::text::decimal(c)),
            mode,
            red,
            blue,
        ) == repeat(red, a) + "("@ + repeat(blue, b) + ")"@ + repeat(red, c),
{
    reveal_strlit("(");
    reveal_strlit(")");
    reveal_strlit("total");
    reveal_strlit(" ");
    reveal_strlit("-");
    let da = crate::text::decimal(a);
    let db = crate::text::decimal(b);
    let dc = crate::text::decimal(c);
    lemma_decimal_digits(a);
    lemma_decimal_digits(b);
    lemma_decimal_digits(c);
    let op = "("@;
    let cl = ")"@;
    assert(op =~= seq!['(']);
    assert(cl =~= seq![')']);
    let e = Seq::<char>::empty();
    let r1 = op + db + cl + dc;
    let r2 = db + cl + dc;
    let r3 = cl + dc;
    let text = da + op + db + cl + dc;
    assert(text =~= da + r1);
    lemma_digits_then(da, r1, e);
    assert(e + da =~= da);
    assert(r1[0] == '(');
    assert(r1.drop_first() =~= r2);
    assert(tokens_from(r1, da) == flushed(da) + (seq![seq![r1[0]]] + tokens_from(r2, e)));
    assert(r2 =~= db + r3);
    lemma_digits_then(db, r3, e);
    assert(e + db =~= db);
    assert(r3[0] == ')');
    assert(r3.drop_first() =~= dc);
    assert(tokens_from(r3, db) == flushed(db) + (seq![seq![r3[0]]] + tokens_from(dc, e)));
    lemma_digit_tokens(dc, e);
    assert(e + dc =~= dc);
    let v = seq![da, op, db, cl, dc];
    assert(tokens_from(text, e) =~= v);
    lemma_digits_kept(da);
    lemma_digits_kept(db);
    lemma_digits_kept(dc);
    assert(" "@ =~= seq![' ']);
    assert("total"@.len() == 5);
    assert(('(' as u32) < 128 && (')' as u32) < 128);
    assert(crate::text::is_ascii_text(op));
    assert(crate::text::is_ascii_text(cl));
    assert(lowercase(op).len() == 1);
    assert(lowercase(cl).len() == 1);
    assert(op != " "@ && cl != " "@);
    assert(!droppable(op));
    assert(!droppable(cl));
    assert forall|i: int| 0 <= i < v.len() implies !droppable(#[trigger] v[i]) by {
        if i == 0 {} else if i == 1 {} else if i == 2 {} else if i == 3 {} else {}
    }
    lemma_kept_all(v);
    assert(frame_tokens(text) == v);
    assert(!crate::text::all_digits(op));
    assert(!crate::text::all_digits(cl));
    assert(v[1] == op && v[3] == cl);
    let s0 = active_run(v, 0, mode, red, blue);
    let s1 = active_run(v, 1, mode, red, blue);
    let s2 = active_run(v, 2, mode, red, blue);
    let s3 = active_run(v, 3, mode, red, blue);
    let s4 = active_run(v, 4, mode, red, blue);
    let s5 = active_run(v, 5, mode, red, blue);
    assert(s0 == start_state());
    assert(s1.text =~= repeat(red, a) && !s1.open);
    assert(s2.text =~= repeat(red, a) + op && s2.open);
    assert(s3.text =~= repeat(red, a) + op + repeat(blue, b) && s3.open);
    assert(s4.text =~= repeat(red, a) + op + repeat(blue, b) + cl && !s4.open);
    assert(s5.text =~= repeat(red, a) + op + repeat(blue, b) + cl + repeat(red, c));
}

} // verus!
