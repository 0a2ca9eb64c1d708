//! The common rewriting of the wiki's JSON text: move notation and English
//! names become the bot's Japanese notation.
use vstd::prelude::*;
use crate::text::{contains_seq, lemma_replaced_absent, owned, replace_str, replaced};

verus! {

/// Whether `Regex::new` accepts a pattern with these characters.
pub uninterp spec fn regex_compiles(pattern: Seq<char>) -> bool;

/// What `Regex::replace_all` gives for a regex compiled from `pattern`, a
/// text and a replacement (in which `$1` stands for the first group).
pub uninterp spec fn regex_replaced(pattern: Seq<char>, text: Seq<char>, rep: Seq<char>) -> Seq<char>;

/// Whether a character of a pattern matches only itself: an ASCII letter or
/// digit, the space or `"` (none of them is a regex metacharacter).
pub open spec fn plain_char(c: char) -> bool {
    ('0' <= c && c <= '9') || ('a' <= c && c <= 'z') || ('A' <= c && c <= 'Z') || c == ' ' || c
        == '"'
}

/// Whether a pattern is a non-empty run of plain characters, which matches
/// exactly the occurrences of itself.
pub open spec fn plain_pattern(p: Seq<char>) -> bool {
    p.len() > 0 && forall|i: int| 0 <= i < p.len() ==> plain_char(#[trigger] p[i])
}

/// Whether a replacement holds no `$`, so that it is inserted as it is.
pub open spec fn literal_replacement(r: Seq<char>) -> bool {
    forall|i: int| 0 <= i < r.len() ==> #[trigger] r[i] != '$'
}

/// Whether every match of a pattern begins with its first character: that
/// character is plain, the second is no quantifier (`?`, `*`, `+`, `{`), and
/// the pattern has no alternation (`|`).
pub open spec fn leads_with_literal(p: Seq<char>) -> bool {
    &&& p.len() >= 2
    &&& plain_char(p[0])
    &&& !(p[1] == '?' || p[1] == '*' || p[1] == '+' || p[1] == '{')
    &&& forall|i: int| 0 <= i < p.len() ==> #[trigger] p[i] != '|'
}

/// What `Regex::replace_all` gives: for a plain pattern and a replacement
/// without `$`, every occurrence of the pattern replaced (as `str::replace`
/// does); for a pattern whose matches begin with a character the text does
/// not hold, the text itself (no match); otherwise the named result.
pub open spec fn regex_result(pattern: Seq<char>, text: Seq<char>, rep: Seq<char>) -> Seq<char> {
    if plain_pattern(pattern) && literal_replacement(rep) {
        replaced(text, pattern, rep)
    } else if leads_with_literal(pattern) && !text.contains(pattern[0]) {
        text
    } else {
        regex_replaced(pattern, text, rep)
    }
}

/// The regex crate's compiled regular expression.
#[verifier::external_type_specification]
#[verifier::external_body]
pub struct ExRegex(regex::Regex);

/// A regular expression compiled from a pattern, kept with its pattern.
pub struct CompiledRegex {
    pattern: String,
    re: regex::Regex,
}

impl View for CompiledRegex {
    type V = Seq<char>;

    /// The pattern the expression was compiled from.
    closed spec fn view(&self) -> Seq<char> {
        self.pattern@
    }
}

/// `regex::Regex::new`: `None` exactly when the pattern does not compile
/// (the contract names this `regex_compiles`; the regex syntax and the size
/// limit are not restated). The expression is kept with its pattern.
#[verifier::external_body]
fn compile(pattern: &str) -> (r: Option<CompiledRegex>)
    ensures
        r is Some <==> regex_compiles(pattern@),
        r matches Some(c) ==> c@ == pattern@,
{
    match regex::Regex::new(pattern) {
        Ok(re) => Some(CompiledRegex { pattern: pattern.to_string(), re }),
        Err(_) => None,
    }
}

/// `regex::Regex::replace_all`: the text with every non-overlapping match,
/// found from the left, replaced; a text with no match comes back as it is,
/// a literal character matches only itself, and a replacement without `$`
/// is inserted as written (as the crate documents). The contract names the
/// result `regex_replaced` over the expression's pattern, the text and the
/// replacement, and states it for plain patterns and for texts that lack
/// the character every match begins with; the other matching rules are not
/// restated.
#[verifier::external_body]
fn replace_matches(c: &CompiledRegex, text: &str, rep: &str) -> (r: String)
    ensures
        r@ == regex_replaced(c@, text@, rep@),
        plain_pattern(c@) && literal_replacement(rep@) ==> r@ == replaced(text@, c@, rep@),
        leads_with_literal(c@) && !text@.contains(c@[0]) ==> r@ == text@,
{
    c.re.replace_all(text, rep).into_owned()
}

/// One regex step: the text rewritten by the pattern, or unchanged when the
/// pattern does not compile.
pub open spec fn regex_step(text: Seq<char>, pattern: Seq<char>, rep: Seq<char>) -> Seq<char> {
    if regex_compiles(pattern) {
        regex_result(pattern, text, rep)
    } else {
        text
    }
}

/// Rewrites a text by a regex, leaving it as it is when the pattern does not
/// compile.
fn rewrite(text: String, pattern: &str, rep: &str) -> (r: String)
    ensures
        r@ == regex_step(text@, pattern@, rep@),
{
    match compile(pattern) {
        Some(c) => replace_matches(&c, text.as_str(), rep),
        None => text,
    }
}

/// The five regex steps: close and far slash, jump moves, and the two
/// knockdowns, in this order.
pub open spec fn regex_stage(text: Seq<char>) -> Seq<char> {
    let a = regex_step(text, "\"c.S\""@, "\"近S\""@);
    let b = regex_step(a, "\"f.S\""@, "\"遠S\""@);
    let c = regex_step(b, "\"j\\.(.+?)\""@, "\"j$1\""@);
    let d = regex_step(c, "HKD "@, "強制ダウン"@);
    regex_step(d, "KD "@, "ダウン"@)
}

/// `s` with each pair of `pairs` applied in turn: every occurrence of the
/// first text replaced by the second (a pair with an empty first text
/// leaves it as it is).
pub open spec fn replace_each(s: Seq<char>, pairs: Seq<(Seq<char>, Seq<char>)>) -> Seq<char>
    decreases pairs.len(),
{
    if pairs.len() == 0 {
        s
    } else {
        replaced(replace_each(s, pairs.drop_last()), pairs.last().0, pairs.last().1)
    }
}

/// The replacement table: each English text and the text it becomes.
pub const REPLACEMENTS: [(&'static str, &'static str); 593] = [
    (r#""All""#, r#""上段""#),
    (r#""All (Guard Crush)""#, r#""上段(ガードクラッシュ)""#),
    (r#""High""#, r#""中段""#),
    (r#""Low""#, r#""下段""#),
    (r#""w.""#, r#""w""#),
    (r#""w6H""#, r#""w6HS""#),
    (r#""wH""#, r#""wHS""#),
    (r#"j.6D"#, r#"j6D"#),
    (r#""Sweep""#, r#""足払い""#),
    (r#""Uncharged""#, r#""ダスト""#),
    (r#""Dust Attack""#, r#""ダスト""#),
    (r#""Charged Dust Attack""#, r#""溜めダスト""#),
    (r#""2H""#, r#""2HS""#),
    (r#""5H""#, r#""5HS""#),
    (r#""6H""#, r#""6HS""#),
    (r#""jH""#, r#""jHS""#),
    (r#""236H""#, r#""236HS""#),
    (r#""j236H""#, r#""j236HS""#),
    (r#""623H""#, r#""623HS""#),
    (r#""214H""#, r#""214HS""#),
    (r#""41236H""#, r#""41236HS""#),
    (r#""632146H""#, r#""632146HS""#),
    (r#""63214H""#, r#""63214HS""#),
    (r#""j632146H""#, r#""j632146HS""#),
    (r#""236236H""#, r#""236236HS""#),
    (r#""j236236H""#, r#""j236236HS""#),
    (r#""214214H""#, r#""214214HS""#),
    (r#""j623H""#, r#""j623HS""#),
    (r#""Wild Assault""#, r#""ワイルドアサルト""#),
    (r#""Charged Wild Assault""#, r#""溜めワイルドアサルト""#),
    (r#""Wild Assault (Hold)""#, r#""溜めワイルドアサルト""#),
    (r#""Ground Throw""#, r#""投げ""#),
    (r#""Air Throw""#, r#""空投げ""#),
    (r#""JR 2H""#, r#""JR2HS""#),
    (r#""JR 2K""#, r#""JR2K""#),
    (r#""JR 2P""#, r#""JR2P""#),
    (r#""JR 2S""#, r#""JR2S""#),
    (r#""JR 5H""#, r#""JR5HS""#),
    (r#""JR 5K""#, r#""JR5K""#),
    (r#""JR 5P""#, r#""JR5P""#),
    (r#""JR 6H""#, r#""JR6HS""#),
    (r#""JR 6P""#, r#""JR6P""#),
    (r#""JR c.S""#, r#""JR近S""#),
    (r#""JR f.S""#, r#""JR遠S""#),
    (r#""JR j.D""#, r#""JRjD""#),
    (r#""JR j.H""#, r#""JRjHS""#),
    (r#""JR j.K""#, r#""JRjK""#),
    (r#""JR j.P""#, r#""JRjP""#),
    (r#""JR j.S""#, r#""JRjS""#),
    (r#""236S~6S""#, r#""236S6S""#),
    (r#""JR 214H""#, r#""JR214HS""#),
    (r#""JR 214K""#, r#""JR214K""#),
    (r#""JR 236K""#, r#""JR236K""#),
    (r#""JR 236S""#, r#""JR236S""#),
    (r#""JR 236S~6S""#, r#""JR236S6S""#),
    (r#""JR 63214P""#, r#""JR63214P""#),
    (r#""JR Deactivation""#, r#""JR解除""#),
    (r#""JR 632146H""#, r#""JR632146HS""#),
    (r#""JR 632146K""#, r#""JR632146K""#),
    (r#""Bonding and Dissolving""#, r#""結合と変性""#),
    (r#""Haul and Heed""#, r#""牽引と随順""#),
    (r#""Frenzy and Astonishment""#, r#""逆上と驚愕""#),
    (r#""Intertwine and Tilt""#, r#""戮力と傾動""#),
    (r#""Menace and Groan""#, r#""威喝と嗚咽""#),
    (r#""Restriction and Constraint""#, r#""抑圧と束縛""#),
    (r#""Judgment and Sentiment""#, r#""断罪と情動""#),
    (r#""Changing and Swaying""#, r#""変転と感化""#),
    (r#""JR Bonding and Dissolving""#, r#""JR結合と変性""#),
    (r#""JR Haul and Heed""#, r#""JR牽引と随順""#),
    (r#""JR Intertwine and Tilt""#, r#""JR戮力と傾動""#),
    (r#""JR Menace and Groan""#, r#""JR威喝と嗚咽""#),
    (r#""JR Restriction and Constraint""#, r#""JR抑圧と束縛""#),
    (r#""JR Changing and Swaying""#, r#""JR変転と感化""#),
    (r#""Jealous Rage Deactivation""#, r#""JR解除""#),
    (r#""The Law is Key, Key is King.""#, r#""鍵の支配""#),
    (r#""Keeper of the Key""#, r#""鍵の守護者""#),
    (r#""JR The Law is Key, Key is King.""#, r#""JR鍵の支配""#),
    (r#""JR Keeper of the Key""#, r#""JR鍵の守護者""#),
    (r#""Shitsu""#, r#""疾""#),
    (r#""Suigetsu No Hakobi""#, r#""水月のハコビ""#),
    (r#""Kou""#, r#""紅""#),
    (r#""Fuujin""#, r#""風神""#),
    (r#""Shin: Ichishiki""#, r#""針・壱式""#),
    (r#""Issokutobi""#, r#""一足飛び""#),
    (r#""Nagiha""#, r#""凪刃""#),
    (r#""Rin""#, r#""臨""#),
    (r#""Midare""#, r#""乱""#),
    (r#""Issei Ougi: Sai""#, r#""一誠奥義「彩」""#),
    (r#""Kachoufuugetsu Kai""#, r#""花鳥風月改""#),
    (r#""Near Kachoufuugetsu Kai""#, r#""花鳥風月近""#),
    (r#""Far Kachoufuugetsu Kai""#, r#""花鳥風月遠""#),
    (r#""Draw""#, r#""ブックマーク(ドロー)""#),
    (r#""Discard""#, r#""ブックマーク(破棄)""#),
    (r#""Snail""#, r#""蝸牛""#),
    (r#""Whistling Wind""#, r#""虎落笛""#),
    (r#""Rainwater""#, r#""潦""#),
    (r#""Whistling Wind (Charged)""#, r#""溜め虎落笛""#),
    (r#""Winter Mantis""#, r#""冬蟷螂""#),
    (r#""Air Snail""#, r#""空中蝸牛""#),
    (r#""Axl Bomber""#, r#""アクセルボンバー""#),
    (r#""Sickle Flash""#, r#""鎌閃撃""#),
    (r#""Spinning Chain Strike""#, r#""旋鎖撃""#),
    (r#""Soaring Chain Strike""#, r#""曲鎖撃""#),
    (r#""Winter Cherry""#, r#""鬼灯""#),
    (r#""Sickle Storm""#, r#""百重鎌焼""#),
    (r#""One Vision""#, r#""ワンヴィジョン""#),
    (r#""Ground Throw (Tether)""#, r#""投げ""#),
    (r#""Ground Throw (Knockback)""#, r#""溜め投げ""#),
    (r#""41236HS~HS""#, r#""41236HSHS""#),
    (r#""Tatami Gaeshi""#, r#""畳返し""#),
    (r#""Air Tatami Gaeshi""#, r#""空中畳返し""#),
    (r#""H Kabari""#, r#""HS蚊鉤""#),
    (r#""S Kabari""#, r#""S蚊鉤""#),
    (r#""Kabari""#, r#""蚊鉤""#),
    (r#""41236HH""#, r#""HS蚊鉤追撃""#),
    (r#""41236H~H""#, r#""41236HSHS""#),
    (r#""Kabari Followup""#, r#""HS蚊鉤追撃""#),
    (r#""Youzansen""#, r#""妖斬扇""#),
    (r#""Hiiragi""#, r#""柊""#),
    (r#""Tsurane Sanzu-watashi""#, r#""連ね三途渡し""#),
    (r#""Kenjyu""#, r#""拳銃""#),
    (r#"Regular Throw"#, r#"溜め投げ"#),
    (r#"Air Kenjyu"#, r#"空中拳銃"#),
    (r#""Rolling Movement""#, r#""ローリング移動""#),
    (r#""Stop and Dash""#, r#""ストップアンドダッシュ""#),
    (r#""Kick Start My Heart""#, r#""キックスタートマイハート""#),
    (r#""Shoot""#, r#""発射""#),
    (r#""Brake""#, r#""停止""#),
    (r#""Starship""#, r#""スターシップ""#),
    (r#""Roger Dive""#, r#""ロジャーダイブ""#),
    (r#""Rock the Baby""#, r#""ロックザベイビー""#),
    (r#""Air Rock the Baby""#, r#""空中ロックザベイビー""#),
    (r#""Return of the Killing Machine""#, r#""帰ってきたキルマシーン""#),
    (r#""214S/H""#, r#""214S/HS""#),
    (r#""Loop the Loop""#, r#""ループザループ""#),
    (r#""j6236S""#, r#""j623S""#),
    (r#""Wall Run""#, r#""壁走り""#),
    (r#""Wall Run ""#, r#""壁走り""#),
    (r#""壁走りH""#, r#""壁走りHS""#),
    (r#""壁走り6H""#, r#""壁走り6HS""#),
    (r#""Tightrope""#, r#""綱張り""#),
    (r#""214[H]""#, r#""214[HS]""#),
    (r#""Gamma Blade""#, r#""γブレード""#),
    (r#""Alpha Blade (Diagonal)""#, r#""αブレード・斜め""#),
    (r#""Alpha Blade (Horizontal)""#, r#""αブレード・横""#),
    (r#""Resshou""#, r#""冽掌""#),
    (r#""Rokusai""#, r#""麓砕""#),
    (r#""Senshuu""#, r#""穿踵""#),
    (r#""Beta Blade""#, r#""βブレード""#),
    (r#""Genrouzan""#, r#""幻朧斬""#),
    (r#""Shuriken""#, r#""手裏剣""#),
    (r#""Air Alpha Blade (Diagonal)""#, r#""空中αブレード・斜め""#),
    (r#""Air Alpha Blade (Horizontal)""#, r#""空中αブレード・横""#),
    (r#""Air Beta Blade""#, r#""空中βブレード""#),
    (r#""Banki Messai""#, r#""万鬼滅砕""#),
    (r#""Zansei Rouga""#, r#""斬星狼牙""#),
    (r#""Air Zansei Rouga""#, r#""空中斬星狼牙""#),
    (r#""214S~H""#, r#""214SHS""#),
    (r#""214S~K""#, r#""214SK""#),
    (r#""214S~P""#, r#""214SP""#),
    (r#""214S~P/K~K""#, r#""214SP/KK""#),
    (r#""214S~P/K~P""#, r#""214SP/KP""#),
    (r#""236S/H""#, r#""236S/HS""#),
    (r#""j236S/H""#, r#""j236S/HS""#),
    (r#""236236K Explosion""#, r#""236236K爆発""#),
    (r#""Bomb-Bomb Chocolat""#, r#""ボンボン・ショコラ""#),
    (r#""Miss Charlotte (Out of Repair)""#, r#""Missシャルロット（お手入れ不足）""#),
    (r#""Here I Go!""#, r#""やります！""#),
    (r#""Nailed It!""#, r#""決めます！""#),
    (r#""Down Low!""#, r#""下から！""#),
    (r#""Up High!""#, r#""上から！""#),
    (r#""Down Low! (Finisher)""#, r#""下から！（フィニッシュ）""#),
    (r#""Up High! (Finisher)""#, r#""上から！（フィニッシュ）""#),
    (r#""Miss Charlotte""#, r#""Missシャルロット""#),
    (r#""Air Miss Charlotte""#, r#""空中Missシャルロット""#),
    (r#""Bomb-Bombnnière""#, r#""ボンボニエール""#),
    (r#""Bomb-Bombnnière Explosion""#, r#""ボンボニエール爆発""#),
    (r#""Juganto Da Parfeo""#, r#""ジュガント ダ パルフェーオ""#),
    (r#""Thrust""#, r#""突きます。""#),
    (r#""Thrust (Charged)""#, r#""溜め突きます。""#),
    (r#""Pull Back""#, r#""引き戻し""#),
    (r#""Home Run!""#, r#""ナイスショット""#),
    (r#""Hole In One""#, r#""ナイスショット""#),
    (r#""Hole in One!""#, r#""ナイスショット""#),
    (r#""What Could This Be? (Eat)""#, r#""何が出るかな？（食べる）""#),
    (r#""What Could This Be? (Spit)""#, r#""何が出るかな？（射出）""#),
    (r#""What Could This Be?""#, r#""何が出るかな？""#),
    (r#""Mix Mix Mix""#, r#""涅和混練""#),
    (r#""Air Mix Mix Mix""#, r#""空中涅和混練""#),
    (r#""Snip Snip Snip""#, r#""メッタ刈り""#),
    (r#""Love""#, r#""愛""#),
    (r#""Scarecrow""#, r#""P久延毘古""#),
    (r#""P Scarecrow""#, r#""P久延毘古""#),
    (r#""S Scarecrow""#, r#""S久延毘古""#),
    (r#""K Scarecrow""#, r#""K久延毘古""#),
    (r#""Bone-crushing Excitement""#, r#""エキサイティング骨折""#),
    (r#""W-W-What Could This Be?""#, r#""な・な・な・なにがでるかな？""#),
    (r#""W-W-W-W-W-W-W-W-W-What Could This Be?""#, r#""な・な・な・な・な・な・な・な・な・なにがでるかな？""#),
    (r#""Bomb""#, r#""爆弾""#),
    (r#""Banana""#, r#""バナナ""#),
    (r#""Donut""#, r#""ドーナツ""#),
    (r#""Afro""#, r#""アフロ""#),
    (r#""Hammer""#, r#""ハンマー""#),
    (r#""Mini Faust""#, r#""ちびファウスト""#),
    (r#""Horn""#, r#""ラッパ""#),
    (r#""100T Weight""#, r#""100t重り""#),
    (r#""Earthquake""#, r#""100t重り""#),
    (r#""Meteors""#, r#""メテオ""#),
    (r#""Love Afro""#, r#""愛アフロ""#),
    (r#""6236S""#, r#""623S""#),
    (r#""6HH""#, r#""6HSHS""#),
    (r#""6HHH""#, r#""6HSHSHS""#),
    (r#""Chave""#, r#""シャーヴィ""#),
    (r#""Sepultura""#, r#""セパルトゥラ""#),
    (r#""Sol Poente""#, r#""ソウ・ポエンチ""#),
    (r#""Trovao""#, r#""トロヴァォン""#),
    (r#""Trovão""#, r#""トロヴァォン""#),
    (r#""Enhanced Trovão""#, r#""シャーヴィトロヴァォン""#),
    (r#""Sol Nascente""#, r#""ソウ・ナセンテ""#),
    (r#""Air Sol Poente""#, r#""空中ソウ・ナセンテ""#),
    (r#""Ventania""#, r#""ヴェンターニア""#),
    (r#""Tempestade""#, r#""テンペスターヂ""#),
    (r#""214H~6K""#, r#""214HS6K""#),
    (r#""Thunderbird (Level 1)""#, r#""サンダーバード""#),
    (r#""Thunderbird (Level 2)""#, r#""サンダーバード2""#),
    (r#""Thunderbird (Level 3)""#, r#""サンダーバード3""#),
    (r#""Skyfish (Level 1)""#, r#""スカイフィッシュ""#),
    (r#""Skyfish (Level 2)""#, r#""スカイフィッシュ2""#),
    (r#""Skyfish (Level 3)""#, r#""スカイフィッシュ3""#),
    (r#""Behemoth Typhoon (248)""#, r#""ベヒーモスタイフーン""#),
    (r#""Behemoth Typhoon (268)""#, r#""ベヒーモスタイフーン""#),
    (r#""Behemoth Typhoon (426)""#, r#""ベヒーモスタイフーン""#),
    (r#""Behemoth Typhoon (486)""#, r#""ベヒーモスタイフーン""#),
    (r#""Behemoth Typhoon (624)""#, r#""ベヒーモスタイフーン""#),
    (r#""Behemoth Typhoon (684)""#, r#""ベヒーモスタイフーン""#),
    (r#""Behemoth Typhoon (842)""#, r#""ベヒーモスタイフーン""#),
    (r#""Behemoth Typhoon (862)""#, r#""ベヒーモスタイフーン""#),
    (r#""Air Behemoth Typhoon (248)""#, r#""空中ベヒーモスタイフーン""#),
    (r#""Air Behemoth Typhoon (268)""#, r#""空中ベヒーモスタイフーン""#),
    (r#""Air Behemoth Typhoon (426)""#, r#""空中ベヒーモスタイフーン""#),
    (r#""Air Behemoth Typhoon (486)""#, r#""空中ベヒーモスタイフーン""#),
    (r#""Air Behemoth Typhoon (624)""#, r#""空中ベヒーモスタイフーン""#),
    (r#""Air Behemoth Typhoon (684)""#, r#""空中ベヒーモスタイフーン""#),
    (r#""Air Behemoth Typhoon (842)""#, r#""空中ベヒーモスタイフーン""#),
    (r#""Air Behemoth Typhoon (862)""#, r#""空中ベヒーモスタイフーン""#),
    (r#""Burn It Down (Level 1)""#, r#""バーン・イット・ダウン""#),
    (r#""Burn It Down (Level 2)""#, r#""バーン・イット・ダウン2""#),
    (r#""Burn It Down (Level 3)""#, r#""バーン・イット・ダウン3""#),
    (r#""Down With The System""#, r#""ダウン・ウィズ・ザ・システム""#),
    (r#""Down With The System (720)""#, r#""ダウン・ウィズ・ザ・システム""#),
    (r#""Down With The System (1080)""#, r#""ダウン・ウィズ・ザ・システム""#),
    (r#""214S Level 1""#, r#""214S""#),
    (r#""214S Level 2""#, r#""214S2""#),
    (r#""214S Level 3""#, r#""214S3""#),
    (r#""236S Level 1""#, r#""236S""#),
    (r#""236S Level 2""#, r#""236S2""#),
    (r#""236S Level 3""#, r#""236S3""#),
    (r#""236236K Level 1""#, r#""236236K""#),
    (r#""236236K Level 2""#, r#""236236K2""#),
    (r#""236236K Level 3""#, r#""236236K3""#),
    (r#""21478H""#, r#""21478HS""#),
    (r#""23698H""#, r#""23698HS""#),
    (r#""47896H""#, r#""47896HS""#),
    (r#""69874H""#, r#""69874HS""#),
    (r#""87412H""#, r#""87412HS""#),
    (r#""89632H""#, r#""89632HS""#),
    (r#""j21478H""#, r#""j21478HS""#),
    (r#""j23698H""#, r#""j23698HS""#),
    (r#""j41236H""#, r#""j41236HS""#),
    (r#""j47896H""#, r#""j47896HS""#),
    (r#""j63214H""#, r#""j63214HS""#),
    (r#""j69874H""#, r#""j69874HS""#),
    (r#""j87412H""#, r#""j87412HS""#),
    (r#""j89632H""#, r#""j89632HS""#),
    (r#""214S 214S""#, r#""214S214S""#),
    (r#""236S 2H""#, r#""236S2HS""#),
    (r#""236S H""#, r#""236SHS""#),
    (r#""H""#, r#""銃を構える(HS)""#),
    (r#""Roll""#, r#""前転""#),
    (r#""Focus""#, r#""フォーカス""#),
    (r#""Steady Aim""#, r#""しっかり狙いを定める""#),
    (r#""Cancel Aim""#, r#""構え解除""#),
    (r#""Fire""#, r#""射撃""#),
    (r#""Reload""#, r#""リロード""#),
    (r#""Scapegoat""#, r#""スケープゴート""#),
    (r#""Curse""#, r#""カース""#),
    (r#""At the Ready""#, r#""銃を構える""#),
    (r#""Super Focus""#, r#""超フォーカス""#),
    (r#""Deus Ex Machina""#, r#""デウス・エクス・マキナ""#),
    (r#""Chemical Love""#, r#""ケミカル愛情""#),
    (r#""Antidepressant Scale""#, r#""抗鬱音階""#),
    (r#""Mad Love Agitato""#, r#""狂愛アジタート""#),
    (r#""H Stroke the Big Tree""#, r#""HS大木をさする手""#),
    (r#""S Stroke the Big Tree""#, r#""S大木をさする手""#),
    (r#""Air Chemical Love""#, r#""空中ケミカル愛情""#),
    (r#""Air Antidepressant Scale""#, r#""空中抗鬱音階""#),
    (r#""H Sultry Performance""#, r#""HS狂言実行""#),
    (r#""H Leap""#, r#""H跳躍""#),
    (r#""K Sultry Performance""#, r#""K狂言実行""#),
    (r#""K Leap""#, r#""K跳躍""#),
    (r#""S Sultry Performance""#, r#""S狂言実行""#),
    (r#""S Leap""#, r#""S跳躍""#),
    (r#""H Sultry Performance (charged)""#, r#""溜めHS狂言実行""#),
    (r#""K Sultry Performance (charged)""#, r#""溜めK狂言実行""#),
    (r#""S Sultry Performance (charged)""#, r#""溜めS狂言実行""#),
    (r#""Megalomania""#, r#""メガロマニア""#),
    (r#""Ultimate Fortissimo""#, r#""限界フォルテッシモ""#),
    (r#""Air Ultimate Fortissimo""#, r#""空中限界フォルテッシモ""#),
    (r#""Countdown""#, r#""カウントダウン""#),
    (r#""Attack Command""#, r#""攻撃指示""#),
    (r#""Recover Servant""#, r#""回収""#),
    (r#""Defend Command""#, r#""防御指示""#),
    (r#""Servant Shoot""#, r#""サーヴァントシュート""#),
    (r#""Summon Servant""#, r#""サーヴァント召喚""#),
    (r#""Pick Up Servant""#, r#""サーヴァントを持ち上げる""#),
    (r#""Throw Servant""#, r#""サーヴァントを投げる""#),
    (r#""Servant""#, r#""サーヴァント""#),
    (r#""Release Servant""#, r#""サーヴァントを放す""#),
    (r#""Air Servant Shoot""#, r#""空中サーヴァントシュート""#),
    (r#""Held Attack Command""#, r#""防御指示""#),
    (r#""Held Defend Command""#, r#""ディフェンスコマンド""#),
    (r#""Cheer Servant On (H)""#, r#""HSサーヴァントを激励する""#),
    (r#""Cheer Servant On (S)""#, r#""Sサーヴァントを激励すす""#),
    (r#""Forever Elysion Driver""#, r#""フォーエヴァーエリシオンドライバー""#),
    (r#""236HH""#, r#""236HSHS""#),
    (r#""Ensenga""#, r#""燕穿牙""#),
    (r#""Mist Finer Stance""#, r#""ミストファイナー構え""#),
    (r#""Mist Finer (Horizontal)""#, r#""ミストファイナー（横）""#),
    (r#""Mist Finer (Upward)""#, r#""ミストファイナー（上）""#),
    (r#""Mist Finer (Downward)""#, r#""ミストファイナー（下）""#),
    (r#""Vault""#, r#""跳躍""#),
    (r#""Vault Deal""#, r#""跳躍ディール""#),
    (r#""Deal""#, r#""ディール""#),
    (r#""Turn Up""#, r#""ミストファイナー（カードヒット時）""#),
    (r#""Mist Finer Cancel""#, r#""ミストファイナーキャンセル""#),
    (r#""Air Mist Finer (Horizontal)""#, r#""空中ミストファイナー（横）""#),
    (r#""Air Mist Finer (Upward)""#, r#""空中ミストファイナー（上）""#),
    (r#""Air Mist Finer (Downward)""#, r#""空中ミストファイナー（下）""#),
    (r#""Air Deal""#, r#""空中ディール""#),
    (r#""Mist Finer Dash (Backward)""#, r#""ミストファイナーバックステップ""#),
    (r#""Mist Finer Dash (Forward)""#, r#""ミストファイナー前ステップ""#),
    (r#""Joker Trick""#, r#""ジョーカートリック""#),
    (r#""That&#039;s My Name""#, r#""それが俺の名だ""#),
    (r#""Foudre Arc""#, r#""フードゥルアルク""#),
    (r#""Dire Eclat""#, r#""ダイアエクラ""#),
    (r#""Charged Stun Edge""#, r#""スタンエッジ・チャージアタック""#),
    (r#""Stun Dipper""#, r#""スタンディッパー""#),
    (r#""Stun Edge""#, r#""スタンエッジ""#),
    (r#""H Vapor Thrust""#, r#""HSヴェイパースラスト""#),
    (r#""S Vapor Thrust""#, r#""ヴェイパースラスト""#),
    (r#""DI Foudre Arc""#, r#""ドラゴンインストールフードゥルアルク""#),
    (r#""DI Dire Eclat""#, r#""ドラゴンインストールダイアエクラ""#),
    (r#""DI Charged Stun Edge""#, r#""ドラゴンインストールスタンエッジ・チャージアタック""#),
    (r#""DI Stun Dipper""#, r#""ドラゴンインストールスタンディッパー""#),
    (r#""DI Stun Edge""#, r#""ドラゴンインストールスタンエッジ""#),
    (r#""DI H Vapor Thrust""#, r#""ドラゴンインストールH ヴェイパースラスト""#),
    (r#""DI S Vapor Thrust""#, r#""ドラゴンインストールヴェイパースラスト""#),
    (r#""DI Aerial H Stun Edge""#, r#""ドラゴンインストール空中HSスタンエッジ""#),
    (r#""DI Aerial S Stun Edge""#, r#""ドラゴンインストール空中スタンエッジ""#),
    (r#""DI Air H Vapor Thrust""#, r#""ドラゴンインストール空中HSヴェイパースラスト""#),
    (r#""DI Air S Vapor Thrust""#, r#""ドラゴンインストール空中ヴェイパースラスト""#),
    (r#""Aerial H Stun Edge""#, r#""空中HSスタンエッジ""#),
    (r#""Aerial S Stun Edge""#, r#""空中スタンエッジ""#),
    (r#""Air H Vapor Thrust""#, r#""空中HSヴェイパースラスト""#),
    (r#""Air S Vapor Thrust""#, r#""空中ヴェイパースラスト""#),
    (r#""Dragon Install""#, r#""ドラゴンインストール""#),
    (r#""Sacred Edge""#, r#""セイクリッドエッジ""#),
    (r#""Ride the Lightning""#, r#""ライドザライトニング""#),
    (r#""DI Sacred Edge""#, r#""ドラゴンインストールセイクリッドエッジ""#),
    (r#""DI Ride the Lightning""#, r#""ドラゴンインストールライドザライトニング""#),
    (r#""DI Air Ride the Lightning""#, r#""ドラゴンインストール空中ライドザライトニング""#),
    (r#""Air Ride the Lightning""#, r#""空中ライドザライトニング""#),
    (r#""Brynhildr Cancel""#, r#""ブリュンヒルドの構え解除""#),
    (r#""Kahn Schild""#, r#""カーンシルト""#),
    (r#""Turbulenz""#, r#""トゥルブレンツ""#),
    (r#""Kaltes Gestöber Zweit""#, r#""ツヴァイト・カルタスゲシュトゥーバー""#),
    (r#""Kaltes Gestöber Erst""#, r#""エアースト・カルタスゲシュトゥーバー""#),
    (r#""Blitzschlag""#, r#""ブリッツシュラーク""#),
    (r#""Gländzendes Dunkel""#, r#""グレンツェンドゥンケル""#),
    (r#""H Eisen Sturm""#, r#""HSアイゼンシュトルム""#),
    (r#""S Eisen Sturm""#, r#""Sアイゼンシュトルム""#),
    (r#""H Graviert Wurde""#, r#""HSグラヴィエットヴァーダ""#),
    (r#""S Graviert Wurde""#, r#""Sグラヴィエットヴァーダ""#),
    (r#""Leidenschaft des Dirigenten""#, r#""ライデンシャフトディリガント""#),
    (r#""Stahl Wirbel""#, r#""シュタイルヴァービル""#),
    (r#""input":"bt.66","name":"bt.66""#, r#""input":"bt.66","name":"ブリュンヒルデの構え66""#),
    (r#""input":"bt.44","name":"bt.44""#, r#""input":"bt.44","name":"ブリュンヒルデの構え44""#),
    (r#""input":"bt.K","name":"bt.K""#, r#""input":"bt.K","name":"ブリュンヒルデの構えK""#),
    (r#""input":"bt.P","name":"bt.P""#, r#""input":"bt.P","name":"ブリュンヒルデの構えP""#),
    (r#""input":"bt.S","name":"bt.S""#, r#""input":"bt.S","name":"ブリュンヒルデの構えS""#),
    (r#""input":"bt.HS","name":"bt.HS""#, r#""input":"bt.HS","name":"ブリュンヒルデの構えHS""#),
    (r#""bt."#, r#""bt"#),
    (r#""K Arisugawa Sparkle""#, r#""K有栖川""#),
    (r#""P Arisugawa Sparkle""#, r#""P有栖川""#),
    (r#""Overhead Kiss""#, r#""オーバーヘッドキッス""#),
    (r#""H Mr. Dolphin Vertical""#, r#""HS縦イルカ""#),
    (r#""S Mr. Dolphin Vertical""#, r#""S縦イルカ""#),
    (r#""H Mr. Dolphin Horizontal""#, r#""HS横イルカ""#),
    (r#""S Mr. Dolphin Horizontal""#, r#""S横イルカ""#),
    (r#""Split""#, r#""分離""#),
    (r#""Whiff""#, r#""停止""#),
    (r#""Great Yamada Attack""#, r#""グレート山田アタック""#),
    (r#""The Wonderful and Dynamic Goshogawara""#, r#""ワンダフル五所川原ダイナミック""#),
    (r#""Air The Wonderful and Dynamic Goshogawara""#, r#""空中ワンダフル五所川原ダイナミック""#),
    (r#""[2]8H""#, r#""[2]8HS""#),
    (r#""[4]6S/H~K""#, r#""[4]6SK/[4]6HSK""#),
    (r#""[4]6S/H~P""#, r#""[4]6SP/[4]6HSP""#),
    (r#""Tandem Top""#, r#""Sタンデム""#),
    (r#""H Tandem Top""#, r#""HSタンデム""#),
    (r#""Lust Shaker""#, r#""ラストシェイカー""#),
    (r#""Iron Savior""#, r#""アイアンセイバー""#),
    (r#""Bad Moon""#, r#""バッドムーン""#),
    (r#""Turbo Fall""#, r#""高速落下""#),
    (r#""Mirazh""#, r#""ミラーシュ""#),
    (r#""Kapel""#, r#""カピエル""#),
    (r#""Septem Voices""#, r#""セプテムヴォイシズ""#),
    (r#""Winger""#, r#""ヴィンガー""#),
    (r#""Artemis""#, r#""アルテミス""#),
    (r#""input":"2H Level 1","name":"Level 1""#, r#""input":"2HS1","name":"2HS Level 1""#),
    (r#""input":"2H Level 2","name":"Level 2""#, r#""input":"2HS2","name":"2HS Level 2""#),
    (r#""input":"2H Level 3","name":"Level 3""#, r#""input":"2HS3","name":"2HS Level 3""#),
    (r#""input":"2H Level 2,"name":"Level 2""#, r#""input":"2HS2","name":"2HS Level 2""#),
    (r#""input":"2S Level 1","name":"Level 1""#, r#""input":"2S1","name":"2S Level 1""#),
    (r#""input":"2S Level 2","name":"Level 2""#, r#""input":"2S2","name":"2S Level 2""#),
    (r#""input":"2S Level 3","name":"Level 3""#, r#""input":"2S3","name":"2S Level 3""#),
    (r#""input":"5H Level 1","name":"Level 1""#, r#""input":"5HS1","name":"5HS Level 1""#),
    (r#""input":"5H Level 2","name":"Level 2""#, r#""input":"5HS2","name":"5HS Level 2""#),
    (r#""input":"5H Level 3","name":"Level 3""#, r#""input":"5HS3","name":"5HS Level 3""#),
    (r#""input":"6H Level 1","name":"Level 1""#, r#""input":"6HS1","name":"6HS Level 1""#),
    (r#""input":"6H Level 2","name":"Level 2""#, r#""input":"6HS2","name":"6HS Level 2""#),
    (r#""input":"6H Level 3","name":"Level 3""#, r#""input":"6HS3","name":"6HS Level 3""#),
    (r#""input":"f.S Level 1","name":"Level 1""#, r#""input":"遠S1","name":"遠S Level 1""#),
    (r#""input":"f.S Level 2","name":"Level 2""#, r#""input":"遠S2","name":"遠S Level 2""#),
    (r#""input":"f.S Level 3","name":"Level 3""#, r#""input":"遠S3","name":"遠S Level 3""#),
    (r#""input":"f.SS Level 1","name":"Level 1""#, r#""input":"遠SS1","name":"遠SS Level 1""#),
    (r#""input":"f.SS Level 2","name":"Level 2""#, r#""input":"遠SS2","name":"遠SS Level 2""#),
    (r#""input":"f.SS Level 3","name":"Level 3""#, r#""input":"遠SS3","name":"遠SS Level 3""#),
    (r#""input":"f.SSS Level 1","name":"Level 1""#, r#""input":"遠SSS1","name":"遠SSS Level 1""#),
    (r#""input":"f.SSS Level 2","name":"Level 2""#, r#""input":"遠SSS2","name":"遠SSS Level 2""#),
    (r#""input":"f.SSS Level 3","name":"Level 3""#, r#""input":"遠SSS3","name":"遠SSS Level 3""#),
    (r#""input":"jS Level 1","name":"Level 1""#, r#""input":"jS1","name":"jS Level 1""#),
    (r#""input":"jS Level 2","name":"Level 2""#, r#""input":"jS2","name":"jS Level 2""#),
    (r#""input":"jS Level 3","name":"Level 3""#, r#""input":"jS3","name":"jS Level 3""#),
    (r#""input":"jD Level 1","name":"Level 1""#, r#""input":"jD1","name":"jD Level 1""#),
    (r#""input":"jD Level 2","name":"Level 2""#, r#""input":"jD2","name":"jD Level 2""#),
    (r#""input":"jD Level 3","name":"Level 3""#, r#""input":"jD3","name":"jD Level 3""#),
    (r#""input":"jH Level 1","name":"Level 1""#, r#""input":"jHS1","name":"jHS Level 1""#),
    (r#""input":"jH Level 2","name":"Level 2""#, r#""input":"jHS2","name":"jHS Level 2""#),
    (r#""input":"jH Level 3","name":"Level 3""#, r#""input":"jHS3","name":"jHS Level 3""#),
    (r#""input":"2H Level BR","name":"Blood Rage""#, r#""input":"2SBR","name":"2S Level BR""#),
    (r#""input":"2S Level BR","name":"Blood Rage""#, r#""input":"2SBR","name":"2S Level BR""#),
    (r#""input":"5S Level BR","name":"Blood Rage""#, r#""input":"5HSBR","name":"5S Level BR""#),
    (r#""input":"5H Level BR","name":"Blood Rage""#, r#""input":"5HSBR","name":"5S Level BR""#),
    (r#""input":"6S Level BR","name":"Blood Rage""#, r#""input":"6HSBR","name":"6HS Level BR""#),
    (r#""input":"f.S Level BR","name":"Blood Rage""#, r#""input":"遠SBR","name":"遠S Level BR""#),
    (r#""input":"f.SS Level BR","name":"Blood Rage""#, r#""input":"遠SSBR","name":"遠SS Level BR""#),
    (r#""input":"f.SSS Level BR","name":"Blood Rage""#, r#""input":"遠SSSBR","name":"遠SSS Level BR""#),
    (r#""input":"jD Level BR","name":"Blood Rage""#, r#""input":"jDBR","name":"jD Level BR""#),
    (r#""input":"jH Level BR","name":"Blood Rage""#, r#""input":"jHSBR","name":"jHS Level BR""#),
    (r#""input":"jS Level BR","name":"Blood Rage""#, r#""input":"jSBR","name":"jS Level BR""#),
    (r#""input":"6H Level BR","name":"Blood Rage""#, r#""input":"6HSBR","name":"6HS Level BR""#),
    (r#""Kamuriyuki""#, r#""冠雪""#),
    (r#""Backward Fukyo""#, r#""後ろ不香""#),
    (r#""Forward Fukyo""#, r#""不香""#),
    (r#""Zarameyuki""#, r#""粒雪""#),
    (r#""Shizuriyuki (1)""#, r#""垂雪""#),
    (r#""Shizuriyuki (2)""#, r#""垂雪追撃""#),
    (r#""Zansetsu""#, r#""残雪""#),
    (r#""Wasureyuki""#, r#""忘れ雪""#),
    (r#""623HH""#, r#""623HSHS""#),
    (r#""H Bajoneto""#, r#""HSバヨネート""#),
    (r#""S Bajoneto""#, r#""Sバヨネート""#),
    (r#""Dauro""#, r#""ダウロ""#),
    (r#""Sildo Detruo""#, r#""シルド""#),
    (r#""Air Sildo Detruo""#, r#""空中シルド""#),
    (r#""Sabrubato""#, r#""サブロバート""#),
    (r#""Erarlumo (3)""#, r#""エラルルーモ3""#),
    (r#""Erarlumo (2)""#, r#""エラルルーモ2""#),
    (r#""Erarlumo (1)""#, r#""エラルルーモ1""#),
    (r#""Agressa Ordono""#, r#""アグレーサ""#),
    (r#""Ondo""#, r#""オンド""#),
    (r#""Calvados""#, r#""カルヴァドス""#),
    (r#""Mortobato""#, r#""モルトバート""#),
    (r#""214P 214P 214P""#, r#""214P214P214P""#),
    (r#""214P 214P""#, r#""214P214PP""#),
    (r#""R.T.L Follow-up""#, r#""R.T.L.派生""#),
    (r#""H Michael Sword""#, r#""HSミカエルソード""#),
    (r#""We talked a lot together""#, r#""よく話し相手になってくれました""#),
    (r#""S Michael Sword""#, r#""Sミカエルソード""#),
    (r#""Wings of Light""#, r#""光の翼""#),
    (r#""For roasting chestnuts""#, r#""焼き栗が欲しい時に使ってたんです""#),
    (r#""I used this to catch fish""#, r#""魚を捕る時に使ってたんです""#),
    (r#""Ice Field""#, r#""氷原""#),
    (r#""Gamma Ray""#, r#""ガンマレイ""#),
    (r#""Imperial Ray""#, r#""インペリアルレイ""#),
    (r#""236S~6S/236H~6H""#, r#""236S6S/236HS6HS""#),
    (r#""Hammer Fall""#, r#""ハンマーフォール""#),
    (r#""Hammer Fall Break""#, r#""ハンマーフォールブレーキ""#),
    (r#""Potemkin Buster""#, r#""ポチョムキンバスター""#),
    (r#""Heat Knuckle""#, r#""ヒートナックル""#),
    (r#""Mega Fist""#, r#""メガフィスト・前方""#),
    (r#""B Mega Fist""#, r#""メガフィスト・後方""#),
    (r#""Forward Mega Fist""#, r#""メガフィスト・前方""#),
    (r#""Backward Mega Fist""#, r#""メガフィスト・後方""#),
    (r#""Slide Head""#, r#""スライドヘッド""#),
    (r#""Garuda Impact""#, r#""ガルダインパクト""#),
    (r#""Heavenly Potemkin Buster""#, r#""ヘブンリーポチョムキンバスター""#),
    (r#""Giganter Kai""#, r#""ガイガンダー改""#),
    (r#""Giganter Kai Barrier""#, r#""ガイガンダー改バリア""#),
    (r#""Giganter Kai (Barrier)""#, r#""ガイガンダー改バリア""#),
    (r#""[4]6H P""#, r#""[4]6HS P""#),
    (r#""[4]6H""#, r#""[4]6HS""#),
    (r#""Heat Tackle""#, r#""ヒートタックル""#),
    (r#""F.D.B. (Charged)""#, r#""溜めF.D.B.""#),
    (r#""Hoof Stomp""#, r#""フーフスタンプ""#),
    (r#""Hoof Stomp Follow-Up""#, r#""フーフスタンプ派生""#),
    (r#""Beak Driver""#, r#""ビークドライバー""#),
    (r#""Beak Driver Follow-Up""#, r#""ビークドライバー派生""#),
    (r#""Elk Hunt""#, r#""エルクハント""#),
    (r#""Elk Hunt Follow-Up""#, r#""エルクハント派生""#),
    (r#""Hawk Baker""#, r#""ホークベイカー""#),
    (r#""Hawk Baker Follow-Up""#, r#""ホークベイカー派生""#),
    (r#""Still Growing""#, r#""育ち盛りだからな。""#),
    (r#""Gazelle Step""#, r#""ガゼルステップ""#),
    (r#""Gazelle Step ""#, r#""ガゼルステップ""#),
    (r#""Gazelle Step Cancel""#, r#""ガゼルステップキャンセル""#),
    (r#""Tyrant Barrel""#, r#""タイランバレル""#),
    (r#""Tyrant Barrel Follow-up""#, r#""タイランレイブ""#),
    (r#""R.T.L""#, r#""R.T.L.""#),
    (r#""214S~S""#, r#""214SS""#),
    (r#""236H~H""#, r#""236HSHS""#),
    (r#""236K~K""#, r#""236KK""#),
    (r#""6236S~S""#, r#""623SS""#),
    (r#""236236P~]P[""#, r#""236236P]P[""#),
    (r#""632146HH""#, r#""632146HSHS""#),
    (r#""Dandy Step K""#, r#""ダンディーステップK""#),
    (r#""Dandy Step P""#, r#""ダンディーステップP""#),
    (r#""Master's Hammer""#, r#""マスターズハンマー""#),
    (r#""Master&#039;s Hammer""#, r#""マスターズハンマー""#),
    (r#""Bump Ahead""#, r#""バンプアヘッド""#),
    (r#""Pilebunker""#, r#""パイルバンカー""#),
    (r#""It's Late""#, r#""イッツレイト""#),
    (r#""It&#039;s Late""#, r#""イッツレイト""#),
    (r#""Last Horizon""#, r#""ラスト・ホライズン""#),
    (r#""Mappa Hunch K""#, r#""マッパハンチK""#),
    (r#""Mappa Hunch P""#, r#""マッパハンチP""#),
    (r#""Hand of Doom""#, r#""Hand of Doom""#),
    (r#""Super Mappa Hunch""#, r#""スーパーマッパハンチ""#),
    (r#""Bandit Bringer""#, r#""バンディットブリンガー""#),
    (r#""Gun Flame (Feint)""#, r#""ガンフレイムフェイント""#),
    (r#""Night Raid Vortex""#, r#""ヴォルテックス""#),
    (r#""Bandit Revolver (1)""#, r#""バンディットリボルバー""#),
    (r#""Bandit Revolver (2)""#, r#""バンディットリボルバー2""#),
    (r#""Gun Flame""#, r#""ガンフレイム""#),
    (r#""Fafnir""#, r#""ファフニール""#),
    (r#""H Volcanic Viper""#, r#""HSヴォルカニックヴァイパー""#),
    (r#""Wild Throw""#, r#""ぶっきらぼうに投げる""#),
    (r#""S Volcanic Viper""#, r#""ヴォルカニックファイパー""#),
    (r#""Aerial Bandit Bringer""#, r#""空中バンディットブリンガー""#),
    (r#""Aerial Bandit Revolver (1)""#, r#""空中バンディットリボルバー""#),
    (r#""Aerial Bandit Revolver (2)""#, r#""空中バンディットリボルバー2""#),
    (r#""Aerial H Volcanic Viper""#, r#""空中HSヴォルカニックヴァイパー""#),
    (r#""Aerial S Volcanic Viper""#, r#""空中ヴォルカニックヴァイパー""#),
    (r#""Heavy Mob Cemetery""#, r#""ヘヴィモブセメタリー""#),
    (r#""Tyrant Rave""#, r#""タイランレイブ""#),
    (r#""Possession""#, r#""ポゼッション""#),
    (r#""Unholy Diver""#, r#""アンホーリーダイバー""#),
    (r#""S Arbiter Sign""#, r#""Sアービターサイン""#),
    (r#""H Arbiter Sign""#, r#""HSアービターサイン""#),
    (r#""S Grave Reaper""#, r#""Sグレイヴリーパー""#),
    (r#""H Grave Reaper""#, r#""HSグレイヴリーパー""#),
    (r#""Stain""#, r#""ステイン""#),
    (r#""Calamity One""#, r#""カラミティ・ワン""#),
    (r#""Nostrovia""#, r#""ノストロヴィア""#),
    (r#""236[H]""#, r#""236[HS]""#),
    (r#""236{H}""#, r#""236{HS}""#),
    (r#""22H""#, r#""22HS""#),
    (r#""]H[""#, r#""]HS[""#),
    (r#""Unsummon Eddie""#, r#""エディ召喚""#),
    (r#""Summon Eddie""#, r#""エディ収納""#),
    (r#""Break The Law""#, r#""ブレイク・ザ・ロウ""#),
    (r#""Drunkard Shade""#, r#""ドランカーシェイド""#),
    (r#""Eddie Dash""#, r#""エディダッシュ""#),
    (r#""Eddie Teleport""#, r#""エディスワップ""#),
    (r#""Invite Hell""#, r#""インヴァイトヘル""#),
    (r#""Oppose""#, r#""「張り合う」""#),
    (r#""That's a lot""#, r#""「多い」""#),
    (r#""Pierce""#, r#""「突く」""#),
    (r#""Leap""#, r#""「跳ねる」""#),
    (r#""Damned Fang""#, r#""ダムドファング""#),
    (r#""Amorphous""#, r#""アモルファス""#),
    (r#""That&#039;s a lot""#, r#""「多い」""#),
    (r#""Sun Void""#, r#""サンヴォイド""#),
];

/// The replacement table as pairs of character sequences.
pub open spec fn replacement_table() -> Seq<(Seq<char>, Seq<char>)> {
    REPLACEMENTS@.map_values(|p: (&'static str, &'static str)| (p.0@, p.1@))
}

/// Applies every pair of the replacement table, in the table's order.
pub fn apply_replacement_table(text: &str) -> (r: String)
    ensures
        r@ == replace_each(text@, replacement_table()),
{
    let mut result = owned(text);
    assert(replacement_table().take(0) =~= Seq::<(Seq<char>, Seq<char>)>::empty());
    let mut i: usize = 0;
    while i < 593
        invariant
            i <= 593,
            result@ == replace_each(text@, replacement_table().take(i as int)),
        decreases 593 - i,
    {
        let (pattern, replacement) = REPLACEMENTS[i];
        proof {
            assert(replacement_table().take(i as int + 1).drop_last() =~= replacement_table().take(i as int));
        }
        result = replace_str(result.as_str(), pattern, replacement);
        i = i + 1;
    }
    assert(replacement_table().take(593) =~= replacement_table());
    result
}

/// Rewrites the wiki's JSON text into the bot's notation: first the regex
/// steps, then every pair of the replacement table.
pub fn preprocess_json(json: String) -> (r: String)
    ensures
        r@ == replace_each(regex_stage(json@), replacement_table()),
{
    let mut result = json;
    result = rewrite(result, "\"c.S\"", "\"近S\"");
    result = rewrite(result, "\"f.S\"", "\"遠S\"");
    result = rewrite(result, "\"j\\.(.+?)\"", "\"j$1\"");
    result = rewrite(result, "HKD ", "強制ダウン");
    result = rewrite(result, "KD ", "ダウン");
    apply_replacement_table(result.as_str())
}

/// Applying pairs whose first texts do not occur in a text changes nothing.
pub proof fn lemma_replace_each_unmatched(s: Seq<char>, pairs: Seq<(Seq<char>, Seq<char>)>)
    requires
        forall|k: int| 0 <= k < pairs.len() ==> !contains_seq(s, #[trigger] pairs[k].0),
    ensures
        replace_each(s, pairs) == s,
    decreases pairs.len(),
{
    if pairs.len() > 0 {
        let before = pairs.drop_last();
        assert forall|k: int| 0 <= k < before.len() implies !contains_seq(s, #[trigger] before[k].0) by {
            assert(before[k] == pairs[k]);
        }
        lemma_replace_each_unmatched(s, before);
        assert(!contains_seq(s, pairs[pairs.len() - 1].0));
        lemma_replaced_absent(s, pairs.last().0, pairs.last().1);
    }
}

/// The replacement table leaves a text in which none of its texts occurs
/// as it is.
pub proof fn lemma_table_leaves_unmatched_text(s: Seq<char>)
    requires
        forall|k: int| 0 <= k < replacement_table().len() ==> !contains_seq(s, #[trigger] replacement_table()[k].0),
    ensures
        replace_each(s, replacement_table()) == s,
{
    lemma_replace_each_unmatched(s, replacement_table());
}

/// A text that holds no `"` and no `KD ` comes through the regex steps as
/// it is: the first three patterns begin with `"`, and the last two are
/// plain texts that contain `KD `.
pub proof fn lemma_regex_stage_unchanged(text: Seq<char>)
    requires
        !text.contains('"'),
        !contains_seq(text, "KD "@),
    ensures
        regex_stage(text) == text,
{
    reveal_strlit("\"c.S\"");
    reveal_strlit("\"f.S\"");
    reveal_strlit("\"j\\.(.+?)\"");
    reveal_strlit("HKD ");
    reveal_strlit("KD ");
    reveal_strlit("強制ダウン");
    reveal_strlit("ダウン");
    let p1 = "\"c.S\""@;
    let p2 = "\"f.S\""@;
    let p3 = "\"j\\.(.+?)\""@;
    assert(p1.len() == 5 && p1[0] == '"' && p1[1] == 'c');
    assert(leads_with_literal(p1));
    assert(!plain_char(p1[2]));
    assert(p2.len() == 5 && p2[0] == '"' && p2[1] == 'f');
    assert(leads_with_literal(p2));
    assert(!plain_char(p2[2]));
    assert(p3.len() == 10 && p3[0] == '"' && p3[1] == 'j');
    assert(leads_with_literal(p3));
    assert(!plain_char(p3[2]));
    assert(regex_step(text, p1, "\"近S\""@) == text);
    assert(regex_step(text, p2, "\"遠S\""@) == text);
    assert(regex_step(text, p3, "\"j$1\""@) == text);
    assert("HKD "@ =~= seq!['H', 'K', 'D', ' ']);
    assert("KD "@ =~= seq!['K', 'D', ' ']);
    assert(plain_pattern("HKD "@));
    assert(plain_pattern("KD "@));
    assert(literal_replacement("強制ダウン"@));
    assert(literal_replacement("ダウン"@));
    assert(!contains_seq(text, "HKD "@)) by {
        if contains_seq(text, "HKD "@) {
            let i = choose|i: int| crate::text::occurs_at(text, "HKD "@, i);
            assert(text.subrange(i + 1, i + 4) =~= "KD "@);
            assert(crate::text::occurs_at(text, "KD "@, i + 1));
        }
    }
    lemma_replaced_absent(text, "HKD "@, "強制ダウン"@);
    lemma_replaced_absent(text, "KD "@, "ダウン"@);
    assert(regex_step(text, "HKD "@, "強制ダウン"@) == text);
    assert(regex_step(text, "KD "@, "ダウン"@) == text);
}

/// A text that holds a text holds each of its characters.
proof fn lemma_contains_char(s: Seq<char>, key: Seq<char>, c: char)
    requires
        contains_seq(s, key),
        key.contains(c),
    ensures
        s.contains(c),
{
    let i = choose|i: int| crate::text::occurs_at(s, key, i);
    let j = choose|j: int| 0 <= j < key.len() && key[j] == c;
    assert(s.subrange(i, i + key.len())[j] == s[i + j]);
}

/// The common rewriting leaves a text as it is when it holds no `"`, no
/// `KD ` and none of the table's texts without `"` (the others cannot occur
/// in it).
pub proof fn lemma_preprocess_unchanged(json: Seq<char>)
    requires
        !json.contains('"'),
        !contains_seq(json, "KD "@),
        forall|k: int|
            0 <= k < replacement_table().len() && !(#[trigger] replacement_table()[k]).0.contains('"')
                ==> !contains_seq(json, replacement_table()[k].0),
    ensures
        replace_each(regex_stage(json), replacement_table()) == json,
{
    lemma_regex_stage_unchanged(json);
    assert forall|k: int| 0 <= k < replacement_table().len() implies !contains_seq(json, #[trigger] replacement_table()[k].0) by {
        if replacement_table()[k].0.contains('"') && contains_seq(json, replacement_table()[k].0) {
            lemma_contains_char(json, replacement_table()[k].0, '"');
        }
    }
    lemma_table_leaves_unmatched_text(json);
}

} // verus!
