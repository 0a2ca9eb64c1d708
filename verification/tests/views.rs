use baiken::embeds::{checked_meter_embeds, create_meter_embeds, create_move_embed, find_move_image, get_move_image_url, make_character_url};
use baiken::find::Nicknames;
use baiken::hitboxes::{create_hitbox_embeds, find_hitbox_move};
use baiken::meter::{active_frames, checked_fmeter_message, fmeter_message, meter_line, recovery_frames, startup_frames};
use baiken::moves::{get_normal_moves, nicknames_message};
use baiken::test_utils::{create_test_move_aliases, create_test_move_info};
use baiken::ImageLinks;

fn symbols(s: &str, n: usize) -> String {
    s.repeat(n)
}

#[test]
fn fmeter_message_draws_each_phase() {
    let moves = create_test_move_info();
    assert_eq!(
        fmeter_message(&moves[0]),
        format!(
            "__発生__: 4 → `{}`\n__持続__: 3 → `{}`\n__硬直__: 9 → `{}`",
            symbols("🟢", 3),
            symbols("🟥", 3),
            symbols("🔷", 9)
        )
    );
}

#[test]
fn meter_rows_of_a_move() {
    let moves = create_test_move_info();
    let g = "🟢\u{200b}";
    let r = "🟥\u{200b}";
    let b = "🔷\u{200b}";
    assert_eq!(meter_line(&moves[0]), format!("`{}{}{}`", symbols(g, 3), symbols(r, 3), symbols(b, 9)));
    assert_eq!(startup_frames(&moves[1]), symbols(g, 12));
    assert_eq!(active_frames(&moves[1]), "UntilHit");
    assert_eq!(recovery_frames(&moves[1]), symbols(b, 24));
    let embeds = create_meter_embeds(&moves[0], "img", "Sol_Badguy");
    assert_eq!(embeds.len(), 2);
    assert_eq!(embeds[0].fields[0].value, symbols(g, 3));
    assert_eq!(embeds[1].description.as_deref(), Some(meter_line(&moves[0]).as_str()));
}

#[test]
fn simple_view_fields() {
    let moves = create_test_move_info();
    let e = create_move_embed(&moves[0], "img", "Sol_Badguy");
    assert_eq!(e.url.as_deref(), Some("https://dustloop.com/w/GGST/Sol_Badguy#Overview"));
    assert_eq!(e.image.as_deref(), Some("img"));
    let names: Vec<&str> = e.fields.iter().map(|f| f.name.as_str()).collect();
    assert_eq!(names, vec!["ダメージ", "ガード", "無敵", "始動", "持続", "硬直", "ヒット時", "ガード時", "カウンター"]);
    assert_eq!(e.fields[0].value, "26");
    assert_eq!(e.fields[3].value, "4");
    assert_eq!(make_character_url("May"), "https://dustloop.com/w/GGST/May#Overview");
}

#[test]
fn hitbox_views_one_per_image() {
    let moves = create_test_move_info();
    let aliases = create_test_move_aliases();
    let links = vec![ImageLinks {
        input: "5P".to_string(),
        move_img: "m".to_string(),
        hitbox_img: vec!["h1".to_string(), String::new(), "h2".to_string()],
    }];
    let embeds = create_hitbox_embeds(&moves[0], &links, "Sol_Badguy");
    assert_eq!(embeds.len(), 2);
    assert_eq!(embeds[0].image.as_deref(), Some("h1"));
    assert_eq!(embeds[1].image.as_deref(), Some("h2"));
    assert_eq!(embeds[0].footer.as_deref(), Some("Move has 2 hitbox images."));
    assert_eq!(get_move_image_url(&moves[0], &links), "m");
    assert_eq!(find_move_image(&moves[0], &links), "m");
    assert_eq!(find_hitbox_move("Sol_Badguy", "5p", &moves, &aliases, &links).unwrap().name, "Punch");
}

#[test]
fn move_list_and_nicknames_texts() {
    let moves = create_test_move_info();
    let aliases = create_test_move_aliases();
    assert_eq!(get_normal_moves(&moves, &aliases), "\n- **5P / Punch**\n\tAliases → `Punch`, `P`\n");
    let ns = vec![Nicknames {
        character: "May".to_string(),
        nicknames: vec!["メイ".to_string(), "イルカ娘".to_string()],
    }];
    assert_eq!(
        nicknames_message(&ns),
        "__**Character Nicknames**__\n```diff\n* Character: May\n+ Nicknames: メイ, イルカ娘.\n```"
    );
}

#[test]
fn checked_meters_draw_when_they_can() {
    let mut moves = create_test_move_info();
    assert_eq!(checked_fmeter_message(&moves[0]), Some(fmeter_message(&moves[0])));
    assert!(checked_meter_embeds(&moves[0], "img", "May").is_some());
    moves[0].startup = Some(200);
    assert_eq!(checked_fmeter_message(&moves[0]), None);
    assert!(checked_meter_embeds(&moves[0], "img", "May").is_some());
    moves[0].startup = Some(70000);
    assert!(checked_meter_embeds(&moves[0], "img", "May").is_none());
}
