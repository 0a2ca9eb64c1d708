use baiken::hitboxes::simplified_move_input;
use baiken::meter::{active_frames, sep_frame_vec, startup_frames};
use baiken::models::{MoveAliases, MoveInfo};
use baiken::utils::{
    character_file_path, find_move, join_path, load_move_aliases, load_move_info,
    normalize_input, normalize_move_name, truncate_string,
};
use baiken::error::AppError;

fn sample(input: &str, name: &str, damage: i32, startup: i32, active: &str) -> MoveInfo {
    MoveInfo {
        input: input.to_string(),
        name: name.to_string(),
        damage: Some(damage),
        guard: "Mid".to_string(),
        startup: Some(startup),
        active: active.to_string(),
        recovery: Some(9),
        on_hit: "+2".to_string(),
        on_block: "-1".to_string(),
        level: "0".to_string(),
        counter: "3".to_string(),
        move_type: "Normal".to_string(),
        wall_damage: Some(9),
        invincibility: "None".to_string(),
        cancel: "Special, Super".to_string(),
        caption: String::new(),
        notes: String::new(),
    }
}

#[test]
fn test_normalize_input() {
    assert_eq!(normalize_input("5P"), "5p");
    assert_eq!(normalize_input("j.H"), "jh");
    assert_eq!(normalize_input("236 S"), "236s");
}

#[test]
fn test_normalize_move_name() {
    assert_eq!(normalize_move_name("Volcanic Viper"), "volcanicviper");
    assert_eq!(normalize_move_name("Gun Flame"), "gunflame");
    assert_eq!(
        normalize_move_name("Heavy Mob Cemetery"),
        "heavymobcemetery"
    );
}

#[test]
fn normalizing_twice_changes_nothing() {
    for s in ["j.H", "Gun Flame", "Ｊ．Ｈ", "a-b_c　d"] {
        let once = normalize_input(s);
        assert_eq!(normalize_input(&once), once);
        let once = normalize_move_name(s);
        assert_eq!(normalize_move_name(&once), once);
    }
}

#[test]
fn test_find_move() {
    let moves = vec![
        sample("5P", "Punch", 26, 4, "3"),
        sample("236P", "Gun Flame", 45, 20, "Until hit"),
    ];
    let aliases = vec![MoveAliases {
        input: "236P".to_string(),
        aliases: vec!["fireball".to_string(), "gf".to_string()],
    }];

    let result = find_move(&moves, &aliases, "5p");
    assert!(result.is_some());
    assert_eq!(result.unwrap().name, "Punch");

    let result = find_move(&moves, &aliases, "gun flame");
    assert!(result.is_some());
    assert_eq!(result.unwrap().input, "236P");

    let result = find_move(&moves, &aliases, "fireball");
    assert!(result.is_some());
    assert_eq!(result.unwrap().name, "Gun Flame");

    let result = find_move(&moves, &aliases, "dragon install");
    assert!(result.is_none());
}

#[test]
fn test_truncate_string() {
    assert_eq!(truncate_string("", 10), "");
    assert_eq!(truncate_string("Hello", 10), "Hello");
    assert_eq!(truncate_string("Hello World", 11), "Hello World");
    assert_eq!(truncate_string("Hello, World", 8), "Hello...");
}

#[test]
fn truncated_text_fits_its_limit() {
    for n in 3..20 {
        assert!(truncate_string("Hello, wonderful World", n).len() <= n);
    }
}

#[test]
fn paths_are_joined_like_path_join() {
    assert_eq!(join_path("data", "Sol_Badguy"), "data/Sol_Badguy");
    assert_eq!(join_path("data/", "May"), "data/May");
    assert_eq!(join_path("", "May"), "May");
    assert_eq!(join_path("data", "/abs"), "/abs");
    assert_eq!(
        character_file_path("data", "Ky_Kiske", "aliases.json"),
        "data/Ky_Kiske/aliases.json"
    );
}

#[test]
fn missing_alias_file_means_no_aliases() {
    assert!(load_move_aliases(None).unwrap().is_empty());
    let read: Result<Vec<MoveAliases>, AppError> = Err(AppError::Json("bad".to_string()));
    assert!(matches!(load_move_aliases(Some(read)), Err(AppError::Json(_))));
}

#[test]
fn missing_moves_file_names_the_character() {
    match load_move_info("May", None) {
        Err(AppError::CharacterNotFound(m)) => assert_eq!(m, "技情報が見つかりません: May"),
        _ => panic!("expected a missing character error"),
    }
}

#[test]
fn hitbox_inputs_are_simplified() {
    assert_eq!(simplified_move_input("5hs"), "5h");
    assert_eq!(simplified_move_input("236k"), "236k");
    assert_eq!(simplified_move_input("J.HS"), "jh");
}

#[test]
fn frame_tokens_keep_separators() {
    assert_eq!(sep_frame_vec("4"), vec!["4".to_string()]);
    assert_eq!(sep_frame_vec("3(7)"), vec!["3", "(", "7", ")"].iter().map(|s| s.to_string()).collect::<Vec<_>>());
    assert_eq!(sep_frame_vec("12 total"), vec!["12".to_string()]);
    assert_eq!(sep_frame_vec("5 total"), vec!["5".to_string()]);
    assert_eq!(sep_frame_vec("236K"), vec!["236".to_string(), "K".to_string()]);
    assert_eq!(sep_frame_vec("7~9 Total"), vec!["7", "~", "9"].iter().map(|s| s.to_string()).collect::<Vec<_>>());
}

#[test]
fn plain_counts_draw_one_symbol_per_frame() {
    let m = MoveInfo {
        input: "5P".to_string(),
        name: "Punch".to_string(),
        damage: Some(26),
        guard: "Mid".to_string(),
        startup: Some(4),
        active: "3".to_string(),
        recovery: Some(9),
        on_hit: "+2".to_string(),
        on_block: "-1".to_string(),
        level: "0".to_string(),
        counter: "3".to_string(),
        move_type: "Normal".to_string(),
        wall_damage: None,
        invincibility: "None".to_string(),
        cancel: String::new(),
        caption: String::new(),
        notes: String::new(),
    };
    assert_eq!(startup_frames(&m).matches('🟢').count(), 3);
    assert_eq!(active_frames(&m).matches('🟥').count(), 3);
}

#[test]
fn normalizing_ascii_follows_ascii_lowercase() {
    assert_eq!(normalize_input("J.HS"), "jhs");
    assert_eq!(normalize_move_name("Gun-Flame_S"), "gunflames");
    assert_eq!(normalize_move_name("j.H"), "j.h");
}
