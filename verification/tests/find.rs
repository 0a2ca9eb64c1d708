use baiken::find::{extract_bracket_content, find_character, find_move_by_alias, find_move_index, Nicknames};
use baiken::test_utils::{create_test_move_aliases, create_test_move_info};

fn nicknames() -> Vec<Nicknames> {
    vec![
        Nicknames {
            character: "Sol_Badguy".to_string(),
            nicknames: vec!["sol".to_string(), "ソル".to_string(), "ソルバッドガイ".to_string()],
        },
        Nicknames {
            character: "Ky_Kiske".to_string(),
            nicknames: vec!["ky".to_string(), "カイ".to_string(), "カイ=キスク".to_string()],
        },
        Nicknames {
            character: "May".to_string(),
            nicknames: vec!["メイ".to_string(), "イルカ娘".to_string()],
        },
    ]
}

#[test]
fn test_find_character() {
    let ns = nicknames();
    let result = find_character(&ns, &"sol".to_string()).expect("キャラクター検索に失敗");
    assert_eq!(result, "Sol_Badguy");
    let result = find_character(&ns, &"カイ=キスク".to_string()).expect("キャラクター検索に失敗");
    assert_eq!(result, "Ky_Kiske");
    let result = find_character(&ns, &"SOL".to_string()).expect("キャラクター検索に失敗");
    assert_eq!(result, "Sol_Badguy");
}

#[test]
fn character_found_by_part_of_name() {
    let ns = nicknames();
    assert_eq!(find_character(&ns, &"badguy".to_string()).unwrap(), "Sol_Badguy");
    assert_eq!(find_character(&ns, &"All".to_string()).unwrap(), "");
    assert!(find_character(&ns, &"nobody".to_string()).is_err());
}

#[test]
fn test_find_move_index() {
    let moves_info = create_test_move_info();
    for (index, move_info) in moves_info.iter().enumerate() {
        if move_info.input == "5P" {
            assert_eq!(index, 0);
            return;
        }
    }
    panic!("テストデータに5Pが見つかりません");
}

#[test]
fn move_index_through_alias_and_input() {
    let moves_info = create_test_move_info();
    let aliases = create_test_move_aliases();
    let sol = "Sol_Badguy".to_string();
    assert_eq!(find_move_index(&sol, "Fireball".to_string(), &moves_info, &aliases).unwrap(), 1);
    assert_eq!(find_move_index(&sol, "5p".to_string(), &moves_info, &aliases).unwrap(), 0);
    assert!(find_move_index(&sol, "6H".to_string(), &moves_info, &aliases).is_err());
}

#[test]
fn test_find_move_by_alias() {
    let _moves_info = create_test_move_info();
    let moves_aliases = create_test_move_aliases();
    let result = find_move_by_alias("Stun Edge", &moves_aliases);
    assert!(result.is_ok());
    assert_eq!(result.unwrap(), "236K");
    let result = find_move_by_alias("不存在技", &moves_aliases);
    assert!(result.is_err());
}

#[test]
fn bracket_content_is_taken_out() {
    assert_eq!(extract_bracket_content("Gun Flame(236P)"), Some("236P".to_string()));
    assert_eq!(extract_bracket_content("no brackets"), None);
}

#[test]
fn charged_inputs_found_with_or_without_brackets() {
    let mut moves = create_test_move_info();
    moves[1].input = "[4]6S".to_string();
    moves[1].name = "Charged Slash".to_string();
    let sol = "May".to_string();
    let none = Vec::new();
    assert_eq!(find_move_index(&sol, "46S".to_string(), &moves, &none).unwrap(), 1);
    assert_eq!(find_move_index(&sol, "[4]6S".to_string(), &moves, &none).unwrap(), 1);
    assert_eq!(find_move_index(&sol, "[4]6s".to_string(), &moves, &none).unwrap(), 1);
    assert_eq!(find_move_index(&sol, "6S".to_string(), &moves, &none).unwrap(), 1);
}
