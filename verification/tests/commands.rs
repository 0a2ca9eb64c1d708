use baiken::commands::{
    feedback_entry, find_meter_move, find_move_and_images, find_move_data, fmeter_image_posts,
    load_character_data, on_error, FrameworkFailure, MOVES_HINT,
};
use baiken::embeds::IMAGE_DEFAULT;
use baiken::error::AppError;
use baiken::find::Nicknames;
use baiken::test_utils::{create_test_move_aliases, create_test_move_info};
use baiken::ImageLinks;

fn links() -> Vec<ImageLinks> {
    vec![
        ImageLinks { input: "5P".to_string(), move_img: String::new(), hitbox_img: vec![] },
        ImageLinks {
            input: "236K".to_string(),
            move_img: "http://example.com/236k.png".to_string(),
            hitbox_img: vec![],
        },
        ImageLinks { input: "5P".to_string(), move_img: "http://example.com/5p.png".to_string(), hitbox_img: vec![] },
    ]
}

#[test]
fn move_found_with_its_image() {
    let moves = create_test_move_info();
    let aliases = create_test_move_aliases();
    let (m, img) = find_move_data("Sol_Badguy", "fireball", &moves, &aliases, &links()).unwrap();
    assert_eq!(m.input, "236K");
    assert_eq!(img, "http://example.com/236k.png");
    let (m, img) = find_move_data("Sol_Badguy", "5p", &moves, &aliases, &links()).unwrap();
    assert_eq!(m.name, "Punch");
    assert_eq!(img, "http://example.com/5p.png");
    assert!(find_move_and_images("Sol_Badguy", "punch", &moves, &aliases, &links()).is_ok());
    assert!(find_meter_move("Sol_Badguy", "stun", &moves, &aliases, &links()).is_ok());
}

#[test]
fn missing_move_reply_adds_the_hint() {
    let moves = create_test_move_info();
    let aliases = create_test_move_aliases();
    match find_move_data("Sol_Badguy", "6H", &moves, &aliases, &links()) {
        Err((reply, AppError::MoveNotFound(e))) => {
            assert_eq!(e, "技が見つかりません: Move `6H` was not found for character `Sol_Badguy`!");
            assert_eq!(reply, e + MOVES_HINT);
        }
        _ => panic!("expected a missing move"),
    }
}

#[test]
fn character_reply_when_not_found() {
    let ns = vec![Nicknames { character: "May".to_string(), nicknames: vec!["メイ".to_string()] }];
    assert_eq!(load_character_data(&ns, &"メイ".to_string()).unwrap(), "May");
    match load_character_data(&ns, &"Zappa".to_string()) {
        Err((reply, AppError::CharacterNotFound(m))) => {
            assert_eq!(reply, "キャラクターが見つかりません: Character `Zappa` was not found!");
            assert_eq!(m, reply);
        }
        _ => panic!("expected a missing character"),
    }
}

#[test]
fn fmeter_posts_each_matching_image() {
    let moves = create_test_move_info();
    let posts = fmeter_image_posts(&moves[0], &links());
    assert_eq!(
        posts,
        vec![
            ("__**Move: 5P**__".to_string(), IMAGE_DEFAULT.to_string()),
            ("__**Move: 5P**__".to_string(), "http://example.com/5p.png".to_string()),
        ]
    );
}

#[test]
fn feedback_entry_ends_with_blank_line() {
    assert_eq!(feedback_entry("more frames"), "more frames\n\n");
}

#[test]
fn error_handler_messages() {
    let (m, r) = on_error(&FrameworkFailure::Setup("token".to_string()));
    assert!(m.is_none());
    assert!(matches!(r, Err(AppError::Discord(ref s)) if s == "セットアップエラー: token"));
    let (m, r) = on_error(&FrameworkFailure::Command("Boom".to_string()));
    assert_eq!(m, Some(("エラーが発生しました".to_string(), "```Boom```".to_string())));
    assert!(r.is_ok());
    let (m, _) = on_error(&FrameworkFailure::CommandPanic);
    assert_eq!(m.unwrap().0, "内部エラーが発生しました");
    let (m, r) = on_error(&FrameworkFailure::Other);
    assert!(m.is_none() && r.is_ok());
}
