use baiken::check::{
    character_check, check_panic_text, check_path_of, check_reply, data_dir_verdict, CharacterCheck,
};
use baiken::error::AppError;
use baiken::help::{autocomplete_help, help_reply, help_topic_known, HELP_NOTES};
use baiken::update::{character_json_path, character_link, should_retry, update_targets, UpdateChoice, SITE_HALF, SITE_LINK};

#[test]
fn check_paths_per_character() {
    assert_eq!(check_path_of(&CharacterCheck::Folder, "May"), "data/May");
    assert_eq!(check_path_of(&CharacterCheck::FrameData, "May"), "data/May/May.json");
    assert_eq!(check_path_of(&CharacterCheck::Images, "May"), "data/May/images.json");
}

#[test]
fn first_missing_character_is_reported() {
    let mut present = vec![true; 29];
    assert_eq!(character_check(&CharacterCheck::Folder, &present), None);
    present[1] = false;
    present[5] = false;
    assert_eq!(
        character_check(&CharacterCheck::FrameData, &present).unwrap(),
        "Error: Missing 'data/Anji_Mito/Anji_Mito.json' file.\nPlease execute the '/update' command."
    );
    assert!(character_check(&CharacterCheck::Folder, &present)
        .unwrap()
        .starts_with("Error: Missing 'data/Anji_Mito' folder.\nDownload"));
}

#[test]
fn check_texts_for_discord_and_console() {
    assert_eq!(check_reply("the 'data' folder"), "the `data` folder");
    assert_eq!(check_panic_text("a\nb"), "a b");
}

#[test]
fn data_dir_verdicts() {
    let ok = vec![true, true, true];
    assert!(data_dir_verdict("data", true, true, &ok).is_ok());
    assert!(matches!(data_dir_verdict("data", false, false, &ok), Err(AppError::FileNotFound(_))));
    assert!(matches!(data_dir_verdict("data", true, false, &ok), Err(AppError::Config(_))));
    match data_dir_verdict("data", true, true, &vec![true, false, false]) {
        Err(AppError::Config(m)) => assert_eq!(m, "必要なキャラクターディレクトリが見つかりません: Ky_Kiske"),
        _ => panic!("expected a configuration error"),
    }
}

#[test]
fn help_topics_and_unknown_requests() {
    let (text, img) = help_reply(" notes ");
    assert_eq!(text, HELP_NOTES);
    assert!(img.is_none());
    let (_, img) = help_reply("frames");
    assert_eq!(img.unwrap(), "https://raw.githubusercontent.com/yakiimoninja/baiken/test/data/images/frames.png");
    let (text, img) = help_reply("dance");
    assert_eq!(text, "Help for `dance` not found!");
    assert!(img.is_none());
    assert!(help_topic_known("moves"));
    assert!(!help_topic_known("dance"));
}

#[test]
fn help_autocomplete_ignores_case() {
    assert_eq!(autocomplete_help("FR"), vec!["frames".to_string()]);
    assert_eq!(autocomplete_help("es"), vec!["frames".to_string(), "hitboxes".to_string(), "moves".to_string(), "nicknames".to_string(), "notes".to_string()]);
    assert_eq!(autocomplete_help("").len(), 11);
}

#[test]
fn update_paths_and_targets() {
    assert_eq!(character_json_path("Sol_Badguy"), "data/Sol_Badguy/Sol_Badguy.json");
    assert_eq!(character_link("Sol_Badguy"), SITE_LINK.to_owned() + "Sol Badguy" + SITE_HALF);
    let all = update_targets("all");
    assert_eq!(all.len(), 29);
    assert_eq!(all[28], ("Zato-1".to_string(), 28));
    assert_eq!(update_targets("May"), vec![("May".to_string(), 0)]);
    assert!(should_retry(500) && !should_retry(200));
    assert_eq!(UpdateChoice::Frames.name(), "frames");
}
