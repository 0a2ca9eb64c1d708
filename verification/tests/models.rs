use baiken::error::AppError;
use baiken::models::GuardType;
use std::str::FromStr;

#[test]
fn test_guard_type_from_str() {
    assert_eq!(GuardType::from_str("High").unwrap(), GuardType::High);
    assert_eq!(GuardType::from_str("Mid").unwrap(), GuardType::Mid);
    assert_eq!(GuardType::from_str("Low").unwrap(), GuardType::Low);
    assert_eq!(
        GuardType::from_str("Unblockable").unwrap(),
        GuardType::Unblockable
    );
    assert_eq!(GuardType::from_str("Throw").unwrap(), GuardType::Throw);
    assert!(GuardType::from_str("Invalid").is_err());
}

#[test]
fn guard_type_error_quotes_the_text() {
    assert_eq!(
        GuardType::from_str("Overhead").unwrap_err(),
        "不正なガードタイプ: Overhead"
    );
}

#[test]
fn test_app_error_file_not_found() {
    let error_message = "test.json";
    let app_error = AppError::FileNotFound(error_message.to_string());
    let error_string = app_error.to_string();
    assert!(error_string.contains(error_message));
}

#[test]
fn test_app_error_character_not_found() {
    let character = "存在しない_キャラ";
    let app_error = AppError::CharacterNotFound(character.to_string());
    let error_string = app_error.to_string();
    assert!(error_string.contains(character));
}

#[test]
fn test_app_error_move_not_found() {
    let move_name = "存在しない技";
    let app_error = AppError::MoveNotFound(move_name.to_string());
    let error_string = app_error.to_string();
    assert!(error_string.contains(move_name));
}

#[test]
fn app_error_text_is_label_then_message() {
    assert_eq!(
        AppError::MoveNotFound("5Z".to_string()).to_string(),
        "技が見つかりません: 5Z"
    );
    assert_eq!(AppError::Other("x".to_string()).to_string(), "エラー: x");
}
