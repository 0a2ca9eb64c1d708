use baiken::embeds::{create_advanced_embeds, AdvancedNumbers};
use baiken::models::MoveInfo;

#[test]
fn test_create_advanced_embeds() {
    let move_info = MoveInfo {
        input: "5P".to_string(),
        name: "Punch".to_string(),
        damage: Some(26),
        guard: "Mid".to_string(),
        startup: Some(4),
        active: "3".to_string(),
        recovery: Some(9),
        on_hit: "+2".to_string(),
        on_block: "-1".to_string(),
        level: "0".to_string(),
        counter: "3".to_string(),
        move_type: "Normal".to_string(),
        wall_damage: Some(9),
        invincibility: "None".to_string(),
        cancel: "Special, Super".to_string(),
        caption: String::new(),
        notes: String::new(),
    };
    let numbers = AdvancedNumbers {
        risc_gain: format!("{}", 23.0_f64),
        risc_loss: format!("{}", 18.0_f64),
        input_tension: format!("{}", 0.0_f64),
        chip_ratio: format!("{}", 0.0_f64),
        scaling: format!("{}", 0.8_f64),
    };
    let embed_image = "http://example.com/image.png";
    let character_name = "Sol_Badguy";
    let embeds = create_advanced_embeds(&move_info, &numbers, embed_image, character_name);
    assert!(!embeds.is_empty());
    assert!(embeds.len() >= 1);
    assert_eq!(embeds[0].title.as_deref(), Some("Sol_Badguyの5P"));
    assert_eq!(embeds[0].image.as_deref(), Some(embed_image));
}
