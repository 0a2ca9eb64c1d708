use baiken::test_utils::{create_test_move_aliases, create_test_move_info, _MockDiscordContext};

#[test]
fn mock_context_keeps_what_is_sent_in_order() {
    let mut ctx = _MockDiscordContext::new();
    assert!(ctx.messages.is_empty() && ctx.embeds.is_empty());
    assert!(ctx.send_message("first").is_ok());
    assert!(ctx.send_embed("embed").is_ok());
    assert!(ctx.send_message("second").is_ok());
    assert_eq!(ctx.messages, vec!["first".to_string(), "second".to_string()]);
    assert_eq!(ctx.embeds, vec!["embed".to_string()]);
}

#[test]
fn sample_data_is_as_described() {
    let moves = create_test_move_info();
    assert_eq!(moves.len(), 2);
    assert_eq!(moves[0].input, "5P");
    assert_eq!(moves[1].active, "Until Hit");
    let aliases = create_test_move_aliases();
    assert_eq!(aliases[1].aliases, vec!["Stun Edge".to_string(), "Fireball".to_string()]);
}
