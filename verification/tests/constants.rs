use baiken::{CHARS, EMBED_COLOR};

#[test]
fn test_chars_constant() {
    assert_eq!(CHARS.len(), 29);
    assert!(CHARS.contains(&"Sol_Badguy"));
    assert!(CHARS.contains(&"Ky_Kiske"));
    assert!(CHARS.contains(&"May"));
}

#[test]
fn test_embed_color() {
    assert_eq!(EMBED_COLOR, 0x00FF_FF99);
}
