use baiken::images::{
    format_input_name, generate_hitbox_links, generate_image_link, process_image_data,
    process_images, ImageData, ImageTitle,
};
use baiken::links::{digest_hex, hex_string, link_from_digest, make_link};

fn s(x: &str) -> Option<String> {
    Some(x.to_string())
}

fn row(input: Option<String>, name: Option<String>, images: Option<String>, hitboxes: Option<String>) -> ImageData {
    ImageData { title: ImageTitle { input, name, images, hitboxes } }
}

#[test]
fn links_use_the_md5_of_the_name() {
    assert_eq!(
        make_link("example.png"),
        "https://www.dustloop.com/wiki/images/8/89/example.png"
    );
    assert_eq!(
        make_link("GGST_Sol_Badguy_5P.png"),
        "https://www.dustloop.com/wiki/images/d/d7/GGST_Sol_Badguy_5P.png"
    );
    assert_eq!(
        link_from_digest("x.png", &vec![0xab, 0x00]),
        "https://www.dustloop.com/wiki/images/a/ab/x.png"
    );
}

#[test]
fn digests_are_written_in_hex() {
    assert_eq!(digest_hex(b""), "d41d8cd98f00b204e9800998ecf8427e");
    assert_eq!(hex_string(&vec![0x00, 0x0f, 0xf0, 0xff]), "000ff0ff");
}

#[test]
fn image_link_uses_first_of_several_names() {
    assert_eq!(generate_image_link(&None), "");
    assert_eq!(generate_image_link(&s("   ")), "");
    assert_eq!(
        generate_image_link(&s(" GGST Sol Badguy 5P.png ;other.png")),
        make_link("GGST_Sol_Badguy_5P.png")
    );
    assert_eq!(generate_image_link(&s("example.png")), make_link("example.png"));
}

#[test]
fn hitbox_links_one_per_name() {
    assert_eq!(generate_hitbox_links(&None), vec![String::new()]);
    assert_eq!(
        generate_hitbox_links(&s("example.png; GGST Sol Badguy 5P.png")),
        vec![make_link("example.png"), make_link("GGST_Sol_Badguy_5P.png")]
    );
}

#[test]
fn image_inputs_shown_alone_or_with_name() {
    assert_eq!(format_input_name(&s("5P"), &s("Punch")), "5P");
    assert_eq!(format_input_name(&s("236P"), &s("Gun Flame")), "Gun Flame(236P)");
    assert_eq!(format_input_name(&None, &None), "()");
}

#[test]
fn image_rows_become_links() {
    let mut d = row(None, None, None, None);
    let l = process_image_data(&mut d);
    assert_eq!(d.title.input, s(""));
    assert_eq!(d.title.name, s(""));
    assert_eq!(l.input, "()");
    assert_eq!(l.move_img, "");
    assert_eq!(l.hitbox_img, vec![String::new()]);

    let mut h = row(s("j.XX during Homing Jump"), None, None, None);
    let l = process_image_data(&mut h);
    assert_eq!(l.input, "");
    assert!(l.hitbox_img.is_empty());

    let out = process_images(vec![
        row(s("j.XX during Homing Jump"), None, None, None),
        row(s("5P"), s("Punch"), s("example.png"), None),
    ]);
    assert_eq!(out.len(), 1);
    assert_eq!(out[0].input, "5P");
    assert_eq!(out[0].move_img, make_link("example.png"));
}
