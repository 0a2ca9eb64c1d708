use baiken::framedata::{
    create_move_info, format_input_name, preprocess_move_data, process_move_data,
    set_integer_fields, should_skip_move, Data, Title,
};

fn title() -> Title {
    Title {
        input: None,
        name: None,
        damage: None,
        guard: None,
        startup: None,
        active: None,
        recovery: None,
        on_hit: None,
        on_block: None,
        level: None,
        counter: None,
        move_type: None,
        risc_gain: None,
        risc_loss: None,
        wall_damage: None,
        input_tension: None,
        chip_ratio: None,
        scaling: None,
        invincibility: None,
        cancel: None,
        caption: None,
        notes: None,
    }
}

fn s(x: &str) -> Option<String> {
    Some(x.to_string())
}

#[test]
fn missing_input_and_name_are_filled_in() {
    let mut d = Data { title: title() };
    d.title.caption = s("Air");
    preprocess_move_data(&mut d);
    assert_eq!(d.title.input, s("-"));
    assert_eq!(d.title.name, s("-"));
    assert_eq!(d.title.caption, s(""));
}

#[test]
fn system_rows_are_skipped() {
    let mut d = Data { title: title() };
    d.title.name = s("Dash Cancel");
    assert!(should_skip_move(&d));
    d.title.name = s("Gun Flame");
    assert!(!should_skip_move(&d));
    d.title.input = s("j.XX during Homing Jump");
    assert!(should_skip_move(&d));
}

#[test]
fn input_names_put_the_input_in_brackets() {
    assert_eq!(format_input_name("236P", "Gun Flame"), "Gun Flame(236P)");
    assert_eq!(format_input_name("Terra Metron", "x"), "Terra Metron");
}

#[test]
fn integers_are_read_where_they_parse() {
    let mut d = Data { title: title() };
    d.title.damage = s("26");
    d.title.startup = s("-7");
    d.title.recovery = s("9 [12]");
    assert_eq!(set_integer_fields(&d), (Some(26), Some(-7), None, None));
}

#[test]
fn rows_become_move_records() {
    let mut a = title();
    a.input = s("5P");
    a.name = s("Punch");
    a.damage = s("26");
    a.guard = s("All");
    let mut b = title();
    b.name = s("Hoverdash");
    let mut c = title();
    c.input = s("236P");
    let out = process_move_data(vec![Data { title: a }, Data { title: b }, Data { title: c }]);
    assert_eq!(out.len(), 2);
    assert_eq!(out[0].input, "Punch(5P)");
    assert_eq!(out[0].damage, Some(26));
    assert_eq!(out[0].guard, "All");
    assert_eq!(out[0].active, "-");
    assert_eq!(out[1].input, "236P(236P)");
    assert_eq!(out[1].caption, "");
    let one = create_move_info(&Data { title: title() }, "?");
    assert_eq!(one.guard, "?");
    assert_eq!(one.input, "()");
}
