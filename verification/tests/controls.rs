use lawn_defense::controls::{
    control_help, defeat_subtitle, key_label, mouse_label, validate_bindings, victory_subtitle,
    KeyBinding,
};

fn binding(action: &str, key: &str) -> KeyBinding {
    KeyBinding { action: action.to_string(), key: key.to_string() }
}

#[test]
fn key_labels_drop_the_key_prefix() {
    assert_eq!(key_label("KeyR"), "R");
    assert_eq!(key_label("Digit7"), "7");
    assert_eq!(key_label("Space"), "Space");
    assert_eq!(key_label("KeyKeyA"), "A");
    assert_eq!(key_label("Digit10"), "Digit10");
}

#[test]
fn mouse_labels_name_the_buttons() {
    assert_eq!(mouse_label("Left"), "鼠标左键");
    assert_eq!(mouse_label("Right"), "鼠标右键");
    assert_eq!(mouse_label("Middle"), "鼠标中键");
    assert_eq!(mouse_label("Back"), "Back");
}

#[test]
fn bindings_must_use_distinct_keys() {
    assert_eq!(validate_bindings(&vec![binding("restart", "KeyR")]), Ok(()));
    assert_eq!(
        validate_bindings(&vec![
            binding("restart", "KeyR"),
            binding("pause", "Space"),
            binding("debug", "KeyR"),
        ]),
        Err(String::from("control key KeyR is assigned more than once (debug)"))
    );
}

#[test]
fn screen_texts_name_the_bound_keys() {
    assert_eq!(
        control_help("鼠标左键", "R"),
        "操作说明\n点击植物卡片  选择植物\n鼠标左键  放置植物 / 收集太阳\nR  重新开始"
    );
    assert_eq!(victory_subtitle("R"), "草坪守住了！按 R 再来一局");
    assert_eq!(defeat_subtitle("R"), "僵尸突破了防线。按 R 重新开始");
}
