use lawn_defense::cli::{cli_help, parse_cli};

fn args(list: &[&str]) -> Vec<String> {
    list.iter().map(|a| a.to_string()).collect()
}

#[test]
fn cli_reads_level_path() {
    let options = parse_cli(&args(&[
        "--debug",
        "--level",
        "assets/levels/level_row_three_physics_line.ron",
    ]))
    .unwrap();

    assert!(options.debug_enabled);
    assert_eq!(
        options.level_path.as_deref(),
        Some("assets/levels/level_row_three_physics_line.ron")
    );

    let options = parse_cli(&args(&["-l", "custom.ron"])).unwrap();
    assert_eq!(options.level_path.as_deref(), Some("custom.ron"));

    let options = parse_cli(&args(&["--level=inline.ron"])).unwrap();
    assert_eq!(options.level_path.as_deref(), Some("inline.ron"));
}

#[test]
fn cli_rejects_missing_level_path() {
    assert!(parse_cli(&args(&["--level"])).is_err());
    assert!(parse_cli(&args(&["--level="])).is_err());
}

#[test]
fn cli_messages_and_help() {
    assert_eq!(
        parse_cli(&args(&["-l"])).unwrap_err(),
        "-l 需要关卡 RON 路径"
    );
    assert_eq!(
        parse_cli(&args(&["--level="])).unwrap_err(),
        "--level= 需要关卡 RON 路径"
    );
    assert_eq!(parse_cli(&args(&["--fast"])).unwrap_err(), "未知参数: --fast");
    let options = parse_cli(&args(&["-h", "--level", "a.ron", "--level=b.ron"])).unwrap();
    assert!(options.show_help);
    assert!(!options.debug_enabled);
    assert_eq!(options.level_path.as_deref(), Some("b.ron"));
    let options = parse_cli(&Vec::new()).unwrap();
    assert!(!options.show_help && !options.debug_enabled && options.level_path.is_none());
    assert!(cli_help().starts_with("用法: bevy-pvz [--debug] [--level <path>]"));
}
