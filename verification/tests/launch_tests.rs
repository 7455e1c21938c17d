use hinjaku::launch::{check_program, command_args, launch_error_message, quote_path, shell_parameters};

fn v(a: &[&str]) -> Vec<String> {
    a.iter().map(|s| s.to_string()).collect()
}

#[test]
fn quoting_drops_existing_quotes() {
    assert_eq!(quote_path("C:\\a b.jpg"), "\"C:\\a b.jpg\"");
    assert_eq!(quote_path("\"\"x\""), "\"x\"");
    assert_eq!(quote_path("\"\""), "\"\"");
}

#[test]
fn shell_parameters_fill_placeholders() {
    assert_eq!(shell_parameters(&v(&[]), "v.zip\\1.jpg", "v.zip"), "\"v.zip\\1.jpg\"");
    assert_eq!(
        shell_parameters(&v(&["/select,", "%P", "-x=%a%%d"]), "V", "P"),
        "/select, \"V\" -x=\"P\"%\"P\""
    );
    assert_eq!(shell_parameters(&v(&["%f%F"]), "V", "P"), "\"V\"\"V\"");
}

#[test]
fn command_arguments_fill_placeholders() {
    assert_eq!(command_args(&v(&[]), "V", "P"), v(&["P"]));
    assert_eq!(command_args(&v(&["%P", "%D-%p", "x"]), "V", "P"), v(&["V", "P-V", "x"]));
}

#[test]
fn empty_program_is_refused() {
    assert_eq!(check_program(""), Err("実行プログラムが指定されていません。".to_string()));
    assert_eq!(check_program("cmd"), Ok(()));
}

#[test]
fn launch_error_messages() {
    assert_eq!(launch_error_message(2, "a.exe"), "ファイルが見つかりません: a.exe");
    assert_eq!(launch_error_message(3, "a.exe"), "パスが見つかりません: a.exe");
    assert_eq!(launch_error_message(5, "a.exe"), "アクセスが拒否されました。");
    assert_eq!(launch_error_message(31, "a.exe"), "指定された拡張子の関連付けがありません。");
    assert_eq!(launch_error_message(8, "a.exe"), "外部アプリの起動に失敗しました (Code: 8)");
    assert_eq!(launch_error_message(-12, "a.exe"), "外部アプリの起動に失敗しました (Code: -12)");
    assert_eq!(
        launch_error_message(isize::MIN, "a"),
        format!("外部アプリの起動に失敗しました (Code: {})", isize::MIN)
    );
}

#[test]
fn placeholders_inside_paths_are_kept() {
    assert_eq!(command_args(&v(&["%P|%A"]), "x%Ay%d", "Q"), v(&["x%Ay%d|Q"]));
    assert_eq!(shell_parameters(&v(&["%a", "%p"]), "50%d", "C:\\%P"), "\"C:\\%P\" \"50%d\"");
    assert_eq!(command_args(&v(&["%", "a%", "%x%"]), "V", "P"), v(&["%", "a%", "%x%"]));
}
