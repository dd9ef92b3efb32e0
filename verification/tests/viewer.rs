use cpu_chart::viewer::{open_command, Opener};

#[test]
fn linux_opens_with_xdg_open() {
    let launch = open_command(Opener::Linux, "cpu_usage.png");
    assert_eq!(launch.program, "xdg-open");
    assert_eq!(launch.args, vec!["cpu_usage.png".to_string()]);
}

#[test]
fn mac_opens_with_open() {
    let launch = open_command(Opener::Mac, "cpu_usage.png");
    assert_eq!(launch.program, "open");
    assert_eq!(launch.args, vec!["cpu_usage.png".to_string()]);
}

#[test]
fn windows_opens_through_the_command_interpreter() {
    let launch = open_command(Opener::Windows, "cpu_usage.png");
    assert_eq!(launch.program, "cmd");
    assert_eq!(
        launch.args,
        vec!["/C".to_string(), "start".to_string(), "cpu_usage.png".to_string()]
    );
}

#[test]
fn the_path_is_handed_on_as_it_is() {
    for opener in [Opener::Windows, Opener::Linux, Opener::Mac] {
        let launch = open_command(opener, "dir with blank/ä.png");
        assert_eq!(launch.args.last().unwrap(), "dir with blank/ä.png");
    }
    assert_eq!(open_command(Opener::Linux, "").args, vec![String::new()]);
}

#[test]
fn program_of_each_opener() {
    assert_eq!(Opener::Windows.program(), "cmd");
    assert_eq!(Opener::Linux.program(), "xdg-open");
    assert_eq!(Opener::Mac.program(), "open");
}

#[test]
fn opener_by_the_name_of_the_target() {
    assert_eq!(Opener::for_target_os("windows"), Some(Opener::Windows));
    assert_eq!(Opener::for_target_os("linux"), Some(Opener::Linux));
    assert_eq!(Opener::for_target_os("macos"), Some(Opener::Mac));
    assert_eq!(Opener::for_target_os("freebsd"), None);
    assert_eq!(Opener::for_target_os("Linux"), None);
    assert_eq!(Opener::for_target_os(""), None);
}
