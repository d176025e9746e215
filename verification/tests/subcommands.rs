use laravel_toolkit::slash::{complete, run, CommandError, SlashCommand, Workspace};

fn cmd(name: &str) -> SlashCommand {
    SlashCommand { name: name.to_string() }
}

#[test]
fn unknown_command_is_unsupported() {
    let r = run(&cmd("laravel_unknown"), &Vec::new(), None);
    match r {
        Err(CommandError::UnsupportedSubCommand { name }) => {
            assert_eq!(name, "laravel_unknown");
        }
        _ => panic!("expected UnsupportedSubCommand"),
    }
}

#[test]
fn unknown_command_message_names_it() {
    let err = run(&cmd("laravel_unknown"), &Vec::new(), None).unwrap_err();
    assert_eq!(err.describe(), "Unsupported slash command: laravel_unknown");
}

#[test]
fn view_command_is_recognized_but_pending() {
    let workspace = Workspace { root_path: "/ws".to_string() };
    let r = run(&cmd("laravel_view"), &vec!["welcome".to_string()], Some(&workspace));
    match r {
        Err(CommandError::SubCommandNotImplemented { name }) => {
            assert_eq!(name, "laravel_view");
        }
        _ => panic!("expected SubCommandNotImplemented"),
    }
    let err = run(&cmd("laravel_view"), &Vec::new(), None).unwrap_err();
    assert_eq!(err.describe(), "View search is not implemented yet");
}

#[test]
fn route_command_is_recognized_but_pending() {
    let err = run(&cmd("laravel_route"), &Vec::new(), None).unwrap_err();
    assert!(matches!(err, CommandError::SubCommandNotImplemented { .. }));
    assert_eq!(err.describe(), "Route search is not implemented yet");
}

#[test]
fn artisan_command_is_recognized_but_pending() {
    let err = run(&cmd("laravel_artisan"), &Vec::new(), None).unwrap_err();
    assert!(matches!(err, CommandError::SubCommandNotImplemented { .. }));
    assert_eq!(err.describe(), "Artisan helpers are not implemented yet");
}

#[test]
fn completion_of_recognized_commands_is_empty_not_an_error() {
    for name in ["laravel_view", "laravel_route", "laravel_artisan"] {
        let r = complete(&cmd(name), &Vec::new());
        match r {
            Ok(completions) => assert!(completions.is_empty()),
            Err(_) => panic!("completion of a recognized command must not fail"),
        }
    }
}

#[test]
fn completion_of_unknown_command_fails() {
    let r = complete(&cmd("laravel_unknown"), &vec!["x".to_string()]);
    match r {
        Err(CommandError::UnsupportedSubCommand { name }) => {
            assert_eq!(name, "laravel_unknown");
        }
        _ => panic!("expected UnsupportedSubCommand"),
    }
}
