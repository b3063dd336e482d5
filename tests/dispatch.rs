use macos_tweaks::app::App;
use macos_tweaks::catalog::TopLevelCategory;
use macos_tweaks::classify::{classify, is_directly_runnable, require_sudo, Builtin, Plan};
use macos_tweaks::config::Config;
use macos_tweaks::dispatch::{Completion, Effect};
use macos_tweaks::overlay::Key;
use macos_tweaks::tweaks::Tweak;

fn tools_app() -> App {
    let tools = TopLevelCategory::new(
        "Tools",
        "",
        vec![
            Tweak::new("Group", "", "", "", false),
            Tweak::new("  Set Text", "", "__PROMPT_FOR_TEXT__:cmd --set \"{}\"", "", false),
            Tweak::new("  Clear User Cache (destructive)", "", "rm -rf ~/Library/Caches/*", "", false),
            Tweak::new("  Add Small Spacer", "", "defaults write dock spacer", "", false),
            Tweak::new("  Enable Thing", "", "defaults write thing on", "", false),
            Tweak::new("  Show Info", "", "echo hi", "", false),
            Tweak::new("  Needs Root", "", "sudo true", "", false),
            Tweak::new("  Version", "", "__SHOW_VERSION__", "", false),
            Tweak::new("  Play", "", "__SOKOBAN_GAME__", "", false),
            Tweak::new("  Brew", "", "__CHECK_BREW__", "", false),
            Tweak::new("  Installed", "", "__LIST_INSTALLED__", "", false),
            Tweak::new("  Outdated", "", "__LIST_OUTDATED__", "", false),
        ],
    );
    App::with_catalog(Config::default(), vec![tools])
}

fn select(app: &mut App, k: usize) {
    app.handle_right_key();
    app.handle_right_key();
    for _ in 0..k {
        app.next_item();
    }
}

fn run_outcome(app: &mut App, e: Effect, outcome: Result<String, String>) {
    match e {
        Effect::Handoff { then, .. } | Effect::Capture { then, .. } => app.complete(then, outcome),
        other => panic!("no command to run: {:?}", other),
    }
}

#[test]
fn destructive_entry_is_confirm_then_run() {
    assert_eq!(
        classify("Clear User Cache (destructive)", "rm -rf ~/Library/Caches/*"),
        Plan::ConfirmThenRun
    );
}

#[test]
fn classifier_order_and_flags() {
    assert_eq!(classify("Anything", ""), Plan::Header);
    assert_eq!(classify("Version", "__SHOW_VERSION__"), Plan::Builtin(Builtin::ShowVersion));
    assert_eq!(classify("Play", "__SOKOBAN_GAME__"), Plan::Builtin(Builtin::Puzzle));
    assert_eq!(classify("x", "__LIST_OUTDATED__"), Plan::Builtin(Builtin::ListOutdated));
    assert_eq!(classify("x (destructive)", "__PROMPT_FOR_TEXT__:a {}"), Plan::PromptThenRun);
    assert_eq!(classify("Root", "sudo ls"), Plan::HandoffRun);
    assert_eq!(classify("Shell (interactive)", "zsh"), Plan::HandoffRun);
    assert_eq!(classify("Plain", "ls"), Plan::CapturedRun);
    assert!(require_sudo("echo sudo"));
    assert!(!require_sudo("su do"));
    assert!(is_directly_runnable("ls"));
    assert!(!is_directly_runnable("__CHECK_BREW__"));
    assert!(!is_directly_runnable(""));
}

#[test]
fn prompted_text_fills_the_template() {
    let mut app = tools_app();
    select(&mut app, 0);
    let e = app.handle_key(Key::Enter);
    assert!(matches!(e, Effect::Idle));
    assert_eq!(app.text_input_prompt.as_deref(), Some("Enter text for: Set Text"));
    assert_eq!(app.text_input_command_template.as_deref(), Some("cmd --set \"{}\""));
    for c in "My Labelx".chars() {
        app.handle_key(Key::Char(c));
    }
    app.handle_key(Key::Backspace);
    assert_eq!(app.input_buffer, "My Label");
    match app.handle_key(Key::Enter) {
        Effect::Capture { command, then } => {
            assert_eq!(command, "cmd --set \"My Label\"");
            assert!(matches!(then, Completion::CustomText));
            app.complete(then, Ok(String::new()));
        }
        other => panic!("expected a captured run, got {:?}", other),
    }
    assert_eq!(app.status_message.as_deref(), Some("Successfully applied custom text."));
    assert!(app.text_input_prompt.is_none());
    assert_eq!(app.input_buffer, "");
}

#[test]
fn prompt_cancel_runs_nothing() {
    let mut app = tools_app();
    select(&mut app, 0);
    app.handle_key(Key::Enter);
    app.handle_key(Key::Char('a'));
    let e = app.handle_key(Key::Esc);
    assert!(matches!(e, Effect::Idle));
    assert_eq!(app.status_message.as_deref(), Some("Action canceled."));
    assert!(app.text_input_command_template.is_none());
    assert_eq!(app.input_buffer, "");
}

fn confirm_with_typed(answer: &str) -> (App, Effect) {
    let mut app = tools_app();
    select(&mut app, 1);
    let e = app.handle_key(Key::Enter);
    assert!(matches!(e, Effect::Idle));
    assert!(app.pending_destructive_command.is_some());
    assert!(app
        .confirmation_message
        .as_deref()
        .unwrap()
        .contains("DESTRUCTIVE ACTION: Clear User Cache (destructive)"));
    for c in answer.chars() {
        app.handle_key(Key::Char(c));
    }
    let e = app.handle_key(Key::Enter);
    assert!(app.pending_destructive_command.is_none());
    assert!(app.confirmation_message.is_none());
    assert_eq!(app.input_buffer, "");
    (app, e)
}

#[test]
fn confirmation_yes_runs_pending_command() {
    let (mut app, e) = confirm_with_typed("  yes ");
    match e {
        Effect::Handoff { command, then } => {
            assert_eq!(command, "rm -rf ~/Library/Caches/*");
            app.complete(then, Ok(String::new()));
        }
        other => panic!("expected a hand-off, got {:?}", other),
    }
    assert_eq!(
        app.status_message.as_deref(),
        Some("Successfully applied: Clear User Cache (destructive)")
    );
    assert!(app.applied_tweaks.is_empty());
}

#[test]
fn confirmation_other_answers_cancel() {
    for answer in ["y", "", "no", "yess"] {
        let (app, e) = confirm_with_typed(answer);
        assert!(matches!(e, Effect::Idle), "answer {:?}", answer);
        assert_eq!(app.status_message.as_deref(), Some("Action canceled."));
    }
}

#[test]
fn confirmation_is_case_insensitive_after_trimming() {
    for answer in ["Yes", "YES "] {
        let (_, e) = confirm_with_typed(answer);
        assert!(matches!(e, Effect::Handoff { .. }), "answer {:?}", answer);
    }
}

#[test]
fn confirmation_escape_cancels() {
    let mut app = tools_app();
    select(&mut app, 1);
    app.handle_key(Key::Enter);
    app.handle_key(Key::Char('y'));
    let e = app.handle_key(Key::Esc);
    assert!(matches!(e, Effect::Idle));
    assert!(app.pending_destructive_command.is_none());
    assert_eq!(app.status_message.as_deref(), Some("Action canceled."));
}

#[test]
fn applied_once_for_non_repeatable() {
    let mut app = tools_app();
    select(&mut app, 3);
    for _ in 0..2 {
        let e = app.apply_selected_tweak();
        assert_eq!(app.status_message.as_deref(), Some("Executing normal command: Enable Thing"));
        run_outcome(&mut app, e, Ok(String::new()));
    }
    assert_eq!(app.applied_tweaks, vec!["  Enable Thing".to_string()]);
    assert_eq!(app.status_message.as_deref(), Some("Successfully applied: Enable Thing"));
}

#[test]
fn repeatable_is_never_recorded() {
    let mut app = tools_app();
    select(&mut app, 2);
    for _ in 0..3 {
        let e = app.apply_selected_tweak();
        run_outcome(&mut app, e, Ok(String::new()));
    }
    assert!(app.applied_tweaks.is_empty());
}

#[test]
fn captured_output_is_shown_full_screen() {
    let mut app = tools_app();
    select(&mut app, 3);
    let e = app.apply_selected_tweak();
    run_outcome(&mut app, e, Ok("done\n".to_string()));
    assert_eq!(app.fullscreen_output.as_deref(), Some("done\n"));
    assert_eq!(app.applied_tweaks.len(), 1);
}

#[test]
fn info_with_no_output_shows_canned_text() {
    let mut app = tools_app();
    select(&mut app, 4);
    let e = app.apply_selected_tweak();
    assert_eq!(app.status_message.as_deref(), Some("Executing info command: Show Info"));
    match &e {
        Effect::Capture { command, then: Completion::Captured { info, .. } } => {
            assert_eq!(command, "echo hi");
            assert!(*info);
        }
        other => panic!("expected a captured run, got {:?}", other),
    }
    run_outcome(&mut app, e, Ok("  \n".to_string()));
    assert_eq!(
        app.fullscreen_output.as_deref(),
        Some("'Show Info' executed successfully with no output.")
    );
    assert!(app.applied_tweaks.is_empty());
}

#[test]
fn interactive_failure_shows_error_longer() {
    let mut app = tools_app();
    select(&mut app, 5);
    let e = app.apply_selected_tweak();
    assert!(matches!(e, Effect::Handoff { .. }));
    assert_eq!(app.status_timer, 20);
    run_outcome(&mut app, e, Err("exit status 1".to_string()));
    assert_eq!(
        app.status_message.as_deref(),
        Some("Error executing 'Needs Root': exit status 1")
    );
    assert_eq!(app.status_timer, 80);
    assert!(app.applied_tweaks.is_empty());
}

#[test]
fn version_banner_and_text_scrolling() {
    let mut app = tools_app();
    select(&mut app, 6);
    let e = app.handle_key(Key::Enter);
    assert!(matches!(e, Effect::Idle));
    assert_eq!(app.fullscreen_output.as_deref(), Some("macOS Tweaks v0.1.0"));
    app.handle_key(Key::Up);
    assert_eq!(app.fullscreen_output_scroll, 0);
    app.handle_key(Key::Down);
    assert_eq!(app.fullscreen_output_scroll, 1);
    app.handle_key(Key::Char('x'));
    assert!(app.fullscreen_output.is_none());
    assert_eq!(app.fullscreen_output_scroll, 0);
    assert!(app.applied_tweaks.is_empty());
}

#[test]
fn puzzle_opens_and_closes() {
    let mut app = tools_app();
    select(&mut app, 7);
    app.handle_key(Key::Enter);
    assert!(app.sokoban_game.is_some());
    app.handle_key(Key::Char('d'));
    assert_eq!(app.sokoban_game.as_ref().unwrap().moves, 1);
    app.handle_key(Key::Char('r'));
    assert_eq!(app.sokoban_game.as_ref().unwrap().moves, 0);
    app.handle_key(Key::Esc);
    assert!(app.sokoban_game.is_none());
}

#[test]
fn probe_reports_both_ways() {
    let mut app = tools_app();
    select(&mut app, 8);
    match app.apply_selected_tweak() {
        Effect::Probe { program } => assert_eq!(program, "brew"),
        other => panic!("expected a probe, got {:?}", other),
    }
    app.finish_probe(true);
    assert_eq!(
        app.fullscreen_output.as_deref(),
        Some("Homebrew is installed and available in your PATH.")
    );
    app.handle_key(Key::Esc);
    assert!(app.no_overlay_open());
    app.finish_probe(false);
    assert_eq!(
        app.fullscreen_output.as_deref(),
        Some("Homebrew is not installed or not in your PATH.")
    );
}

#[test]
fn package_list_keeps_nonblank_lines_and_follows_up() {
    let mut app = tools_app();
    select(&mut app, 10);
    let e = app.apply_selected_tweak();
    match &e {
        Effect::Capture { command, then: Completion::PackageList { outdated } } => {
            assert_eq!(command, "brew outdated");
            assert!(*outdated);
        }
        other => panic!("expected a package fetch, got {:?}", other),
    }
    run_outcome(&mut app, e, Ok("git\n\n   \nwget\r\n".to_string()));
    assert_eq!(
        app.fullscreen_list,
        Some(vec!["git".to_string(), "wget".to_string()])
    );
    assert_eq!(app.fullscreen_list_title, "Outdated Packages (Press Enter to upgrade)");
    app.handle_key(Key::Up);
    assert_eq!(app.fullscreen_list_selected, 1);
    app.handle_key(Key::Down);
    assert_eq!(app.fullscreen_list_selected, 0);
    match app.handle_key(Key::Enter) {
        Effect::Handoff { command, then } => {
            assert_eq!(command, "brew upgrade git");
            assert!(matches!(then, Completion::Quiet));
        }
        other => panic!("expected a hand-off, got {:?}", other),
    }
    assert!(app.fullscreen_list.is_none());
}

#[test]
fn package_list_empty_and_error() {
    let mut app = tools_app();
    select(&mut app, 9);
    let e = app.apply_selected_tweak();
    run_outcome(&mut app, e, Ok("\n  \n".to_string()));
    assert_eq!(
        app.fullscreen_output.as_deref(),
        Some("No installed Homebrew packages found.")
    );
    app.handle_key(Key::Esc);
    app.complete(Completion::PackageList { outdated: false }, Err("boom".to_string()));
    assert_eq!(
        app.fullscreen_output.as_deref(),
        Some("Error fetching installed packages: boom")
    );
    app.fullscreen_output = None;
    app.complete(Completion::Quiet, Err("bad".to_string()));
    assert_eq!(app.status_message.as_deref(), Some("Error: bad"));
    assert_eq!(app.status_timer, 80);
}

#[test]
fn enter_on_category_opens_it() {
    let mut app = tools_app();
    let e = app.apply_selected_tweak();
    assert!(matches!(e, Effect::Idle));
    assert_eq!(app.view_level, 1);
    let e = app.apply_selected_tweak();
    assert!(matches!(e, Effect::Idle));
    assert_eq!(app.viewing_sub_category.as_deref(), Some("Group"));
}

#[test]
fn same_named_options_run_the_one_under_the_cursor() {
    let c = TopLevelCategory::new(
        "Twins",
        "",
        vec![
            Tweak::new("First", "", "", "", false),
            Tweak::new("  X", "", "echo first", "", false),
            Tweak::new("Second", "", "", "", false),
            Tweak::new("  Y", "", "echo y", "", false),
            Tweak::new("  X", "", "echo second", "", false),
        ],
    );
    let mut app = App::with_catalog(Config::default(), vec![c]);
    app.handle_right_key();
    app.next_item();
    app.handle_right_key();
    assert_eq!(app.viewing_sub_category.as_deref(), Some("Second"));
    app.next_item();
    let t = app.get_selected_item().unwrap();
    assert_eq!(t.enable_command, "echo second");
    match app.apply_selected_tweak() {
        Effect::Capture { command, .. } => assert_eq!(command, "echo second"),
        other => panic!("expected a captured run, got {:?}", other),
    }
}

#[test]
fn display_sleep_never_is_the_display_setting() {
    let mut app = App::new(Config::default());
    for _ in 0..7 {
        app.next_item();
    }
    assert_eq!(app.categories[app.selected_indices[0]].name, "Power Management");
    app.handle_right_key();
    app.next_item();
    app.handle_right_key();
    assert_eq!(app.viewing_sub_category.as_deref(), Some("Display Sleep"));
    let items = app.get_current_list_items();
    let never = items.iter().position(|n| n == "  Never").unwrap();
    for _ in 0..never {
        app.next_item();
    }
    let t = app.get_selected_item().unwrap();
    assert_eq!(t.name, "  Never");
    assert_eq!(t.enable_command, "sudo systemsetup -setdisplaysleep Never");
}
