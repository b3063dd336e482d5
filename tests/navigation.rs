use macos_tweaks::app::App;
use macos_tweaks::catalog::TopLevelCategory;
use macos_tweaks::config::Config;
use macos_tweaks::overlay::Key;
use macos_tweaks::tweaks::Tweak;

fn tree_category() -> TopLevelCategory {
    TopLevelCategory::new(
        "Tree",
        "headers and options",
        vec![
            Tweak::new("H1", "first header", "", "", false),
            Tweak::new("  opt1", "", "echo one", "", false),
            Tweak::new("  opt2", "", "echo two", "", false),
            Tweak::new("H2", "second header", "", "", false),
            Tweak::new("  opt3", "", "echo three", "", false),
        ],
    )
}

fn tree_app() -> App {
    App::with_catalog(
        Config::default(),
        vec![tree_category(), TopLevelCategory::new("Empty", "nothing here", vec![])],
    )
}

#[test]
fn starts_at_category_list() {
    let app = App::new(Config::default());
    assert_eq!(app.view_level, 0);
    assert_eq!(app.selected_indices, [0, 0]);
    let items = app.get_current_list_items();
    assert_eq!(items.len(), 13);
    assert_eq!(items[0], "Dock");
    assert_eq!(items[12], "Utilities");
}

#[test]
fn moving_wraps_around_both_ends() {
    let mut app = App::new(Config::default());
    app.previous_item();
    assert_eq!(app.selected_indices[0], 12);
    app.next_item();
    assert_eq!(app.selected_indices[0], 0);
    app.next_item();
    assert_eq!(app.selected_indices[0], 1);
}

#[test]
fn moving_wraps_at_level_one() {
    let mut app = tree_app();
    app.handle_right_key();
    assert_eq!(app.get_current_list_items(), vec!["H1".to_string(), "H2".to_string()]);
    app.previous_item();
    assert_eq!(app.selected_indices[1], 1);
    app.next_item();
    assert_eq!(app.selected_indices[1], 0);
}

#[test]
fn empty_category_keeps_level_and_sets_status() {
    let mut app = tree_app();
    app.next_item();
    app.handle_right_key();
    assert_eq!(app.view_level, 0);
    assert_eq!(app.status_message.as_deref(), Some("This category is empty."));
    assert_eq!(app.status_timer, 50);
}

#[test]
fn header_lists_only_its_own_options() {
    let mut app = tree_app();
    app.handle_right_key();
    app.handle_right_key();
    assert_eq!(app.viewing_sub_category.as_deref(), Some("H1"));
    assert_eq!(
        app.get_current_list_items(),
        vec!["  opt1".to_string(), "  opt2".to_string()]
    );
    app.handle_left_key();
    assert_eq!(app.viewing_sub_category, None);
    app.next_item();
    app.handle_right_key();
    assert_eq!(app.get_current_list_items(), vec!["  opt3".to_string()]);
    app.handle_left_key();
    app.handle_left_key();
    assert_eq!(app.view_level, 0);
}

#[test]
fn selected_item_is_the_entry_under_the_cursor() {
    let mut app = tree_app();
    assert!(app.get_selected_item().is_none());
    app.handle_right_key();
    app.handle_right_key();
    app.next_item();
    let t = app.get_selected_item().unwrap();
    assert_eq!(t.name, "  opt2");
    assert_eq!(t.enable_command, "echo two");
}

#[test]
fn keys_route_to_navigation_when_no_overlay() {
    let mut app = tree_app();
    app.handle_key(Key::Right);
    assert_eq!(app.view_level, 1);
    app.handle_key(Key::Down);
    assert_eq!(app.selected_indices[1], 1);
    app.handle_key(Key::Left);
    assert_eq!(app.view_level, 0);
    app.handle_key(Key::Char('q'));
    assert!(app.should_quit);
}

#[test]
fn status_timer_counts_down_and_clears() {
    let mut app = tree_app();
    app.status_message = Some("hello".to_string());
    app.status_timer = 2;
    app.update_status_timer();
    assert_eq!(app.status_timer, 1);
    assert!(app.status_message.is_some());
    app.update_status_timer();
    assert_eq!(app.status_timer, 0);
    assert!(app.status_message.is_none());
    app.update_status_timer();
    assert_eq!(app.status_timer, 0);
}

#[test]
fn finds_entries_by_trimmed_name_ignoring_case() {
    let app = App::new(Config::default());
    let t = app.find_tweak_by_name("  small (32PX) ").unwrap();
    assert_eq!(t.name, "  Small (32px)");
    assert!(app.find_tweak_by_name("no such tweak").is_none());
}

#[test]
fn runnable_names_skip_headers_and_builtins() {
    let c = TopLevelCategory::new(
        "Mixed",
        "",
        vec![
            Tweak::new("Header", "", "", "", false),
            Tweak::new("  Run", "", "echo run", "", false),
            Tweak::new("  Version", "", "__SHOW_VERSION__", "", false),
        ],
    );
    assert_eq!(c.runnable_names(), vec!["  Run".to_string()]);
    assert_eq!(c.name, "Mixed");
}

#[test]
fn tweak_new_keeps_fields() {
    let t = Tweak::new("n", "d", "on", "off", true);
    assert_eq!(t.name, "n");
    assert_eq!(t.description, "d");
    assert_eq!(t.enable_command, "on");
    assert_eq!(t.disable_command, "off");
    assert!(t.is_enabled);
    let c = t.duplicate();
    assert_eq!(c.disable_command, "off");
}
