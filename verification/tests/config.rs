use rmp::config::{config_dir_from, default_bindings, join_path, merge_default_bindings, Bindings, Config, Paths};

fn s(x: &str) -> String {
    x.to_string()
}

#[test]
fn config_dir_prefers_rmp2_dir() {
    assert_eq!(config_dir_from(Some(s("/data/rmp")), Some(s("/x")), Some(s("/home/u"))), "/data/rmp");
}

#[test]
fn config_dir_under_xdg_config_home() {
    assert_eq!(config_dir_from(None, Some(s("/home/u/.cfg")), Some(s("/home/u"))), "/home/u/.cfg/rmp2");
    assert_eq!(config_dir_from(None, Some(s("/home/u/.cfg/")), None), "/home/u/.cfg/rmp2");
}

#[test]
fn config_dir_under_home() {
    assert_eq!(config_dir_from(None, None, Some(s("/home/u"))), "/home/u/.config/rmp2");
}

#[test]
fn config_dir_falls_back_to_cwd() {
    assert_eq!(config_dir_from(None, None, None), "./rmp2");
}

#[test]
fn join_path_separators() {
    assert_eq!(join_path("", "a"), "a");
    assert_eq!(join_path("/", "a"), "/a");
    assert_eq!(join_path("/x", "a"), "/x/a");
    assert_eq!(join_path("/x/", "a.toml"), "/x/a.toml");
    assert_eq!(join_path("/x", "/etc"), "/etc");
    assert_eq!(join_path("/x", ""), "/x/");
    assert_eq!(join_path("", ""), "");
    for (b, c) in [("/x", "/etc"), ("/x", ""), ("a", "b/c"), ("", "d"), ("e/", "f")] {
        assert_eq!(join_path(b, c), std::path::Path::new(b).join(c).to_string_lossy());
    }
}

#[test]
fn paths_under_root() {
    let p = Paths::under(s("/r"));
    assert_eq!(p.root, "/r");
    assert_eq!(p.config, "/r/config.toml");
    assert_eq!(p.db, "/r/library.sqlite3");
    assert_eq!(p.sock, "/r/rmp.sock");
    assert_eq!(p.pid, "/r/rmp.pid");
    assert_eq!(p.state, "/r/last-state.json");
    assert_eq!(p.log, "/r/rmp.log");
}

#[test]
fn default_config_values() {
    let c = Config::default();
    assert_eq!(c.mpv_binary, "mpv");
    assert_eq!(c.volume_step, 5);
    assert_eq!(c.keybindings.get("j").map(|v| v.as_str()), Some("move_down"));
    assert_eq!(c.keybindings.get("Q").map(|v| v.as_str()), Some("detach"));
    assert_eq!(c.keybindings.get("x"), None);
}

#[test]
fn default_bindings_hold_each_key_once() {
    let b = default_bindings();
    assert_eq!(b.len(), 32);
    for i in 0..b.len() {
        for j in (i + 1)..b.len() {
            assert_ne!(b.key_at(i), b.key_at(j));
        }
    }
}

#[test]
fn file_bindings_override_defaults_and_defaults_fill_the_rest() {
    let mut user = Bindings::new();
    user.insert(s("j"), s("move_up"));
    user.insert(s("z"), s("shuffle"));
    merge_default_bindings(&mut user);
    assert_eq!(user.get("j").map(|v| v.as_str()), Some("move_up"));
    assert_eq!(user.get("z").map(|v| v.as_str()), Some("shuffle"));
    assert_eq!(user.get("k").map(|v| v.as_str()), Some("move_up"));
    assert_eq!(user.get("esc").map(|v| v.as_str()), Some("confirm_quit"));
    assert_eq!(user.len(), 33);
}

#[test]
fn with_file_bindings_keeps_file_values() {
    let mut user = Bindings::new();
    user.insert(s("q"), s("detach"));
    let c = Config::with_file_bindings(s("/usr/bin/mpv"), 10, user);
    assert_eq!(c.mpv_binary, "/usr/bin/mpv");
    assert_eq!(c.volume_step, 10);
    assert_eq!(c.keybindings.get("q").map(|v| v.as_str()), Some("detach"));
    assert_eq!(c.keybindings.get("n").map(|v| v.as_str()), Some("next_track"));
}

#[test]
fn insert_replaces_and_or_insert_keeps() {
    let mut b = Bindings::new();
    b.insert(s("a"), s("one"));
    b.insert(s("a"), s("two"));
    assert_eq!(b.len(), 1);
    assert_eq!(b.get("a").map(|v| v.as_str()), Some("two"));
    b.or_insert(s("a"), s("three"));
    assert_eq!(b.get("a").map(|v| v.as_str()), Some("two"));
    b.or_insert(s("b"), s("four"));
    assert_eq!(b.get("b").map(|v| v.as_str()), Some("four"));
    assert_eq!(b.len(), 2);
}
