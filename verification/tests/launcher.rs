use rose_launcher::launcher::{
    LaunchAction, LaunchEvent, LaunchPhase, LauncherApp, LauncherConfig, RunMode, Tab,
};
use rose_launcher::text::{clean_path, join_texts, trim_text};

fn strings(items: &[&str]) -> Vec<String> {
    items.iter().map(|s| s.to_string()).collect()
}

#[test]
fn trim_removes_ascii_and_unicode_white_space() {
    assert_eq!(trim_text("  a b \t\n"), "a b");
    assert_eq!(trim_text("\u{3000}x\u{85}\u{a0}"), "x");
    assert_eq!(trim_text(" \t "), "");
    assert_eq!(trim_text(""), "");
    assert_eq!(trim_text("mid dle"), "mid dle");
}

#[test]
fn trim_matches_std_trim() {
    for s in ["", " ", "a", " a ", "\u{2000}\u{200a}b\u{2028}", "\u{1680}c d\u{205f}", "x\u{200b}"] {
        assert_eq!(trim_text(s), s.trim());
    }
}

#[test]
fn clean_path_strips_verbatim_prefix() {
    assert_eq!(clean_path(r"\\?\C:\Games\rose-offline-client.exe"), r"C:\Games\rose-offline-client.exe");
    assert_eq!(clean_path(r"C:\Games\data.idx"), r"C:\Games\data.idx");
    assert_eq!(clean_path(r"\\?"), r"\\?");
    assert_eq!(clean_path(r"\\?\"), "");
    assert_eq!(clean_path(r"\\?\\\?\x"), r"\\?\x");
}

#[test]
fn join_texts_puts_separator_between_parts() {
    assert_eq!(join_texts(&strings(&["a", "b", "c"]), " "), "a b c");
    assert_eq!(join_texts(&strings(&["only"]), " "), "only");
    assert_eq!(join_texts(&Vec::new(), " "), "");
}

#[test]
fn default_config_values() {
    let c = LauncherConfig::default();
    assert_eq!(c.ip, "127.0.0.1");
    assert_eq!(c.port, "29000");
    assert_eq!(c.width, "1920");
    assert_eq!(c.height, "1080");
    assert_eq!(c.client_path, "");
    assert_eq!(c.zone_id, "");
    assert!(!c.fullscreen && !c.auto_login && !c.disable_sound);
    assert_eq!(c.run_mode, RunMode::Game);
    assert_eq!(RunMode::default(), RunMode::Game);
}

#[test]
fn new_app_starts_on_start_tab_without_status() {
    let app = LauncherApp::new(LauncherConfig::default());
    assert_eq!(app.tab, Tab::Start);
    assert_eq!(app.status, "");
}

#[test]
fn default_config_args() {
    let app = LauncherApp::new(LauncherConfig::default());
    assert_eq!(
        app.build_args(),
        strings(&["--ip", "127.0.0.1", "--port", "29000", "--width", "1920", "--height", "1080"])
    );
}

#[test]
fn args_trim_values_and_skip_blank_ones() {
    let mut c = LauncherConfig::default();
    c.data_idx = "  C:\\irose\\data.idx ".to_string();
    c.username = "   ".to_string();
    c.password = " secret".to_string();
    c.ip = "".to_string();
    c.character_name = "Hero\t".to_string();
    let app = LauncherApp::new(c);
    assert_eq!(
        app.build_args(),
        strings(&[
            "--data-idx",
            "C:\\irose\\data.idx",
            "--port",
            "29000",
            "--password",
            "secret",
            "--character-name",
            "Hero",
            "--width",
            "1920",
            "--height",
            "1080",
        ])
    );
}

#[test]
fn args_fullscreen_switches_and_zone_viewer() {
    let mut c = LauncherConfig::default();
    c.fullscreen = true;
    c.auto_login = true;
    c.disable_vsync = true;
    c.passthrough_terrain_textures = true;
    c.disable_sound = true;
    c.server_id = "1".to_string();
    c.channel_id = "2".to_string();
    c.data_aruavfs_idx = "a.idx".to_string();
    c.data_titanvfs_idx = "t.idx".to_string();
    c.data_iroseph_idx = "p.idx".to_string();
    c.data_path = "D:\\data".to_string();
    c.run_mode = RunMode::ZoneViewer;
    c.zone_id = " 2 ".to_string();
    let app = LauncherApp::new(c);
    assert_eq!(
        app.build_args(),
        strings(&[
            "--data-aruavfs-idx",
            "a.idx",
            "--data-titanvfs-idx",
            "t.idx",
            "--data-iroseph-idx",
            "p.idx",
            "--data-path",
            "D:\\data",
            "--ip",
            "127.0.0.1",
            "--port",
            "29000",
            "--server-id",
            "1",
            "--channel-id",
            "2",
            "--auto-login",
            "--disable-vsync",
            "--passthrough-terrain-textures",
            "--disable-sound",
            "--fullscreen",
            "--zone-viewer",
            "--zone",
            "2",
        ])
    );
}

#[test]
fn args_model_viewer_and_blank_zone() {
    let mut c = LauncherConfig::default();
    c.run_mode = RunMode::ModelViewer;
    c.zone_id = "7".to_string();
    let args = LauncherApp::new(c).build_args();
    assert_eq!(args.last().unwrap(), "--model-viewer");
    assert!(!args.contains(&"--zone".to_string()));

    let mut c = LauncherConfig::default();
    c.run_mode = RunMode::ZoneViewer;
    c.zone_id = " ".to_string();
    let args = LauncherApp::new(c).build_args();
    assert_eq!(args.last().unwrap(), "--zone-viewer");
}

#[test]
fn args_of_pretrimmed_config_are_the_same() {
    let mut c = LauncherConfig::default();
    c.username = "  user ".to_string();
    c.width = " 800".to_string();
    let mut d = c.clone();
    d.username = "user".to_string();
    d.width = "800".to_string();
    d.ip = trim_text(&c.ip);
    assert_eq!(LauncherApp::new(c).build_args(), LauncherApp::new(d).build_args());
}

#[test]
fn launch_stops_when_saving_fails() {
    let mut app = LauncherApp::new(LauncherConfig::default());
    let action = app.launch_step(LaunchEvent::ConfigSaved(Some("disk full".to_string())));
    assert!(matches!(action, LaunchAction::Stop));
    assert_eq!(app.status, "Konnte Einstellungen nicht speichern: disk full");
}

#[test]
fn launch_stops_without_client_path() {
    let mut app = LauncherApp::new(LauncherConfig::default());
    app.config.client_path = "  ".to_string();
    let action = app.launch_step(LaunchEvent::ConfigSaved(None));
    assert!(matches!(action, LaunchAction::Stop));
    assert_eq!(app.status, "Bitte im Optionen-Tab den Pfad zu rose-offline-client.exe setzen.");
}

#[test]
fn launch_checks_trimmed_client_path_then_reports_missing_exe() {
    let mut app = LauncherApp::new(LauncherConfig::default());
    app.config.client_path = " C:\\rose\\client.exe ".to_string();
    match app.launch_step(LaunchEvent::ConfigSaved(None)) {
        LaunchAction::CheckExe(path) => assert_eq!(path, "C:\\rose\\client.exe"),
        _ => panic!("expected an executable check"),
    }
    assert_eq!(app.status, "");
    let action = app.launch_step(LaunchEvent::ExeChecked {
        found: false,
        display: "C:\\rose\\client.exe".to_string(),
    });
    assert!(matches!(action, LaunchAction::Stop));
    assert_eq!(app.status, "Client-Exe nicht gefunden: C:\\rose\\client.exe");
}

#[test]
fn launch_spawns_with_built_args_and_reports_command() {
    let mut app = LauncherApp::new(LauncherConfig::default());
    app.config.client_path = "client.exe".to_string();
    let expected = app.build_args();
    assert!(matches!(app.launch_step(LaunchEvent::ConfigSaved(None)), LaunchAction::CheckExe(_)));
    assert_eq!(app.launch_phase, LaunchPhase::CheckingExe);
    let args = match app.launch_step(LaunchEvent::ExeChecked { found: true, display: "client.exe".to_string() }) {
        LaunchAction::Spawn(args) => args,
        _ => panic!("expected a spawn"),
    };
    assert_eq!(args, expected);
    assert_eq!(app.launch_phase, LaunchPhase::Spawning);
    let action = app.launch_step(LaunchEvent::Spawned {
        display: "client.exe".to_string(),
        args,
        error: None,
    });
    assert!(matches!(action, LaunchAction::Stop));
    assert_eq!(
        app.status,
        "Gestartet: client.exe --ip 127.0.0.1 --port 29000 --width 1920 --height 1080"
    );
    assert_eq!(app.launch_phase, LaunchPhase::Idle);
}

#[test]
fn launch_reports_spawn_failure() {
    let mut app = LauncherApp::new(LauncherConfig::default());
    app.config.client_path = "client.exe".to_string();
    app.launch_step(LaunchEvent::ConfigSaved(None));
    app.launch_step(LaunchEvent::ExeChecked { found: true, display: "client.exe".to_string() });
    let action = app.launch_step(LaunchEvent::Spawned {
        display: "client.exe".to_string(),
        args: Vec::new(),
        error: Some("access denied".to_string()),
    });
    assert!(matches!(action, LaunchAction::Stop));
    assert_eq!(app.status, "Start fehlgeschlagen: access denied");
}

#[test]
fn record_save_messages() {
    let mut app = LauncherApp::new(LauncherConfig::default());
    app.record_save(None);
    assert_eq!(app.status, "Einstellungen gespeichert.");
    app.record_save(Some("read-only".to_string()));
    assert_eq!(app.status, "Speichern fehlgeschlagen: read-only");
}

#[test]
fn apply_detected_cleans_and_keeps_missing() {
    let mut c = LauncherConfig::default();
    c.data_idx = "old.idx".to_string();
    c.username = "keep".to_string();
    c.apply_detected(
        Some(r"\\?\C:\rose\rose-offline-client.exe".to_string()),
        None,
        Some(r"\\?\C:\rose".to_string()),
    );
    assert_eq!(c.client_path, r"C:\rose\rose-offline-client.exe");
    assert_eq!(c.data_idx, "old.idx");
    assert_eq!(c.data_path, r"C:\rose");
    assert_eq!(c.username, "keep");
}

#[test]
fn launch_events_out_of_order_start_nothing() {
    let mut app = LauncherApp::new(LauncherConfig::default());
    app.config.client_path = "client.exe".to_string();
    app.status = "before".to_string();
    let action = app.launch_step(LaunchEvent::ExeChecked { found: true, display: "client.exe".to_string() });
    assert!(matches!(action, LaunchAction::Stop));
    assert_eq!(app.status, "before");
    let action = app.launch_step(LaunchEvent::Spawned {
        display: "client.exe".to_string(),
        args: Vec::new(),
        error: None,
    });
    assert!(matches!(action, LaunchAction::Stop));
    assert_eq!(app.status, "before");
    assert_eq!(app.launch_phase, LaunchPhase::Idle);

    // A failed save leaves nothing to check.
    app.launch_step(LaunchEvent::ConfigSaved(Some("disk full".to_string())));
    let action = app.launch_step(LaunchEvent::ExeChecked { found: true, display: "client.exe".to_string() });
    assert!(matches!(action, LaunchAction::Stop));
}
