use hdr_merge::error::HdrError;
use hdr_merge::watch::{
    debounce_check, is_image_extension_str, should_process_file, ChangeKind, DebounceTable,
    WatchController,
};

#[test]
fn debounce_window() {
    let mut t = DebounceTable::new();
    let t0: u64 = 1_000;
    assert!(debounce_check(&mut t, "/d/p.png", t0));
    assert!(!debounce_check(&mut t, "/d/p.png", t0 + 100));
    assert!(debounce_check(&mut t, "/d/p.png", t0 + 600));
    assert!(!debounce_check(&mut t, "/d/p.png", t0 + 1099));
    assert!(debounce_check(&mut t, "/d/p.png", t0 + 1100));
    assert_eq!(t.len(), 1);
}

#[test]
fn debounce_is_per_path_and_clock_safe() {
    let mut t = DebounceTable::new();
    assert!(debounce_check(&mut t, "a.png", 5_000));
    assert!(debounce_check(&mut t, "b.png", 5_001));
    assert!(!debounce_check(&mut t, "a.png", 4_000));
    assert!(debounce_check(&mut t, "a.png", 5_500));
    assert_eq!(t.len(), 2);
}

#[test]
fn extension_filter() {
    assert!(should_process_file("/x/IMG.PNG"));
    assert!(should_process_file("/x/a.jpg"));
    assert!(should_process_file("b.JPEG"));
    assert!(should_process_file("c.JpEg"));
    assert!(!should_process_file("/x/a.gif"));
    assert!(!should_process_file("/x/a.txt"));
    assert!(!should_process_file("/x/png"));
    assert!(!should_process_file("/x/.png"));
    assert!(!should_process_file("/x/a.png.tmp"));
    assert!(!should_process_file(""));
    assert!(is_image_extension_str("pNg"));
    assert!(!is_image_extension_str("pn"));
    assert!(!is_image_extension_str("jpegg"));
}

#[test]
fn watch_lifecycle() {
    let mut w = WatchController::new();
    assert!(!w.is_running());
    assert_eq!(w.start_target(), Err(HdrError::NotConfigured));
    w.stop();
    assert!(!w.is_running());
    assert_eq!(w.set_folder("/nowhere".to_string(), false), Err(HdrError::InvalidFolder));
    assert_eq!(w.folder, None);
    assert_eq!(w.set_folder("/photos".to_string(), true), Ok(()));
    assert_eq!(w.start_target(), Ok("/photos".to_string()));
    assert_eq!(w.finish_start(Ok(())), Ok(()));
    assert!(w.is_running());
    assert_eq!(w.start_target(), Err(HdrError::AlreadyWatching));
    assert_eq!(w.set_folder("/other".to_string(), true), Ok(()));
    assert!(w.is_running());
    w.stop();
    assert!(!w.is_running());
    w.stop();
    assert!(!w.is_running());
    assert_eq!(w.start_target(), Ok("/other".to_string()));
}

#[test]
fn failed_setup_stays_idle() {
    let mut w = WatchController::new();
    w.set_folder("/photos".to_string(), true).unwrap();
    assert_eq!(
        w.finish_start(Err("no watches left".to_string())),
        Err(HdrError::WatchSetup("no watches left".to_string()))
    );
    assert!(!w.is_running());
}

#[test]
fn events_are_filtered_and_debounced() {
    let mut w = WatchController::new();
    let paths = vec![
        "/p/a.png".to_string(),
        "/p/notes.txt".to_string(),
        "/p/b.JPG".to_string(),
        "/p/a.png".to_string(),
    ];
    assert_eq!(w.handle_event(ChangeKind::Other, &paths, 0), Vec::<String>::new());
    assert_eq!(
        w.handle_event(ChangeKind::Create, &paths, 0),
        vec!["/p/a.png".to_string(), "/p/b.JPG".to_string()]
    );
    assert_eq!(w.handle_event(ChangeKind::Modify, &paths, 100), Vec::<String>::new());
    assert_eq!(
        w.handle_event(ChangeKind::Modify, &vec!["/p/a.png".to_string()], 500),
        vec!["/p/a.png".to_string()]
    );
}
