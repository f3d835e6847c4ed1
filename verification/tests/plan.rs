use bootstrap::{registration_sequence, startup_failure_message, Bootstrap, Plugin};

#[test]
fn sequence_lists_the_five_plugins_in_order() {
    let s = registration_sequence();
    assert_eq!(
        s,
        vec![Plugin::Fs, Plugin::Log, Plugin::Dialog, Plugin::Shell, Plugin::Sql]
    );
}

#[test]
fn assembly_hands_out_each_plugin_once_then_stops() {
    let mut b = Bootstrap::new();
    assert_eq!(b.attach_next(), Some(Plugin::Fs));
    assert_eq!(b.attach_next(), Some(Plugin::Log));
    assert_eq!(b.attach_next(), Some(Plugin::Dialog));
    assert_eq!(b.attach_next(), Some(Plugin::Shell));
    assert_eq!(b.attach_next(), Some(Plugin::Sql));
    assert_eq!(b.attach_next(), None);
    assert_eq!(b.attach_next(), None);
}

#[test]
fn assembly_is_ready_only_after_all_five() {
    let mut b = Bootstrap::new();
    assert!(!b.ready());
    for _ in 0..4 {
        b.attach_next();
        assert!(!b.ready());
    }
    b.attach_next();
    assert!(b.ready());
}

#[test]
fn assembly_matches_the_registration_sequence() {
    let mut b = Bootstrap::new();
    for expected in registration_sequence() {
        assert!(!b.ready());
        assert_eq!(b.attach_next(), Some(expected));
    }
    assert!(b.ready());
}

#[test]
fn failure_message_is_fixed() {
    assert_eq!(
        startup_failure_message(),
        "error while running tauri application"
    );
}
