use vault_bootstrap::bootstrap::{Action, Bootstrap, Event, Phase};
use vault_bootstrap::plugins::Plugin;
use vault_bootstrap::salt::salt_file_path;

/// Drives the five builder-plugin attachments, checking that each asked-for
/// plugin matches the registration order.
fn attach_builder_plugins(b: &mut Bootstrap) {
    let expected = [
        Plugin::Http,
        Plugin::Os,
        Plugin::Opener,
        Plugin::Store,
        Plugin::Shell,
    ];
    for (k, want) in expected.iter().enumerate() {
        match b.next_action() {
            Action::Attach(p) => assert_eq!(p, *want, "plugin {} out of order", k),
            a => panic!("expected an attach action, got {:?}", a),
        }
        b.step(Event::Attached);
    }
}

#[test]
fn salt_path_is_dir_plus_salt_dat() {
    assert_eq!(
        salt_file_path("/home/user/.local/share/demo"),
        "/home/user/.local/share/demo/salt.dat"
    );
    assert_eq!(salt_file_path("/data"), "/data/salt.dat");
}

#[test]
fn salt_path_of_empty_dir_is_bare_suffix() {
    assert_eq!(salt_file_path(""), "/salt.dat");
}

#[test]
fn registration_follows_the_fixed_order() {
    let mut b = Bootstrap::new();
    assert!(b.registered.is_empty());
    attach_builder_plugins(&mut b);
    assert_eq!(
        b.registered,
        vec![
            Plugin::Http,
            Plugin::Os,
            Plugin::Opener,
            Plugin::Store,
            Plugin::Shell
        ]
    );
    assert!(matches!(b.next_action(), Action::ResolveLocalDataDir));
}

#[test]
fn clean_start_registers_all_six_plugins_once() {
    let mut b = Bootstrap::new();
    attach_builder_plugins(&mut b);
    b.step(Event::DirResolved {
        dir: String::from("/home/user/.local/share/demo"),
    });
    match b.next_action() {
        Action::AttachVault(path) => {
            assert_eq!(path, "/home/user/.local/share/demo/salt.dat");
        }
        a => panic!("expected the vault attachment, got {:?}", a),
    }
    b.step(Event::VaultAttached);
    assert!(matches!(b.phase, Phase::ReadyToRun));
    assert_eq!(
        b.registered,
        vec![
            Plugin::Http,
            Plugin::Os,
            Plugin::Opener,
            Plugin::Store,
            Plugin::Shell,
            Plugin::Stronghold
        ]
    );
    // each plugin exactly once
    for p in &b.registered {
        assert_eq!(b.registered.iter().filter(|q| *q == p).count(), 1);
    }
    assert!(matches!(b.next_action(), Action::EnterRunLoop));
    b.step(Event::RunLoopExited);
    assert!(matches!(b.phase, Phase::Exited));
    assert!(matches!(b.next_action(), Action::Finish));
}

#[test]
fn dir_failure_aborts_before_the_run_loop() {
    let mut b = Bootstrap::new();
    attach_builder_plugins(&mut b);
    b.step(Event::DirUnavailable);
    match &b.phase {
        Phase::Aborted { reason } => {
            assert_eq!(
                reason.message(),
                "could not resolve app local data path"
            );
        }
        p => panic!("expected an aborted phase, got {:?}", p),
    }
    // only the five builder plugins are active; the vault was never attached
    assert_eq!(b.registered.len(), 5);
    assert!(!b.registered.contains(&Plugin::Stronghold));
    assert!(matches!(b.next_action(), Action::Report(_)));
}

#[test]
fn vault_failure_aborts_with_the_run_diagnostic() {
    let mut b = Bootstrap::new();
    attach_builder_plugins(&mut b);
    b.step(Event::DirResolved {
        dir: String::from("/data"),
    });
    b.step(Event::VaultFailed);
    match &b.phase {
        Phase::Aborted { reason } => {
            assert_eq!(reason.message(), "error while running tauri application");
        }
        p => panic!("expected an aborted phase, got {:?}", p),
    }
    assert_eq!(b.registered.len(), 5);
    assert!(!b.registered.contains(&Plugin::Stronghold));
}

#[test]
fn run_loop_failure_aborts_with_its_diagnostic() {
    let mut b = Bootstrap::new();
    attach_builder_plugins(&mut b);
    b.step(Event::DirResolved {
        dir: String::from("/data"),
    });
    b.step(Event::VaultAttached);
    b.step(Event::RunLoopFailed);
    match &b.phase {
        Phase::Aborted { reason } => {
            assert_eq!(reason.message(), "error while running tauri application");
        }
        p => panic!("expected an aborted phase, got {:?}", p),
    }
    assert_eq!(b.registered.len(), 6);
}
