use darkclient::{
    Action, Command, Dispatch, Event, LifecycleError, ModuleLifecycleManager, Request,
};

/// A stand-in for the process: which files exist, which module is open, and
/// what was called, in order.
struct Host {
    files: Vec<String>,
    open: Option<String>,
    calls: Vec<String>,
}

impl Host {
    fn with_files(files: &[&str]) -> Host {
        Host { files: files.iter().map(|f| f.to_string()).collect(), open: None, calls: Vec::new() }
    }

    fn count(&self, call: &str) -> usize {
        self.calls.iter().filter(|c| c.as_str() == call).count()
    }
}

/// Carries out the manager's actions until the operation finishes.
fn drive(
    m: &mut ModuleLifecycleManager,
    request: Request<String>,
    host: &mut Host,
) -> Result<(), LifecycleError> {
    let mut action = m.step(Event::Begin(request));
    loop {
        let event = match action {
            Action::Cleanup => {
                host.calls.push(format!("cleanup {}", host.open.clone().unwrap()));
                Event::Done
            }
            Action::Release => {
                host.calls.push(format!("release {}", host.open.take().unwrap()));
                Event::Done
            }
            Action::CheckFile(p) => Event::FileChecked(host.files.contains(&p)),
            Action::Open(p) => {
                assert!(host.open.is_none(), "a second module opened");
                host.calls.push(format!("open {}", p));
                host.open = Some(p);
                Event::Opened(true)
            }
            Action::Initialize => {
                host.calls.push(format!("initialize {}", host.open.clone().unwrap()));
                Event::Done
            }
            Action::Stage { source, staged } => {
                if host.files.contains(&source) {
                    let copy = format!("/work/{}", staged);
                    host.files.push(copy.clone());
                    host.calls.push(format!("stage {}", copy));
                    Event::Staged(Some(copy))
                } else {
                    Event::Staged(None)
                }
            }
            Action::ScheduleDelete(p) => {
                host.calls.push(format!("delete later {}", p));
                Event::Done
            }
            Action::Settle => {
                host.calls.push("settle".to_string());
                Event::Done
            }
            Action::Finished(r) => return r,
            Action::Ignored => panic!("the manager ignored its own follow-up"),
        };
        action = m.step(event);
    }
}

#[test]
fn new_manager_is_unloaded_and_idle() {
    let m = ModuleLifecycleManager::new();
    assert!(!m.is_loaded());
    assert!(m.is_idle());
    assert!(m.loaded_path().is_none());
}

#[test]
fn unload_on_unloaded_is_noop() {
    let mut m = ModuleLifecycleManager::new();
    let a = m.step(Event::Begin(Request::Unload));
    assert!(matches!(a, Action::Finished(Ok(()))));
    assert!(!m.is_loaded());
    assert!(m.is_idle());
}

#[test]
fn load_twice_initializes_once_per_load() {
    let mut m = ModuleLifecycleManager::new();
    let mut host = Host::with_files(&["/m/a.so"]);
    assert_eq!(drive(&mut m, Request::Load("/m/a.so".to_string()), &mut host), Ok(()));
    assert_eq!(host.calls, vec!["open /m/a.so", "initialize /m/a.so"]);
    assert_eq!(drive(&mut m, Request::Load("/m/a.so".to_string()), &mut host), Ok(()));
    assert_eq!(
        host.calls,
        vec![
            "open /m/a.so",
            "initialize /m/a.so",
            "cleanup /m/a.so",
            "release /m/a.so",
            "open /m/a.so",
            "initialize /m/a.so",
        ]
    );
    assert_eq!(m.loaded_path().as_deref(), Some("/m/a.so"));
}

#[test]
fn load_steps_one_by_one() {
    let mut m = ModuleLifecycleManager::new();
    match m.step(Event::Begin(Request::Load("/m/a.so".to_string()))) {
        Action::CheckFile(p) => assert_eq!(p, "/m/a.so"),
        other => panic!("unexpected {:?}", other),
    }
    assert!(!m.is_idle());
    match m.step(Event::FileChecked(true)) {
        Action::Open(p) => assert_eq!(p, "/m/a.so"),
        other => panic!("unexpected {:?}", other),
    }
    assert!(matches!(m.step(Event::Opened(true)), Action::Initialize));
    assert!(!m.is_loaded());
    assert!(matches!(m.step(Event::Done), Action::Finished(Ok(()))));
    assert!(m.is_loaded());
    assert!(m.is_idle());
    assert!(matches!(m.step(Event::Begin(Request::Unload)), Action::Cleanup));
    assert!(matches!(m.step(Event::Done), Action::Release));
    assert!(matches!(m.step(Event::Done), Action::Finished(Ok(()))));
    assert!(!m.is_loaded());
}

#[test]
fn missing_file_leaves_slot_unloaded() {
    let mut m = ModuleLifecycleManager::new();
    let mut host = Host::with_files(&["/m/a.so"]);
    drive(&mut m, Request::Load("/m/a.so".to_string()), &mut host).unwrap();
    let r = drive(&mut m, Request::Load("/m/missing.so".to_string()), &mut host);
    assert_eq!(r, Err(LifecycleError::FileNotFound));
    assert!(!m.is_loaded());
    assert!(m.is_idle());
    assert_eq!(host.count("cleanup /m/a.so"), 1);
}

#[test]
fn open_failure_is_reported() {
    let mut m = ModuleLifecycleManager::new();
    assert!(matches!(m.step(Event::Begin(Request::Load("/m/a.so".to_string()))), Action::CheckFile(_)));
    assert!(matches!(m.step(Event::FileChecked(true)), Action::Open(_)));
    assert!(matches!(m.step(Event::Opened(false)), Action::Finished(Err(LifecycleError::OpenFailed))));
    assert!(!m.is_loaded());
    assert!(m.is_idle());
}

#[test]
fn reload_stages_a_copy_and_loads_it() {
    let mut m = ModuleLifecycleManager::new();
    let source = "/build/libclient.so".to_string();
    match m.step(Event::Begin(Request::Reload { source: source.clone(), timestamp: 1700000000 })) {
        Action::Stage { source: s, staged } => {
            assert_eq!(s, source);
            assert_eq!(staged, "temp_1700000000_libclient.so");
        }
        other => panic!("unexpected {:?}", other),
    }
    let copy = "/work/temp_1700000000_libclient.so".to_string();
    match m.step(Event::Staged(Some(copy.clone()))) {
        Action::ScheduleDelete(p) => assert_eq!(p, copy),
        other => panic!("unexpected {:?}", other),
    }
    match m.step(Event::Done) {
        Action::CheckFile(p) => assert_eq!(p, copy),
        other => panic!("unexpected {:?}", other),
    }
    assert!(matches!(m.step(Event::FileChecked(true)), Action::Open(_)));
    assert!(matches!(m.step(Event::Opened(true)), Action::Initialize));
    assert!(matches!(m.step(Event::Done), Action::Settle));
    assert!(m.is_loaded());
    assert!(matches!(m.step(Event::Done), Action::Finished(Ok(()))));
    assert_eq!(m.loaded_path(), Some(copy));
}

#[test]
fn failed_copy_keeps_the_loaded_module() {
    let mut m = ModuleLifecycleManager::new();
    let mut host = Host::with_files(&["/m/a.so"]);
    drive(&mut m, Request::Reload { source: "/m/a.so".to_string(), timestamp: 1 }, &mut host)
        .unwrap();
    let before = m.loaded_path();
    let r = drive(
        &mut m,
        Request::Reload { source: "/nonexistent/path".to_string(), timestamp: 2 },
        &mut host,
    );
    assert_eq!(r, Err(LifecycleError::CopyFailed));
    assert!(m.is_loaded());
    assert_eq!(m.loaded_path(), before);
    assert_eq!(host.count("cleanup /work/temp_1_a.so"), 0);
}

#[test]
fn reload_without_file_name_fails() {
    let mut m = ModuleLifecycleManager::new();
    let a = m.step(Event::Begin(Request::Reload { source: "/".to_string(), timestamp: 3 }));
    assert!(matches!(a, Action::Finished(Err(LifecycleError::InvalidFileName))));
    let b = m.step(Event::Begin(Request::Reload { source: "/tmp/..".to_string(), timestamp: 3 }));
    assert!(matches!(b, Action::Finished(Err(LifecycleError::InvalidFileName))));
    assert!(m.is_idle());
}

#[test]
fn reload_stages_under_the_final_component() {
    let mut m = ModuleLifecycleManager::new();
    match m.step(Event::Begin(Request::Reload { source: "a/b/c.so".to_string(), timestamp: 42 })) {
        Action::Stage { staged, .. } => assert_eq!(staged, "temp_42_c.so"),
        other => panic!("unexpected {:?}", other),
    }
}

#[test]
fn request_during_an_operation_is_ignored() {
    let mut m = ModuleLifecycleManager::new();
    assert!(matches!(m.step(Event::Begin(Request::Load("/m/a.so".to_string()))), Action::CheckFile(_)));
    assert!(matches!(m.step(Event::Begin(Request::Unload)), Action::Ignored));
    assert!(matches!(
        m.step(Event::Begin(Request::Reload { source: "/m/b.so".to_string(), timestamp: 1 })),
        Action::Ignored
    ));
    assert!(matches!(m.step(Event::Done), Action::Ignored));
    assert!(matches!(m.step(Event::FileChecked(true)), Action::Open(_)));
}

#[test]
fn stray_event_when_idle_is_ignored() {
    let mut m = ModuleLifecycleManager::new();
    assert!(matches!(m.step(Event::Done), Action::Ignored));
    assert!(matches!(m.step(Event::Opened(true)), Action::Ignored));
    assert!(!m.is_loaded());
    assert!(m.is_idle());
}

#[test]
fn end_to_end_two_reloads() {
    let mut m = ModuleLifecycleManager::new();
    let mut host = Host::with_files(&["/m/a.so", "/m/b.so"]);
    for (line, ts) in [("reload /m/a.so\n", 100u64), ("reload /m/b.so\n", 101u64)] {
        match Command::parse(line).dispatch() {
            Dispatch::Reload(source) => {
                drive(&mut m, Request::Reload { source, timestamp: ts }, &mut host).unwrap()
            }
            Dispatch::Reject(_) => panic!("a valid command was rejected"),
        }
    }
    assert_eq!(host.count("initialize /work/temp_100_a.so"), 1);
    assert_eq!(host.count("cleanup /work/temp_100_a.so"), 1);
    assert_eq!(host.count("initialize /work/temp_101_b.so"), 1);
    assert_eq!(host.count("cleanup /work/temp_101_b.so"), 0);
    assert!(m.is_loaded());
    assert_eq!(m.loaded_path().as_deref(), Some("/work/temp_101_b.so"));
    assert_eq!(host.open.as_deref(), Some("/work/temp_101_b.so"));
    assert_eq!(host.count("delete later /work/temp_100_a.so"), 1);
    assert_eq!(host.count("delete later /work/temp_101_b.so"), 1);
}
