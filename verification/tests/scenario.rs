use std::cell::Cell;
use std::collections::HashMap;
use std::rc::Rc;
use thoughts_desktop::config::{BaseDirSource, Config};
use thoughts_desktop::lock_file::{LockFile, LockOp};
use thoughts_desktop::relay::{relay, OutputEvent, RelayStep};
use thoughts_desktop::supervisor::{RunSignal, ShutdownStep, Supervisor};

/// A child that counts how often it is killed.
struct FakeChild {
    kills: Rc<Cell<u32>>,
}

fn perform(disk: &mut HashMap<String, String>, op: &LockOp) {
    match op {
        LockOp::Write { path, contents } => {
            disk.insert(path.clone(), contents.clone());
        }
        LockOp::Remove { path } => {
            disk.remove(path);
        }
    }
}

fn find(disk: &HashMap<String, String>, path: &str) -> LockFile {
    match disk.get(path) {
        Some(text) => LockFile::Present(text.clone()),
        None => LockFile::Absent,
    }
}

#[test]
fn one_run_from_startup_to_shutdown() {
    colored::control::set_override(false);
    let mut disk: HashMap<String, String> = HashMap::new();
    let kills = Rc::new(Cell::new(0));
    let lock_path = "/tmp/test-cfg/server-4000.pid";

    // Startup: the base directory is given, nothing is on record.
    let config = Config::new(4000, Some(String::from("/tmp/test-cfg"))).unwrap();
    assert_eq!(config.source(), BaseDirSource::Override);
    assert_eq!(config.source().warning(), None);
    let mut supervisor = Supervisor::new(config);
    assert_eq!(supervisor.reap(&find(&disk, lock_path)), vec![]);

    // The spawn succeeds under the identifier 5555.
    let record = supervisor.adopt(FakeChild { kills: kills.clone() }, 5555).ok().unwrap();
    perform(&mut disk, &record);
    assert_eq!(disk.get(lock_path).map(String::as_str), Some("5555"));
    assert_eq!(disk.len(), 1);

    // The relay receives one line on each channel, then the stream ends.
    let mut stream = vec![
        OutputEvent::Stdout(b"ready".to_vec()),
        OutputEvent::Stderr(b"warn: cache miss".to_vec()),
    ]
    .into_iter();
    let mut log = Vec::new();
    loop {
        match relay(stream.next()) {
            RelayStep::Forward(line) => log.push(line.render()),
            RelayStep::Skip => {}
            RelayStep::Finish => break,
        }
    }
    assert_eq!(
        log,
        vec![String::from("[tRPC] ready"), String::from("[tRPC:err] warn: cache miss")]
    );

    // Shutdown, triggered twice as an exit request followed by the exit.
    for signal in [RunSignal::ExitRequested, RunSignal::Exit] {
        for step in supervisor.on_run_signal(signal) {
            match step {
                ShutdownStep::Terminate(child) => child.kills.set(child.kills.get() + 1),
                ShutdownStep::Clear(op) => perform(&mut disk, &op),
            }
        }
    }
    assert_eq!(find(&disk, lock_path), LockFile::Absent);
    assert!(disk.is_empty());
    assert_eq!(kills.get(), 1);
}
