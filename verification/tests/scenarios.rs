use pty::fork::pty::Master;
use pty::fork::{Attach, Event, Fork, ForkError, Progress, Request, Wait};

/// Drives a fork on the default device with the answers of a scripted
/// operating system, up to its end.
fn forked(events: Vec<Event>) -> Result<Fork, ForkError> {
    let mut attach: Attach = Fork::from_ptmx();
    for event in events {
        match attach.step(event) {
            Progress::Next(next) => attach = next,
            Progress::Done(end) => return end,
        }
    }
    panic!("the script ended before the fork did");
}

/// The name of the slave that the child is asked to open, where the system
/// answers every call before that well and resolves the slave as `tty`.
fn slave_opened_by_the_child(tty: &str) -> String {
    let mut attach: Attach = Fork::from_ptmx();
    let events: Vec<Event> = vec![
        Event::Code(3),
        Event::Code(0),
        Event::Code(0),
        Event::Code(0),
        Event::Name(Some(tty.as_bytes().to_vec())),
        Event::Code(4243),
        Event::Code(0),
    ];
    for event in events {
        match attach.step(event) {
            Progress::Next(next) => attach = next,
            Progress::Done(_) => panic!("the fork ended early"),
        }
    }
    assert_eq!(attach.request(), Request::OpenSlave);
    String::from_utf8_lossy(attach.slave_name()).into_owned()
}

#[test]
fn the_father_of_a_scripted_fork_waits_for_its_child() {
    let fork = forked(vec![Event::Code(3), Event::Code(0), Event::Code(0), Event::Code(4243)]).unwrap();
    assert_eq!(fork, Fork::Father(4243, Master { pty: 3 }));
    assert_eq!(fork.wait(None), Wait::Pending(4243));
    assert_eq!(fork.wait(Some(4243)), Wait::Done(Ok(4243)));
}

#[test]
fn the_child_of_a_scripted_fork_opens_the_slave_that_was_resolved() {
    assert_eq!(slave_opened_by_the_child("/dev/pts/7"), "/dev/pts/7");
    assert_eq!(slave_opened_by_the_child("/dev/pts/12"), "/dev/pts/12");
}

#[test]
fn the_father_of_a_scripted_fork_writes_and_reads() {
    let mut fork = forked(vec![Event::Code(3), Event::Code(0), Event::Code(0), Event::Code(4244)]).unwrap();

    if let Some(master) = fork.is_father().ok() {
        let line: String = "echo readme!\n".to_string();
        assert_eq!(master.write(line.as_bytes().len() as isize), Ok(13));
        assert_eq!(master.read(24), 24);
        assert_eq!(master.read(-1), 0);
        let line: String = "exit\n".to_string();
        assert_eq!(master.write(line.as_bytes().len() as isize), Ok(5));
    } else {
        panic!("the father has no master");
    }

    assert_eq!(fork.wait(Some(0)), Wait::Pending(4244));
    assert_eq!(fork.wait(Some(4244)), Wait::Done(Ok(4244)));
}
