use pty::descriptor::DescriptorError;
use pty::fork::attach::Stream;
use pty::fork::pty::{Master, MasterError, SlaveError};
use pty::fork::{Attach, Event, Fork, ForkError, Progress, Request, DEFAULT_PTMX};

/// Feeds the events to a fork on `path`, and returns the calls that were asked
/// for and the end of the fork, if it came to one.
fn drive(path: &'static str, events: Vec<Event>) -> (Vec<Request>, Option<Result<Fork, ForkError>>) {
    let mut attach: Attach = Fork::new(path);
    let mut asked: Vec<Request> = vec![attach.request()];
    for event in events {
        match attach.step(event) {
            Progress::Next(next) => {
                attach = next;
                asked.push(attach.request());
            }
            Progress::Done(end) => return (asked, Some(end)),
        }
    }
    (asked, None)
}

fn name(text: &str) -> Event {
    Event::Name(Some(text.as_bytes().to_vec()))
}

/// The events of a fork in which every call of the child goes well, on the
/// master 3 and the slave 4.
fn child_events() -> Vec<Event> {
    vec![
        Event::Code(3),
        Event::Code(0),
        Event::Code(0),
        Event::Code(0),
        name("/dev/pts/7"),
        Event::Code(4242),
        Event::Code(0),
        Event::Code(4),
        Event::Code(0),
        Event::Code(1),
        Event::Code(2),
        Event::Code(0),
    ]
}

fn child_calls() -> Vec<Request> {
    vec![
        Request::OpenMaster,
        Request::Grantpt(3),
        Request::Unlockpt(3),
        Request::Fork,
        Request::Ptsname(3),
        Request::Setsid,
        Request::Close(3),
        Request::OpenSlave,
        Request::Dup2(4, 0),
        Request::Dup2(4, 1),
        Request::Dup2(4, 2),
        Request::Close(4),
    ]
}

/// The child's events, cut after the `n`-th and followed by `last`.
fn child_events_until(n: usize, last: Event) -> Vec<Event> {
    let mut events: Vec<Event> = child_events();
    events.truncate(n);
    events.push(last);
    events
}

#[test]
fn a_new_fork_asks_for_the_master() {
    let attach = Fork::new("/dev/ptmx");
    assert_eq!(attach.request(), Request::OpenMaster);
    assert_eq!(attach.path(), "/dev/ptmx");
    assert!(attach.slave_name().is_empty());
}

#[test]
fn from_ptmx_forks_on_the_default_device() {
    let attach = Fork::from_ptmx();
    assert_eq!(DEFAULT_PTMX, "/dev/ptmx");
    assert_eq!(attach.path(), "/dev/ptmx");
    assert_eq!(attach.request(), Request::OpenMaster);
    assert_eq!(attach, Fork::new("/dev/ptmx"));
}

#[test]
fn the_path_is_kept() {
    let mut attach = Fork::new("/dev/other");
    for event in child_events_until(11, Event::Code(0)).into_iter().take(11) {
        assert_eq!(attach.path(), "/dev/other");
        match attach.step(event) {
            Progress::Next(next) => attach = next,
            Progress::Done(_) => panic!("the fork ended early"),
        }
    }
    assert_eq!(attach.path(), "/dev/other");
}

#[test]
fn the_father_gets_pid_and_master() {
    let events = vec![Event::Code(3), Event::Code(0), Event::Code(0), Event::Code(4242)];
    let (asked, end) = drive("/dev/ptmx", events);
    assert_eq!(end, Some(Ok(Fork::Father(4242, Master { pty: 3 }))));
    assert_eq!(
        asked,
        vec![
            Request::OpenMaster,
            Request::Grantpt(3),
            Request::Unlockpt(3),
            Request::Fork
        ]
    );
}

#[test]
fn the_child_makes_all_its_calls_in_order() {
    let (asked, end) = drive("/dev/ptmx", child_events());
    assert_eq!(end, Some(Ok(Fork::Child)));
    assert_eq!(asked, child_calls());
}

#[test]
fn events_after_the_end_are_not_taken() {
    let mut events = vec![Event::Code(3), Event::Code(-1)];
    events.push(Event::Code(0));
    events.push(Event::Code(0));
    let (asked, end) = drive("/dev/ptmx", events);
    assert_eq!(end, Some(Err(ForkError::BadMaster(MasterError::GrantptError))));
    assert_eq!(asked.len(), 2);
}

#[test]
fn a_fork_under_way_has_no_end() {
    let (asked, end) = drive("/dev/ptmx", vec![Event::Code(3), Event::Code(0)]);
    assert_eq!(end, None);
    assert_eq!(
        asked,
        vec![Request::OpenMaster, Request::Grantpt(3), Request::Unlockpt(3)]
    );
}

#[test]
fn open_failure_is_a_master_failure() {
    let (asked, end) = drive("/dev/ptmx", vec![Event::Code(-1)]);
    assert_eq!(
        end,
        Some(Err(ForkError::BadMaster(MasterError::BadDescriptor(
            DescriptorError::OpenFail
        ))))
    );
    assert_eq!(asked, vec![Request::OpenMaster]);
}

#[test]
fn grant_failure_stops_before_unlock_and_fork() {
    let (asked, end) = drive("/dev/ptmx", child_events_until(1, Event::Code(-1)));
    assert_eq!(end, Some(Err(ForkError::BadMaster(MasterError::GrantptError))));
    assert_eq!(asked, vec![Request::OpenMaster, Request::Grantpt(3)]);
    assert!(!asked.contains(&Request::Unlockpt(3)));
    assert!(!asked.contains(&Request::Fork));
}

#[test]
fn unlock_failure_stops_before_fork() {
    let (asked, end) = drive("/dev/ptmx", child_events_until(2, Event::Code(-1)));
    assert_eq!(end, Some(Err(ForkError::BadMaster(MasterError::UnlockptError))));
    assert_eq!(
        asked,
        vec![Request::OpenMaster, Request::Grantpt(3), Request::Unlockpt(3)]
    );
    assert!(!asked.contains(&Request::Fork));
}

#[test]
fn fork_failure() {
    let (asked, end) = drive("/dev/ptmx", child_events_until(3, Event::Code(-1)));
    assert_eq!(end, Some(Err(ForkError::Failure)));
    assert_eq!(asked.len(), 4);
}

#[test]
fn name_failure_is_a_master_failure() {
    let (asked, end) = drive("/dev/ptmx", child_events_until(4, Event::Name(None)));
    assert_eq!(end, Some(Err(ForkError::BadMaster(MasterError::PtsnameError))));
    assert_eq!(asked.len(), 5);
    let (_, end) = drive("/dev/ptmx", child_events_until(4, Event::Name(Some(Vec::new()))));
    assert_eq!(end, Some(Err(ForkError::BadMaster(MasterError::PtsnameError))));
}

#[test]
fn setsid_failure() {
    let (asked, end) = drive("/dev/ptmx", child_events_until(5, Event::Code(-1)));
    assert_eq!(end, Some(Err(ForkError::SetsidFail)));
    assert_eq!(asked.len(), 6);
    assert!(!asked.contains(&Request::OpenSlave));
}

#[test]
fn master_close_failure() {
    let (asked, end) = drive("/dev/ptmx", child_events_until(6, Event::Code(-1)));
    assert_eq!(
        end,
        Some(Err(ForkError::BadDescriptorMaster(DescriptorError::CloseFail)))
    );
    assert_eq!(asked.len(), 7);
    assert!(!asked.contains(&Request::OpenSlave));
}

#[test]
fn slave_open_failure_is_a_slave_failure() {
    let (asked, end) = drive("/dev/ptmx", child_events_until(7, Event::Code(-1)));
    assert_eq!(
        end,
        Some(Err(ForkError::BadSlave(SlaveError::BadDescriptor(
            DescriptorError::OpenFail
        ))))
    );
    assert_eq!(asked.len(), 8);
}

#[test]
fn stdin_duplication_failure_stops_the_others() {
    let (asked, end) = drive("/dev/ptmx", child_events_until(8, Event::Code(-1)));
    assert_eq!(end, Some(Err(ForkError::BadSlave(SlaveError::Dup2Error))));
    assert_eq!(asked, child_calls()[..9].to_vec());
    assert!(!asked.contains(&Request::Dup2(4, 1)));
    assert!(!asked.contains(&Request::Dup2(4, 2)));
    assert!(!asked.contains(&Request::Close(4)));
}

#[test]
fn stdout_duplication_failure_stops_the_last() {
    let (asked, end) = drive("/dev/ptmx", child_events_until(9, Event::Code(-1)));
    assert_eq!(end, Some(Err(ForkError::BadSlave(SlaveError::Dup2Error))));
    assert_eq!(asked, child_calls()[..10].to_vec());
    assert!(!asked.contains(&Request::Dup2(4, 2)));
    assert!(!asked.contains(&Request::Close(4)));
}

#[test]
fn stderr_duplication_failure_is_no_success() {
    let (asked, end) = drive("/dev/ptmx", child_events_until(10, Event::Code(-1)));
    assert_eq!(end, Some(Err(ForkError::BadSlave(SlaveError::Dup2Error))));
    assert_eq!(asked, child_calls()[..11].to_vec());
    assert!(!asked.contains(&Request::Close(4)));
}

#[test]
fn slave_close_failure() {
    let (asked, end) = drive("/dev/ptmx", child_events_until(11, Event::Code(-1)));
    assert_eq!(
        end,
        Some(Err(ForkError::BadDescriptorSlave(DescriptorError::CloseFail)))
    );
    assert_eq!(asked, child_calls());
}

#[test]
fn the_slave_name_is_the_one_resolved() {
    let mut attach = Fork::new("/dev/ptmx");
    for event in child_events().into_iter().take(7) {
        match attach.step(event) {
            Progress::Next(next) => attach = next,
            Progress::Done(_) => panic!("the fork ended early"),
        }
    }
    assert_eq!(attach.request(), Request::OpenSlave);
    assert_eq!(attach.slave_name().as_slice(), "/dev/pts/7".as_bytes());
}

#[test]
fn a_name_in_place_of_a_code_is_a_failure() {
    let (_, end) = drive("/dev/ptmx", vec![name("/dev/pts/7")]);
    assert_eq!(
        end,
        Some(Err(ForkError::BadMaster(MasterError::BadDescriptor(
            DescriptorError::OpenFail
        ))))
    );
    let (_, end) = drive("/dev/ptmx", child_events_until(3, name("/dev/pts/7")));
    assert_eq!(end, Some(Err(ForkError::Failure)));
}

#[test]
fn a_code_in_place_of_a_name_is_a_failure() {
    let (_, end) = drive("/dev/ptmx", child_events_until(4, Event::Code(0)));
    assert_eq!(end, Some(Err(ForkError::BadMaster(MasterError::PtsnameError))));
}

#[test]
fn event_accessors() {
    assert_eq!(Event::Code(7).status(), 7);
    assert_eq!(Event::Name(None).status(), -1);
    assert_eq!(Event::Code(7).into_name(), None);
    assert_eq!(name("a").into_name(), Some(vec![b'a']));
}

#[test]
fn streams_in_order() {
    assert_eq!(Stream::Stdin.fd(), 0);
    assert_eq!(Stream::Stdout.fd(), 1);
    assert_eq!(Stream::Stderr.fd(), 2);
    assert_eq!(Stream::Stdin.next(), Some(Stream::Stdout));
    assert_eq!(Stream::Stdout.next(), Some(Stream::Stderr));
    assert_eq!(Stream::Stderr.next(), None);
}

#[test]
fn a_negative_pid_other_than_the_sentinel_is_handed_on() {
    let (_, end) = drive("/dev/ptmx", child_events_until(3, Event::Code(-2)));
    assert_eq!(end, Some(Ok(Fork::Father(-2, Master { pty: 3 }))));
}
