//! What holds of every fork, whatever the operating system answers.

use super::attach::{asked, asked_from, pending, run, run_from, start, step};
use super::attach::{Event, Progress, Request, Session, Stage};
use super::err::ForkError;
use super::pty::{MasterError, SlaveError};
use super::{Fork, Wait};
use crate::descriptor::SENTINEL;
use vstd::prelude::*;

verus! {

/// Whether the event reports that the call pending at the stage failed.
pub open spec fn fails(stage: Stage, e: Event) -> bool {
    if stage is Forked {
        e.name() is None
    } else {
        e.code() == SENTINEL
    }
}

/// A failed call ends the fork with an error.
pub proof fn law_failure_ends_the_fork(s: Session, e: Event)
    requires
        fails(s.stage, e),
    ensures
        step(s, e) matches Progress::Done(Err(_)),
{
}

/// Once a call has ended the fork, nothing more is asked for, and later
/// events change nothing.
pub proof fn law_nothing_follows_the_end(s: Session, events: Seq<Event>)
    requires
        events.len() > 0,
        step(s, events[0]) is Done,
    ensures
        run(s, events) == step(s, events[0]),
        asked(s, events) == seq![pending(s.stage)],
{
}

/// If access to the slave cannot be granted, the fork ends on the master side
/// after two calls: the slave is not unlocked and the process is not forked.
pub proof fn law_grant_failure_stops(path: Seq<char>, events: Seq<Event>)
    requires
        events.len() >= 2,
        events[0].code() != SENTINEL,
        events[1].code() == SENTINEL,
    ensures
        run(start(path), events) == Progress::<Session>::Done(
            Err(ForkError::BadMaster(MasterError::GrantptError)),
        ),
        asked(start(path), events) == seq![Request::OpenMaster, Request::Grantpt(events[0].code())],
{
    reveal_with_fuel(run_from, 3);
    reveal_with_fuel(asked_from, 3);
}

/// If the slave cannot be unlocked, the fork ends on the master side after
/// three calls: the process is not forked.
pub proof fn law_unlock_failure_stops(path: Seq<char>, events: Seq<Event>)
    requires
        events.len() >= 3,
        events[0].code() != SENTINEL,
        events[1].code() != SENTINEL,
        events[2].code() == SENTINEL,
    ensures
        run(start(path), events) == Progress::<Session>::Done(
            Err(ForkError::BadMaster(MasterError::UnlockptError)),
        ),
        asked(start(path), events) == seq![
            Request::OpenMaster,
            Request::Grantpt(events[0].code()),
            Request::Unlockpt(events[0].code()),
        ],
{
    reveal_with_fuel(run_from, 4);
    reveal_with_fuel(asked_from, 4);
}

/// The calls of a fork as the father makes them, on the master with descriptor
/// `master`.
pub open spec fn father_calls(master: i32) -> Seq<Request> {
    seq![Request::OpenMaster, Request::Grantpt(master), Request::Unlockpt(master), Request::Fork]
}

/// The calls of a fork as the child makes them, in their order: those of the
/// father; then the slave's name, a session of its own, and the inherited
/// master closed; then the slave opened, duplicated onto the three standard
/// streams, and closed.
pub open spec fn child_calls(master: i32, slave: i32) -> Seq<Request> {
    seq![
        Request::OpenMaster,
        Request::Grantpt(master),
        Request::Unlockpt(master),
        Request::Fork,
        Request::Ptsname(master),
        Request::Setsid,
        Request::Close(master),
        Request::OpenSlave,
        Request::Dup2(slave, 0),
        Request::Dup2(slave, 1),
        Request::Dup2(slave, 2),
        Request::Close(slave),
    ]
}

/// Whether the `i`-th event of a fork says that the `i`-th of the child's
/// calls went well: the fork returned zero, the slave has a name, and no other
/// call returned the sentinel.
pub open spec fn goes_well(events: Seq<Event>, i: int) -> bool {
    if i == 3 {
        events[i].code() == 0
    } else if i == 4 {
        events[i].name() is Some
    } else {
        events[i].code() != SENTINEL
    }
}

/// Whether the first `n` events say that the first `n` of the child's calls
/// went well.
pub open spec fn child_goes_well(events: Seq<Event>, n: int) -> bool {
    &&& n <= events.len()
    &&& forall|i: int| 0 <= i < n ==> #[trigger] goes_well(events, i)
}

/// Whatever the calls give, they are made in the child's order and none is
/// left out: what was asked for is always a beginning of the child's calls. So
/// access is granted before the slave is unlocked, the child has a session of
/// its own and has closed the master it inherited before it opens the slave,
/// and the streams are redirected in their order before the slave is closed.
pub proof fn law_calls_keep_their_order(path: Seq<char>, events: Seq<Event>)
    ensures
        0 < asked(start(path), events).len() <= 12,
        asked(start(path), events) == child_calls(events[0].code(), events[7].code()).take(
            asked(start(path), events).len() as int,
        ),
{
    reveal_with_fuel(run_from, 13);
    reveal_with_fuel(asked_from, 13);
    let calls = asked(start(path), events);
    let all = child_calls(events[0].code(), events[7].code());
    assert(calls =~= all.take(calls.len() as int));
}

/// The first `n` of the child's calls go well exactly if each of them does,
/// taken one by one.
proof fn lemma_goes_well_one_by_one(events: Seq<Event>, n: int)
    requires
        0 <= n <= 12,
        n <= events.len(),
    ensures
        child_goes_well(events, n) <==> {
            &&& n > 0 ==> goes_well(events, 0)
            &&& n > 1 ==> goes_well(events, 1)
            &&& n > 2 ==> goes_well(events, 2)
            &&& n > 3 ==> goes_well(events, 3)
            &&& n > 4 ==> goes_well(events, 4)
            &&& n > 5 ==> goes_well(events, 5)
            &&& n > 6 ==> goes_well(events, 6)
            &&& n > 7 ==> goes_well(events, 7)
            &&& n > 8 ==> goes_well(events, 8)
            &&& n > 9 ==> goes_well(events, 9)
            &&& n > 10 ==> goes_well(events, 10)
            &&& n > 11 ==> goes_well(events, 11)
        },
{
}

/// A fork that ends well ends on one side only, and the fork call alone
/// decides on which. It is the father's where that call returned a process id:
/// this id and the master that was opened are what the father gets, and the
/// father made the father's calls and no other. It is the child's where that
/// call returned zero: the child made all of the child's calls, in order.
pub proof fn law_one_side_per_process(path: Seq<char>, events: Seq<Event>, fork: Fork)
    requires
        run(start(path), events) == Progress::<Session>::Done(Ok(fork)),
    ensures
        events.len() >= 4,
        fork is Father <==> events[3].code() != 0,
        fork is Child <==> events[3].code() == 0,
        fork matches Fork::Father(pid, master) ==> {
            &&& pid == events[3].code()
            &&& pid != SENTINEL
            &&& master.pty == events[0].code()
            &&& asked(start(path), events) == father_calls(master.pty)
        },
        fork is Child ==> {
            &&& child_goes_well(events, 12)
            &&& asked(start(path), events) == child_calls(events[0].code(), events[7].code())
        },
{
    reveal_with_fuel(run_from, 13);
    reveal_with_fuel(asked_from, 13);
    if events.len() >= 4 && events[3].code() == 0 {
        lemma_goes_well_one_by_one(events, 12);
    }
}

/// Where every call of the child goes well, the fork ends as the child's, after
/// all of the child's calls in their order.
pub proof fn law_child_calls_in_order(path: Seq<char>, events: Seq<Event>)
    requires
        child_goes_well(events, 12),
    ensures
        run(start(path), events) == Progress::<Session>::Done(Ok(Fork::Child)),
        asked(start(path), events) == child_calls(events[0].code(), events[7].code()),
{
    reveal_with_fuel(run_from, 13);
    reveal_with_fuel(asked_from, 13);
    lemma_goes_well_one_by_one(events, 12);
}

/// If the slave cannot be duplicated onto a standard stream, the fork ends
/// there with the slave's duplication failure, whatever state it was in
/// otherwise: no later stream is tried and the slave is not closed.
pub proof fn law_duplication_failure_stops(s: Session, events: Seq<Event>)
    requires
        s.stage is Attaching,
        events.len() > 0,
        events[0].code() == SENTINEL,
    ensures
        run(s, events) == Progress::<Session>::Done(
            Err(ForkError::BadSlave(SlaveError::Dup2Error)),
        ),
        asked(s, events) == seq![pending(s.stage)],
{
}

/// If the duplication onto the `k`-th standard stream fails after all went
/// well, the fork ends with the slave's duplication failure, and the child's
/// calls were made up to that duplication and no further.
pub proof fn law_duplication_failure_cuts_the_calls(path: Seq<char>, events: Seq<Event>, k: int)
    requires
        0 <= k < 3,
        child_goes_well(events, 8 + k),
        events.len() > 8 + k,
        events[8 + k].code() == SENTINEL,
    ensures
        run(start(path), events) == Progress::<Session>::Done(
            Err(ForkError::BadSlave(SlaveError::Dup2Error)),
        ),
        asked(start(path), events) == child_calls(events[0].code(), events[7].code()).take(9 + k),
{
    reveal_with_fuel(run_from, 12);
    reveal_with_fuel(asked_from, 12);
    lemma_goes_well_one_by_one(events, 8 + k);
}

/// A step keeps the path of the master device, and keeps the slave's name
/// known for as long as it is needed.
pub proof fn law_step_keeps_the_names(s: Session, e: Event)
    requires
        s.wf(),
    ensures
        step(s, e) matches Progress::Next(next) ==> next.wf() && next.path == s.path,
{
}

/// The child has nobody to wait for: whatever a wait returned, and before any
/// wait, it is told so and is never asked to wait.
pub proof fn law_child_never_waits(reply: Option<i32>)
    ensures
        Fork::Child.waited(reply) == Wait::Done(Err(ForkError::IsChild)),
{
}

/// The father's wait ends well only on a return that reports a change of the
/// child, and then with the child's process id. Until then the father is asked
/// to wait for that same process.
pub proof fn law_father_waits_for_its_child(fork: Fork, reply: Option<i32>)
    requires
        fork is Father,
    ensures
        fork.waited(reply) matches Wait::Done(Ok(pid)) ==> {
            &&& pid == fork->Father_0
            &&& reply matches Some(ret) && ret != 0 && ret != SENTINEL
        },
        fork.waited(reply) matches Wait::Pending(pid) ==> {
            &&& pid == fork->Father_0
            &&& reply is None || reply == Some(0i32)
        },
{
}

/// Where waiting stands after the returns of the waits from the `i`-th on,
/// each wait made because the one before it left the waiting pending. Returns
/// that come after the end of the waiting are not looked at.
pub open spec fn waits_from(fork: Fork, replies: Seq<i32>, i: int) -> Wait
    decreases replies.len() - i,
{
    if 0 <= i < replies.len() {
        match fork.waited(Some(replies[i])) {
            Wait::Pending(_) => waits_from(fork, replies, i + 1),
            Wait::Done(end) => Wait::Done(end),
        }
    } else {
        fork.waited(None)
    }
}

proof fn lemma_waits_skip_zeros(fork: Fork, replies: Seq<i32>, i: int, n: int)
    requires
        fork is Father,
        0 <= i <= n <= replies.len(),
        forall|j: int| i <= j < n ==> replies[j] == 0,
    ensures
        waits_from(fork, replies, i) == waits_from(fork, replies, n),
    decreases n - i,
{
    if i < n {
        lemma_waits_skip_zeros(fork, replies, i + 1, n);
    }
}

/// The father waits for as long as the child runs: waits that return zero
/// change nothing, and the first other return decides how the waiting ends.
pub proof fn law_wait_outlasts_a_running_child(fork: Fork, replies: Seq<i32>, n: int)
    requires
        fork is Father,
        0 <= n <= replies.len(),
        forall|j: int| 0 <= j < n ==> replies[j] == 0,
        n < replies.len() ==> replies[n] != 0,
    ensures
        n < replies.len() ==> waits_from(fork, replies, 0) == fork.waited(Some(replies[n])),
        n < replies.len() ==> waits_from(fork, replies, 0) is Done,
        n == replies.len() ==> waits_from(fork, replies, 0) == Wait::Pending(fork->Father_0),
{
    lemma_waits_skip_zeros(fork, replies, 0, n);
}

} // verus!
