//! The syncer's bus handler: it keeps the set of outstanding tasks, hands new ones to
//! its chain worker and routes the worker's events back to the tasks' sources.
use vstd::prelude::*;

use crate::bus::{family_of, msg_name, BusMsg, CtlMsg, Error, Family, InfoMsg, ServiceBus, SyncerInfo};
use crate::service::ServiceId;
use crate::sync::{BridgeEvent, SyncMsg, SyncerdTask, Task, TaskView};

verus! {

/// The (lane, family) pairs a syncer accepts.
pub open spec fn syncer_admits(bus: ServiceBus, f: Family) -> bool {
    ||| bus == ServiceBus::Ctl && f == Family::Ctl
    ||| bus == ServiceBus::Info && f == Family::Info
    ||| bus == ServiceBus::Sync && f == Family::Sync
    ||| bus == ServiceBus::Bridge && f == Family::Sync
}

/// What the caller of a handler is asked to do, in order.
#[derive(Debug)]
pub enum Action {
    /// Send a message on a lane to a service.
    Send { bus: ServiceBus, dest: ServiceId, msg: BusMsg },
    /// Hand a task to the chain worker.
    ToSynclet(SyncerdTask),
    /// Leave the event loop.
    Exit,
}

/// The views of a list of submitted tasks.
pub open spec fn views_of(s: Seq<SyncerdTask>) -> Seq<(TaskView, ServiceId)> {
    s.map_values(|t: SyncerdTask| t@)
}

/// Seconds between two instants, zero when the clock went backwards.
pub open spec fn elapsed(since: u64, now: u64) -> u64 {
    if now >= since {
        (now - since) as u64
    } else {
        0
    }
}

/// The state of a syncer's bus handler.
pub struct Runtime {
    pub identity: ServiceId,
    /// When the syncer started, in seconds since the epoch.
    pub started: u64,
    /// Outstanding tasks, each once, in the order they came.
    pub tasks: Vec<SyncerdTask>,
}

impl Runtime {
    pub open spec fn task_views(&self) -> Seq<(TaskView, ServiceId)> {
        views_of(self.tasks@)
    }

    /// No task is outstanding twice.
    pub open spec fn wf(&self) -> bool {
        self.task_views().no_duplicates()
    }

    pub fn new(identity: ServiceId, started: u64) -> (r: Runtime)
        ensures
            r.wf(),
            r.identity == identity,
            r.started == started,
            r.task_views() == Seq::<(TaskView, ServiceId)>::empty(),
    {
        let r = Runtime { identity, started, tasks: Vec::new() };
        assert(r.task_views() =~= Seq::<(TaskView, ServiceId)>::empty());
        r
    }

    pub fn identity(&self) -> (r: ServiceId)
        ensures
            r == self.identity,
    {
        self.identity
    }

    /// Whether an equal task from the same source is outstanding.
    pub fn is_outstanding(&self, t: &SyncerdTask) -> (r: bool)
        ensures
            r == self.task_views().contains(t@),
    {
        let mut i: usize = 0;
        while i < self.tasks.len()
            invariant
                0 <= i <= self.tasks@.len(),
                forall|j: int| 0 <= j < i ==> self.tasks@[j]@ != t@,
            decreases self.tasks@.len() - i,
        {
            if self.tasks[i].same_as(t) {
                assert(self.task_views()[i as int] == t@);
                return true;
            }
            i = i + 1;
        }
        assert forall|j: int| 0 <= j < self.task_views().len() implies self.task_views()[j]
            != t@ by {
            assert(self.tasks@[j]@ != t@);
        }
        false
    }

    /// Copies of the outstanding tasks, in order.
    pub fn task_list(&self) -> (r: Vec<SyncerdTask>)
        ensures
            views_of(r@) == self.task_views(),
    {
        let mut r: Vec<SyncerdTask> = Vec::new();
        let mut i: usize = 0;
        while i < self.tasks.len()
            invariant
                0 <= i <= self.tasks@.len(),
                views_of(r@) == self.task_views().subrange(0, i as int),
            decreases self.tasks@.len() - i,
        {
            let t = self.tasks[i].copy();
            let ghost prev = r@;
            r.push(t);
            assert(views_of(r@) =~= views_of(prev).push(t@));
            assert(self.task_views()[i as int] == t@);
            assert(self.task_views().subrange(0, i + 1) =~= self.task_views().subrange(
                0,
                i as int,
            ).push(t@));
            i = i + 1;
        }
        assert(self.task_views().subrange(0, self.tasks@.len() as int) =~= self.task_views());
        r
    }

    /// Records a task unless an equal one from the same source is outstanding;
    /// returns the copy to hand to the chain worker when it is new.
    pub fn register(&mut self, t: SyncerdTask) -> (r: Option<SyncerdTask>)
        requires
            old(self).wf(),
        ensures
            final(self).wf(),
            final(self).identity == old(self).identity,
            final(self).started == old(self).started,
            old(self).task_views().contains(t@) ==> r is None && *final(self) == *old(self),
            !old(self).task_views().contains(t@) ==> (r matches Some(c) && c@ == t@
                && final(self).task_views() == old(self).task_views().push(t@)),
    {
        if self.is_outstanding(&t) {
            None
        } else {
            let c = t.copy();
            let ghost before = self.task_views();
            self.tasks.push(t);
            assert(self.task_views() =~= before.push(c@));
            proof {
                assert forall|i: int, j: int|
                    0 <= i < self.task_views().len() && 0 <= j < self.task_views().len() && i
                        != j implies self.task_views()[i] != self.task_views()[j] by {
                    if i < before.len() && j < before.len() {
                    } else if i == before.len() {
                        assert(!before.contains(c@));
                        assert(before[j] != c@);
                    } else {
                        assert(!before.contains(c@));
                        assert(before[i] != c@);
                    }
                }
            }
            Some(c)
        }
    }

    /// Dispatches a message by lane: Ctl, Info and Sync messages on their own lanes, Sync
    /// messages on the bridge; anything else is refused with `NotSupported` and changes nothing.
    pub fn handle(&mut self, bus: ServiceBus, source: ServiceId, request: BusMsg, now: u64) -> (r:
        Result<Vec<Action>, Error>)
        requires
            old(self).wf(),
        ensures
            final(self).wf(),
            final(self).identity == old(self).identity,
            final(self).started == old(self).started,
            handled(*old(self), *final(self), bus, source, request, now, r),
    {
        match (bus, request) {
            (ServiceBus::Ctl, BusMsg::Ctl(req)) => self.handle_ctl(source, req),
            (ServiceBus::Info, BusMsg::Info(req)) => self.handle_info(source, req, now),
            (ServiceBus::Sync, BusMsg::Sync(req)) => self.handle_sync(source, req),
            (ServiceBus::Bridge, BusMsg::Sync(req)) => self.handle_bridge(req),
            (_, request) => Err(Error::NotSupported(bus, request.name())),
        }
    }

    /// Errors of the transport are reported where they happen; the handler only goes on.
    pub fn handle_err(&mut self) -> (r: Result<(), Error>)
        ensures
            *final(self) == *old(self),
            r is Ok,
    {
        Ok(())
    }

    fn handle_ctl(&mut self, source: ServiceId, request: CtlMsg) -> (r: Result<Vec<Action>, Error>)
        ensures
            ctl_outcome(*old(self), *final(self), source, request, r),
    {
        match (&request, &source) {
            (CtlMsg::Hello, _) => Ok(Vec::new()),
            (CtlMsg::Terminate, ServiceId::Farcasterd) => Ok(vec![Action::Exit]),
            _ => Err(Error::NotSupported(ServiceBus::Ctl, request.name())),
        }
    }

    fn handle_info(&mut self, source: ServiceId, request: InfoMsg, now: u64) -> (r: Result<
        Vec<Action>,
        Error,
    >)
        ensures
            info_outcome(*old(self), *final(self), source, request, now, r),
    {
        match request {
            InfoMsg::GetInfo => {
                let uptime: u64 = if now >= self.started {
                    now - self.started
                } else {
                    0
                };
                let info = SyncerInfo {
                    syncer: self.identity,
                    uptime,
                    since: self.started,
                    tasks: self.task_list(),
                };
                Ok(
                    vec![
                        Action::Send {
                            bus: ServiceBus::Info,
                            dest: source,
                            msg: BusMsg::Info(InfoMsg::SyncerInfo(info)),
                        },
                    ],
                )
            },
            InfoMsg::ListTasks => {
                let list = self.task_list();
                Ok(
                    vec![
                        Action::Send {
                            bus: ServiceBus::Info,
                            dest: source,
                            msg: BusMsg::Info(InfoMsg::TaskList(list)),
                        },
                    ],
                )
            },
            _ => Ok(Vec::new()),
        }
    }

    fn handle_sync(&mut self, source: ServiceId, request: SyncMsg) -> (r: Result<
        Vec<Action>,
        Error,
    >)
        requires
            old(self).wf(),
        ensures
            final(self).wf(),
            sync_outcome(*old(self), *final(self), source, request, r),
    {
        match request {
            SyncMsg::Task(task) => {
                let t = SyncerdTask { task, source };
                match self.register(t) {
                    Some(c) => Ok(vec![Action::ToSynclet(c)]),
                    None => Ok(Vec::new()),
                }
            },
            _ => Ok(Vec::new()),
        }
    }

    fn handle_bridge(&mut self, request: SyncMsg) -> (r: Result<Vec<Action>, Error>)
        ensures
            bridge_outcome(*old(self), *final(self), request, r),
    {
        match request {
            SyncMsg::BridgeEvent(e) => Ok(
                vec![
                    Action::Send {
                        bus: ServiceBus::Sync,
                        dest: e.source,
                        msg: BusMsg::Sync(SyncMsg::Event(e.event)),
                    },
                ],
            ),
            _ => Ok(Vec::new()),
        }
    }
}

/// A Ctl message: `Hello` is accepted silently, `Terminate` from the supervisor asks to exit,
/// anything else is refused. The state never changes.
pub open spec fn ctl_outcome(
    pre: Runtime,
    post: Runtime,
    source: ServiceId,
    m: CtlMsg,
    r: Result<Vec<Action>, Error>,
) -> bool {
    &&& post == pre
    &&& if m == CtlMsg::Hello {
        r matches Ok(v) && v@ == Seq::<Action>::empty()
    } else if m == CtlMsg::Terminate && source == ServiceId::Farcasterd {
        r matches Ok(v) && v@ =~= seq![Action::Exit]
    } else {
        r matches Err(Error::NotSupported(b, s)) && b == ServiceBus::Ctl && s@ == msg_name(
            BusMsg::Ctl(m),
        )
    }
}

/// An Info message: `GetInfo` and `ListTasks` are answered to the source on the Info lane,
/// other requests are dropped. The state never changes.
pub open spec fn info_outcome(
    pre: Runtime,
    post: Runtime,
    source: ServiceId,
    m: InfoMsg,
    now: u64,
    r: Result<Vec<Action>, Error>,
) -> bool {
    &&& post == pre
    &&& r matches Ok(v)
    &&& match m {
        InfoMsg::GetInfo => v.len() == 1 && (v[0] matches Action::Send {
            bus: b,
            dest: d,
            msg: BusMsg::Info(InfoMsg::SyncerInfo(i)),
        } && b == ServiceBus::Info && d == source && i.syncer == pre.identity && i.since
            == pre.started && i.uptime == elapsed(pre.started, now) && views_of(i.tasks@)
            == pre.task_views()),
        InfoMsg::ListTasks => v.len() == 1 && (v[0] matches Action::Send {
            bus: b,
            dest: d,
            msg: BusMsg::Info(InfoMsg::TaskList(l)),
        } && b == ServiceBus::Info && d == source && views_of(l@) == pre.task_views()),
        _ => v.len() == 0,
    }
}

/// A Sync message on the Sync lane: a task not yet outstanding from that source is recorded
/// and handed to the chain worker; an equal one changes nothing and sends nothing. Other
/// messages are dropped.
pub open spec fn sync_outcome(
    pre: Runtime,
    post: Runtime,
    source: ServiceId,
    m: SyncMsg,
    r: Result<Vec<Action>, Error>,
) -> bool {
    &&& r matches Ok(v)
    &&& post.identity == pre.identity
    &&& post.started == pre.started
    &&& match m {
        SyncMsg::Task(t) => if pre.task_views().contains((t@, source)) {
            post == pre && v.len() == 0
        } else {
            post.task_views() == pre.task_views().push((t@, source)) && v.len() == 1 && (
            v[0] matches Action::ToSynclet(c) && c@ == (t@, source))
        },
        _ => post == pre && v.len() == 0,
    }
}

/// A Sync message on the bridge: an event from the chain worker goes, unchanged, to the
/// source of its task on the Sync lane and nowhere else. Other messages are dropped.
pub open spec fn bridge_outcome(
    pre: Runtime,
    post: Runtime,
    m: SyncMsg,
    r: Result<Vec<Action>, Error>,
) -> bool {
    &&& post == pre
    &&& r matches Ok(v)
    &&& match m {
        SyncMsg::BridgeEvent(e) => v@ =~= seq![
            Action::Send {
                bus: ServiceBus::Sync,
                dest: e.source,
                msg: BusMsg::Sync(SyncMsg::Event(e.event)),
            },
        ],
        _ => v.len() == 0,
    }
}

/// What handling `request` on lane `bus` from `source` at time `now` does: a message whose
/// family the lane does not carry is refused with `NotSupported` and changes nothing;
/// otherwise the family's own outcome applies.
pub open spec fn handled(
    pre: Runtime,
    post: Runtime,
    bus: ServiceBus,
    source: ServiceId,
    request: BusMsg,
    now: u64,
    r: Result<Vec<Action>, Error>,
) -> bool {
    &&& !syncer_admits(bus, family_of(request)) ==> post == pre && (r matches Err(
        Error::NotSupported(b, s),
    ) && b == bus && s@ == msg_name(request))
    &&& bus == ServiceBus::Ctl ==> (request matches BusMsg::Ctl(c) ==> ctl_outcome(pre, post, source, c, r))
    &&& bus == ServiceBus::Info ==> (request matches BusMsg::Info(i) ==> info_outcome(
        pre,
        post,
        source,
        i,
        now,
        r,
    ))
    &&& bus == ServiceBus::Sync ==> (request matches BusMsg::Sync(m) ==> sync_outcome(pre, post, source, m, r))
    &&& bus == ServiceBus::Bridge ==> (request matches BusMsg::Sync(m) ==> bridge_outcome(pre, post, m, r))
}

/// The Sync message that submits `t`.
pub open spec fn submit(t: Task) -> BusMsg {
    BusMsg::Sync(SyncMsg::Task(t))
}

/// Submitting a task twice from the same source is the same as submitting it once: the
/// second submission changes nothing and hands nothing to the chain worker, and the
/// outstanding tasks are those before with that task added.
pub proof fn lemma_task_idempotent(
    s0: Runtime,
    s1: Runtime,
    s2: Runtime,
    source: ServiceId,
    t1: Task,
    t2: Task,
    now1: u64,
    now2: u64,
    r1: Result<Vec<Action>, Error>,
    r2: Result<Vec<Action>, Error>,
)
    requires
        t1@ == t2@,
        handled(s0, s1, ServiceBus::Sync, source, submit(t1), now1, r1),
        handled(s1, s2, ServiceBus::Sync, source, submit(t2), now2, r2),
    ensures
        s2 == s1,
        r2 matches Ok(v) && v.len() == 0,
        s1.task_views().to_set() == s0.task_views().to_set().insert((t1@, source)),
{
    if s0.task_views().contains((t1@, source)) {
        assert(s0.task_views().to_set().insert((t1@, source)) =~= s0.task_views().to_set());
    } else {
        assert(s1.task_views()[s1.task_views().len() - 1] == (t1@, source));
        assert(s1.task_views().to_set() =~= s0.task_views().to_set().insert((t1@, source))) by {
            assert forall|x| s1.task_views().to_set().contains(x) implies s0.task_views().to_set().insert(
                (t1@, source),
            ).contains(x) by {
                let i = choose|i: int| 0 <= i < s1.task_views().len() && s1.task_views()[i] == x;
                if i < s0.task_views().len() {
                    assert(s0.task_views()[i] == x);
                }
            }
            assert forall|x| s0.task_views().to_set().contains(x) implies s1.task_views().to_set().contains(x) by {
                let i = choose|i: int| 0 <= i < s0.task_views().len() && s0.task_views()[i] == x;
                assert(s1.task_views()[i] == x);
            }
        }
    }
}

/// The message that carries a bridge event to its task's source.
pub open spec fn forwarded(e: BridgeEvent) -> Action {
    Action::Send { bus: ServiceBus::Sync, dest: e.source, msg: BusMsg::Sync(SyncMsg::Event(e.event)) }
}

/// Events from the chain worker leave in the order they came, each once and only to its
/// task's source: two bridge events handled one after the other give exactly the first
/// event's message and then exactly the second's, and change nothing.
pub proof fn lemma_bridge_keeps_order(
    s0: Runtime,
    s1: Runtime,
    s2: Runtime,
    src1: ServiceId,
    src2: ServiceId,
    e1: BridgeEvent,
    e2: BridgeEvent,
    now1: u64,
    now2: u64,
    r1: Result<Vec<Action>, Error>,
    r2: Result<Vec<Action>, Error>,
)
    requires
        handled(s0, s1, ServiceBus::Bridge, src1, BusMsg::Sync(SyncMsg::BridgeEvent(e1)), now1, r1),
        handled(s1, s2, ServiceBus::Bridge, src2, BusMsg::Sync(SyncMsg::BridgeEvent(e2)), now2, r2),
    ensures
        s2 == s0,
        r1 matches Ok(v1) && r2 matches Ok(v2) && v1@ + v2@ == seq![forwarded(e1), forwarded(e2)],
{
    assert(r1->Ok_0@ + r2->Ok_0@ =~= seq![forwarded(e1), forwarded(e2)]);
}

/// New tasks reach the chain worker in the order they were submitted: two tasks not yet
/// outstanding, submitted one after the other, are handed over first and second, and are
/// recorded in that order.
pub proof fn lemma_tasks_keep_order(
    s0: Runtime,
    s1: Runtime,
    s2: Runtime,
    src1: ServiceId,
    src2: ServiceId,
    t1: Task,
    t2: Task,
    now1: u64,
    now2: u64,
    r1: Result<Vec<Action>, Error>,
    r2: Result<Vec<Action>, Error>,
)
    requires
        !s0.task_views().contains((t1@, src1)),
        !s0.task_views().contains((t2@, src2)),
        (t1@, src1) != (t2@, src2),
        handled(s0, s1, ServiceBus::Sync, src1, submit(t1), now1, r1),
        handled(s1, s2, ServiceBus::Sync, src2, submit(t2), now2, r2),
    ensures
        r1 matches Ok(v1) && v1.len() == 1 && (v1[0] matches Action::ToSynclet(c1) && c1@ == (t1@, src1)),
        r2 matches Ok(v2) && v2.len() == 1 && (v2[0] matches Action::ToSynclet(c2) && c2@ == (t2@, src2)),
        s2.task_views() == s0.task_views().push((t1@, src1)).push((t2@, src2)),
{
    if s1.task_views().contains((t2@, src2)) {
        let i = choose|i: int| 0 <= i < s1.task_views().len() && s1.task_views()[i] == (t2@, src2);
        if i < s0.task_views().len() {
            assert(s0.task_views()[i] == (t2@, src2));
        }
    }
}

/// `Terminate` from the supervisor asks the syncer to leave its loop, sends nothing and
/// changes nothing.
pub proof fn lemma_terminate_exits(
    s0: Runtime,
    s1: Runtime,
    now: u64,
    r: Result<Vec<Action>, Error>,
)
    requires
        handled(s0, s1, ServiceBus::Ctl, ServiceId::Farcasterd, BusMsg::Ctl(CtlMsg::Terminate), now, r),
    ensures
        s1 == s0,
        r matches Ok(v) && v@ == seq![Action::Exit],
{
}

} // verus!
