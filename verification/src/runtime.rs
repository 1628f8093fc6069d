//! What a syncer service does with a request from the bus: the decisions,
//! without the sending.
use vstd::prelude::*;
use std::collections::HashSet;
use vstd::std_specs::iter::IteratorSpec;
use crate::syncer_client::ServiceId;

verus! {

broadcast use vstd::std_specs::hash::group_hash_axioms;

/// The channels of the bus.
#[derive(Debug, Clone, Copy, PartialEq, Eq, Structural, Hash)]
pub enum ServiceBus {
    /// Messages between the counterparties.
    Msg,
    /// The local control plane.
    Ctl,
    /// Tasks and events between a swap and its syncers.
    Sync,
    /// The link between a syncer service and its worker.
    Bridge,
}

/// The kinds of request a syncer service tells apart; any other kind comes
/// with its type number.
#[derive(Debug, Clone, Copy, PartialEq, Eq, Structural, Hash)]
pub enum RequestKind {
    Hello,
    SyncerTask,
    GetInfo,
    ListTasks,
    Other(u16),
}

/// What is to be done about a request.
#[derive(Debug, Clone, Copy, PartialEq, Eq, Structural, Hash)]
pub enum Decision {
    /// Nothing: the request only made the sender known.
    Ignore,
    /// Hand the task on to the worker.
    ForwardTask,
    /// Answer the sender with the service's info.
    ReplyInfo,
    /// Answer the sender with the list of tasks, then with a progress note.
    ReplyTaskList,
}

/// A request that the channel it came on does not carry.
#[derive(Debug, Clone, Copy, PartialEq, Eq, Structural, Hash)]
pub enum RuntimeError {
    NotSupported(ServiceBus, RequestKind),
}

/// What a syncer service says of itself. Times are in seconds.
#[derive(Debug, PartialEq, Eq)]
pub struct SyncerInfo {
    pub uptime: u64,
    pub since: u64,
    pub tasks: Vec<u64>,
}

/// A syncer service: who it is, when it started (in seconds since the
/// epoch) and the tasks it treats.
pub struct Runtime {
    pub identity: ServiceId,
    pub started: u64,
    pub tasks: HashSet<u64>,
}

/// What a request on the message channel leads to: a hello is ignored,
/// nothing else is carried.
pub open spec fn msg_decision(request: RequestKind) -> Result<Decision, RuntimeError> {
    match request {
        RequestKind::Hello => Ok(Decision::Ignore),
        _ => Err(RuntimeError::NotSupported(ServiceBus::Msg, request)),
    }
}

/// What a request on the control channel leads to. Only a client may ask
/// for the list of tasks.
pub open spec fn ctl_decision(source: ServiceId, request: RequestKind) -> Result<
    Decision,
    RuntimeError,
> {
    match request {
        RequestKind::Hello => Ok(Decision::Ignore),
        RequestKind::SyncerTask => Ok(Decision::ForwardTask),
        RequestKind::GetInfo => Ok(Decision::ReplyInfo),
        RequestKind::ListTasks => if source is Client {
            Ok(Decision::ReplyTaskList)
        } else {
            Err(RuntimeError::NotSupported(ServiceBus::Ctl, request))
        },
        RequestKind::Other(_) => Err(RuntimeError::NotSupported(ServiceBus::Ctl, request)),
    }
}

/// What a request leads to on each channel. A request on a channel other
/// than messages and control is turned down under the bridge's name.
pub open spec fn decision(bus: ServiceBus, source: ServiceId, request: RequestKind) -> Result<
    Decision,
    RuntimeError,
> {
    match bus {
        ServiceBus::Msg => msg_decision(request),
        ServiceBus::Ctl => ctl_decision(source, request),
        _ => Err(RuntimeError::NotSupported(ServiceBus::Bridge, request)),
    }
}

/// The seconds from `started` to `now`, or 0 where `now` is the earlier.
pub open spec fn uptime(started: u64, now: u64) -> u64 {
    if now >= started {
        (now - started) as u64
    } else {
        0
    }
}

impl Runtime {
    /// Who the service is.
    pub fn identity(&self) -> (id: ServiceId)
        ensures
            id == self.identity,
    {
        self.identity
    }

    /// Decides what a request from the bus leads to.
    pub fn handle(&self, bus: ServiceBus, source: ServiceId, request: RequestKind) -> (out: Result<
        Decision,
        RuntimeError,
    >)
        ensures
            out == decision(bus, source, request),
    {
        match bus {
            ServiceBus::Msg => self.handle_rpc_msg(source, request),
            ServiceBus::Ctl => self.handle_rpc_ctl(source, request),
            _ => Err(RuntimeError::NotSupported(ServiceBus::Bridge, request)),
        }
    }

    /// Decides what a request on the message channel leads to.
    pub fn handle_rpc_msg(&self, source: ServiceId, request: RequestKind) -> (out: Result<
        Decision,
        RuntimeError,
    >)
        ensures
            out == msg_decision(request),
    {
        match request {
            RequestKind::Hello => Ok(Decision::Ignore),
            _ => Err(RuntimeError::NotSupported(ServiceBus::Msg, request)),
        }
    }

    /// Decides what a request on the control channel leads to.
    pub fn handle_rpc_ctl(&self, source: ServiceId, request: RequestKind) -> (out: Result<
        Decision,
        RuntimeError,
    >)
        ensures
            out == ctl_decision(source, request),
    {
        match (request, source) {
            (RequestKind::Hello, _) => Ok(Decision::Ignore),
            (RequestKind::SyncerTask, _) => Ok(Decision::ForwardTask),
            (RequestKind::GetInfo, _) => Ok(Decision::ReplyInfo),
            (RequestKind::ListTasks, ServiceId::Client(_)) => Ok(Decision::ReplyTaskList),
            _ => Err(RuntimeError::NotSupported(ServiceBus::Ctl, request)),
        }
    }

    /// The tasks the service treats, each once, in the order the set hands
    /// them out.
    pub fn task_list(&self) -> (list: Vec<u64>)
        ensures
            list@.no_duplicates(),
            list@.to_set() == self.tasks@,
    {
        let mut list: Vec<u64> = Vec::new();
        let ghost all: Seq<u64> = self.tasks.iter().remaining().unref();
        let ghost mut done: int = 0;
        for task in it: self.tasks.iter()
            invariant
                it.seq().unref() == all,
                all.no_duplicates(),
                all.to_set() == self.tasks@,
                done == it.index(),
                0 <= done <= all.len(),
                list@ == all.take(done),
        {
            proof {
                assert(all[done] == *task);
                assert(all.take(done + 1) == all.take(done).push(*task));
                done = done + 1;
            }
            list.push(*task);
        }
        proof {
            assert(all.take(done) == all);
        }
        list
    }

    /// What the service says of itself at the time `now`, in seconds since
    /// the epoch: how long it has been up, since when, and its tasks.
    pub fn info(&self, now: u64) -> (info: SyncerInfo)
        ensures
            info.uptime == uptime(self.started, now),
            info.since == self.started,
            info.tasks@.no_duplicates(),
            info.tasks@.to_set() == self.tasks@,
    {
        let up = if now >= self.started {
            now - self.started
        } else {
            0
        };
        SyncerInfo { uptime: up, since: self.started, tasks: self.task_list() }
    }

    /// The note that follows a list of tasks.
    pub fn listed_tasks_note() -> (note: &'static str)
        ensures
            note@ == "ListedTasks?"@,
    {
        "ListedTasks?"
    }
}

} // verus!
