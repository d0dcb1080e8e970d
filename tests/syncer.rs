use farcaster_node::bus::{BusMsg, CtlMsg, Error, InfoMsg, ServiceBus};
use farcaster_node::service::{Blockchain, Network, ServiceId, SwapId};
use farcaster_node::sync::{BridgeEvent, Event, SyncMsg, SyncerdTask, Task};
use farcaster_node::syncer::{Action, Runtime};

fn swap(n: u8) -> ServiceId {
    let mut id = [0u8; 32];
    id[31] = n;
    ServiceId::Swap(SwapId(id))
}

fn syncer() -> Runtime {
    Runtime::new(ServiceId::Syncer(Blockchain::Bitcoin, Network::Testnet), 1000)
}

#[test]
fn watch_height_twice_is_one_task() {
    let mut rt = syncer();
    let task = Task::WatchHeight { id: 1, lifetime: 100 };
    let first = rt.handle(ServiceBus::Sync, swap(42), BusMsg::Sync(SyncMsg::Task(task.clone())), 1000).unwrap();
    match &first[..] {
        [Action::ToSynclet(t)] => assert_eq!(*t, SyncerdTask { task: task.clone(), source: swap(42) }),
        other => panic!("unexpected actions {:?}", other),
    }
    let second = rt.handle(ServiceBus::Sync, swap(42), BusMsg::Sync(SyncMsg::Task(task)), 1001).unwrap();
    assert!(second.is_empty());
    assert_eq!(rt.tasks.len(), 1);
}

#[test]
fn same_task_from_two_sources_is_two_tasks() {
    let mut rt = syncer();
    let task = Task::WatchTransaction { id: 3, lifetime: 5, hash: vec![1, 2, 3], confirmations_required: 2 };
    rt.handle(ServiceBus::Sync, swap(1), BusMsg::Sync(SyncMsg::Task(task.clone())), 0).unwrap();
    rt.handle(ServiceBus::Sync, swap(2), BusMsg::Sync(SyncMsg::Task(task.clone())), 0).unwrap();
    assert_eq!(rt.tasks.len(), 2);
    let other = Task::WatchTransaction { id: 3, lifetime: 5, hash: vec![1, 2, 4], confirmations_required: 2 };
    let out = rt.handle(ServiceBus::Sync, swap(1), BusMsg::Sync(SyncMsg::Task(other)), 0).unwrap();
    assert_eq!(out.len(), 1);
    assert_eq!(rt.tasks.len(), 3);
}

#[test]
fn bridge_event_goes_to_task_source_only() {
    let mut rt = syncer();
    let event = Event::TransactionBroadcasted { id: 7, tx: vec![9, 9], error: None };
    let msg = BusMsg::Sync(SyncMsg::BridgeEvent(BridgeEvent { event: event.clone(), source: swap(42) }));
    let out = rt.handle(ServiceBus::Bridge, ServiceId::Loopback, msg, 0).unwrap();
    match &out[..] {
        [Action::Send { bus: ServiceBus::Sync, dest, msg: BusMsg::Sync(SyncMsg::Event(e)) }] => {
            assert_eq!(*dest, swap(42));
            assert_eq!(*e, event);
        }
        other => panic!("unexpected actions {:?}", other),
    }
}

#[test]
fn terminate_from_supervisor_exits() {
    let mut rt = syncer();
    let out = rt.handle(ServiceBus::Ctl, ServiceId::Farcasterd, BusMsg::Ctl(CtlMsg::Terminate), 0).unwrap();
    assert!(matches!(&out[..], [Action::Exit]));
    let refused = rt.handle(ServiceBus::Ctl, swap(1), BusMsg::Ctl(CtlMsg::Terminate), 0);
    assert_eq!(refused.unwrap_err(), Error::NotSupported(ServiceBus::Ctl, "terminate()".to_string()));
    let hello = rt.handle(ServiceBus::Ctl, swap(1), BusMsg::Ctl(CtlMsg::Hello), 0).unwrap();
    assert!(hello.is_empty());
}

#[test]
fn info_on_ctl_lane_is_not_supported() {
    let mut rt = syncer();
    rt.handle(ServiceBus::Sync, swap(42), BusMsg::Sync(SyncMsg::Task(Task::WatchHeight { id: 1, lifetime: 0 })), 0)
        .unwrap();
    let before = rt.tasks.clone();
    let r = rt.handle(ServiceBus::Ctl, swap(42), BusMsg::Info(InfoMsg::GetInfo), 0);
    assert_eq!(r.unwrap_err(), Error::NotSupported(ServiceBus::Ctl, "get_info()".to_string()));
    assert_eq!(rt.tasks, before);
    let r = rt.handle(ServiceBus::Bridge, swap(42), BusMsg::Ctl(CtlMsg::Hello), 0);
    assert_eq!(r.unwrap_err(), Error::NotSupported(ServiceBus::Bridge, "hello()".to_string()));
}

#[test]
fn get_info_reports_uptime_and_tasks() {
    let mut rt = syncer();
    let task = Task::BroadcastTransaction { id: 4, tx: vec![1] };
    rt.handle(ServiceBus::Sync, swap(5), BusMsg::Sync(SyncMsg::Task(task.clone())), 0).unwrap();
    let out = rt.handle(ServiceBus::Info, ServiceId::Client(3), BusMsg::Info(InfoMsg::GetInfo), 1250).unwrap();
    match &out[..] {
        [Action::Send { bus: ServiceBus::Info, dest, msg: BusMsg::Info(InfoMsg::SyncerInfo(info)) }] => {
            assert_eq!(*dest, ServiceId::Client(3));
            assert_eq!(info.uptime, 250);
            assert_eq!(info.since, 1000);
            assert_eq!(info.syncer, ServiceId::Syncer(Blockchain::Bitcoin, Network::Testnet));
            assert_eq!(info.tasks, vec![SyncerdTask { task: task.clone(), source: swap(5) }]);
        }
        other => panic!("unexpected reply {:?}", other),
    }
    let out = rt.handle(ServiceBus::Info, ServiceId::Client(3), BusMsg::Info(InfoMsg::GetInfo), 10).unwrap();
    match &out[..] {
        [Action::Send { msg: BusMsg::Info(InfoMsg::SyncerInfo(info)), .. }] => assert_eq!(info.uptime, 0),
        other => panic!("unexpected reply {:?}", other),
    }
    let out = rt.handle(ServiceBus::Info, ServiceId::Client(3), BusMsg::Info(InfoMsg::ListTasks), 10).unwrap();
    match &out[..] {
        [Action::Send { bus: ServiceBus::Info, dest, msg: BusMsg::Info(InfoMsg::TaskList(l)) }] => {
            assert_eq!(*dest, ServiceId::Client(3));
            assert_eq!(*l, vec![SyncerdTask { task, source: swap(5) }]);
        }
        other => panic!("unexpected reply {:?}", other),
    }
    let out = rt.handle(ServiceBus::Info, ServiceId::Client(3), BusMsg::Info(InfoMsg::ListPeers), 10).unwrap();
    assert!(out.is_empty());
}

#[test]
fn service_ids_compare_structurally() {
    assert_eq!(swap(1), swap(1));
    assert_ne!(swap(1), swap(2));
    assert_ne!(ServiceId::Syncer(Blockchain::Bitcoin, Network::Testnet), ServiceId::Syncer(Blockchain::Monero, Network::Testnet));
    assert_ne!(ServiceId::Wallet, ServiceId::Farcasterd);
}
