use std::str::FromStr;

use swapd_core::chain::{Blockchain, Network, TxLabel};
use swapd_core::syncer::{
    Abort, AddressAddendum, Boolean, BroadcastTransaction, BtcAddressAddendum, GetTx, SwapId,
    SweepAddress, SweepAddressAddendum, SweepBitcoinAddress, SweepMoneroAddress, Task, TaskId,
    TaskTarget, TransactionBroadcasted, WatchAddress, WatchEstimateFee, WatchHeight,
    WatchTransaction, XmrAddressAddendum,
};
use swapd_core::syncer_client::{
    decode_transactions, ServiceId, SyncerState, SyncerTasks, TxConfsReport,
};

fn state() -> SyncerState {
    SyncerState::new(SwapId([7u8; 32]), Network::Testnet, 50, 100_000, 2_000_000)
}

fn txid(fill: u8) -> bitcoin::Txid {
    // displayed with the last byte first
    let hex = format!("09{}01", format!("{:02x}", fill).repeat(30));
    bitcoin::Txid::from_str(&hex).unwrap()
}

fn txid_raw(fill: u8) -> Vec<u8> {
    let mut bytes = vec![fill; 32];
    bytes[0] = 1;
    bytes[31] = 9;
    bytes
}

fn transaction(value: u64) -> bitcoin::Transaction {
    bitcoin::Transaction {
        version: 2,
        lock_time: 0,
        input: vec![bitcoin::TxIn {
            previous_output: bitcoin::OutPoint::null(),
            script_sig: bitcoin::Script::new(),
            sequence: 0xffff_ffff,
            witness: bitcoin::Witness::default(),
        }],
        output: vec![bitcoin::TxOut { value, script_pubkey: bitcoin::Script::new() }],
    }
}

fn address() -> bitcoin::Address {
    bitcoin::Address::from_str("tb1q4gj53tuew3e6u4a32kdtle2q72su8te39dpceq").unwrap()
}

fn xmr_private(first: u8) -> monero::PrivateKey {
    let mut bytes = [0u8; 32];
    bytes[0] = first;
    monero::PrivateKey::from_slice(&bytes).unwrap()
}

#[test]
fn new_state_is_empty() {
    let s = state();
    assert_eq!(s.tasks.counter, 0);
    assert!(s.tasks.tasks.is_empty());
    assert!(s.tasks.watched_txs.is_empty());
    assert!(s.tasks.watched_addrs.is_empty());
    assert!(s.tasks.retrieving_txs.is_empty());
    assert!(s.tasks.broadcasting_txs.is_empty());
    assert!(s.tasks.final_txs.is_empty());
    assert!(s.tasks.txids.is_empty());
    assert_eq!(s.tasks.sweeping_addr, None);
    assert_eq!(s.height(Blockchain::Bitcoin), 0);
    assert_eq!(s.height(Blockchain::Monero), 0);
    assert_eq!(s.bitcoin_syncer(), ServiceId::Syncer(Blockchain::Bitcoin, Network::Testnet));
    assert_eq!(s.monero_syncer(), ServiceId::Syncer(Blockchain::Monero, Network::Testnet));
    assert_eq!(s.confirmation_bound, 50);
    assert_eq!(s.bitcoin_amount, 100_000);
    assert_eq!(s.monero_amount, 2_000_000);
    assert!(!s.awaiting_funding);
}

#[test]
fn task_ids_are_strictly_increasing() {
    let mut tasks = SyncerTasks::new();
    let mut last = 0u32;
    for _ in 0..100 {
        let TaskId(id) = tasks.new_taskid();
        assert!(id > last);
        assert_eq!(id, last + 1);
        assert_eq!(tasks.counter, id);
        last = id;
    }
}

#[test]
fn task_lifetime_is_unbounded_without_height() {
    let s = state();
    assert_eq!(s.task_lifetime(Blockchain::Bitcoin), u64::MAX);
    assert_eq!(s.task_lifetime(Blockchain::Monero), u64::MAX);
}

#[test]
fn task_lifetime_is_five_hundred_blocks() {
    let mut s = state();
    s.handle_height_change(100, Blockchain::Bitcoin);
    s.handle_height_change(7, Blockchain::Monero);
    assert_eq!(s.task_lifetime(Blockchain::Bitcoin), 600);
    assert_eq!(s.task_lifetime(Blockchain::Monero), 507);
}

#[test]
fn height_regression_ignored() {
    let mut s = state();
    for h in [100u64, 101, 99, 102] {
        s.handle_height_change(h, Blockchain::Bitcoin);
    }
    assert_eq!(s.height(Blockchain::Bitcoin), 102);
    assert_eq!(s.bitcoin_height, 102);
    assert_eq!(s.height(Blockchain::Monero), 0);
}

#[test]
fn height_is_the_maximum_of_all_reports() {
    let reports = [5u64, 3, 9, 9, 2, 40, 39, 1];
    let mut s = state();
    let mut max = 0;
    for h in reports {
        s.handle_height_change(h, Blockchain::Monero);
        max = max.max(h);
        assert_eq!(s.height(Blockchain::Monero), max);
    }
    assert_eq!(s.height(Blockchain::Monero), 40);
    assert_eq!(s.height(Blockchain::Bitcoin), 0);
}

#[test]
fn from_height_does_not_go_below_zero() {
    let mut s = state();
    assert_eq!(s.from_height(Blockchain::Bitcoin, 6), 0);
    s.handle_height_change(6, Blockchain::Bitcoin);
    assert_eq!(s.from_height(Blockchain::Bitcoin, 6), 0);
    s.handle_height_change(7, Blockchain::Bitcoin);
    assert_eq!(s.from_height(Blockchain::Bitcoin, 6), 1);
    s.handle_height_change(100, Blockchain::Bitcoin);
    assert_eq!(s.from_height(Blockchain::Bitcoin, 6), 94);
}

#[test]
fn abort_task_targets_the_id_and_changes_nothing() {
    let mut s = state();
    let task = s.abort_task(TaskId(12));
    assert_eq!(
        task,
        Task::Abort(Abort { task_target: TaskTarget::TaskId(TaskId(12)), respond: Boolean::False })
    );
    assert_eq!(s.tasks.counter, 0);
    assert!(s.tasks.tasks.is_empty());
}

#[test]
fn estimate_fee_and_watch_height_are_filed() {
    let mut s = state();
    s.handle_height_change(10, Blockchain::Bitcoin);
    let fee = s.estimate_fee_btc();
    assert_eq!(fee, Task::WatchEstimateFee(WatchEstimateFee { id: TaskId(1), lifetime: 510 }));
    let height = s.watch_height(Blockchain::Monero);
    assert_eq!(height, Task::WatchHeight(WatchHeight { id: TaskId(2), lifetime: u64::MAX }));
    assert_eq!(s.tasks.tasks.get(&1), Some(&fee));
    assert_eq!(s.tasks.tasks.get(&2), Some(&height));
    assert_eq!(s.tasks.tasks.len(), 2);
    assert_eq!(s.tasks.counter, 2);
}

#[test]
fn watch_tx_btc_records_label_txid_and_task() {
    let mut s = state();
    s.handle_height_change(100, Blockchain::Bitcoin);
    let task = s.watch_tx_btc(txid(3), TxLabel::Lock);
    let expected = Task::WatchTransaction(WatchTransaction {
        id: TaskId(1),
        lifetime: 600,
        hash: txid_raw(3),
        confirmation_bound: 50,
    });
    assert_eq!(task, expected);
    assert_eq!(s.tasks.watched_txs.get(&1), Some(&TxLabel::Lock));
    assert_eq!(s.tasks.txids.get(&TxLabel::Lock.code()), Some(&txid(3)));
    assert_eq!(s.tasks.tasks.get(&1), Some(&expected));
    assert!(s.is_watched_tx(&TxLabel::Lock));
    assert!(!s.is_watched_tx(&TxLabel::Cancel));
    assert!(!s.is_watched_addr(&TxLabel::Lock));
}

#[test]
fn watch_tx_xmr_records_label_and_task_but_no_txid() {
    let mut s = state();
    let hash = vec![0xab; 32];
    let task = s.watch_tx_xmr(hash.clone(), TxLabel::AccLock);
    let expected = Task::WatchTransaction(WatchTransaction {
        id: TaskId(1),
        lifetime: u64::MAX,
        hash,
        confirmation_bound: 50,
    });
    assert_eq!(task, expected);
    assert_eq!(s.tasks.watched_txs.get(&1), Some(&TxLabel::AccLock));
    assert!(s.tasks.txids.is_empty());
    assert_eq!(s.tasks.tasks.get(&1), Some(&expected));
    assert!(s.is_watched_tx(&TxLabel::AccLock));
}

#[test]
fn retrieve_tx_btc_files_the_request() {
    let mut s = state();
    let task = s.retrieve_tx_btc(txid(5), TxLabel::Buy);
    let expected = Task::GetTx(GetTx { id: TaskId(1), hash: txid_raw(5) });
    assert_eq!(task, expected);
    assert_eq!(s.tasks.retrieving_txs.get(&1), Some(&(TxLabel::Buy, expected.clone())));
    assert_eq!(s.tasks.tasks.get(&1), Some(&expected));
    assert!(s.tasks.watched_txs.is_empty());
}

#[test]
fn watch_addr_btc_starts_six_blocks_back() {
    let mut s = state();
    s.handle_height_change(100, Blockchain::Bitcoin);
    let task = s.watch_addr_btc(address(), TxLabel::Funding);
    let expected = Task::WatchAddress(WatchAddress {
        id: TaskId(1),
        lifetime: 600,
        addendum: AddressAddendum::Bitcoin(BtcAddressAddendum {
            from_height: 94,
            address: address(),
        }),
        include_tx: Boolean::True,
    });
    assert_eq!(task, expected);
    assert_eq!(s.tasks.watched_addrs.get(&1), Some(&TxLabel::Funding));
    assert_eq!(s.tasks.tasks.get(&1), Some(&expected));
    assert!(s.is_watched_addr(&TxLabel::Funding));
    assert!(!s.is_watched_addr(&TxLabel::AccLock));
    assert!(!s.acc_lock_watched());
    assert!(!s.is_watched_tx(&TxLabel::Funding));
}

#[test]
fn watch_addr_xmr_caches_the_addendum() {
    let mut s = state();
    s.handle_height_change(1000, Blockchain::Monero);
    let view = xmr_private(1);
    let spend = monero::PublicKey::from_private_key(&xmr_private(2));
    let task = s.watch_addr_xmr(spend, view, TxLabel::AccLock, None);
    let addendum = XmrAddressAddendum { spend_key: spend, view_key: view, from_height: 980 };
    let expected = Task::WatchAddress(WatchAddress {
        id: TaskId(1),
        lifetime: 1500,
        addendum: AddressAddendum::Monero(addendum),
        include_tx: Boolean::False,
    });
    assert_eq!(task, expected);
    assert_eq!(s.xmr_addr_addendum, Some(addendum));
    assert_eq!(s.tasks.watched_addrs.get(&1), Some(&TxLabel::AccLock));
    assert!(s.acc_lock_watched());

    let task = s.watch_addr_xmr(spend, view, TxLabel::AccLock, Some(5));
    let addendum = XmrAddressAddendum { spend_key: spend, view_key: view, from_height: 5 };
    assert_eq!(
        task,
        Task::WatchAddress(WatchAddress {
            id: TaskId(2),
            lifetime: 1500,
            addendum: AddressAddendum::Monero(addendum),
            include_tx: Boolean::False,
        })
    );
    assert_eq!(s.xmr_addr_addendum, Some(addendum));
}

#[test]
fn sweep_keeps_one_current_sweep() {
    let mut s = state();
    let btc = SweepBitcoinAddress {
        source_secret_key: bitcoin::secp256k1::SecretKey::from_slice(&[1u8; 32]).unwrap(),
        source_address: address(),
        destination_address: address(),
    };
    let task = s.sweep_btc(btc.clone(), true);
    assert_eq!(
        task,
        Task::SweepAddress(SweepAddress {
            id: TaskId(1),
            lifetime: u64::MAX,
            addendum: SweepAddressAddendum::Bitcoin(btc),
            retry: true,
        })
    );
    assert_eq!(s.tasks.sweeping_addr, Some(TaskId(1)));
    assert_eq!(s.tasks.tasks.get(&1), Some(&task));

    let spend = xmr_private(3);
    let view = xmr_private(4);
    let xmr = SweepMoneroAddress {
        source_spend_key: spend,
        source_view_key: view,
        destination_address: monero::Address::standard(
            monero::Network::Stagenet,
            monero::PublicKey::from_private_key(&spend),
            monero::PublicKey::from_private_key(&view),
        ),
        minimum_balance: 1_000,
        from_height: Some(12),
    };
    s.handle_height_change(20, Blockchain::Monero);
    let task = s.sweep_xmr(xmr, false);
    assert_eq!(
        task,
        Task::SweepAddress(SweepAddress {
            id: TaskId(2),
            lifetime: 520,
            addendum: SweepAddressAddendum::Monero(xmr),
            retry: false,
        })
    );
    assert_eq!(s.tasks.sweeping_addr, Some(TaskId(2)));
    assert_eq!(s.tasks.tasks.len(), 2);
}

#[test]
fn broadcast_serializes_and_tracks_the_transaction() {
    let mut s = state();
    let tx = transaction(5000);
    let task = s.broadcast(tx.clone());
    let expected = Task::BroadcastTransaction(BroadcastTransaction {
        id: TaskId(1),
        tx: bitcoin::consensus::serialize(&tx),
        broadcast_after_height: None,
    });
    assert_eq!(task, expected);
    assert!(s.tasks.broadcasting_txs.contains(&1));
    assert_eq!(s.tasks.tasks.get(&1), Some(&expected));
    assert_eq!(s.pending_broadcast_txs(), vec![tx]);
}

#[test]
fn pending_broadcasts_skip_what_is_done_or_does_not_decode() {
    let mut s = state();
    let first = transaction(1);
    let second = transaction(2);
    s.broadcast(first.clone());
    s.broadcast(second.clone());
    s.watch_height(Blockchain::Bitcoin);
    // a broadcast whose payload is no transaction
    s.tasks.tasks.insert(
        9,
        Task::BroadcastTransaction(BroadcastTransaction {
            id: TaskId(9),
            tx: vec![1, 2, 3],
            broadcast_after_height: None,
        }),
    );
    s.tasks.broadcasting_txs.insert(9);
    // a broadcast without a task, and one whose task is no broadcast
    s.tasks.broadcasting_txs.insert(10);
    s.tasks.broadcasting_txs.insert(3);

    let mut pending = s.pending_broadcast_txs();
    pending.sort();
    let mut expected = vec![first.clone(), second.clone()];
    expected.sort();
    assert_eq!(pending, expected);

    s.transaction_broadcasted(&TransactionBroadcasted { id: TaskId(1), tx: vec![], error: None });
    assert!(!s.tasks.broadcasting_txs.contains(&1));
    assert!(!s.tasks.tasks.contains_key(&1));
    assert!(s.tasks.tasks.contains_key(&2));
    assert_eq!(s.pending_broadcast_txs(), vec![second]);

    // an unknown id changes nothing
    s.transaction_broadcasted(&TransactionBroadcasted {
        id: TaskId(77),
        tx: vec![],
        error: Some("rejected".to_string()),
    });
    assert_eq!(s.tasks.tasks.len(), 3);
    assert_eq!(s.tasks.broadcasting_txs.len(), 4);
}

#[test]
fn pending_broadcast_ignores_bytes_behind_the_transaction() {
    let mut s = state();
    let tx = transaction(8);
    let mut bytes = bitcoin::consensus::serialize(&tx);
    bytes.extend_from_slice(&[0xde, 0xad]);
    s.tasks.tasks.insert(
        1,
        Task::BroadcastTransaction(BroadcastTransaction {
            id: TaskId(1),
            tx: bytes,
            broadcast_after_height: None,
        }),
    );
    s.tasks.broadcasting_txs.insert(1);
    assert_eq!(s.pending_broadcast_txs(), vec![tx]);
}

#[test]
fn every_indexed_task_is_in_the_task_map() {
    let mut s = state();
    s.watch_tx_btc(txid(1), TxLabel::Lock);
    s.watch_tx_xmr(vec![1, 2, 3], TxLabel::AccLock);
    s.retrieve_tx_btc(txid(2), TxLabel::Buy);
    s.watch_addr_btc(address(), TxLabel::Funding);
    s.broadcast(transaction(3));
    s.watch_height(Blockchain::Bitcoin);
    s.estimate_fee_btc();
    let indexed: Vec<u32> = s
        .tasks
        .watched_txs
        .keys()
        .chain(s.tasks.watched_addrs.keys())
        .chain(s.tasks.retrieving_txs.keys())
        .chain(s.tasks.broadcasting_txs.iter())
        .copied()
        .collect();
    assert_eq!(indexed.len(), 5);
    for id in indexed {
        assert!(s.tasks.tasks.contains_key(&id));
        assert!(id <= s.tasks.counter);
    }
    assert_eq!(s.tasks.tasks.len(), 7);
    assert_eq!(s.tasks.counter, 7);
}

#[test]
fn task_ids_are_fresh_after_restart() {
    let mut before = state();
    before.watch_tx_btc(txid(1), TxLabel::Lock);
    before.broadcast(transaction(3));
    let pending = before.pending_broadcast_txs();

    // a restart rebuilds the indices from nothing and issues the tasks anew
    let mut after = state();
    let mut seen = Vec::new();
    for tx in pending {
        let id = after.tasks.counter + 1;
        assert!(!after.tasks.tasks.contains_key(&id));
        assert!(!after.tasks.broadcasting_txs.contains(&id));
        assert!(!after.tasks.watched_txs.contains_key(&id));
        after.broadcast(tx);
        assert!(!seen.contains(&id));
        seen.push(id);
    }
    let id = after.tasks.counter + 1;
    assert!(!after.tasks.tasks.contains_key(&id));
    assert!(!after.tasks.watched_txs.contains_key(&id));
    after.watch_tx_btc(txid(1), TxLabel::Lock);
    assert_eq!(after.tasks.watched_txs.get(&id), Some(&TxLabel::Lock));
    assert_eq!(after.tasks.counter, 2);
}

#[test]
fn tx_confs_for_unknown_task_are_dropped() {
    let mut s = state();
    s.watch_tx_btc(txid(1), TxLabel::Lock);
    let report = s.handle_tx_confs(&TaskId(9), &Some(10), 3);
    assert_eq!(report, TxConfsReport::UnknownTask);
    assert!(s.confirmations.is_empty());
    assert!(s.tasks.final_txs.is_empty());
    assert_eq!(s.get_confs(TxLabel::Lock), None);
}

#[test]
fn tx_confs_latch_finality() {
    let mut s = state();
    s.watch_tx_btc(txid(1), TxLabel::Lock);
    let id = TaskId(1);
    let code = TxLabel::Lock.code();

    assert_eq!(s.handle_tx_confs(&id, &None, 3), TxConfsReport::NotSeen(TxLabel::Lock));
    assert_eq!(s.confirmations.get(&code), Some(&None));
    assert_eq!(s.get_confs(TxLabel::Lock), None);

    assert_eq!(s.handle_tx_confs(&id, &Some(0), 3), TxConfsReport::InMempool(TxLabel::Lock));
    assert_eq!(s.get_confs(TxLabel::Lock), Some(0));

    assert_eq!(s.handle_tx_confs(&id, &Some(2), 3), TxConfsReport::Mined(TxLabel::Lock, 2));
    assert_eq!(s.get_confs(TxLabel::Lock), Some(2));
    assert!(s.tasks.final_txs.is_empty());

    assert_eq!(s.handle_tx_confs(&id, &Some(3), 3), TxConfsReport::BecameFinal(TxLabel::Lock, 3));
    assert_eq!(s.tasks.final_txs.get(&code), Some(&true));
    assert_eq!(s.get_confs(TxLabel::Lock), Some(3));

    // finality stays, whatever is reported afterwards
    assert_eq!(s.handle_tx_confs(&id, &Some(1), 3), TxConfsReport::Latched(TxLabel::Lock, true));
    assert_eq!(s.tasks.final_txs.get(&code), Some(&true));
    assert_eq!(s.get_confs(TxLabel::Lock), Some(1));
    assert_eq!(s.handle_tx_confs(&id, &None, 3), TxConfsReport::Latched(TxLabel::Lock, true));
    assert_eq!(s.tasks.final_txs.get(&code), Some(&true));
    assert_eq!(s.get_confs(TxLabel::Lock), None);
    assert_eq!(s.handle_tx_confs(&id, &Some(30), 3), TxConfsReport::Latched(TxLabel::Lock, true));
    assert_eq!(s.tasks.final_txs.get(&code), Some(&true));
    assert_eq!(s.tasks.final_txs.len(), 1);
}

#[test]
fn tx_confs_latch_over_a_false_entry() {
    let mut s = state();
    s.watch_tx_xmr(vec![4; 32], TxLabel::AccLock);
    let code = TxLabel::AccLock.code();
    s.tasks.final_txs.insert(code, false);
    assert_eq!(
        s.handle_tx_confs(&TaskId(1), &Some(9), 10),
        TxConfsReport::Latched(TxLabel::AccLock, false)
    );
    assert_eq!(s.tasks.final_txs.get(&code), Some(&false));
    assert_eq!(
        s.handle_tx_confs(&TaskId(1), &Some(10), 10),
        TxConfsReport::BecameFinal(TxLabel::AccLock, 10)
    );
    assert_eq!(s.tasks.final_txs.get(&code), Some(&true));
}

#[test]
fn watch_fee_and_height_issues_three_tasks() {
    let mut s = state();
    s.handle_height_change(100, Blockchain::Bitcoin);
    let out = s.watch_fee_and_height();
    assert_eq!(
        out,
        vec![
            (
                ServiceId::Syncer(Blockchain::Bitcoin, Network::Testnet),
                Task::WatchEstimateFee(WatchEstimateFee { id: TaskId(1), lifetime: 600 })
            ),
            (
                ServiceId::Syncer(Blockchain::Bitcoin, Network::Testnet),
                Task::WatchHeight(WatchHeight { id: TaskId(2), lifetime: 600 })
            ),
            (
                ServiceId::Syncer(Blockchain::Monero, Network::Testnet),
                Task::WatchHeight(WatchHeight { id: TaskId(3), lifetime: u64::MAX })
            ),
        ]
    );
    assert_eq!(s.tasks.counter, 3);
    assert_eq!(s.tasks.tasks.len(), 3);
}

#[test]
fn label_codes_round_trip() {
    let labels = [
        TxLabel::Funding,
        TxLabel::Lock,
        TxLabel::Buy,
        TxLabel::Cancel,
        TxLabel::Refund,
        TxLabel::Punish,
        TxLabel::AccLock,
    ];
    for (i, label) in labels.iter().enumerate() {
        assert_eq!(label.code(), i as u8 + 1);
        assert_eq!(TxLabel::from_code(label.code()), Some(*label));
    }
    assert_eq!(TxLabel::from_code(0), None);
    assert_eq!(TxLabel::from_code(8), None);
}

#[test]
fn watch_tx_takes_the_chains_lifetime() {
    let mut s = state();
    s.handle_height_change(10, Blockchain::Bitcoin);
    s.handle_height_change(20, Blockchain::Monero);
    let btc = s.watch_tx(Blockchain::Bitcoin, vec![1, 2], TxLabel::Cancel);
    let xmr = s.watch_tx(Blockchain::Monero, vec![3], TxLabel::AccLock);
    assert_eq!(
        btc,
        Task::WatchTransaction(WatchTransaction {
            id: TaskId(1),
            lifetime: 510,
            hash: vec![1, 2],
            confirmation_bound: 50,
        })
    );
    assert_eq!(
        xmr,
        Task::WatchTransaction(WatchTransaction {
            id: TaskId(2),
            lifetime: 520,
            hash: vec![3],
            confirmation_bound: 50,
        })
    );
    assert_eq!(s.tasks.watched_txs.get(&1), Some(&TxLabel::Cancel));
    assert_eq!(s.tasks.watched_txs.get(&2), Some(&TxLabel::AccLock));
    assert!(s.tasks.txids.is_empty());
}

#[test]
fn retrieve_tx_and_broadcast_serialized_take_bytes() {
    let mut s = state();
    let get = s.retrieve_tx(vec![5, 6], TxLabel::Refund);
    assert_eq!(get, Task::GetTx(GetTx { id: TaskId(1), hash: vec![5, 6] }));
    assert_eq!(s.tasks.retrieving_txs.get(&1), Some(&(TxLabel::Refund, get.clone())));
    let send = s.broadcast_serialized(vec![7, 8, 9]);
    assert_eq!(
        send,
        Task::BroadcastTransaction(BroadcastTransaction {
            id: TaskId(2),
            tx: vec![7, 8, 9],
            broadcast_after_height: None,
        })
    );
    assert!(s.tasks.broadcasting_txs.contains(&2));
    assert_eq!(s.tasks.tasks.get(&2), Some(&send));
    assert_eq!(s.pending_broadcast_payloads(), vec![vec![7u8, 8, 9]]);
    assert_eq!(s.pending_broadcast_txs(), Vec::<bitcoin::Transaction>::new());
}

#[test]
fn decode_transactions_keeps_order_and_skips_garbage() {
    let first = transaction(1);
    let second = transaction(2);
    let payloads = vec![
        bitcoin::consensus::serialize(&second),
        vec![],
        vec![0xff; 3],
        bitcoin::consensus::serialize(&first),
    ];
    assert_eq!(decode_transactions(&payloads), vec![second, first]);
    assert_eq!(decode_transactions(&Vec::new()), Vec::<bitcoin::Transaction>::new());
}

#[test]
fn stale_broadcast_report_keeps_indexed_tasks() {
    let mut s = state();
    let watch = s.watch_tx_xmr(vec![1; 32], TxLabel::AccLock);
    let send = s.broadcast(transaction(4));
    // a report for the id of a transaction watch changes nothing
    s.transaction_broadcasted(&TransactionBroadcasted { id: TaskId(1), tx: vec![], error: None });
    assert_eq!(s.tasks.tasks.get(&1), Some(&watch));
    assert_eq!(s.tasks.tasks.get(&2), Some(&send));
    assert_eq!(s.tasks.watched_txs.get(&1), Some(&TxLabel::AccLock));
    assert!(s.tasks.broadcasting_txs.contains(&2));
    assert_eq!(s.tasks.broadcasting_txs.len(), 1);
    assert_eq!(s.tasks.counter, 2);

    // a broadcast that another index speaks of keeps its task
    s.tasks.watched_addrs.insert(2, TxLabel::Funding);
    s.transaction_broadcasted(&TransactionBroadcasted { id: TaskId(2), tx: vec![], error: None });
    assert!(s.tasks.broadcasting_txs.is_empty());
    assert_eq!(s.tasks.tasks.get(&2), Some(&send));
    assert_eq!(s.tasks.watched_addrs.get(&2), Some(&TxLabel::Funding));

    // the current sweep keeps its task as well
    let mut s = state();
    let btc = SweepBitcoinAddress {
        source_secret_key: bitcoin::secp256k1::SecretKey::from_slice(&[1u8; 32]).unwrap(),
        source_address: address(),
        destination_address: address(),
    };
    let sweep = s.sweep_btc(btc, false);
    s.tasks.broadcasting_txs.insert(1);
    s.transaction_broadcasted(&TransactionBroadcasted { id: TaskId(1), tx: vec![], error: None });
    assert!(s.tasks.broadcasting_txs.is_empty());
    assert_eq!(s.tasks.tasks.get(&1), Some(&sweep));
    assert_eq!(s.tasks.sweeping_addr, Some(TaskId(1)));
}
