//! The registry of the tasks a swap has issued to its syncers, and what the
//! syncers' reports change in it.
use vstd::prelude::*;
use std::collections::HashMap;
use std::collections::HashSet;
use vstd::std_specs::iter::IteratorSpec;
use crate::chain::{lemma_code_injective, Blockchain, Network, TxLabel};
use crate::syncer::{
    Abort, AddressAddendum, Boolean, BroadcastTransaction, BroadcastTransactionView,
    BtcAddressAddendum, GetTx, GetTxView, SwapId, SweepAddress, SweepAddressAddendum,
    SweepBitcoinAddress, SweepMoneroAddress, Task, TaskId, TaskTarget, TaskView,
    TransactionBroadcasted, TransactionConfirmations, WatchAddress, WatchEstimateFee,
    WatchHeight, WatchTransaction, WatchTransactionView, XmrAddressAddendum,
};
use crate::outside::{
    consensus_decoding, consensus_encoding, decode_tx, serialize_tx, txid_bytes, txid_to_vec,
};

verus! {

broadcast use vstd::std_specs::hash::group_hash_axioms;

/// A peer: its public key and the address and port it is reached at.
#[derive(Debug, Clone, Copy, PartialEq, Eq, Hash)]
pub struct NodeAddr {
    pub id: [u8; 33],
    pub ip: [u8; 16],
    pub port: u16,
}

/// Who sends or receives on the bus.
#[derive(Debug, Clone, Copy, PartialEq, Eq, Hash)]
pub enum ServiceId {
    Farcasterd,
    Wallet,
    Swap(SwapId),
    Syncer(Blockchain, Network),
    Peer(NodeAddr),
    Client(u64),
}

/// The blocks a task lives beyond the height at which it was issued.
pub const TASK_LIFETIME_BLOCKS: u64 = 500;

/// The tasks issued so far and what each of them serves. Tables keyed by a
/// task hold the id's number; tables keyed by a label hold the label's code.
pub struct SyncerTasks {
    pub counter: u32,
    pub watched_txs: HashMap<u32, TxLabel>,
    pub final_txs: HashMap<u8, bool>,
    pub watched_addrs: HashMap<u32, TxLabel>,
    pub retrieving_txs: HashMap<u32, (TxLabel, Task)>,
    pub broadcasting_txs: HashSet<u32>,
    pub sweeping_addr: Option<TaskId>,
    pub txids: HashMap<u8, bitcoin::Txid>,
    pub tasks: HashMap<u32, Task>,
}

/// The registry as maps and sets.
pub struct SyncerTasksView {
    pub counter: u32,
    pub watched_txs: Map<u32, TxLabel>,
    pub final_txs: Map<u8, bool>,
    pub watched_addrs: Map<u32, TxLabel>,
    pub retrieving_txs: Map<u32, (TxLabel, TaskView)>,
    pub broadcasting_txs: Set<u32>,
    pub sweeping_addr: Option<TaskId>,
    pub txids: Map<u8, bitcoin::Txid>,
    pub tasks: Map<u32, TaskView>,
}

impl SyncerTasksView {
    /// The registry that has issued nothing.
    pub open spec fn empty() -> SyncerTasksView {
        SyncerTasksView {
            counter: 0,
            watched_txs: Map::empty(),
            final_txs: Map::empty(),
            watched_addrs: Map::empty(),
            retrieving_txs: Map::empty(),
            broadcasting_txs: Set::empty(),
            sweeping_addr: None,
            txids: Map::empty(),
            tasks: Map::empty(),
        }
    }

    /// Some correlation index speaks of the task.
    pub open spec fn indexes(self, id: u32) -> bool {
        ||| self.watched_txs.contains_key(id)
        ||| self.watched_addrs.contains_key(id)
        ||| self.retrieving_txs.contains_key(id)
        ||| self.broadcasting_txs.contains(id)
        ||| self.sweeping_addr == Some(TaskId(id))
    }

    /// The task map or some correlation index speaks of the task.
    pub open spec fn references(self, id: u32) -> bool {
        self.tasks.contains_key(id) || self.indexes(id)
    }

    /// No id beyond the counter is in use, so the next id is a new one.
    pub open spec fn ids_bounded(self) -> bool {
        forall|id: u32| #[trigger] self.references(id) ==> id <= self.counter
    }

    /// Every task that a correlation index speaks of is in the task map.
    pub open spec fn indexed_tasks_known(self) -> bool {
        forall|id: u32| #[trigger] self.indexes(id) ==> self.tasks.contains_key(id)
    }

    /// Some correlation index other than the broadcasts under way speaks of
    /// the task.
    pub open spec fn indexes_beside_broadcasts(self, id: u32) -> bool {
        ||| self.watched_txs.contains_key(id)
        ||| self.watched_addrs.contains_key(id)
        ||| self.retrieving_txs.contains_key(id)
        ||| self.sweeping_addr == Some(TaskId(id))
    }

    /// This registry came out of `before` by issuing the task `id`: the
    /// counter moved on to `id`, the task is filed, and nothing else was
    /// added to the task map or to an index.
    pub open spec fn issued(self, before: SyncerTasksView, id: u32) -> bool {
        &&& id == before.counter + 1
        &&& self.counter == id
        &&& self.tasks.contains_key(id)
        &&& forall|j: u32| #[trigger] self.references(j) ==> j == id || before.references(j)
        &&& forall|j: u32| #[trigger] self.indexes(j) ==> j == id || before.indexes(j)
        &&& forall|j: u32| #[trigger] before.tasks.contains_key(j) ==> self.tasks.contains_key(j)
    }

    /// The label's transaction has been seen final.
    pub open spec fn is_final(self, label: TxLabel) -> bool {
        self.final_txs.contains_key(label.spec_code()) && self.final_txs[label.spec_code()]
    }

    /// Some transaction watch serves the label.
    pub open spec fn watches_tx(self, label: TxLabel) -> bool {
        serves(self.watched_txs, label)
    }

    /// Some address watch serves the label.
    pub open spec fn watches_addr(self, label: TxLabel) -> bool {
        serves(self.watched_addrs, label)
    }
}

impl View for SyncerTasks {
    type V = SyncerTasksView;

    open spec fn view(&self) -> SyncerTasksView {
        SyncerTasksView {
            counter: self.counter,
            watched_txs: self.watched_txs@,
            final_txs: self.final_txs@,
            watched_addrs: self.watched_addrs@,
            retrieving_txs: self.retrieving_txs@.map_values(|e: (TxLabel, Task)| (e.0, e.1@)),
            broadcasting_txs: self.broadcasting_txs@,
            sweeping_addr: self.sweeping_addr,
            txids: self.txids@,
            tasks: self.tasks@.map_values(|t: Task| t@),
        }
    }
}

impl SyncerTasks {
    /// A registry that has issued nothing.
    pub fn new() -> (registry: SyncerTasks)
        ensures
            registry@ == SyncerTasksView::empty(),
            registry@.ids_bounded(),
            registry@.indexed_tasks_known(),
    {
        let registry = SyncerTasks {
            counter: 0,
            watched_txs: HashMap::new(),
            final_txs: HashMap::new(),
            watched_addrs: HashMap::new(),
            retrieving_txs: HashMap::new(),
            broadcasting_txs: HashSet::new(),
            sweeping_addr: None,
            txids: HashMap::new(),
            tasks: HashMap::new(),
        };
        proof {
            assert(registry@.retrieving_txs =~= Map::empty());
            assert(registry@.tasks =~= Map::empty());
        }
        registry
    }

    /// Advances the counter and returns it as the next task id, which is
    /// larger than every id issued before.
    pub fn new_taskid(&mut self) -> (id: TaskId)
        requires
            old(self).counter < u32::MAX,
        ensures
            id == TaskId((old(self).counter + 1) as u32),
            final(self)@ == (SyncerTasksView { counter: id.0, ..old(self)@ }),
            old(self)@.ids_bounded() ==> !old(self)@.references(id.0) && final(self)@.ids_bounded(),
            old(self)@.indexed_tasks_known() ==> final(self)@.indexed_tasks_known(),
    {
        self.counter += 1;
        proof {
            let before = old(self)@;
            let after = self@;
            if before.ids_bounded() {
                assert forall|j: u32| #[trigger] after.references(j) implies j
                    <= after.counter by {
                    assert(before.references(j));
                }
            }
            if before.indexed_tasks_known() {
                assert forall|j: u32| #[trigger] after.indexes(j) implies after.tasks.contains_key(
                    j,
                ) by {
                    assert(before.indexes(j));
                }
            }
        }
        TaskId(self.counter)
    }

    /// Files a copy of an issued task under its id.
    fn record(&mut self, id: TaskId, task: &Task)
        ensures
            final(self)@ == (SyncerTasksView {
                tasks: old(self)@.tasks.insert(id.0, task@),
                ..old(self)@
            }),
    {
        self.tasks.insert(id.0, task.clone());
        proof {
            assert(self@.tasks =~= old(self)@.tasks.insert(id.0, task@));
        }
    }
}

/// Task ids are issued in strictly increasing order, and issuing a task
/// keeps the registry sound: where no id beyond the counter was in use, the
/// new id was not in use and again none beyond the counter is; where every
/// indexed task was in the task map, every indexed task still is.
pub proof fn lemma_issue_keeps_registry_sound(
    before: SyncerTasksView,
    after: SyncerTasksView,
    id: u32,
)
    requires
        after.issued(before, id),
    ensures
        id > before.counter,
        before.ids_bounded() ==> !before.references(id) && after.ids_bounded(),
        before.indexed_tasks_known() ==> after.indexed_tasks_known(),
{
    if before.ids_bounded() {
        assert forall|j: u32| #[trigger] after.references(j) implies j <= after.counter by {
            if j != id {
                assert(before.references(j));
            }
        }
    }
    if before.indexed_tasks_known() {
        assert forall|j: u32| #[trigger] after.indexes(j) implies after.tasks.contains_key(j) by {
            if j != id {
                assert(before.indexes(j));
                assert(before.tasks.contains_key(j));
            }
        }
    }
}

/// Some task in a table of watches serves the label.
pub open spec fn serves(watches: Map<u32, TxLabel>, label: TxLabel) -> bool {
    exists|id: u32| #[trigger] watches.contains_key(id) && watches[id] == label
}

/// Whether a table of watches holds the label for some task.
fn serves_label(watches: &HashMap<u32, TxLabel>, label: TxLabel) -> (found: bool)
    ensures
        found == serves(watches@, label),
{
    let mut found = false;
    let ghost all: Seq<TxLabel> = watches.values().remaining().unref();
    let ghost mut done: int = 0;
    for served in it: watches.values()
        invariant
            it.seq().unref() == all,
            all.to_set() == watches@.values(),
            done == it.index(),
            0 <= done <= all.len(),
            found == exists|i: int| 0 <= i < done && #[trigger] all[i] == label,
    {
        if *served == label {
            found = true;
        }
        proof {
            assert(all[done] == *served);
            done = done + 1;
        }
    }
    proof {
        assert(done == all.len());
        if found {
            let i = choose|i: int| 0 <= i < done && #[trigger] all[i] == label;
            assert(all.to_set().contains(all[i]));
            assert(watches@.values().contains(label));
        }
        if serves(watches@, label) {
            let id = choose|id: u32| #[trigger] watches@.contains_key(id) && watches@[id] == label;
            assert(watches@.values().contains(watches@[id]));
            assert(all.to_set().contains(label));
        }
    }
    found
}

/// What a confirmation report meant for the transaction it was about.
#[derive(Debug, Clone, Copy, PartialEq, Eq, Structural)]
pub enum TxConfsReport {
    /// No transaction watch has the task id; the report was dropped.
    UnknownTask,
    /// The transaction has just become final with this many confirmations.
    BecameFinal(TxLabel, u32),
    /// The transaction had an entry in the finality table before, with this
    /// value.
    Latched(TxLabel, bool),
    /// The transaction waits in the mempool.
    InMempool(TxLabel),
    /// The transaction is mined with this many confirmations.
    Mined(TxLabel, u32),
    /// The transaction has not been seen.
    NotSeen(TxLabel),
}

/// What a swap knows of its syncers: the registry, the chains' heights and
/// the confirmations of its transactions.
pub struct SyncerState {
    pub swap_id: SwapId,
    pub tasks: SyncerTasks,
    pub bitcoin_height: u64,
    pub monero_height: u64,
    pub confirmation_bound: u32,
    pub lock_tx_confs: Option<TransactionConfirmations>,
    pub cancel_tx_confs: Option<TransactionConfirmations>,
    pub network: Network,
    pub bitcoin_syncer: ServiceId,
    pub monero_syncer: ServiceId,
    /// In piconero.
    pub monero_amount: u64,
    /// In satoshi.
    pub bitcoin_amount: u64,
    pub xmr_addr_addendum: Option<XmrAddressAddendum>,
    pub confirmations: HashMap<u8, Option<u32>>,
    pub awaiting_funding: bool,
    pub btc_fee_estimate_sat_per_kvb: Option<u64>,
}

/// The state with its tables as maps.
pub struct SyncerStateView {
    pub swap_id: SwapId,
    pub tasks: SyncerTasksView,
    pub bitcoin_height: u64,
    pub monero_height: u64,
    pub confirmation_bound: u32,
    pub lock_tx_confs: Option<TransactionConfirmations>,
    pub cancel_tx_confs: Option<TransactionConfirmations>,
    pub network: Network,
    pub bitcoin_syncer: ServiceId,
    pub monero_syncer: ServiceId,
    pub monero_amount: u64,
    pub bitcoin_amount: u64,
    pub xmr_addr_addendum: Option<XmrAddressAddendum>,
    pub confirmations: Map<u8, Option<u32>>,
    pub awaiting_funding: bool,
    pub btc_fee_estimate_sat_per_kvb: Option<u64>,
}

impl SyncerStateView {
    /// The last height reported for a chain; 0 while none was.
    pub open spec fn height(self, blockchain: Blockchain) -> u64 {
        match blockchain {
            Blockchain::Bitcoin => self.bitcoin_height,
            Blockchain::Monero => self.monero_height,
        }
    }

    /// The id that the next task will be issued under.
    pub open spec fn next_id(self) -> TaskId {
        TaskId((self.tasks.counter + 1) as u32)
    }

    /// The height past which a task issued now is discarded: 500 blocks
    /// from the chain's height, or never while the height is unknown.
    pub open spec fn task_lifetime(self, blockchain: Blockchain) -> int {
        if self.height(blockchain) > 0 {
            self.height(blockchain) + TASK_LIFETIME_BLOCKS
        } else {
            u64::MAX as int
        }
    }

    /// The height `delta` blocks below the chain's, but not below 0.
    pub open spec fn from_height(self, blockchain: Blockchain, delta: u64) -> int {
        if self.height(blockchain) > delta {
            self.height(blockchain) - delta
        } else {
            0
        }
    }

    /// The accordant addendum for a key pair: from the given height, or
    /// else from at most 20 blocks below the chain's.
    pub open spec fn xmr_addendum(
        self,
        spend: monero::PublicKey,
        view: monero::PrivateKey,
        from_height: Option<u64>,
    ) -> XmrAddressAddendum {
        XmrAddressAddendum {
            spend_key: spend,
            view_key: view,
            from_height: match from_height {
                Some(height) => height,
                None => self.from_height(Blockchain::Monero, 20) as u64,
            },
        }
    }

    /// The state with one more task issued and filed, and no index changed.
    pub open spec fn filed(self, task: TaskView) -> SyncerStateView {
        SyncerStateView {
            tasks: SyncerTasksView {
                counter: self.next_id().0,
                tasks: self.tasks.tasks.insert(self.next_id().0, task),
                ..self.tasks
            },
            ..self
        }
    }

    /// The transaction watch that would be issued next on a chain.
    pub open spec fn next_tx_watch(self, blockchain: Blockchain, hash: Seq<u8>) -> TaskView {
        TaskView::WatchTransaction(
            WatchTransactionView {
                id: self.next_id(),
                lifetime: self.task_lifetime(blockchain) as u64,
                hash,
                confirmation_bound: self.confirmation_bound,
            },
        )
    }

    /// The state with one more task issued and filed as a transaction watch
    /// for a label.
    pub open spec fn watching_tx(self, label: TxLabel, task: TaskView) -> SyncerStateView {
        SyncerStateView {
            tasks: SyncerTasksView {
                watched_txs: self.tasks.watched_txs.insert(self.next_id().0, label),
                ..self.filed(task).tasks
            },
            ..self
        }
    }

    /// The state with one more task issued and filed as an address watch
    /// for a label.
    pub open spec fn watching_addr(self, label: TxLabel, task: TaskView) -> SyncerStateView {
        SyncerStateView {
            tasks: SyncerTasksView {
                watched_addrs: self.tasks.watched_addrs.insert(self.next_id().0, label),
                ..self.filed(task).tasks
            },
            ..self
        }
    }

    /// The state with one more task issued and filed as the current sweep.
    pub open spec fn sweeping(self, task: TaskView) -> SyncerStateView {
        SyncerStateView {
            tasks: SyncerTasksView {
                sweeping_addr: Some(self.next_id()),
                ..self.filed(task).tasks
            },
            ..self
        }
    }

    /// The fee-estimate watch that would be issued next.
    pub open spec fn next_fee_watch(self) -> TaskView {
        TaskView::WatchEstimateFee(
            WatchEstimateFee {
                id: self.next_id(),
                lifetime: self.task_lifetime(Blockchain::Bitcoin) as u64,
            },
        )
    }

    /// The height watch that would be issued next on a chain.
    pub open spec fn next_height_watch(self, blockchain: Blockchain) -> TaskView {
        TaskView::WatchHeight(
            WatchHeight { id: self.next_id(), lifetime: self.task_lifetime(blockchain) as u64 },
        )
    }

    /// The report counts enough confirmations for finality.
    pub open spec fn reaches(confirmations: Option<u32>, finality_thr: u32) -> bool {
        confirmations is Some && confirmations.unwrap() >= finality_thr
    }

    /// The report makes the label's transaction final: it was not final
    /// before, and the report counts enough confirmations.
    pub open spec fn latches(
        self,
        label: TxLabel,
        confirmations: Option<u32>,
        finality_thr: u32,
    ) -> bool {
        !self.tasks.is_final(label) && Self::reaches(confirmations, finality_thr)
    }

    /// The state after a confirmation report for the task `id`: unchanged
    /// where no transaction watch has that id; else the label's
    /// confirmations are the reported ones, and its finality is set where
    /// the report makes it final.
    pub open spec fn after_confs(
        self,
        id: TaskId,
        confirmations: Option<u32>,
        finality_thr: u32,
    ) -> SyncerStateView {
        if !self.tasks.watched_txs.contains_key(id.0) {
            self
        } else {
            let label = self.tasks.watched_txs[id.0];
            SyncerStateView {
                tasks: SyncerTasksView {
                    final_txs: if self.latches(label, confirmations, finality_thr) {
                        self.tasks.final_txs.insert(label.spec_code(), true)
                    } else {
                        self.tasks.final_txs
                    },
                    ..self.tasks
                },
                confirmations: self.confirmations.insert(label.spec_code(), confirmations),
                ..self
            }
        }
    }

    /// What a confirmation report for the task `id` means.
    pub open spec fn confs_report(
        self,
        id: TaskId,
        confirmations: Option<u32>,
        finality_thr: u32,
    ) -> TxConfsReport {
        if !self.tasks.watched_txs.contains_key(id.0) {
            TxConfsReport::UnknownTask
        } else {
            let label = self.tasks.watched_txs[id.0];
            if self.latches(label, confirmations, finality_thr) {
                TxConfsReport::BecameFinal(label, confirmations.unwrap())
            } else if self.tasks.final_txs.contains_key(label.spec_code()) {
                TxConfsReport::Latched(label, self.tasks.final_txs[label.spec_code()])
            } else {
                match confirmations {
                    Some(0) => TxConfsReport::InMempool(label),
                    Some(confs) => TxConfsReport::Mined(label, confs),
                    None => TxConfsReport::NotSeen(label),
                }
            }
        }
    }

    /// The state after the report of a broadcast for the task `id`: the
    /// task has left the broadcasts under way, and the task map too where it
    /// was among the broadcasts and no other index speaks of it.
    pub open spec fn after_broadcast(self, id: TaskId) -> SyncerStateView {
        SyncerStateView {
            tasks: SyncerTasksView {
                broadcasting_txs: self.tasks.broadcasting_txs.remove(id.0),
                tasks: if self.tasks.broadcasting_txs.contains(id.0)
                    && !self.tasks.indexes_beside_broadcasts(id.0) {
                    self.tasks.tasks.remove(id.0)
                } else {
                    self.tasks.tasks
                },
                ..self.tasks
            },
            ..self
        }
    }

    /// The state with the height of one chain replaced.
    pub open spec fn with_height(self, blockchain: Blockchain, height: u64) -> SyncerStateView {
        match blockchain {
            Blockchain::Bitcoin => SyncerStateView { bitcoin_height: height, ..self },
            Blockchain::Monero => SyncerStateView { monero_height: height, ..self },
        }
    }

    /// The last confirmation count reported for a label, if any.
    pub open spec fn confs(self, label: TxLabel) -> Option<u32> {
        if self.confirmations.contains_key(label.spec_code()) {
            self.confirmations[label.spec_code()]
        } else {
            None
        }
    }
}

impl View for SyncerState {
    type V = SyncerStateView;

    open spec fn view(&self) -> SyncerStateView {
        SyncerStateView {
            swap_id: self.swap_id,
            tasks: self.tasks@,
            bitcoin_height: self.bitcoin_height,
            monero_height: self.monero_height,
            confirmation_bound: self.confirmation_bound,
            lock_tx_confs: self.lock_tx_confs,
            cancel_tx_confs: self.cancel_tx_confs,
            network: self.network,
            bitcoin_syncer: self.bitcoin_syncer,
            monero_syncer: self.monero_syncer,
            monero_amount: self.monero_amount,
            bitcoin_amount: self.bitcoin_amount,
            xmr_addr_addendum: self.xmr_addr_addendum,
            confirmations: self.confirmations@,
            awaiting_funding: self.awaiting_funding,
            btc_fee_estimate_sat_per_kvb: self.btc_fee_estimate_sat_per_kvb,
        }
    }
}

/// The payload of a filed task, where it is a broadcast.
pub open spec fn broadcast_payload(tasks: Map<u32, TaskView>, id: u32) -> Option<Seq<u8>> {
    if tasks.contains_key(id) {
        match tasks[id] {
            TaskView::BroadcastTransaction(b) => Some(b.tx),
            _ => None,
        }
    } else {
        None
    }
}

/// The payloads of the broadcasts among the tasks `ids`, in that order.
pub open spec fn broadcast_payloads(tasks: Map<u32, TaskView>, ids: Seq<u32>) -> Seq<Seq<u8>>
    decreases ids.len(),
{
    if ids.len() == 0 {
        Seq::empty()
    } else {
        let front = broadcast_payloads(tasks, ids.drop_last());
        match broadcast_payload(tasks, ids.last()) {
            Some(tx) => front.push(tx),
            None => front,
        }
    }
}

/// The transactions that decode from a run of payloads, in that order;
/// a payload that does not decode is passed over.
pub open spec fn decoded_transactions(payloads: Seq<Seq<u8>>) -> Seq<bitcoin::Transaction>
    decreases payloads.len(),
{
    if payloads.len() == 0 {
        Seq::empty()
    } else {
        let front = decoded_transactions(payloads.drop_last());
        match consensus_decoding(payloads.last()) {
            Some(tx) => front.push(tx),
            None => front,
        }
    }
}

/// Decodes each payload that holds a transaction, keeping the order.
pub fn decode_transactions(payloads: &Vec<Vec<u8>>) -> (txs: Vec<bitcoin::Transaction>)
    ensures
        txs@ == decoded_transactions(payloads@.map_values(|p: Vec<u8>| p@)),
{
    let mut txs: Vec<bitcoin::Transaction> = Vec::new();
    let ghost all = payloads@.map_values(|p: Vec<u8>| p@);
    let mut i: usize = 0;
    while i < payloads.len()
        invariant
            i <= payloads.len(),
            all == payloads@.map_values(|p: Vec<u8>| p@),
            txs@ == decoded_transactions(all.take(i as int)),
        decreases payloads.len() - i,
    {
        proof {
            assert(all.take(i + 1).drop_last() == all.take(i as int));
            assert(all.take(i + 1).last() == payloads@[i as int]@);
        }
        match decode_tx(&payloads[i]) {
            Some(tx) => {
                txs.push(tx);
            },
            None => {},
        }
        i += 1;
    }
    proof {
        assert(all.take(i as int) == all);
    }
    txs
}

/// No report from a syncer breaks the registry: after the report of a
/// broadcast or of a transaction's confirmations, for any task id, every
/// indexed task is still in the task map and no id beyond the counter is in
/// use, where that held before.
pub proof fn lemma_reports_keep_registry_sound(
    state: SyncerStateView,
    id: TaskId,
    confirmations: Option<u32>,
    finality_thr: u32,
)
    ensures
        state.tasks.indexed_tasks_known() ==> {
            &&& state.after_broadcast(id).tasks.indexed_tasks_known()
            &&& state.after_confs(id, confirmations, finality_thr).tasks.indexed_tasks_known()
        },
        state.tasks.ids_bounded() ==> {
            &&& state.after_broadcast(id).tasks.ids_bounded()
            &&& state.after_confs(id, confirmations, finality_thr).tasks.ids_bounded()
        },
{
    let sent = state.after_broadcast(id).tasks;
    let counted = state.after_confs(id, confirmations, finality_thr).tasks;
    if state.tasks.indexed_tasks_known() {
        assert forall|j: u32| #[trigger] sent.indexes(j) implies sent.tasks.contains_key(j) by {
            assert(state.tasks.indexes(j));
        }
        assert forall|j: u32| #[trigger] counted.indexes(j) implies counted.tasks.contains_key(
            j,
        ) by {
            assert(state.tasks.indexes(j));
        }
    }
    if state.tasks.ids_bounded() {
        assert forall|j: u32| #[trigger] sent.references(j) implies j <= sent.counter by {
            assert(state.tasks.references(j));
        }
        assert forall|j: u32| #[trigger] counted.references(j) implies j <= counted.counter by {
            assert(state.tasks.references(j));
        }
    }
}

/// Finality is latched: once a label's transaction is final, no
/// confirmation report takes that back, whatever task it is for and
/// whatever it counts.
pub proof fn lemma_finality_is_latched(
    state: SyncerStateView,
    id: TaskId,
    confirmations: Option<u32>,
    finality_thr: u32,
    label: TxLabel,
)
    requires
        state.tasks.is_final(label),
    ensures
        state.after_confs(id, confirmations, finality_thr).tasks.is_final(label),
{
}

/// A label that a confirmation report makes final has, right after the
/// report, at least `finality_thr` confirmations on record.
pub proof fn lemma_final_with_enough_confirmations(
    state: SyncerStateView,
    id: TaskId,
    confirmations: Option<u32>,
    finality_thr: u32,
    label: TxLabel,
)
    requires
        !state.tasks.is_final(label),
        state.after_confs(id, confirmations, finality_thr).tasks.is_final(label),
    ensures
        state.after_confs(id, confirmations, finality_thr).confs(label) is Some,
        state.after_confs(id, confirmations, finality_thr).confs(label).unwrap() >= finality_thr,
{
    if state.tasks.watched_txs.contains_key(id.0) {
        lemma_code_injective(label, state.tasks.watched_txs[id.0]);
    }
}

/// The height recorded after a report of `new_height`: the larger of the
/// two.
pub open spec fn height_after(height: u64, new_height: u64) -> u64 {
    if new_height > height {
        new_height
    } else {
        height
    }
}

/// The height recorded after a run of reports, taken in order.
pub open spec fn height_after_all(height: u64, reports: Seq<u64>) -> u64
    decreases reports.len(),
{
    if reports.len() == 0 {
        height
    } else {
        height_after(height_after_all(height, reports.drop_last()), reports.last())
    }
}

/// After any run of height reports on one chain the recorded height is the
/// maximum of the height before and all heights reported: no smaller than
/// any of them, and one of them.
pub proof fn lemma_height_is_maximum(height: u64, reports: Seq<u64>)
    ensures
        height_after_all(height, reports) >= height,
        forall|i: int| 0 <= i < reports.len() ==> height_after_all(height, reports) >= reports[i],
        height_after_all(height, reports) == height || exists|i: int|
            0 <= i < reports.len() && height_after_all(height, reports) == reports[i],
    decreases reports.len(),
{
    if reports.len() > 0 {
        let front = reports.drop_last();
        lemma_height_is_maximum(height, front);
        let total = height_after_all(height, reports);
        assert forall|i: int| 0 <= i < reports.len() implies total >= reports[i] by {
            if i < front.len() {
                assert(front[i] == reports[i]);
            }
        }
        if total != height {
            if total == reports.last() {
                assert(total == reports[reports.len() - 1]);
            } else {
                let i = choose|i: int|
                    0 <= i < front.len() && height_after_all(height, front) == front[i];
                assert(front[i] == reports[i]);
            }
        }
    }
}

impl SyncerState {
    /// The state of a swap that has issued no task and heard of no height.
    pub fn new(
        swap_id: SwapId,
        network: Network,
        confirmation_bound: u32,
        bitcoin_amount: u64,
        monero_amount: u64,
    ) -> (state: SyncerState)
        ensures
            state@ == (SyncerStateView {
                swap_id,
                tasks: SyncerTasksView::empty(),
                bitcoin_height: 0,
                monero_height: 0,
                confirmation_bound,
                lock_tx_confs: None,
                cancel_tx_confs: None,
                network,
                bitcoin_syncer: ServiceId::Syncer(Blockchain::Bitcoin, network),
                monero_syncer: ServiceId::Syncer(Blockchain::Monero, network),
                monero_amount,
                bitcoin_amount,
                xmr_addr_addendum: None,
                confirmations: Map::empty(),
                awaiting_funding: false,
                btc_fee_estimate_sat_per_kvb: None,
            }),
            state@.tasks.ids_bounded(),
            state@.tasks.indexed_tasks_known(),
    {
        SyncerState {
            swap_id,
            tasks: SyncerTasks::new(),
            bitcoin_height: 0,
            monero_height: 0,
            confirmation_bound,
            lock_tx_confs: None,
            cancel_tx_confs: None,
            network,
            bitcoin_syncer: ServiceId::Syncer(Blockchain::Bitcoin, network),
            monero_syncer: ServiceId::Syncer(Blockchain::Monero, network),
            monero_amount,
            bitcoin_amount,
            xmr_addr_addendum: None,
            confirmations: HashMap::new(),
            awaiting_funding: false,
            btc_fee_estimate_sat_per_kvb: None,
        }
    }

    /// The height past which a task issued now is discarded.
    pub fn task_lifetime(&self, blockchain: Blockchain) -> (lifetime: u64)
        requires
            self@.height(blockchain) <= u64::MAX - TASK_LIFETIME_BLOCKS,
        ensures
            lifetime == self@.task_lifetime(blockchain),
    {
        let height = self.height(blockchain);
        if height > 0 {
            height + TASK_LIFETIME_BLOCKS
        } else {
            u64::MAX
        }
    }

    /// Who syncs the arbitrating chain.
    pub fn bitcoin_syncer(&self) -> (id: ServiceId)
        ensures
            id == self.bitcoin_syncer,
    {
        self.bitcoin_syncer
    }

    /// Who syncs the accordant chain.
    pub fn monero_syncer(&self) -> (id: ServiceId)
        ensures
            id == self.monero_syncer,
    {
        self.monero_syncer
    }

    /// The last height reported for a chain; 0 while none was.
    pub fn height(&self, blockchain: Blockchain) -> (height: u64)
        ensures
            height == self@.height(blockchain),
    {
        match blockchain {
            Blockchain::Bitcoin => self.bitcoin_height,
            Blockchain::Monero => self.monero_height,
        }
    }

    /// Takes a height report: the chain's height moves up to `new_height`
    /// if that is larger, and stays otherwise. Nothing else changes.
    pub fn handle_height_change(&mut self, new_height: u64, blockchain: Blockchain)
        ensures
            final(self)@ == old(self)@.with_height(
                blockchain,
                height_after(old(self)@.height(blockchain), new_height),
            ),
    {
        match blockchain {
            Blockchain::Bitcoin => {
                if new_height > self.bitcoin_height {
                    self.bitcoin_height = new_height;
                }
            },
            Blockchain::Monero => {
                if new_height > self.monero_height {
                    self.monero_height = new_height;
                }
            },
        }
    }

    /// The task that aborts the task `id`, with no answer asked for. The
    /// registry does not change.
    pub fn abort_task(&mut self, id: TaskId) -> (task: Task)
        ensures
            task@ == TaskView::Abort(
                Abort { task_target: TaskTarget::TaskId(id), respond: Boolean::False },
            ),
            final(self)@ == old(self)@,
    {
        Task::Abort(Abort { task_target: TaskTarget::TaskId(id), respond: Boolean::False })
    }

    /// Issues a fee-estimate watch on the arbitrating chain.
    pub fn estimate_fee_btc(&mut self) -> (task: Task)
        requires
            old(self).tasks.counter < u32::MAX,
            old(self)@.height(Blockchain::Bitcoin) <= u64::MAX - TASK_LIFETIME_BLOCKS,
        ensures
            task@ == old(self)@.next_fee_watch(),
            final(self)@ == old(self)@.filed(task@),
            final(self)@.tasks.issued(old(self)@.tasks, old(self)@.next_id().0),
            old(self)@.tasks.ids_bounded() ==> final(self)@.tasks.ids_bounded(),
            old(self)@.tasks.indexed_tasks_known() ==> final(self)@.tasks.indexed_tasks_known(),
    {
        let id = self.tasks.new_taskid();
        let task = Task::WatchEstimateFee(
            WatchEstimateFee { id, lifetime: self.task_lifetime(Blockchain::Bitcoin) },
        );
        self.tasks.record(id, &task);
        proof {
            lemma_issue_keeps_registry_sound(
                old(self)@.tasks,
                self@.tasks,
                old(self)@.next_id().0,
            );
        }
        task
    }

    /// Issues a height watch on a chain.
    pub fn watch_height(&mut self, blockchain: Blockchain) -> (task: Task)
        requires
            old(self).tasks.counter < u32::MAX,
            old(self)@.height(blockchain) <= u64::MAX - TASK_LIFETIME_BLOCKS,
        ensures
            task@ == old(self)@.next_height_watch(blockchain),
            final(self)@ == old(self)@.filed(task@),
            final(self)@.tasks.issued(old(self)@.tasks, old(self)@.next_id().0),
            old(self)@.tasks.ids_bounded() ==> final(self)@.tasks.ids_bounded(),
            old(self)@.tasks.indexed_tasks_known() ==> final(self)@.tasks.indexed_tasks_known(),
    {
        let id = self.tasks.new_taskid();
        let task = Task::WatchHeight(WatchHeight { id, lifetime: self.task_lifetime(blockchain) });
        self.tasks.record(id, &task);
        proof {
            lemma_issue_keeps_registry_sound(
                old(self)@.tasks,
                self@.tasks,
                old(self)@.next_id().0,
            );
        }
        task
    }

    /// The height `delta` blocks below the chain's, but not below 0.
    pub fn from_height(&self, blockchain: Blockchain, delta: u64) -> (from: u64)
        ensures
            from == self@.from_height(blockchain, delta),
    {
        let height = self.height(blockchain);
        let delta = if height > delta {
            delta
        } else {
            height
        };
        height - delta
    }

    /// Issues a watch on the transaction with the given hash on a chain, for
    /// a label.
    pub fn watch_tx(&mut self, blockchain: Blockchain, hash: Vec<u8>, tx_label: TxLabel) -> (task:
        Task)
        requires
            old(self).tasks.counter < u32::MAX,
            old(self)@.height(blockchain) <= u64::MAX - TASK_LIFETIME_BLOCKS,
        ensures
            task@ == old(self)@.next_tx_watch(blockchain, hash@),
            final(self)@ == old(self)@.watching_tx(tx_label, task@),
            final(self)@.tasks.issued(old(self)@.tasks, old(self)@.next_id().0),
            old(self)@.tasks.ids_bounded() ==> final(self)@.tasks.ids_bounded(),
            old(self)@.tasks.indexed_tasks_known() ==> final(self)@.tasks.indexed_tasks_known(),
    {
        let id = self.tasks.new_taskid();
        self.tasks.watched_txs.insert(id.0, tx_label);
        let task = Task::WatchTransaction(
            WatchTransaction {
                id,
                lifetime: self.task_lifetime(blockchain),
                hash,
                confirmation_bound: self.confirmation_bound,
            },
        );
        self.tasks.record(id, &task);
        proof {
            lemma_issue_keeps_registry_sound(
                old(self)@.tasks,
                self@.tasks,
                old(self)@.next_id().0,
            );
        }
        task
    }

    /// Issues a watch on an arbitrating transaction for a label, and notes
    /// the transaction's id under the label.
    pub fn watch_tx_btc(&mut self, txid: bitcoin::Txid, tx_label: TxLabel) -> (task: Task)
        requires
            old(self).tasks.counter < u32::MAX,
            old(self)@.height(Blockchain::Bitcoin) <= u64::MAX - TASK_LIFETIME_BLOCKS,
        ensures
            task@ == old(self)@.next_tx_watch(Blockchain::Bitcoin, txid_bytes(txid)),
            final(self)@ == (SyncerStateView {
                tasks: SyncerTasksView {
                    txids: old(self)@.tasks.txids.insert(tx_label.spec_code(), txid),
                    ..old(self)@.watching_tx(tx_label, task@).tasks
                },
                ..old(self)@
            }),
            final(self)@.tasks.issued(old(self)@.tasks, old(self)@.next_id().0),
            old(self)@.tasks.ids_bounded() ==> final(self)@.tasks.ids_bounded(),
            old(self)@.tasks.indexed_tasks_known() ==> final(self)@.tasks.indexed_tasks_known(),
    {
        let hash = txid_to_vec(&txid);
        let task = self.watch_tx(Blockchain::Bitcoin, hash, tx_label);
        self.tasks.txids.insert(tx_label.code(), txid);
        proof {
            lemma_issue_keeps_registry_sound(
                old(self)@.tasks,
                self@.tasks,
                old(self)@.next_id().0,
            );
        }
        task
    }

    /// Issues a watch on an accordant transaction for a label.
    pub fn watch_tx_xmr(&mut self, hash: Vec<u8>, tx_label: TxLabel) -> (task: Task)
        requires
            old(self).tasks.counter < u32::MAX,
            old(self)@.height(Blockchain::Monero) <= u64::MAX - TASK_LIFETIME_BLOCKS,
        ensures
            task@ == old(self)@.next_tx_watch(Blockchain::Monero, hash@),
            final(self)@ == old(self)@.watching_tx(tx_label, task@),
            final(self)@.tasks.issued(old(self)@.tasks, old(self)@.next_id().0),
            old(self)@.tasks.ids_bounded() ==> final(self)@.tasks.ids_bounded(),
            old(self)@.tasks.indexed_tasks_known() ==> final(self)@.tasks.indexed_tasks_known(),
    {
        self.watch_tx(Blockchain::Monero, hash, tx_label)
    }

    /// Issues a request for the transaction with the given hash, and files
    /// the request with its label among the retrievals under way.
    pub fn retrieve_tx(&mut self, hash: Vec<u8>, tx_label: TxLabel) -> (task: Task)
        requires
            old(self).tasks.counter < u32::MAX,
        ensures
            task@ == TaskView::GetTx(GetTxView { id: old(self)@.next_id(), hash: hash@ }),
            final(self)@ == (SyncerStateView {
                tasks: SyncerTasksView {
                    retrieving_txs: old(self)@.tasks.retrieving_txs.insert(
                        old(self)@.next_id().0,
                        (tx_label, task@),
                    ),
                    ..old(self)@.filed(task@).tasks
                },
                ..old(self)@
            }),
            final(self)@.tasks.issued(old(self)@.tasks, old(self)@.next_id().0),
            old(self)@.tasks.ids_bounded() ==> final(self)@.tasks.ids_bounded(),
            old(self)@.tasks.indexed_tasks_known() ==> final(self)@.tasks.indexed_tasks_known(),
    {
        let id = self.tasks.new_taskid();
        let task = Task::GetTx(GetTx { id, hash });
        let ghost before = self.tasks@;
        self.tasks.retrieving_txs.insert(id.0, (tx_label, task.clone()));
        proof {
            assert(self.tasks@.retrieving_txs =~= before.retrieving_txs.insert(
                id.0,
                (tx_label, task@),
            ));
        }
        self.tasks.record(id, &task);
        proof {
            lemma_issue_keeps_registry_sound(
                old(self)@.tasks,
                self@.tasks,
                old(self)@.next_id().0,
            );
        }
        task
    }

    /// Issues a request for an arbitrating transaction by its id, and files
    /// the request with its label among the retrievals under way.
    pub fn retrieve_tx_btc(&mut self, txid: bitcoin::Txid, tx_label: TxLabel) -> (task: Task)
        requires
            old(self).tasks.counter < u32::MAX,
        ensures
            task@ == TaskView::GetTx(GetTxView { id: old(self)@.next_id(), hash: txid_bytes(txid) }),
            final(self)@ == (SyncerStateView {
                tasks: SyncerTasksView {
                    retrieving_txs: old(self)@.tasks.retrieving_txs.insert(
                        old(self)@.next_id().0,
                        (tx_label, task@),
                    ),
                    ..old(self)@.filed(task@).tasks
                },
                ..old(self)@
            }),
            final(self)@.tasks.issued(old(self)@.tasks, old(self)@.next_id().0),
            old(self)@.tasks.ids_bounded() ==> final(self)@.tasks.ids_bounded(),
            old(self)@.tasks.indexed_tasks_known() ==> final(self)@.tasks.indexed_tasks_known(),
    {
        let hash = txid_to_vec(&txid);
        self.retrieve_tx(hash, tx_label)
    }

    /// Issues a watch on an arbitrating address for a label, from at most 6
    /// blocks below the chain's height, with the transactions included in
    /// the reports.
    pub fn watch_addr_btc(&mut self, address: bitcoin::Address, tx_label: TxLabel) -> (task: Task)
        requires
            old(self).tasks.counter < u32::MAX,
            old(self)@.height(Blockchain::Bitcoin) <= u64::MAX - TASK_LIFETIME_BLOCKS,
        ensures
            task@ == TaskView::WatchAddress(
                WatchAddress {
                    id: old(self)@.next_id(),
                    lifetime: old(self)@.task_lifetime(Blockchain::Bitcoin) as u64,
                    addendum: AddressAddendum::Bitcoin(
                        BtcAddressAddendum {
                            from_height: old(self)@.from_height(Blockchain::Bitcoin, 6) as u64,
                            address,
                        },
                    ),
                    include_tx: Boolean::True,
                },
            ),
            final(self)@ == old(self)@.watching_addr(tx_label, task@),
            final(self)@.tasks.issued(old(self)@.tasks, old(self)@.next_id().0),
            old(self)@.tasks.ids_bounded() ==> final(self)@.tasks.ids_bounded(),
            old(self)@.tasks.indexed_tasks_known() ==> final(self)@.tasks.indexed_tasks_known(),
    {
        let id = self.tasks.new_taskid();
        let from_height = self.from_height(Blockchain::Bitcoin, 6);
        self.tasks.watched_addrs.insert(id.0, tx_label);
        let addendum = BtcAddressAddendum { from_height, address };
        let task = Task::WatchAddress(
            WatchAddress {
                id,
                lifetime: self.task_lifetime(Blockchain::Bitcoin),
                addendum: AddressAddendum::Bitcoin(addendum),
                include_tx: Boolean::True,
            },
        );
        self.tasks.record(id, &task);
        proof {
            lemma_issue_keeps_registry_sound(
                old(self)@.tasks,
                self@.tasks,
                old(self)@.next_id().0,
            );
        }
        task
    }

    /// Issues a watch on the accordant address of a key pair for a label,
    /// from the given height or else from at most 20 blocks below the
    /// chain's, with the transactions left out of the reports. The keys and
    /// the height are kept as the state's accordant addendum.
    pub fn watch_addr_xmr(
        &mut self,
        spend: monero::PublicKey,
        view: monero::PrivateKey,
        tx_label: TxLabel,
        from_height: Option<u64>,
    ) -> (task: Task)
        requires
            old(self).tasks.counter < u32::MAX,
            old(self)@.height(Blockchain::Monero) <= u64::MAX - TASK_LIFETIME_BLOCKS,
        ensures
            task@ == TaskView::WatchAddress(
                WatchAddress {
                    id: old(self)@.next_id(),
                    lifetime: old(self)@.task_lifetime(Blockchain::Monero) as u64,
                    addendum: AddressAddendum::Monero(
                        old(self)@.xmr_addendum(spend, view, from_height),
                    ),
                    include_tx: Boolean::False,
                },
            ),
            final(self)@ == (SyncerStateView {
                xmr_addr_addendum: Some(old(self)@.xmr_addendum(spend, view, from_height)),
                ..old(self)@.watching_addr(tx_label, task@)
            }),
            final(self)@.tasks.issued(old(self)@.tasks, old(self)@.next_id().0),
            old(self)@.tasks.ids_bounded() ==> final(self)@.tasks.ids_bounded(),
            old(self)@.tasks.indexed_tasks_known() ==> final(self)@.tasks.indexed_tasks_known(),
    {
        let from_height = match from_height {
            Some(height) => height,
            None => self.from_height(Blockchain::Monero, 20),
        };
        let addendum = XmrAddressAddendum { spend_key: spend, view_key: view, from_height };
        self.xmr_addr_addendum = Some(addendum);
        let id = self.tasks.new_taskid();
        self.tasks.watched_addrs.insert(id.0, tx_label);
        let task = Task::WatchAddress(
            WatchAddress {
                id,
                lifetime: self.task_lifetime(Blockchain::Monero),
                addendum: AddressAddendum::Monero(addendum),
                include_tx: Boolean::False,
            },
        );
        self.tasks.record(id, &task);
        proof {
            lemma_issue_keeps_registry_sound(
                old(self)@.tasks,
                self@.tasks,
                old(self)@.next_id().0,
            );
        }
        task
    }

    /// Issues a sweep of an arbitrating address and makes it the current
    /// sweep.
    pub fn sweep_btc(&mut self, addendum: SweepBitcoinAddress, retry: bool) -> (task: Task)
        requires
            old(self).tasks.counter < u32::MAX,
            old(self)@.height(Blockchain::Bitcoin) <= u64::MAX - TASK_LIFETIME_BLOCKS,
        ensures
            task@ == TaskView::SweepAddress(
                SweepAddress {
                    id: old(self)@.next_id(),
                    lifetime: old(self)@.task_lifetime(Blockchain::Bitcoin) as u64,
                    addendum: SweepAddressAddendum::Bitcoin(addendum),
                    retry,
                },
            ),
            final(self)@ == old(self)@.sweeping(task@),
            final(self)@.tasks.issued(old(self)@.tasks, old(self)@.next_id().0),
            old(self)@.tasks.ids_bounded() ==> final(self)@.tasks.ids_bounded(),
            old(self)@.tasks.indexed_tasks_known() ==> final(self)@.tasks.indexed_tasks_known(),
    {
        let id = self.tasks.new_taskid();
        self.tasks.sweeping_addr = Some(id);
        let lifetime = self.task_lifetime(Blockchain::Bitcoin);
        let sweep_task = SweepAddress {
            id,
            lifetime,
            addendum: SweepAddressAddendum::Bitcoin(addendum),
            retry,
        };
        let task = Task::SweepAddress(sweep_task);
        self.tasks.record(id, &task);
        proof {
            lemma_issue_keeps_registry_sound(
                old(self)@.tasks,
                self@.tasks,
                old(self)@.next_id().0,
            );
        }
        task
    }

    /// Issues a sweep of an accordant address and makes it the current
    /// sweep.
    pub fn sweep_xmr(&mut self, addendum: SweepMoneroAddress, retry: bool) -> (task: Task)
        requires
            old(self).tasks.counter < u32::MAX,
            old(self)@.height(Blockchain::Monero) <= u64::MAX - TASK_LIFETIME_BLOCKS,
        ensures
            task@ == TaskView::SweepAddress(
                SweepAddress {
                    id: old(self)@.next_id(),
                    lifetime: old(self)@.task_lifetime(Blockchain::Monero) as u64,
                    addendum: SweepAddressAddendum::Monero(addendum),
                    retry,
                },
            ),
            final(self)@ == old(self)@.sweeping(task@),
            final(self)@.tasks.issued(old(self)@.tasks, old(self)@.next_id().0),
            old(self)@.tasks.ids_bounded() ==> final(self)@.tasks.ids_bounded(),
            old(self)@.tasks.indexed_tasks_known() ==> final(self)@.tasks.indexed_tasks_known(),
    {
        let id = self.tasks.new_taskid();
        self.tasks.sweeping_addr = Some(id);
        let lifetime = self.task_lifetime(Blockchain::Monero);
        let sweep_task = SweepAddress {
            id,
            lifetime,
            addendum: SweepAddressAddendum::Monero(addendum),
            retry,
        };
        let task = Task::SweepAddress(sweep_task);
        self.tasks.record(id, &task);
        proof {
            lemma_issue_keeps_registry_sound(
                old(self)@.tasks,
                self@.tasks,
                old(self)@.next_id().0,
            );
        }
        task
    }

    /// Issues the broadcast of a serialized transaction, to be carried out
    /// at once, and counts it among the broadcasts under way.
    pub fn broadcast_serialized(&mut self, tx: Vec<u8>) -> (task: Task)
        requires
            old(self).tasks.counter < u32::MAX,
        ensures
            task@ == TaskView::BroadcastTransaction(
                BroadcastTransactionView {
                    id: old(self)@.next_id(),
                    tx: tx@,
                    broadcast_after_height: None,
                },
            ),
            final(self)@ == (SyncerStateView {
                tasks: SyncerTasksView {
                    broadcasting_txs: old(self)@.tasks.broadcasting_txs.insert(
                        old(self)@.next_id().0,
                    ),
                    ..old(self)@.filed(task@).tasks
                },
                ..old(self)@
            }),
            final(self)@.tasks.issued(old(self)@.tasks, old(self)@.next_id().0),
            old(self)@.tasks.ids_bounded() ==> final(self)@.tasks.ids_bounded(),
            old(self)@.tasks.indexed_tasks_known() ==> final(self)@.tasks.indexed_tasks_known(),
    {
        let id = self.tasks.new_taskid();
        let task = Task::BroadcastTransaction(
            BroadcastTransaction { id, tx, broadcast_after_height: None },
        );
        self.tasks.record(id, &task);
        self.tasks.broadcasting_txs.insert(id.0);
        proof {
            lemma_issue_keeps_registry_sound(
                old(self)@.tasks,
                self@.tasks,
                old(self)@.next_id().0,
            );
        }
        task
    }

    /// Issues the broadcast of a transaction in its consensus encoding, to
    /// be carried out at once, and counts it among the broadcasts under way.
    pub fn broadcast(&mut self, tx: bitcoin::Transaction) -> (task: Task)
        requires
            old(self).tasks.counter < u32::MAX,
        ensures
            task@ == TaskView::BroadcastTransaction(
                BroadcastTransactionView {
                    id: old(self)@.next_id(),
                    tx: consensus_encoding(tx),
                    broadcast_after_height: None,
                },
            ),
            final(self)@ == (SyncerStateView {
                tasks: SyncerTasksView {
                    broadcasting_txs: old(self)@.tasks.broadcasting_txs.insert(
                        old(self)@.next_id().0,
                    ),
                    ..old(self)@.filed(task@).tasks
                },
                ..old(self)@
            }),
            final(self)@.tasks.issued(old(self)@.tasks, old(self)@.next_id().0),
            old(self)@.tasks.ids_bounded() ==> final(self)@.tasks.ids_bounded(),
            old(self)@.tasks.indexed_tasks_known() ==> final(self)@.tasks.indexed_tasks_known(),
    {
        let bytes = serialize_tx(&tx);
        self.broadcast_serialized(bytes)
    }

    /// Takes the report of a broadcast. The task leaves the broadcasts under
    /// way; it leaves the task map as well where it was among the broadcasts
    /// and no other index speaks of it. A report for a task that is not
    /// among the broadcasts, as a stale one after a restart, changes nothing.
    /// Every indexed task stays in the task map, and finality is untouched.
    pub fn transaction_broadcasted(&mut self, event: &TransactionBroadcasted)
        ensures
            final(self)@ == old(self)@.after_broadcast(event.id),
            final(self)@.tasks.broadcasting_txs == old(self)@.tasks.broadcasting_txs.remove(
                event.id.0,
            ),
            !old(self)@.tasks.broadcasting_txs.contains(event.id.0) ==> final(self)@ == old(
                self,
            )@,
            old(self)@.tasks.ids_bounded() ==> final(self)@.tasks.ids_bounded(),
            old(self)@.tasks.indexed_tasks_known() ==> final(self)@.tasks.indexed_tasks_known(),
            forall|label: TxLabel|
                old(self)@.tasks.is_final(label) ==> final(self)@.tasks.is_final(label),
    {
        let id = event.id.0;
        let was_pending = self.tasks.broadcasting_txs.remove(&id);
        let sweeping = match self.tasks.sweeping_addr {
            Some(current) => current.0 == id,
            None => false,
        };
        let indexed_elsewhere = self.tasks.watched_txs.contains_key(&id)
            || self.tasks.watched_addrs.contains_key(&id) || self.tasks.retrieving_txs.contains_key(
            &id,
        ) || sweeping;
        if was_pending && !indexed_elsewhere {
            self.tasks.tasks.remove(&id);
        }
        proof {
            let before = old(self)@.tasks;
            let after = self@.tasks;
            assert(after.broadcasting_txs =~= before.broadcasting_txs.remove(id));
            assert(before.retrieving_txs.contains_key(id) == old(
                self,
            ).tasks.retrieving_txs@.contains_key(id));
            if was_pending && !indexed_elsewhere {
                assert(after.tasks =~= before.tasks.remove(id));
            } else {
                assert(after.tasks =~= before.tasks);
            }
            if !was_pending {
                assert(before.broadcasting_txs.remove(id) =~= before.broadcasting_txs);
            }
            if before.ids_bounded() {
                assert forall|j: u32| #[trigger] after.references(j) implies j
                    <= after.counter by {
                    assert(before.references(j));
                }
            }
            if before.indexed_tasks_known() {
                assert forall|j: u32| #[trigger] after.indexes(j) implies after.tasks.contains_key(
                    j,
                ) by {
                    assert(before.indexes(j));
                }
            }
        }
    }

    /// The last confirmation count reported for a label: `None` where none
    /// was reported or the transaction was not seen.
    pub fn get_confs(&self, label: TxLabel) -> (confs: Option<u32>)
        ensures
            confs == self@.confs(label),
    {
        match self.confirmations.get(&label.code()) {
            Some(confs) => *confs,
            None => None,
        }
    }

    /// Whether some transaction watch serves the label.
    pub fn is_watched_tx(&self, tx_label: &TxLabel) -> (watched: bool)
        ensures
            watched == self@.tasks.watches_tx(*tx_label),
    {
        serves_label(&self.tasks.watched_txs, *tx_label)
    }

    /// Whether some address watch serves the label.
    pub fn is_watched_addr(&self, tx_label: &TxLabel) -> (watched: bool)
        ensures
            watched == self@.tasks.watches_addr(*tx_label),
    {
        serves_label(&self.tasks.watched_addrs, *tx_label)
    }

    /// Whether some address watch serves the accordant lock.
    pub fn acc_lock_watched(&self) -> (watched: bool)
        ensures
            watched == self@.tasks.watches_addr(TxLabel::AccLock),
    {
        serves_label(&self.tasks.watched_addrs, TxLabel::AccLock)
    }

    /// The payloads of the broadcasts under way: one for each id among them
    /// that has a broadcast task, the ids taken once each in the order the
    /// set hands them out.
    pub fn pending_broadcast_payloads(&self) -> (payloads: Vec<Vec<u8>>)
        ensures
            exists|ids: Seq<u32>|
                ids.no_duplicates() && ids.to_set() == self@.tasks.broadcasting_txs
                    && #[trigger] broadcast_payloads(self@.tasks.tasks, ids)
                    == payloads@.map_values(|p: Vec<u8>| p@),
    {
        let mut payloads: Vec<Vec<u8>> = Vec::new();
        let ghost all: Seq<u32> = self.tasks.broadcasting_txs.iter().remaining().unref();
        let ghost filed = self@.tasks.tasks;
        let ghost mut done: int = 0;
        for id in it: self.tasks.broadcasting_txs.iter()
            invariant
                it.seq().unref() == all,
                all.no_duplicates(),
                all.to_set() == self@.tasks.broadcasting_txs,
                filed == self@.tasks.tasks,
                done == it.index(),
                0 <= done <= all.len(),
                payloads@.map_values(|p: Vec<u8>| p@) == broadcast_payloads(filed, all.take(done)),
        {
            proof {
                assert(all[done] == *id);
                assert(all.take(done + 1).drop_last() == all.take(done));
                assert(all.take(done + 1).last() == *id);
            }
            let ghost before = payloads@.map_values(|p: Vec<u8>| p@);
            match self.tasks.tasks.get(id) {
                Some(Task::BroadcastTransaction(broadcast_tx)) => {
                    let payload = broadcast_tx.tx.clone();
                    payloads.push(payload);
                    proof {
                        assert(payloads@.map_values(|p: Vec<u8>| p@) =~= before.push(
                            broadcast_tx.tx@,
                        ));
                    }
                },
                _ => {},
            }
            proof {
                done = done + 1;
            }
        }
        proof {
            assert(all.take(done) == all);
        }
        payloads
    }

    /// The transactions whose broadcast is under way, decoded from the
    /// payloads of their tasks: one for each id among the broadcasts that
    /// has a broadcast task with a payload that decodes, the ids taken once
    /// each in the order the set hands them out.
    pub fn pending_broadcast_txs(&self) -> (txs: Vec<bitcoin::Transaction>)
        ensures
            exists|ids: Seq<u32>|
                ids.no_duplicates() && ids.to_set() == self@.tasks.broadcasting_txs
                    && decoded_transactions(#[trigger] broadcast_payloads(self@.tasks.tasks, ids))
                    == txs@,
    {
        let payloads = self.pending_broadcast_payloads();
        decode_transactions(&payloads)
    }

    /// Takes a report of a transaction's confirmations. A report for a task
    /// that is no transaction watch is dropped. Else the transaction's label
    /// becomes final if it was not and the report counts at least
    /// `finality_thr` confirmations, and the label's confirmations become
    /// the reported ones in every case, also where the report is `None`.
    /// Finality is never taken back.
    pub fn handle_tx_confs(
        &mut self,
        id: &TaskId,
        confirmations: &Option<u32>,
        finality_thr: u32,
    ) -> (report: TxConfsReport)
        ensures
            report == old(self)@.confs_report(*id, *confirmations, finality_thr),
            final(self)@ == old(self)@.after_confs(*id, *confirmations, finality_thr),
            forall|label: TxLabel|
                old(self)@.tasks.is_final(label) ==> final(self)@.tasks.is_final(label),
            forall|label: TxLabel|
                final(self)@.tasks.is_final(label) && !old(self)@.tasks.is_final(label) ==> {
                    &&& final(self)@.confs(label) is Some
                    &&& final(self)@.confs(label).unwrap() >= finality_thr
                },
    {
        let label = match self.tasks.watched_txs.get(&id.0) {
            Some(label) => *label,
            None => {
                return TxConfsReport::UnknownTask;
            },
        };
        let code = label.code();
        let known = match self.tasks.final_txs.get(&code) {
            Some(finality) => Some(*finality),
            None => None,
        };
        let is_final = match known {
            Some(finality) => finality,
            None => false,
        };
        let reached = match confirmations {
            Some(confs) => *confs >= finality_thr,
            None => false,
        };
        let report = if !is_final && reached {
            self.tasks.final_txs.insert(code, true);
            match confirmations {
                Some(confs) => TxConfsReport::BecameFinal(label, *confs),
                None => TxConfsReport::NotSeen(label),
            }
        } else {
            match known {
                Some(finality) => TxConfsReport::Latched(label, finality),
                None => match confirmations {
                    Some(0) => TxConfsReport::InMempool(label),
                    Some(confs) => TxConfsReport::Mined(label, *confs),
                    None => TxConfsReport::NotSeen(label),
                },
            }
        };
        self.confirmations.insert(code, *confirmations);
        proof {
            assert forall|other: TxLabel|
                self@.tasks.is_final(other) && !old(self)@.tasks.is_final(other) implies {
                &&& self@.confs(other) is Some
                &&& self@.confs(other).unwrap() >= finality_thr
            } by {
                lemma_code_injective(other, label);
            }
        }
        report
    }

    /// Issues the three watches a swap starts with: fee estimates and the
    /// height on the arbitrating chain, then the height on the accordant
    /// chain. Each comes with the syncer it is meant for, in the order in
    /// which they are to be sent.
    pub fn watch_fee_and_height(&mut self) -> (out: Vec<(ServiceId, Task)>)
        requires
            old(self).tasks.counter < u32::MAX - 2,
            old(self)@.height(Blockchain::Bitcoin) <= u64::MAX - TASK_LIFETIME_BLOCKS,
            old(self)@.height(Blockchain::Monero) <= u64::MAX - TASK_LIFETIME_BLOCKS,
        ensures
            out@.len() == 3,
            out@[0].0 == old(self).bitcoin_syncer,
            out@[1].0 == old(self).bitcoin_syncer,
            out@[2].0 == old(self).monero_syncer,
            out@[0].1@ == old(self)@.next_fee_watch(),
            out@[1].1@ == old(self)@.filed(out@[0].1@).next_height_watch(Blockchain::Bitcoin),
            out@[2].1@ == old(self)@.filed(out@[0].1@).filed(out@[1].1@).next_height_watch(
                Blockchain::Monero,
            ),
            final(self)@ == old(self)@.filed(out@[0].1@).filed(out@[1].1@).filed(out@[2].1@),
            old(self)@.tasks.ids_bounded() ==> final(self)@.tasks.ids_bounded(),
            old(self)@.tasks.indexed_tasks_known() ==> final(self)@.tasks.indexed_tasks_known(),
    {
        let mut out: Vec<(ServiceId, Task)> = Vec::new();
        let task = self.estimate_fee_btc();
        out.push((self.bitcoin_syncer(), task));
        let watch_height_btc_task = self.watch_height(Blockchain::Bitcoin);
        out.push((self.bitcoin_syncer(), watch_height_btc_task));
        let watch_height_xmr_task = self.watch_height(Blockchain::Monero);
        out.push((self.monero_syncer(), watch_height_xmr_task));
        out
    }
}

} // verus!
