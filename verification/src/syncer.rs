//! The tasks a swap hands to its syncers, and the events it gets back.
use vstd::prelude::*;
use crate::outside::clone_address;

verus! {

/// Names a task for as long as its syncer lives.
#[derive(Debug, Clone, Copy, PartialEq, Eq, Structural, Hash)]
pub struct TaskId(pub u32);

/// Names a swap.
#[derive(Debug, Clone, Copy, PartialEq, Eq, Hash)]
pub struct SwapId(pub [u8; 32]);

/// A yes or no that travels in a task.
#[derive(Debug, Clone, Copy, PartialEq, Eq, Structural, Hash)]
pub enum Boolean {
    True,
    False,
}

/// What an abort is aimed at.
#[derive(Debug, Clone, Copy, PartialEq, Eq, Structural, Hash)]
pub enum TaskTarget {
    TaskId(TaskId),
    AllTasks,
}

/// Asks a syncer to drop a task.
#[derive(Debug, Clone, Copy, PartialEq, Eq, Structural, Hash)]
pub struct Abort {
    pub task_target: TaskTarget,
    pub respond: Boolean,
}

/// Asks for a report whenever the chain's height changes.
#[derive(Debug, Clone, Copy, PartialEq, Eq, Structural, Hash)]
pub struct WatchHeight {
    pub id: TaskId,
    pub lifetime: u64,
}

/// Asks for fee estimates.
#[derive(Debug, Clone, Copy, PartialEq, Eq, Structural, Hash)]
pub struct WatchEstimateFee {
    pub id: TaskId,
    pub lifetime: u64,
}

/// Asks for the confirmations of a transaction.
#[derive(Debug, PartialEq, Eq, Hash)]
pub struct WatchTransaction {
    pub id: TaskId,
    pub lifetime: u64,
    pub hash: Vec<u8>,
    pub confirmation_bound: u32,
}

/// A transaction watch with its hash read as a sequence of bytes.
pub struct WatchTransactionView {
    pub id: TaskId,
    pub lifetime: u64,
    pub hash: Seq<u8>,
    pub confirmation_bound: u32,
}

impl View for WatchTransaction {
    type V = WatchTransactionView;

    open spec fn view(&self) -> WatchTransactionView {
        WatchTransactionView {
            id: self.id,
            lifetime: self.lifetime,
            hash: self.hash@,
            confirmation_bound: self.confirmation_bound,
        }
    }
}

impl Clone for WatchTransaction {
    fn clone(&self) -> (copy: Self)
        ensures
            copy@ == self@,
    {
        WatchTransaction {
            id: self.id,
            lifetime: self.lifetime,
            hash: self.hash.clone(),
            confirmation_bound: self.confirmation_bound,
        }
    }
}

/// Asks for a transaction by its hash.
#[derive(Debug, PartialEq, Eq, Hash)]
pub struct GetTx {
    pub id: TaskId,
    pub hash: Vec<u8>,
}

/// A transaction request with its hash read as a sequence of bytes.
pub struct GetTxView {
    pub id: TaskId,
    pub hash: Seq<u8>,
}

impl View for GetTx {
    type V = GetTxView;

    open spec fn view(&self) -> GetTxView {
        GetTxView { id: self.id, hash: self.hash@ }
    }
}

impl Clone for GetTx {
    fn clone(&self) -> (copy: Self)
        ensures
            copy@ == self@,
    {
        GetTx { id: self.id, hash: self.hash.clone() }
    }
}

/// Asks for a serialized transaction to be broadcast.
#[derive(Debug, PartialEq, Eq, Hash)]
pub struct BroadcastTransaction {
    pub id: TaskId,
    pub tx: Vec<u8>,
    pub broadcast_after_height: Option<u64>,
}

/// A broadcast with its payload read as a sequence of bytes.
pub struct BroadcastTransactionView {
    pub id: TaskId,
    pub tx: Seq<u8>,
    pub broadcast_after_height: Option<u64>,
}

impl View for BroadcastTransaction {
    type V = BroadcastTransactionView;

    open spec fn view(&self) -> BroadcastTransactionView {
        BroadcastTransactionView {
            id: self.id,
            tx: self.tx@,
            broadcast_after_height: self.broadcast_after_height,
        }
    }
}

impl Clone for BroadcastTransaction {
    fn clone(&self) -> (copy: Self)
        ensures
            copy@ == self@,
    {
        BroadcastTransaction {
            id: self.id,
            tx: self.tx.clone(),
            broadcast_after_height: self.broadcast_after_height,
        }
    }
}

/// An arbitrating address and the height to watch it from.
#[derive(Debug, PartialEq, Eq, Hash)]
pub struct BtcAddressAddendum {
    pub from_height: u64,
    pub address: bitcoin::Address,
}

impl Clone for BtcAddressAddendum {
    fn clone(&self) -> (copy: Self)
        ensures
            copy == *self,
    {
        BtcAddressAddendum { from_height: self.from_height, address: clone_address(&self.address) }
    }
}

/// The keys of an accordant address and the height to watch it from.
#[derive(Debug, Clone, Copy, PartialEq, Eq)]
pub struct XmrAddressAddendum {
    pub spend_key: monero::PublicKey,
    pub view_key: monero::PrivateKey,
    pub from_height: u64,
}

/// The address a watch is about.
#[derive(Debug, PartialEq, Eq)]
pub enum AddressAddendum {
    Bitcoin(BtcAddressAddendum),
    Monero(XmrAddressAddendum),
}

impl Clone for AddressAddendum {
    fn clone(&self) -> (copy: Self)
        ensures
            copy == *self,
    {
        match self {
            AddressAddendum::Bitcoin(a) => AddressAddendum::Bitcoin(a.clone()),
            AddressAddendum::Monero(a) => AddressAddendum::Monero(*a),
        }
    }
}

/// Asks for the transactions that pay to an address.
#[derive(Debug, PartialEq, Eq)]
pub struct WatchAddress {
    pub id: TaskId,
    pub lifetime: u64,
    pub addendum: AddressAddendum,
    pub include_tx: Boolean,
}

impl Clone for WatchAddress {
    fn clone(&self) -> (copy: Self)
        ensures
            copy == *self,
    {
        WatchAddress {
            id: self.id,
            lifetime: self.lifetime,
            addendum: self.addendum.clone(),
            include_tx: self.include_tx,
        }
    }
}

/// What is needed to sweep an arbitrating address.
#[derive(Debug, PartialEq, Eq)]
pub struct SweepBitcoinAddress {
    pub source_secret_key: bitcoin::secp256k1::SecretKey,
    pub source_address: bitcoin::Address,
    pub destination_address: bitcoin::Address,
}

impl Clone for SweepBitcoinAddress {
    fn clone(&self) -> (copy: Self)
        ensures
            copy == *self,
    {
        SweepBitcoinAddress {
            source_secret_key: self.source_secret_key,
            source_address: clone_address(&self.source_address),
            destination_address: clone_address(&self.destination_address),
        }
    }
}

/// What is needed to sweep an accordant address. The minimum balance is in
/// piconero.
#[derive(Debug, Clone, Copy, PartialEq, Eq)]
pub struct SweepMoneroAddress {
    pub source_spend_key: monero::PrivateKey,
    pub source_view_key: monero::PrivateKey,
    pub destination_address: monero::Address,
    pub minimum_balance: u64,
    pub from_height: Option<u64>,
}

/// The address a sweep empties.
#[derive(Debug, PartialEq, Eq)]
pub enum SweepAddressAddendum {
    Bitcoin(SweepBitcoinAddress),
    Monero(SweepMoneroAddress),
}

impl Clone for SweepAddressAddendum {
    fn clone(&self) -> (copy: Self)
        ensures
            copy == *self,
    {
        match self {
            SweepAddressAddendum::Bitcoin(a) => SweepAddressAddendum::Bitcoin(a.clone()),
            SweepAddressAddendum::Monero(a) => SweepAddressAddendum::Monero(*a),
        }
    }
}

/// Asks for an address to be swept.
#[derive(Debug, PartialEq, Eq)]
pub struct SweepAddress {
    pub id: TaskId,
    pub lifetime: u64,
    pub addendum: SweepAddressAddendum,
    pub retry: bool,
}

impl Clone for SweepAddress {
    fn clone(&self) -> (copy: Self)
        ensures
            copy == *self,
    {
        SweepAddress {
            id: self.id,
            lifetime: self.lifetime,
            addendum: self.addendum.clone(),
            retry: self.retry,
        }
    }
}

/// A unit of work for a syncer.
#[derive(Debug, PartialEq, Eq)]
pub enum Task {
    Abort(Abort),
    WatchHeight(WatchHeight),
    WatchAddress(WatchAddress),
    WatchTransaction(WatchTransaction),
    BroadcastTransaction(BroadcastTransaction),
    SweepAddress(SweepAddress),
    GetTx(GetTx),
    WatchEstimateFee(WatchEstimateFee),
}

/// A task with its byte vectors read as sequences.
pub enum TaskView {
    Abort(Abort),
    WatchHeight(WatchHeight),
    WatchAddress(WatchAddress),
    WatchTransaction(WatchTransactionView),
    BroadcastTransaction(BroadcastTransactionView),
    SweepAddress(SweepAddress),
    GetTx(GetTxView),
    WatchEstimateFee(WatchEstimateFee),
}

impl View for Task {
    type V = TaskView;

    open spec fn view(&self) -> TaskView {
        match *self {
            Task::Abort(t) => TaskView::Abort(t),
            Task::WatchHeight(t) => TaskView::WatchHeight(t),
            Task::WatchAddress(t) => TaskView::WatchAddress(t),
            Task::WatchTransaction(t) => TaskView::WatchTransaction(t@),
            Task::BroadcastTransaction(t) => TaskView::BroadcastTransaction(t@),
            Task::SweepAddress(t) => TaskView::SweepAddress(t),
            Task::GetTx(t) => TaskView::GetTx(t@),
            Task::WatchEstimateFee(t) => TaskView::WatchEstimateFee(t),
        }
    }
}

impl Clone for Task {
    fn clone(&self) -> (copy: Self)
        ensures
            copy@ == self@,
    {
        match self {
            Task::Abort(t) => Task::Abort(*t),
            Task::WatchHeight(t) => Task::WatchHeight(*t),
            Task::WatchAddress(t) => Task::WatchAddress(t.clone()),
            Task::WatchTransaction(t) => Task::WatchTransaction(t.clone()),
            Task::BroadcastTransaction(t) => Task::BroadcastTransaction(t.clone()),
            Task::SweepAddress(t) => Task::SweepAddress(t.clone()),
            Task::GetTx(t) => Task::GetTx(t.clone()),
            Task::WatchEstimateFee(t) => Task::WatchEstimateFee(*t),
        }
    }
}

/// Reports how many confirmations a watched transaction has: `None` while
/// it has not been seen, `Some(0)` while it waits in the mempool.
#[derive(Debug, Clone, Copy, PartialEq, Eq, Structural, Hash)]
pub struct TransactionConfirmations {
    pub id: TaskId,
    pub confirmations: Option<u32>,
}

/// Reports that a broadcast has been carried out, or why not.
#[derive(Debug, Clone, PartialEq, Eq, Hash)]
pub struct TransactionBroadcasted {
    pub id: TaskId,
    pub tx: Vec<u8>,
    pub error: Option<String>,
}

} // verus!
