//! The node's own model of transaction receipts.
//!
//! Each executable type with sequence-valued fields has a spec-level view
//! (`...View`) over `Seq`, which the conversion contracts are stated against.

use vstd::prelude::*;

use crate::felt::Felt;
use crate::transactions::Transaction;
use crate::transactions::TransactionView;

verus! {

/// The unit a fee was paid in.
#[derive(Clone, Copy, Debug, PartialEq, Eq, Structural)]
pub enum PriceUnit {
    Wei,
    Fri,
}

/// A paid fee: its amount and its unit.
#[derive(Clone, Copy, Debug, PartialEq, Eq, Structural)]
pub struct FeePayment {
    pub amount: Felt,
    pub unit: PriceUnit,
}

/// A message sent to the settlement layer.
#[derive(Clone, Debug, PartialEq, Eq)]
pub struct MsgToL1 {
    pub from_address: Felt,
    pub to_address: Felt,
    pub payload: Vec<Felt>,
}

#[verifier::ext_equal]
pub struct MsgToL1View {
    pub from_address: Felt,
    pub to_address: Felt,
    pub payload: Seq<Felt>,
}

impl View for MsgToL1 {
    type V = MsgToL1View;

    open spec fn view(&self) -> MsgToL1View {
        MsgToL1View {
            from_address: self.from_address,
            to_address: self.to_address,
            payload: self.payload@,
        }
    }
}

/// The views of a list of messages.
pub open spec fn msgs_view(v: Seq<MsgToL1>) -> Seq<MsgToL1View> {
    Seq::new(v.len(), |i: int| v[i]@)
}

/// An event emitted during execution.  The transaction stream never carries
/// events; they arrive through a separate stream and stay empty here.
#[derive(Clone, Debug, PartialEq, Eq)]
pub struct Event {
    pub from_address: Felt,
    pub keys: Vec<Felt>,
    pub data: Vec<Felt>,
}

/// How execution ended: committed, or reverted with a reason.
#[derive(Clone, Debug, PartialEq, Eq)]
pub enum ExecutionResult {
    Succeeded,
    Reverted { reason: String },
}

#[verifier::ext_equal]
pub enum ExecutionResultView {
    Succeeded,
    Reverted(Seq<char>),
}

impl View for ExecutionResult {
    type V = ExecutionResultView;

    open spec fn view(&self) -> ExecutionResultView {
        match self {
            ExecutionResult::Succeeded => ExecutionResultView::Succeeded,
            ExecutionResult::Reverted { reason } => ExecutionResultView::Reverted(reason@),
        }
    }
}

/// Gas consumed on the settlement layer.
#[derive(Clone, Copy, Debug, PartialEq, Eq, Structural)]
pub struct L1Gas {
    pub l1_gas: u128,
    pub l1_data_gas: u128,
}

/// Resources consumed by one transaction.  A builtin counter of zero on the
/// wire means "not used" and is held as `None`.
#[derive(Clone, Copy, Debug, PartialEq, Eq)]
pub struct ExecutionResources {
    pub steps: u64,
    pub memory_holes: Option<u64>,
    pub range_check_builtin_applications: Option<u64>,
    pub pedersen_builtin_applications: Option<u64>,
    pub poseidon_builtin_applications: Option<u64>,
    pub ec_op_builtin_applications: Option<u64>,
    pub ecdsa_builtin_applications: Option<u64>,
    pub bitwise_builtin_applications: Option<u64>,
    pub keccak_builtin_applications: Option<u64>,
    pub segment_arena_builtin: Option<u64>,
    pub data_availability: L1Gas,
    pub total_gas_consumed: L1Gas,
}

#[derive(Clone, Debug, PartialEq, Eq)]
pub struct InvokeTransactionReceipt {
    pub transaction_hash: Felt,
    pub actual_fee: FeePayment,
    pub messages_sent: Vec<MsgToL1>,
    pub events: Vec<Event>,
    pub execution_resources: ExecutionResources,
    pub execution_result: ExecutionResult,
}

#[verifier::ext_equal]
pub struct InvokeTransactionReceiptView {
    pub transaction_hash: Felt,
    pub actual_fee: FeePayment,
    pub messages_sent: Seq<MsgToL1View>,
    pub events: Seq<Event>,
    pub execution_resources: ExecutionResources,
    pub execution_result: ExecutionResultView,
}

impl View for InvokeTransactionReceipt {
    type V = InvokeTransactionReceiptView;

    open spec fn view(&self) -> InvokeTransactionReceiptView {
        InvokeTransactionReceiptView {
            transaction_hash: self.transaction_hash,
            actual_fee: self.actual_fee,
            messages_sent: msgs_view(self.messages_sent@),
            events: self.events@,
            execution_resources: self.execution_resources,
            execution_result: self.execution_result@,
        }
    }
}

#[derive(Clone, Debug, PartialEq, Eq)]
pub struct L1HandlerTransactionReceipt {
    pub transaction_hash: Felt,
    pub actual_fee: FeePayment,
    pub messages_sent: Vec<MsgToL1>,
    pub events: Vec<Event>,
    pub execution_resources: ExecutionResources,
    pub execution_result: ExecutionResult,
    pub message_hash: Felt,
}

#[verifier::ext_equal]
pub struct L1HandlerTransactionReceiptView {
    pub transaction_hash: Felt,
    pub actual_fee: FeePayment,
    pub messages_sent: Seq<MsgToL1View>,
    pub events: Seq<Event>,
    pub execution_resources: ExecutionResources,
    pub execution_result: ExecutionResultView,
    pub message_hash: Felt,
}

impl View for L1HandlerTransactionReceipt {
    type V = L1HandlerTransactionReceiptView;

    open spec fn view(&self) -> L1HandlerTransactionReceiptView {
        L1HandlerTransactionReceiptView {
            transaction_hash: self.transaction_hash,
            actual_fee: self.actual_fee,
            messages_sent: msgs_view(self.messages_sent@),
            events: self.events@,
            execution_resources: self.execution_resources,
            execution_result: self.execution_result@,
            message_hash: self.message_hash,
        }
    }
}

#[derive(Clone, Debug, PartialEq, Eq)]
pub struct DeclareTransactionReceipt {
    pub transaction_hash: Felt,
    pub actual_fee: FeePayment,
    pub messages_sent: Vec<MsgToL1>,
    pub events: Vec<Event>,
    pub execution_resources: ExecutionResources,
    pub execution_result: ExecutionResult,
}

#[verifier::ext_equal]
pub struct DeclareTransactionReceiptView {
    pub transaction_hash: Felt,
    pub actual_fee: FeePayment,
    pub messages_sent: Seq<MsgToL1View>,
    pub events: Seq<Event>,
    pub execution_resources: ExecutionResources,
    pub execution_result: ExecutionResultView,
}

impl View for DeclareTransactionReceipt {
    type V = DeclareTransactionReceiptView;

    open spec fn view(&self) -> DeclareTransactionReceiptView {
        DeclareTransactionReceiptView {
            transaction_hash: self.transaction_hash,
            actual_fee: self.actual_fee,
            messages_sent: msgs_view(self.messages_sent@),
            events: self.events@,
            execution_resources: self.execution_resources,
            execution_result: self.execution_result@,
        }
    }
}

#[derive(Clone, Debug, PartialEq, Eq)]
pub struct DeployTransactionReceipt {
    pub transaction_hash: Felt,
    pub actual_fee: FeePayment,
    pub messages_sent: Vec<MsgToL1>,
    pub events: Vec<Event>,
    pub execution_resources: ExecutionResources,
    pub execution_result: ExecutionResult,
    pub contract_address: Felt,
}

#[verifier::ext_equal]
pub struct DeployTransactionReceiptView {
    pub transaction_hash: Felt,
    pub actual_fee: FeePayment,
    pub messages_sent: Seq<MsgToL1View>,
    pub events: Seq<Event>,
    pub execution_resources: ExecutionResources,
    pub execution_result: ExecutionResultView,
    pub contract_address: Felt,
}

impl View for DeployTransactionReceipt {
    type V = DeployTransactionReceiptView;

    open spec fn view(&self) -> DeployTransactionReceiptView {
        DeployTransactionReceiptView {
            transaction_hash: self.transaction_hash,
            actual_fee: self.actual_fee,
            messages_sent: msgs_view(self.messages_sent@),
            events: self.events@,
            execution_resources: self.execution_resources,
            execution_result: self.execution_result@,
            contract_address: self.contract_address,
        }
    }
}

#[derive(Clone, Debug, PartialEq, Eq)]
pub struct DeployAccountTransactionReceipt {
    pub transaction_hash: Felt,
    pub actual_fee: FeePayment,
    pub messages_sent: Vec<MsgToL1>,
    pub events: Vec<Event>,
    pub execution_resources: ExecutionResources,
    pub execution_result: ExecutionResult,
    pub contract_address: Felt,
}

#[verifier::ext_equal]
pub struct DeployAccountTransactionReceiptView {
    pub transaction_hash: Felt,
    pub actual_fee: FeePayment,
    pub messages_sent: Seq<MsgToL1View>,
    pub events: Seq<Event>,
    pub execution_resources: ExecutionResources,
    pub execution_result: ExecutionResultView,
    pub contract_address: Felt,
}

impl View for DeployAccountTransactionReceipt {
    type V = DeployAccountTransactionReceiptView;

    open spec fn view(&self) -> DeployAccountTransactionReceiptView {
        DeployAccountTransactionReceiptView {
            transaction_hash: self.transaction_hash,
            actual_fee: self.actual_fee,
            messages_sent: msgs_view(self.messages_sent@),
            events: self.events@,
            execution_resources: self.execution_resources,
            execution_result: self.execution_result@,
            contract_address: self.contract_address,
        }
    }
}

/// A receipt of any transaction kind.
#[derive(Clone, Debug, PartialEq, Eq)]
pub enum TransactionReceipt {
    Invoke(InvokeTransactionReceipt),
    L1Handler(L1HandlerTransactionReceipt),
    Declare(DeclareTransactionReceipt),
    Deploy(DeployTransactionReceipt),
    DeployAccount(DeployAccountTransactionReceipt),
}

#[verifier::ext_equal]
pub enum TransactionReceiptView {
    Invoke(InvokeTransactionReceiptView),
    L1Handler(L1HandlerTransactionReceiptView),
    Declare(DeclareTransactionReceiptView),
    Deploy(DeployTransactionReceiptView),
    DeployAccount(DeployAccountTransactionReceiptView),
}

impl View for TransactionReceipt {
    type V = TransactionReceiptView;

    open spec fn view(&self) -> TransactionReceiptView {
        match self {
            TransactionReceipt::Invoke(r) => TransactionReceiptView::Invoke(r@),
            TransactionReceipt::L1Handler(r) => TransactionReceiptView::L1Handler(r@),
            TransactionReceipt::Declare(r) => TransactionReceiptView::Declare(r@),
            TransactionReceipt::Deploy(r) => TransactionReceiptView::Deploy(r@),
            TransactionReceipt::DeployAccount(r) => TransactionReceiptView::DeployAccount(r@),
        }
    }
}

/// The hash of the transaction a receipt belongs to.
pub open spec fn spec_receipt_hash(r: TransactionReceiptView) -> Felt {
    match r {
        TransactionReceiptView::Invoke(x) => x.transaction_hash,
        TransactionReceiptView::L1Handler(x) => x.transaction_hash,
        TransactionReceiptView::Declare(x) => x.transaction_hash,
        TransactionReceiptView::Deploy(x) => x.transaction_hash,
        TransactionReceiptView::DeployAccount(x) => x.transaction_hash,
    }
}

impl TransactionReceipt {
    pub fn transaction_hash(&self) -> (r: Felt)
        ensures
            r == spec_receipt_hash(self@),
    {
        match self {
            TransactionReceipt::Invoke(x) => x.transaction_hash,
            TransactionReceipt::L1Handler(x) => x.transaction_hash,
            TransactionReceipt::Declare(x) => x.transaction_hash,
            TransactionReceipt::Deploy(x) => x.transaction_hash,
            TransactionReceipt::DeployAccount(x) => x.transaction_hash,
        }
    }
}

/// A transaction paired with its receipt, as flowing through the sync
/// pipeline.
#[derive(Clone, Debug, PartialEq, Eq)]
pub struct TransactionWithReceipt {
    pub transaction: Transaction,
    pub receipt: TransactionReceipt,
}

#[verifier::ext_equal]
pub struct TransactionWithReceiptView {
    pub transaction: TransactionView,
    pub receipt: TransactionReceiptView,
}

impl View for TransactionWithReceipt {
    type V = TransactionWithReceiptView;

    open spec fn view(&self) -> TransactionWithReceiptView {
        TransactionWithReceiptView { transaction: self.transaction@, receipt: self.receipt@ }
    }
}

} // verus!
