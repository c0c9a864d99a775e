//! Wire-model receipt messages, as exchanged with peers.

use vstd::prelude::*;

use crate::felt::Felt;

verus! {

/// Price-unit code on the wire meaning wei.
pub const PRICE_UNIT_WEI: i32 = 0;

/// Price-unit code on the wire meaning fri.
pub const PRICE_UNIT_FRI: i32 = 1;

/// A message to the settlement layer on the wire.
#[derive(Clone, Debug, PartialEq, Eq)]
pub struct MessageToL1 {
    pub from_address: Option<Felt>,
    pub payload: Vec<Felt>,
    pub to_address: Option<Felt>,
}

#[verifier::ext_equal]
pub struct MessageToL1View {
    pub from_address: Option<Felt>,
    pub payload: Seq<Felt>,
    pub to_address: Option<Felt>,
}

impl View for MessageToL1 {
    type V = MessageToL1View;

    open spec fn view(&self) -> MessageToL1View {
        MessageToL1View {
            from_address: self.from_address,
            payload: self.payload@,
            to_address: self.to_address,
        }
    }
}

/// The views of a list of wire messages.
pub open spec fn wire_msgs_view(v: Seq<MessageToL1>) -> Seq<MessageToL1View> {
    Seq::new(v.len(), |i: int| v[i]@)
}

/// Counts of builtin applications, as 32-bit wire integers.
#[derive(Clone, Copy, Debug, PartialEq, Eq, Structural)]
pub struct BuiltinCounter {
    pub bitwise: u32,
    pub ecdsa: u32,
    pub ec_op: u32,
    pub pedersen: u32,
    pub range_check: u32,
    pub poseidon: u32,
    pub keccak: u32,
}

/// Resources consumed by one transaction, in wire form.
#[derive(Clone, Copy, Debug, PartialEq, Eq)]
pub struct ExecutionResources {
    pub builtins: Option<BuiltinCounter>,
    pub steps: u32,
    pub memory_holes: u32,
    pub l1_gas: Option<Felt>,
    pub l1_data_gas: Option<Felt>,
    pub total_l1_gas: Option<Felt>,
}

/// The fields shared by every receipt kind on the wire.
#[derive(Clone, Debug, PartialEq, Eq)]
pub struct Common {
    pub actual_fee: Option<Felt>,
    pub price_unit: i32,
    pub messages_sent: Vec<MessageToL1>,
    pub execution_resources: Option<ExecutionResources>,
    pub revert_reason: Option<String>,
}

#[verifier::ext_equal]
pub struct CommonView {
    pub actual_fee: Option<Felt>,
    pub price_unit: i32,
    pub messages_sent: Seq<MessageToL1View>,
    pub execution_resources: Option<ExecutionResources>,
    pub revert_reason: Option<Seq<char>>,
}

impl View for Common {
    type V = CommonView;

    open spec fn view(&self) -> CommonView {
        CommonView {
            actual_fee: self.actual_fee,
            price_unit: self.price_unit,
            messages_sent: wire_msgs_view(self.messages_sent@),
            execution_resources: self.execution_resources,
            revert_reason: match &self.revert_reason {
                Some(s) => Some(s@),
                None => None,
            },
        }
    }
}

/// The view of an optional wire common part.
pub open spec fn common_view(c: Option<Common>) -> Option<CommonView> {
    match c {
        Some(x) => Some(x@),
        None => None,
    }
}

#[derive(Clone, Debug, PartialEq, Eq)]
pub struct Invoke {
    pub common: Option<Common>,
}

#[verifier::ext_equal]
pub struct InvokeView {
    pub common: Option<CommonView>,
}

impl View for Invoke {
    type V = InvokeView;

    open spec fn view(&self) -> InvokeView {
        InvokeView { common: common_view(self.common) }
    }
}

#[derive(Clone, Debug, PartialEq, Eq)]
pub struct L1Handler {
    pub common: Option<Common>,
    pub msg_hash: Option<Felt>,
}

#[verifier::ext_equal]
pub struct L1HandlerView {
    pub common: Option<CommonView>,
    pub msg_hash: Option<Felt>,
}

impl View for L1Handler {
    type V = L1HandlerView;

    open spec fn view(&self) -> L1HandlerView {
        L1HandlerView { common: common_view(self.common), msg_hash: self.msg_hash }
    }
}

#[derive(Clone, Debug, PartialEq, Eq)]
pub struct Declare {
    pub common: Option<Common>,
}

#[verifier::ext_equal]
pub struct DeclareView {
    pub common: Option<CommonView>,
}

impl View for Declare {
    type V = DeclareView;

    open spec fn view(&self) -> DeclareView {
        DeclareView { common: common_view(self.common) }
    }
}

#[derive(Clone, Debug, PartialEq, Eq)]
pub struct Deploy {
    pub common: Option<Common>,
    pub contract_address: Option<Felt>,
}

#[verifier::ext_equal]
pub struct DeployView {
    pub common: Option<CommonView>,
    pub contract_address: Option<Felt>,
}

impl View for Deploy {
    type V = DeployView;

    open spec fn view(&self) -> DeployView {
        DeployView { common: common_view(self.common), contract_address: self.contract_address }
    }
}

#[derive(Clone, Debug, PartialEq, Eq)]
pub struct DeployAccount {
    pub common: Option<Common>,
    pub contract_address: Option<Felt>,
}

#[verifier::ext_equal]
pub struct DeployAccountView {
    pub common: Option<CommonView>,
    pub contract_address: Option<Felt>,
}

impl View for DeployAccount {
    type V = DeployAccountView;

    open spec fn view(&self) -> DeployAccountView {
        DeployAccountView {
            common: common_view(self.common),
            contract_address: self.contract_address,
        }
    }
}

/// A wire receipt of any kind.
#[derive(Clone, Debug, PartialEq, Eq)]
pub enum Type {
    Invoke(Invoke),
    L1Handler(L1Handler),
    Declare(Declare),
    DeprecatedDeploy(Deploy),
    DeployAccount(DeployAccount),
}

#[verifier::ext_equal]
pub enum TypeView {
    Invoke(InvokeView),
    L1Handler(L1HandlerView),
    Declare(DeclareView),
    DeprecatedDeploy(DeployView),
    DeployAccount(DeployAccountView),
}

impl View for Type {
    type V = TypeView;

    open spec fn view(&self) -> TypeView {
        match self {
            Type::Invoke(r) => TypeView::Invoke(r@),
            Type::L1Handler(r) => TypeView::L1Handler(r@),
            Type::Declare(r) => TypeView::Declare(r@),
            Type::DeprecatedDeploy(r) => TypeView::DeprecatedDeploy(r@),
            Type::DeployAccount(r) => TypeView::DeployAccount(r@),
        }
    }
}

/// The wire receipt envelope.
#[derive(Clone, Debug, PartialEq, Eq)]
pub struct Receipt {
    pub kind: Option<Type>,
}

#[verifier::ext_equal]
pub struct ReceiptView {
    pub kind: Option<TypeView>,
}

impl View for Receipt {
    type V = ReceiptView;

    open spec fn view(&self) -> ReceiptView {
        ReceiptView {
            kind: match &self.kind {
                Some(t) => Some(t@),
                None => None,
            },
        }
    }
}

impl Receipt {
    /// The empty envelope, used when a peer omitted the field entirely.
    pub fn empty() -> (r: Receipt)
        ensures
            r.kind is None,
    {
        Receipt { kind: None }
    }
}

/// A wire transaction paired with its wire receipt.
#[derive(Clone, Debug, PartialEq, Eq)]
pub struct TransactionWithReceipt {
    pub transaction: Option<crate::wire_transaction::Transaction>,
    pub receipt: Option<Receipt>,
}

#[verifier::ext_equal]
pub struct TransactionWithReceiptView {
    pub transaction: Option<crate::wire_transaction::TransactionView>,
    pub receipt: Option<ReceiptView>,
}

impl View for TransactionWithReceipt {
    type V = TransactionWithReceiptView;

    open spec fn view(&self) -> TransactionWithReceiptView {
        TransactionWithReceiptView {
            transaction: match &self.transaction {
                Some(t) => Some(t@),
                None => None,
            },
            receipt: match &self.receipt {
                Some(r) => Some(r@),
                None => None,
            },
        }
    }
}

} // verus!
