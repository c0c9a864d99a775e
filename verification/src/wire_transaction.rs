//! Wire-model transaction messages, as exchanged with peers.
//!
//! Every field that the peer may omit is an `Option`; enumerations travel as
//! raw integer codes.  Each executable type with sequence-valued fields has a
//! spec-level view (`...View`) over `Seq`.

use vstd::prelude::*;

use crate::felt::Felt;

verus! {

/// A list of signature parts.
#[derive(Clone, Debug, PartialEq, Eq)]
pub struct AccountSignature {
    pub parts: Vec<Felt>,
}

impl View for AccountSignature {
    type V = Seq<Felt>;

    open spec fn view(&self) -> Seq<Felt> {
        self.parts@
    }
}

/// The view of an optional signature: the parts when present.
pub open spec fn sig_view(s: Option<AccountSignature>) -> Option<Seq<Felt>> {
    match s {
        Some(x) => Some(x.parts@),
        None => None,
    }
}

/// Wire resource bounds of one resource kind, both limits as felts.
#[derive(Clone, Copy, Debug, PartialEq, Eq)]
pub struct ResourceLimits {
    pub max_amount: Option<Felt>,
    pub max_price_per_unit: Option<Felt>,
}

/// Wire resource bounds for both gas kinds.
#[derive(Clone, Copy, Debug, PartialEq, Eq)]
pub struct ResourceBounds {
    pub l1_gas: Option<ResourceLimits>,
    pub l2_gas: Option<ResourceLimits>,
}

/// Volition-domain code for data availability on the wire.
pub const VOLITION_DOMAIN_L1: i32 = 0;

/// Volition-domain code for data availability on the wire.
pub const VOLITION_DOMAIN_L2: i32 = 1;

#[derive(Clone, Debug, PartialEq, Eq)]
pub struct DeclareV0 {
    pub sender: Option<Felt>,
    pub max_fee: Option<Felt>,
    pub signature: Option<AccountSignature>,
    pub class_hash: Option<Felt>,
}

#[verifier::ext_equal]
pub struct DeclareV0View {
    pub sender: Option<Felt>,
    pub max_fee: Option<Felt>,
    pub signature: Option<Seq<Felt>>,
    pub class_hash: Option<Felt>,
}

impl View for DeclareV0 {
    type V = DeclareV0View;

    open spec fn view(&self) -> DeclareV0View {
        DeclareV0View {
            sender: self.sender,
            max_fee: self.max_fee,
            signature: sig_view(self.signature),
            class_hash: self.class_hash,
        }
    }
}

#[derive(Clone, Debug, PartialEq, Eq)]
pub struct DeclareV1 {
    pub sender: Option<Felt>,
    pub max_fee: Option<Felt>,
    pub signature: Option<AccountSignature>,
    pub class_hash: Option<Felt>,
    pub nonce: Option<Felt>,
}

#[verifier::ext_equal]
pub struct DeclareV1View {
    pub sender: Option<Felt>,
    pub max_fee: Option<Felt>,
    pub signature: Option<Seq<Felt>>,
    pub class_hash: Option<Felt>,
    pub nonce: Option<Felt>,
}

impl View for DeclareV1 {
    type V = DeclareV1View;

    open spec fn view(&self) -> DeclareV1View {
        DeclareV1View {
            sender: self.sender,
            max_fee: self.max_fee,
            signature: sig_view(self.signature),
            class_hash: self.class_hash,
            nonce: self.nonce,
        }
    }
}

#[derive(Clone, Debug, PartialEq, Eq)]
pub struct DeclareV2 {
    pub sender: Option<Felt>,
    pub max_fee: Option<Felt>,
    pub signature: Option<AccountSignature>,
    pub class_hash: Option<Felt>,
    pub nonce: Option<Felt>,
    pub compiled_class_hash: Option<Felt>,
}

#[verifier::ext_equal]
pub struct DeclareV2View {
    pub sender: Option<Felt>,
    pub max_fee: Option<Felt>,
    pub signature: Option<Seq<Felt>>,
    pub class_hash: Option<Felt>,
    pub nonce: Option<Felt>,
    pub compiled_class_hash: Option<Felt>,
}

impl View for DeclareV2 {
    type V = DeclareV2View;

    open spec fn view(&self) -> DeclareV2View {
        DeclareV2View {
            sender: self.sender,
            max_fee: self.max_fee,
            signature: sig_view(self.signature),
            class_hash: self.class_hash,
            nonce: self.nonce,
            compiled_class_hash: self.compiled_class_hash,
        }
    }
}

#[derive(Clone, Debug, PartialEq, Eq)]
pub struct DeclareV3 {
    pub sender: Option<Felt>,
    pub compiled_class_hash: Option<Felt>,
    pub signature: Option<AccountSignature>,
    pub nonce: Option<Felt>,
    pub class_hash: Option<Felt>,
    pub resource_bounds: Option<ResourceBounds>,
    pub tip: u64,
    pub paymaster_data: Vec<Felt>,
    pub account_deployment_data: Vec<Felt>,
    pub nonce_data_availability_mode: i32,
    pub fee_data_availability_mode: i32,
}

#[verifier::ext_equal]
pub struct DeclareV3View {
    pub sender: Option<Felt>,
    pub compiled_class_hash: Option<Felt>,
    pub signature: Option<Seq<Felt>>,
    pub nonce: Option<Felt>,
    pub class_hash: Option<Felt>,
    pub resource_bounds: Option<ResourceBounds>,
    pub tip: u64,
    pub paymaster_data: Seq<Felt>,
    pub account_deployment_data: Seq<Felt>,
    pub nonce_data_availability_mode: i32,
    pub fee_data_availability_mode: i32,
}

impl View for DeclareV3 {
    type V = DeclareV3View;

    open spec fn view(&self) -> DeclareV3View {
        DeclareV3View {
            sender: self.sender,
            compiled_class_hash: self.compiled_class_hash,
            signature: sig_view(self.signature),
            nonce: self.nonce,
            class_hash: self.class_hash,
            resource_bounds: self.resource_bounds,
            tip: self.tip,
            paymaster_data: self.paymaster_data@,
            account_deployment_data: self.account_deployment_data@,
            nonce_data_availability_mode: self.nonce_data_availability_mode,
            fee_data_availability_mode: self.fee_data_availability_mode,
        }
    }
}

#[derive(Clone, Debug, PartialEq, Eq)]
pub struct Deploy {
    pub version: u32,
    pub address_salt: Option<Felt>,
    pub calldata: Vec<Felt>,
    pub class_hash: Option<Felt>,
}

#[verifier::ext_equal]
pub struct DeployView {
    pub version: u32,
    pub address_salt: Option<Felt>,
    pub calldata: Seq<Felt>,
    pub class_hash: Option<Felt>,
}

impl View for Deploy {
    type V = DeployView;

    open spec fn view(&self) -> DeployView {
        DeployView {
            version: self.version,
            address_salt: self.address_salt,
            calldata: self.calldata@,
            class_hash: self.class_hash,
        }
    }
}

#[derive(Clone, Debug, PartialEq, Eq)]
pub struct DeployAccountV1 {
    pub max_fee: Option<Felt>,
    pub signature: Option<AccountSignature>,
    pub class_hash: Option<Felt>,
    pub nonce: Option<Felt>,
    pub address_salt: Option<Felt>,
    pub calldata: Vec<Felt>,
}

#[verifier::ext_equal]
pub struct DeployAccountV1View {
    pub max_fee: Option<Felt>,
    pub signature: Option<Seq<Felt>>,
    pub class_hash: Option<Felt>,
    pub nonce: Option<Felt>,
    pub address_salt: Option<Felt>,
    pub calldata: Seq<Felt>,
}

impl View for DeployAccountV1 {
    type V = DeployAccountV1View;

    open spec fn view(&self) -> DeployAccountV1View {
        DeployAccountV1View {
            max_fee: self.max_fee,
            signature: sig_view(self.signature),
            class_hash: self.class_hash,
            nonce: self.nonce,
            address_salt: self.address_salt,
            calldata: self.calldata@,
        }
    }
}

#[derive(Clone, Debug, PartialEq, Eq)]
pub struct DeployAccountV3 {
    pub signature: Option<AccountSignature>,
    pub class_hash: Option<Felt>,
    pub nonce: Option<Felt>,
    pub address_salt: Option<Felt>,
    pub calldata: Vec<Felt>,
    pub resource_bounds: Option<ResourceBounds>,
    pub tip: u64,
    pub paymaster_data: Vec<Felt>,
    pub nonce_data_availability_mode: i32,
    pub fee_data_availability_mode: i32,
}

#[verifier::ext_equal]
pub struct DeployAccountV3View {
    pub signature: Option<Seq<Felt>>,
    pub class_hash: Option<Felt>,
    pub nonce: Option<Felt>,
    pub address_salt: Option<Felt>,
    pub calldata: Seq<Felt>,
    pub resource_bounds: Option<ResourceBounds>,
    pub tip: u64,
    pub paymaster_data: Seq<Felt>,
    pub nonce_data_availability_mode: i32,
    pub fee_data_availability_mode: i32,
}

impl View for DeployAccountV3 {
    type V = DeployAccountV3View;

    open spec fn view(&self) -> DeployAccountV3View {
        DeployAccountV3View {
            signature: sig_view(self.signature),
            class_hash: self.class_hash,
            nonce: self.nonce,
            address_salt: self.address_salt,
            calldata: self.calldata@,
            resource_bounds: self.resource_bounds,
            tip: self.tip,
            paymaster_data: self.paymaster_data@,
            nonce_data_availability_mode: self.nonce_data_availability_mode,
            fee_data_availability_mode: self.fee_data_availability_mode,
        }
    }
}

#[derive(Clone, Debug, PartialEq, Eq)]
pub struct InvokeV0 {
    pub max_fee: Option<Felt>,
    pub signature: Option<AccountSignature>,
    pub address: Option<Felt>,
    pub entry_point_selector: Option<Felt>,
    pub calldata: Vec<Felt>,
}

#[verifier::ext_equal]
pub struct InvokeV0View {
    pub max_fee: Option<Felt>,
    pub signature: Option<Seq<Felt>>,
    pub address: Option<Felt>,
    pub entry_point_selector: Option<Felt>,
    pub calldata: Seq<Felt>,
}

impl View for InvokeV0 {
    type V = InvokeV0View;

    open spec fn view(&self) -> InvokeV0View {
        InvokeV0View {
            max_fee: self.max_fee,
            signature: sig_view(self.signature),
            address: self.address,
            entry_point_selector: self.entry_point_selector,
            calldata: self.calldata@,
        }
    }
}

#[derive(Clone, Debug, PartialEq, Eq)]
pub struct InvokeV1 {
    pub sender: Option<Felt>,
    pub max_fee: Option<Felt>,
    pub signature: Option<AccountSignature>,
    pub calldata: Vec<Felt>,
    pub nonce: Option<Felt>,
}

#[verifier::ext_equal]
pub struct InvokeV1View {
    pub sender: Option<Felt>,
    pub max_fee: Option<Felt>,
    pub signature: Option<Seq<Felt>>,
    pub calldata: Seq<Felt>,
    pub nonce: Option<Felt>,
}

impl View for InvokeV1 {
    type V = InvokeV1View;

    open spec fn view(&self) -> InvokeV1View {
        InvokeV1View {
            sender: self.sender,
            max_fee: self.max_fee,
            signature: sig_view(self.signature),
            calldata: self.calldata@,
            nonce: self.nonce,
        }
    }
}

#[derive(Clone, Debug, PartialEq, Eq)]
pub struct InvokeV3 {
    pub sender: Option<Felt>,
    pub signature: Option<AccountSignature>,
    pub calldata: Vec<Felt>,
    pub resource_bounds: Option<ResourceBounds>,
    pub tip: u64,
    pub paymaster_data: Vec<Felt>,
    pub account_deployment_data: Vec<Felt>,
    pub nonce_data_availability_mode: i32,
    pub fee_data_availability_mode: i32,
    pub nonce: Option<Felt>,
}

#[verifier::ext_equal]
pub struct InvokeV3View {
    pub sender: Option<Felt>,
    pub signature: Option<Seq<Felt>>,
    pub calldata: Seq<Felt>,
    pub resource_bounds: Option<ResourceBounds>,
    pub tip: u64,
    pub paymaster_data: Seq<Felt>,
    pub account_deployment_data: Seq<Felt>,
    pub nonce_data_availability_mode: i32,
    pub fee_data_availability_mode: i32,
    pub nonce: Option<Felt>,
}

impl View for InvokeV3 {
    type V = InvokeV3View;

    open spec fn view(&self) -> InvokeV3View {
        InvokeV3View {
            sender: self.sender,
            signature: sig_view(self.signature),
            calldata: self.calldata@,
            resource_bounds: self.resource_bounds,
            tip: self.tip,
            paymaster_data: self.paymaster_data@,
            account_deployment_data: self.account_deployment_data@,
            nonce_data_availability_mode: self.nonce_data_availability_mode,
            fee_data_availability_mode: self.fee_data_availability_mode,
            nonce: self.nonce,
        }
    }
}

#[derive(Clone, Debug, PartialEq, Eq)]
pub struct L1HandlerV0 {
    pub nonce: Option<Felt>,
    pub address: Option<Felt>,
    pub entry_point_selector: Option<Felt>,
    pub calldata: Vec<Felt>,
}

#[verifier::ext_equal]
pub struct L1HandlerV0View {
    pub nonce: Option<Felt>,
    pub address: Option<Felt>,
    pub entry_point_selector: Option<Felt>,
    pub calldata: Seq<Felt>,
}

impl View for L1HandlerV0 {
    type V = L1HandlerV0View;

    open spec fn view(&self) -> L1HandlerV0View {
        L1HandlerV0View {
            nonce: self.nonce,
            address: self.address,
            entry_point_selector: self.entry_point_selector,
            calldata: self.calldata@,
        }
    }
}

/// A wire transaction of any kind and version.
#[derive(Clone, Debug, PartialEq, Eq)]
pub enum Txn {
    DeclareV0(DeclareV0),
    DeclareV1(DeclareV1),
    DeclareV2(DeclareV2),
    DeclareV3(DeclareV3),
    Deploy(Deploy),
    DeployAccountV1(DeployAccountV1),
    DeployAccountV3(DeployAccountV3),
    InvokeV0(InvokeV0),
    InvokeV1(InvokeV1),
    InvokeV3(InvokeV3),
    L1Handler(L1HandlerV0),
}

#[verifier::ext_equal]
pub enum TxnView {
    DeclareV0(DeclareV0View),
    DeclareV1(DeclareV1View),
    DeclareV2(DeclareV2View),
    DeclareV3(DeclareV3View),
    Deploy(DeployView),
    DeployAccountV1(DeployAccountV1View),
    DeployAccountV3(DeployAccountV3View),
    InvokeV0(InvokeV0View),
    InvokeV1(InvokeV1View),
    InvokeV3(InvokeV3View),
    L1Handler(L1HandlerV0View),
}

impl View for Txn {
    type V = TxnView;

    open spec fn view(&self) -> TxnView {
        match self {
            Txn::DeclareV0(t) => TxnView::DeclareV0(t@),
            Txn::DeclareV1(t) => TxnView::DeclareV1(t@),
            Txn::DeclareV2(t) => TxnView::DeclareV2(t@),
            Txn::DeclareV3(t) => TxnView::DeclareV3(t@),
            Txn::Deploy(t) => TxnView::Deploy(t@),
            Txn::DeployAccountV1(t) => TxnView::DeployAccountV1(t@),
            Txn::DeployAccountV3(t) => TxnView::DeployAccountV3(t@),
            Txn::InvokeV0(t) => TxnView::InvokeV0(t@),
            Txn::InvokeV1(t) => TxnView::InvokeV1(t@),
            Txn::InvokeV3(t) => TxnView::InvokeV3(t@),
            Txn::L1Handler(t) => TxnView::L1Handler(t@),
        }
    }
}

/// A wire transaction envelope: the transaction body and its hash.
#[derive(Clone, Debug, PartialEq, Eq)]
pub struct Transaction {
    pub transaction_hash: Option<Felt>,
    pub txn: Option<Txn>,
}

#[verifier::ext_equal]
pub struct TransactionView {
    pub transaction_hash: Option<Felt>,
    pub txn: Option<TxnView>,
}

impl View for Transaction {
    type V = TransactionView;

    open spec fn view(&self) -> TransactionView {
        TransactionView {
            transaction_hash: self.transaction_hash,
            txn: match self.txn {
                Some(t) => Some(t@),
                None => None,
            },
        }
    }
}

impl Transaction {
    /// The empty envelope, used when a peer omitted the field entirely.
    pub fn empty() -> (r: Transaction)
        ensures
            r.transaction_hash is None,
            r.txn is None,
    {
        Transaction { transaction_hash: None, txn: None }
    }
}

} // verus!
