//! The node's own model of transactions, one struct per wire variant.
//!
//! Each executable type with sequence-valued fields has a spec-level view
//! (`...View`) over `Seq`, which the conversion contracts are stated against.

use vstd::prelude::*;

use crate::felt::Felt;

verus! {

/// Where the data of a V3 transaction is made available.
#[derive(Clone, Copy, Debug, PartialEq, Eq, Structural)]
pub enum DataAvailabilityMode {
    L1,
    L2,
}

/// Resource bounds of one resource kind of a V3 transaction.
#[derive(Clone, Copy, Debug, PartialEq, Eq, Structural)]
pub struct ResourceBounds {
    pub max_amount: u64,
    pub max_price_per_unit: u128,
}

/// Resource bounds for both gas kinds of a V3 transaction.
#[derive(Clone, Copy, Debug, PartialEq, Eq, Structural)]
pub struct ResourceBoundsMapping {
    pub l1_gas: ResourceBounds,
    pub l2_gas: ResourceBounds,
}

#[derive(Clone, Debug, PartialEq, Eq)]
pub struct InvokeTransactionV0 {
    pub max_fee: Felt,
    pub signature: Vec<Felt>,
    pub contract_address: Felt,
    pub entry_point_selector: Felt,
    pub calldata: Vec<Felt>,
}

#[verifier::ext_equal]
pub struct InvokeTransactionV0View {
    pub max_fee: Felt,
    pub signature: Seq<Felt>,
    pub contract_address: Felt,
    pub entry_point_selector: Felt,
    pub calldata: Seq<Felt>,
}

impl View for InvokeTransactionV0 {
    type V = InvokeTransactionV0View;

    open spec fn view(&self) -> InvokeTransactionV0View {
        InvokeTransactionV0View {
            max_fee: self.max_fee,
            signature: self.signature@,
            contract_address: self.contract_address,
            entry_point_selector: self.entry_point_selector,
            calldata: self.calldata@,
        }
    }
}

#[derive(Clone, Debug, PartialEq, Eq)]
pub struct InvokeTransactionV1 {
    pub sender_address: Felt,
    pub calldata: Vec<Felt>,
    pub max_fee: Felt,
    pub signature: Vec<Felt>,
    pub nonce: Felt,
}

#[verifier::ext_equal]
pub struct InvokeTransactionV1View {
    pub sender_address: Felt,
    pub calldata: Seq<Felt>,
    pub max_fee: Felt,
    pub signature: Seq<Felt>,
    pub nonce: Felt,
}

impl View for InvokeTransactionV1 {
    type V = InvokeTransactionV1View;

    open spec fn view(&self) -> InvokeTransactionV1View {
        InvokeTransactionV1View {
            sender_address: self.sender_address,
            calldata: self.calldata@,
            max_fee: self.max_fee,
            signature: self.signature@,
            nonce: self.nonce,
        }
    }
}

#[derive(Clone, Debug, PartialEq, Eq)]
pub struct InvokeTransactionV3 {
    pub sender_address: Felt,
    pub calldata: Vec<Felt>,
    pub signature: Vec<Felt>,
    pub nonce: Felt,
    pub resource_bounds: ResourceBoundsMapping,
    pub tip: u64,
    pub paymaster_data: Vec<Felt>,
    pub account_deployment_data: Vec<Felt>,
    pub nonce_data_availability_mode: DataAvailabilityMode,
    pub fee_data_availability_mode: DataAvailabilityMode,
}

#[verifier::ext_equal]
pub struct InvokeTransactionV3View {
    pub sender_address: Felt,
    pub calldata: Seq<Felt>,
    pub signature: Seq<Felt>,
    pub nonce: Felt,
    pub resource_bounds: ResourceBoundsMapping,
    pub tip: u64,
    pub paymaster_data: Seq<Felt>,
    pub account_deployment_data: Seq<Felt>,
    pub nonce_data_availability_mode: DataAvailabilityMode,
    pub fee_data_availability_mode: DataAvailabilityMode,
}

impl View for InvokeTransactionV3 {
    type V = InvokeTransactionV3View;

    open spec fn view(&self) -> InvokeTransactionV3View {
        InvokeTransactionV3View {
            sender_address: self.sender_address,
            calldata: self.calldata@,
            signature: self.signature@,
            nonce: self.nonce,
            resource_bounds: self.resource_bounds,
            tip: self.tip,
            paymaster_data: self.paymaster_data@,
            account_deployment_data: self.account_deployment_data@,
            nonce_data_availability_mode: self.nonce_data_availability_mode,
            fee_data_availability_mode: self.fee_data_availability_mode,
        }
    }
}

#[derive(Clone, Debug, PartialEq, Eq)]
pub struct L1HandlerTransaction {
    pub version: Felt,
    pub nonce: u64,
    pub contract_address: Felt,
    pub entry_point_selector: Felt,
    pub calldata: Vec<Felt>,
}

#[verifier::ext_equal]
pub struct L1HandlerTransactionView {
    pub version: Felt,
    pub nonce: u64,
    pub contract_address: Felt,
    pub entry_point_selector: Felt,
    pub calldata: Seq<Felt>,
}

impl View for L1HandlerTransaction {
    type V = L1HandlerTransactionView;

    open spec fn view(&self) -> L1HandlerTransactionView {
        L1HandlerTransactionView {
            version: self.version,
            nonce: self.nonce,
            contract_address: self.contract_address,
            entry_point_selector: self.entry_point_selector,
            calldata: self.calldata@,
        }
    }
}

#[derive(Clone, Debug, PartialEq, Eq)]
pub struct DeclareTransactionV0 {
    pub sender_address: Felt,
    pub max_fee: Felt,
    pub signature: Vec<Felt>,
    pub class_hash: Felt,
}

#[verifier::ext_equal]
pub struct DeclareTransactionV0View {
    pub sender_address: Felt,
    pub max_fee: Felt,
    pub signature: Seq<Felt>,
    pub class_hash: Felt,
}

impl View for DeclareTransactionV0 {
    type V = DeclareTransactionV0View;

    open spec fn view(&self) -> DeclareTransactionV0View {
        DeclareTransactionV0View {
            sender_address: self.sender_address,
            max_fee: self.max_fee,
            signature: self.signature@,
            class_hash: self.class_hash,
        }
    }
}

#[derive(Clone, Debug, PartialEq, Eq)]
pub struct DeclareTransactionV1 {
    pub sender_address: Felt,
    pub max_fee: Felt,
    pub signature: Vec<Felt>,
    pub nonce: Felt,
    pub class_hash: Felt,
}

#[verifier::ext_equal]
pub struct DeclareTransactionV1View {
    pub sender_address: Felt,
    pub max_fee: Felt,
    pub signature: Seq<Felt>,
    pub nonce: Felt,
    pub class_hash: Felt,
}

impl View for DeclareTransactionV1 {
    type V = DeclareTransactionV1View;

    open spec fn view(&self) -> DeclareTransactionV1View {
        DeclareTransactionV1View {
            sender_address: self.sender_address,
            max_fee: self.max_fee,
            signature: self.signature@,
            nonce: self.nonce,
            class_hash: self.class_hash,
        }
    }
}

#[derive(Clone, Debug, PartialEq, Eq)]
pub struct DeclareTransactionV2 {
    pub sender_address: Felt,
    pub compiled_class_hash: Felt,
    pub max_fee: Felt,
    pub signature: Vec<Felt>,
    pub nonce: Felt,
    pub class_hash: Felt,
}

#[verifier::ext_equal]
pub struct DeclareTransactionV2View {
    pub sender_address: Felt,
    pub compiled_class_hash: Felt,
    pub max_fee: Felt,
    pub signature: Seq<Felt>,
    pub nonce: Felt,
    pub class_hash: Felt,
}

impl View for DeclareTransactionV2 {
    type V = DeclareTransactionV2View;

    open spec fn view(&self) -> DeclareTransactionV2View {
        DeclareTransactionV2View {
            sender_address: self.sender_address,
            compiled_class_hash: self.compiled_class_hash,
            max_fee: self.max_fee,
            signature: self.signature@,
            nonce: self.nonce,
            class_hash: self.class_hash,
        }
    }
}

#[derive(Clone, Debug, PartialEq, Eq)]
pub struct DeclareTransactionV3 {
    pub sender_address: Felt,
    pub compiled_class_hash: Felt,
    pub signature: Vec<Felt>,
    pub nonce: Felt,
    pub class_hash: Felt,
    pub resource_bounds: ResourceBoundsMapping,
    pub tip: u64,
    pub paymaster_data: Vec<Felt>,
    pub account_deployment_data: Vec<Felt>,
    pub nonce_data_availability_mode: DataAvailabilityMode,
    pub fee_data_availability_mode: DataAvailabilityMode,
}

#[verifier::ext_equal]
pub struct DeclareTransactionV3View {
    pub sender_address: Felt,
    pub compiled_class_hash: Felt,
    pub signature: Seq<Felt>,
    pub nonce: Felt,
    pub class_hash: Felt,
    pub resource_bounds: ResourceBoundsMapping,
    pub tip: u64,
    pub paymaster_data: Seq<Felt>,
    pub account_deployment_data: Seq<Felt>,
    pub nonce_data_availability_mode: DataAvailabilityMode,
    pub fee_data_availability_mode: DataAvailabilityMode,
}

impl View for DeclareTransactionV3 {
    type V = DeclareTransactionV3View;

    open spec fn view(&self) -> DeclareTransactionV3View {
        DeclareTransactionV3View {
            sender_address: self.sender_address,
            compiled_class_hash: self.compiled_class_hash,
            signature: self.signature@,
            nonce: self.nonce,
            class_hash: self.class_hash,
            resource_bounds: self.resource_bounds,
            tip: self.tip,
            paymaster_data: self.paymaster_data@,
            account_deployment_data: self.account_deployment_data@,
            nonce_data_availability_mode: self.nonce_data_availability_mode,
            fee_data_availability_mode: self.fee_data_availability_mode,
        }
    }
}

#[derive(Clone, Debug, PartialEq, Eq)]
pub struct DeployTransaction {
    pub version: Felt,
    pub contract_address_salt: Felt,
    pub constructor_calldata: Vec<Felt>,
    pub class_hash: Felt,
}

#[verifier::ext_equal]
pub struct DeployTransactionView {
    pub version: Felt,
    pub contract_address_salt: Felt,
    pub constructor_calldata: Seq<Felt>,
    pub class_hash: Felt,
}

impl View for DeployTransaction {
    type V = DeployTransactionView;

    open spec fn view(&self) -> DeployTransactionView {
        DeployTransactionView {
            version: self.version,
            contract_address_salt: self.contract_address_salt,
            constructor_calldata: self.constructor_calldata@,
            class_hash: self.class_hash,
        }
    }
}

#[derive(Clone, Debug, PartialEq, Eq)]
pub struct DeployAccountTransactionV1 {
    pub max_fee: Felt,
    pub signature: Vec<Felt>,
    pub nonce: Felt,
    pub contract_address_salt: Felt,
    pub constructor_calldata: Vec<Felt>,
    pub class_hash: Felt,
}

#[verifier::ext_equal]
pub struct DeployAccountTransactionV1View {
    pub max_fee: Felt,
    pub signature: Seq<Felt>,
    pub nonce: Felt,
    pub contract_address_salt: Felt,
    pub constructor_calldata: Seq<Felt>,
    pub class_hash: Felt,
}

impl View for DeployAccountTransactionV1 {
    type V = DeployAccountTransactionV1View;

    open spec fn view(&self) -> DeployAccountTransactionV1View {
        DeployAccountTransactionV1View {
            max_fee: self.max_fee,
            signature: self.signature@,
            nonce: self.nonce,
            contract_address_salt: self.contract_address_salt,
            constructor_calldata: self.constructor_calldata@,
            class_hash: self.class_hash,
        }
    }
}

#[derive(Clone, Debug, PartialEq, Eq)]
pub struct DeployAccountTransactionV3 {
    pub signature: Vec<Felt>,
    pub nonce: Felt,
    pub contract_address_salt: Felt,
    pub constructor_calldata: Vec<Felt>,
    pub class_hash: Felt,
    pub resource_bounds: ResourceBoundsMapping,
    pub tip: u64,
    pub paymaster_data: Vec<Felt>,
    pub nonce_data_availability_mode: DataAvailabilityMode,
    pub fee_data_availability_mode: DataAvailabilityMode,
}

#[verifier::ext_equal]
pub struct DeployAccountTransactionV3View {
    pub signature: Seq<Felt>,
    pub nonce: Felt,
    pub contract_address_salt: Felt,
    pub constructor_calldata: Seq<Felt>,
    pub class_hash: Felt,
    pub resource_bounds: ResourceBoundsMapping,
    pub tip: u64,
    pub paymaster_data: Seq<Felt>,
    pub nonce_data_availability_mode: DataAvailabilityMode,
    pub fee_data_availability_mode: DataAvailabilityMode,
}

impl View for DeployAccountTransactionV3 {
    type V = DeployAccountTransactionV3View;

    open spec fn view(&self) -> DeployAccountTransactionV3View {
        DeployAccountTransactionV3View {
            signature: self.signature@,
            nonce: self.nonce,
            contract_address_salt: self.contract_address_salt,
            constructor_calldata: self.constructor_calldata@,
            class_hash: self.class_hash,
            resource_bounds: self.resource_bounds,
            tip: self.tip,
            paymaster_data: self.paymaster_data@,
            nonce_data_availability_mode: self.nonce_data_availability_mode,
            fee_data_availability_mode: self.fee_data_availability_mode,
        }
    }
}

#[derive(Clone, Debug, PartialEq, Eq)]
pub enum InvokeTransaction {
    V0(InvokeTransactionV0),
    V1(InvokeTransactionV1),
    V3(InvokeTransactionV3),
}

#[verifier::ext_equal]
pub enum InvokeTransactionView {
    V0(InvokeTransactionV0View),
    V1(InvokeTransactionV1View),
    V3(InvokeTransactionV3View),
}

impl View for InvokeTransaction {
    type V = InvokeTransactionView;

    open spec fn view(&self) -> InvokeTransactionView {
        match self {
            InvokeTransaction::V0(t) => InvokeTransactionView::V0(t@),
            InvokeTransaction::V1(t) => InvokeTransactionView::V1(t@),
            InvokeTransaction::V3(t) => InvokeTransactionView::V3(t@),
        }
    }
}

#[derive(Clone, Debug, PartialEq, Eq)]
pub enum DeclareTransaction {
    V0(DeclareTransactionV0),
    V1(DeclareTransactionV1),
    V2(DeclareTransactionV2),
    V3(DeclareTransactionV3),
}

#[verifier::ext_equal]
pub enum DeclareTransactionView {
    V0(DeclareTransactionV0View),
    V1(DeclareTransactionV1View),
    V2(DeclareTransactionV2View),
    V3(DeclareTransactionV3View),
}

impl View for DeclareTransaction {
    type V = DeclareTransactionView;

    open spec fn view(&self) -> DeclareTransactionView {
        match self {
            DeclareTransaction::V0(t) => DeclareTransactionView::V0(t@),
            DeclareTransaction::V1(t) => DeclareTransactionView::V1(t@),
            DeclareTransaction::V2(t) => DeclareTransactionView::V2(t@),
            DeclareTransaction::V3(t) => DeclareTransactionView::V3(t@),
        }
    }
}

#[derive(Clone, Debug, PartialEq, Eq)]
pub enum DeployAccountTransaction {
    V1(DeployAccountTransactionV1),
    V3(DeployAccountTransactionV3),
}

#[verifier::ext_equal]
pub enum DeployAccountTransactionView {
    V1(DeployAccountTransactionV1View),
    V3(DeployAccountTransactionV3View),
}

impl View for DeployAccountTransaction {
    type V = DeployAccountTransactionView;

    open spec fn view(&self) -> DeployAccountTransactionView {
        match self {
            DeployAccountTransaction::V1(t) => DeployAccountTransactionView::V1(t@),
            DeployAccountTransaction::V3(t) => DeployAccountTransactionView::V3(t@),
        }
    }
}

/// A transaction of any kind and version.
#[derive(Clone, Debug, PartialEq, Eq)]
pub enum Transaction {
    Invoke(InvokeTransaction),
    L1Handler(L1HandlerTransaction),
    Declare(DeclareTransaction),
    Deploy(DeployTransaction),
    DeployAccount(DeployAccountTransaction),
}

#[verifier::ext_equal]
pub enum TransactionView {
    Invoke(InvokeTransactionView),
    L1Handler(L1HandlerTransactionView),
    Declare(DeclareTransactionView),
    Deploy(DeployTransactionView),
    DeployAccount(DeployAccountTransactionView),
}

impl View for Transaction {
    type V = TransactionView;

    open spec fn view(&self) -> TransactionView {
        match self {
            Transaction::Invoke(t) => TransactionView::Invoke(t@),
            Transaction::L1Handler(t) => TransactionView::L1Handler(t@),
            Transaction::Declare(t) => TransactionView::Declare(t@),
            Transaction::Deploy(t) => TransactionView::Deploy(t@),
            Transaction::DeployAccount(t) => TransactionView::DeployAccount(t@),
        }
    }
}

/// A transaction together with its hash.
#[derive(Clone, Debug, PartialEq, Eq)]
pub struct TransactionWithHash {
    pub transaction: Transaction,
    pub hash: Felt,
}

#[verifier::ext_equal]
pub struct TransactionWithHashView {
    pub transaction: TransactionView,
    pub hash: Felt,
}

impl View for TransactionWithHash {
    type V = TransactionWithHashView;

    open spec fn view(&self) -> TransactionWithHashView {
        TransactionWithHashView { transaction: self.transaction@, hash: self.hash }
    }
}

} // verus!
