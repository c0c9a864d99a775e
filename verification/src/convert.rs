//! Conversions between wire-model transactions and the node's own model.
//!
//! Decoding is total over well-formed wire messages and fails otherwise:
//! a required field that is absent gives a missing-field error carrying the
//! field's qualified name, a numeric field that does not fit its width gives
//! an invalid-field error, and an unrecognized enumeration code gives an
//! invalid-enum-variant error.  Malformed input never panics.  Fields the
//! peer may omit fall back to their default (a zero felt, an empty list).

use vstd::prelude::*;

use crate::felt::Felt;
use crate::felt::fits_u128;
use crate::felt::fits_u32;
use crate::felt::fits_u64;
use crate::transactions::DataAvailabilityMode;
use crate::transactions::DeclareTransaction;
use crate::transactions::DeclareTransactionV0;
use crate::transactions::DeclareTransactionV0View;
use crate::transactions::DeclareTransactionV1;
use crate::transactions::DeclareTransactionV1View;
use crate::transactions::DeclareTransactionV2;
use crate::transactions::DeclareTransactionV2View;
use crate::transactions::DeclareTransactionV3;
use crate::transactions::DeclareTransactionV3View;
use crate::transactions::DeclareTransactionView;
use crate::transactions::DeployAccountTransaction;
use crate::transactions::DeployAccountTransactionV1;
use crate::transactions::DeployAccountTransactionV1View;
use crate::transactions::DeployAccountTransactionV3;
use crate::transactions::DeployAccountTransactionV3View;
use crate::transactions::DeployAccountTransactionView;
use crate::transactions::DeployTransaction;
use crate::transactions::DeployTransactionView;
use crate::transactions::InvokeTransaction;
use crate::transactions::InvokeTransactionV0;
use crate::transactions::InvokeTransactionV0View;
use crate::transactions::InvokeTransactionV1;
use crate::transactions::InvokeTransactionV1View;
use crate::transactions::InvokeTransactionV3;
use crate::transactions::InvokeTransactionV3View;
use crate::transactions::InvokeTransactionView;
use crate::transactions::L1HandlerTransaction;
use crate::transactions::L1HandlerTransactionView;
use crate::transactions::ResourceBounds;
use crate::transactions::ResourceBoundsMapping;
use crate::transactions::Transaction;
use crate::transactions::TransactionView;
use crate::transactions::TransactionWithHash;
use crate::transactions::TransactionWithHashView;
use crate::wire_transaction as wire;
use crate::wire_transaction::AccountSignature;
use crate::wire_transaction::Txn;
use crate::wire_transaction::TxnView;
use crate::wire_transaction::VOLITION_DOMAIN_L1;
use crate::wire_transaction::VOLITION_DOMAIN_L2;

verus! {

/// A conversion failure: the wire message was not well formed.
#[derive(Clone, Debug, PartialEq, Eq)]
pub enum FromModelError {
    /// A required field was absent; carries the field's qualified name.
    MissingField(String),
    /// A numeric field did not fit its width; carries the field's name.
    InvalidField(String),
    /// An enumeration code was not recognized; carries the enumeration's
    /// name and the offending code.
    InvalidEnumVariant(String, i32),
}

#[verifier::ext_equal]
pub enum FromModelErrorView {
    MissingField(Seq<char>),
    InvalidField(Seq<char>),
    InvalidEnumVariant(Seq<char>, i32),
}

impl View for FromModelError {
    type V = FromModelErrorView;

    open spec fn view(&self) -> FromModelErrorView {
        match self {
            FromModelError::MissingField(s) => FromModelErrorView::MissingField(s@),
            FromModelError::InvalidField(s) => FromModelErrorView::InvalidField(s@),
            FromModelError::InvalidEnumVariant(s, v) => FromModelErrorView::InvalidEnumVariant(
                s@,
                *v,
            ),
        }
    }
}

impl FromModelError {
    pub fn missing_field(name: &str) -> (e: FromModelError)
        ensures
            e@ == FromModelErrorView::MissingField(name@),
    {
        FromModelError::MissingField(name.to_owned())
    }

    pub fn invalid_field(name: &str) -> (e: FromModelError)
        ensures
            e@ == FromModelErrorView::InvalidField(name@),
    {
        FromModelError::InvalidField(name.to_owned())
    }

    pub fn invalid_enum_variant(name: &str, value: i32) -> (e: FromModelError)
        ensures
            e@ == FromModelErrorView::InvalidEnumVariant(name@, value),
    {
        FromModelError::InvalidEnumVariant(name.to_owned(), value)
    }
}

/// The view of a conversion result: both sides through their views.
pub open spec fn view_result<T: View, E: View>(r: Result<T, E>) -> Result<T::V, E::V> {
    match r {
        Ok(t) => Ok(t@),
        Err(e) => Err(e@),
    }
}

/// An absent felt falls back to zero.
pub open spec fn spec_felt_or_zero(f: Option<Felt>) -> Felt {
    match f {
        Some(x) => x,
        None => Felt { lo: 0, hi: 0 },
    }
}

/// An absent signature falls back to no parts.
pub open spec fn spec_seq_or_empty(s: Option<Seq<Felt>>) -> Seq<Felt> {
    match s {
        Some(x) => x,
        None => Seq::empty(),
    }
}

pub fn felt_or_zero(f: Option<Felt>) -> (r: Felt)
    ensures
        r == spec_felt_or_zero(f),
{
    match f {
        Some(x) => x,
        None => Felt::zero(),
    }
}

/// Takes the parts out of an optional wire signature.
pub fn sig_parts(s: Option<AccountSignature>) -> (r: Vec<Felt>)
    ensures
        r@ == spec_seq_or_empty(wire::sig_view(s)),
{
    match s {
        Some(x) => x.parts,
        None => Vec::new(),
    }
}

/// Decodes a wire volition-domain code.
pub open spec fn spec_volition_parse(code: i32) -> Option<DataAvailabilityMode> {
    if code == VOLITION_DOMAIN_L1 {
        Some(DataAvailabilityMode::L1)
    } else if code == VOLITION_DOMAIN_L2 {
        Some(DataAvailabilityMode::L2)
    } else {
        None
    }
}

/// Encodes a data-availability mode as its wire code.
pub open spec fn spec_volition_code(d: DataAvailabilityMode) -> i32 {
    match d {
        DataAvailabilityMode::L1 => VOLITION_DOMAIN_L1,
        DataAvailabilityMode::L2 => VOLITION_DOMAIN_L2,
    }
}

pub fn parse_volition_domain(code: i32) -> (r: Result<DataAvailabilityMode, FromModelError>)
    ensures
        r matches Ok(d) ==> spec_volition_parse(code) == Some(d),
        r matches Err(e) ==> spec_volition_parse(code) is None && e@
            == FromModelErrorView::InvalidEnumVariant("VolitionDomain"@, code),
        r is Ok <==> spec_volition_parse(code) is Some,
{
    if code == VOLITION_DOMAIN_L1 {
        Ok(DataAvailabilityMode::L1)
    } else if code == VOLITION_DOMAIN_L2 {
        Ok(DataAvailabilityMode::L2)
    } else {
        Err(FromModelError::invalid_enum_variant("VolitionDomain", code))
    }
}

pub fn volition_domain_code(d: DataAvailabilityMode) -> (r: i32)
    ensures
        r == spec_volition_code(d),
{
    match d {
        DataAvailabilityMode::L1 => VOLITION_DOMAIN_L1,
        DataAvailabilityMode::L2 => VOLITION_DOMAIN_L2,
    }
}

/// Decodes the resource limits of one gas kind; each limit must fit its
/// integer width.
pub open spec fn spec_limits_parse(m: wire::ResourceLimits) -> Result<
    ResourceBounds,
    FromModelErrorView,
> {
    if !fits_u64(spec_felt_or_zero(m.max_amount)) {
        Err(FromModelErrorView::InvalidField("ResourceLimits::max_amount"@))
    } else if !fits_u128(spec_felt_or_zero(m.max_price_per_unit)) {
        Err(FromModelErrorView::InvalidField("ResourceLimits::max_price_per_unit"@))
    } else {
        Ok(
            ResourceBounds {
                max_amount: spec_felt_or_zero(m.max_amount).lo as u64,
                max_price_per_unit: spec_felt_or_zero(m.max_price_per_unit).lo,
            },
        )
    }
}

/// Decodes the wire resource bounds; an absent side falls back to zeros.
pub open spec fn spec_resource_bounds_parse(m: Option<wire::ResourceBounds>) -> Result<
    ResourceBoundsMapping,
    FromModelErrorView,
> {
    let b = match m {
        Some(x) => x,
        None => wire::ResourceBounds { l1_gas: None, l2_gas: None },
    };
    let l1 = match b.l1_gas {
        Some(x) => x,
        None => wire::ResourceLimits { max_amount: None, max_price_per_unit: None },
    };
    let l2 = match b.l2_gas {
        Some(x) => x,
        None => wire::ResourceLimits { max_amount: None, max_price_per_unit: None },
    };
    match spec_limits_parse(l1) {
        Err(e) => Err(e),
        Ok(l1b) => match spec_limits_parse(l2) {
            Err(e) => Err(e),
            Ok(l2b) => Ok(ResourceBoundsMapping { l1_gas: l1b, l2_gas: l2b }),
        },
    }
}

/// Encodes resource bounds of one gas kind, both limits as felts.
pub open spec fn spec_limits_encode(b: ResourceBounds) -> wire::ResourceLimits {
    wire::ResourceLimits {
        max_amount: Some(Felt { lo: b.max_amount as u128, hi: 0 }),
        max_price_per_unit: Some(Felt { lo: b.max_price_per_unit, hi: 0 }),
    }
}

pub open spec fn spec_resource_bounds_encode(b: ResourceBoundsMapping) -> wire::ResourceBounds {
    wire::ResourceBounds {
        l1_gas: Some(spec_limits_encode(b.l1_gas)),
        l2_gas: Some(spec_limits_encode(b.l2_gas)),
    }
}

fn parse_limits(m: wire::ResourceLimits) -> (r: Result<ResourceBounds, FromModelError>)
    ensures
        (match r {
            Ok(b) => spec_limits_parse(m) == Ok::<ResourceBounds, FromModelErrorView>(b),
            Err(e) => spec_limits_parse(m) == Err::<ResourceBounds, FromModelErrorView>(e@),
        }),
{
    let max_amount_felt = felt_or_zero(m.max_amount);
    let max_amount = match crate::felt::felt_to_u64(&max_amount_felt) {
        Ok(n) => n,
        Err(_) => {
            return Err(FromModelError::invalid_field("ResourceLimits::max_amount"));
        },
    };
    let max_price_felt = felt_or_zero(m.max_price_per_unit);
    let max_price_per_unit = match crate::felt::felt_to_u128(&max_price_felt) {
        Ok(n) => n,
        Err(_) => {
            return Err(FromModelError::invalid_field("ResourceLimits::max_price_per_unit"));
        },
    };
    Ok(ResourceBounds { max_amount, max_price_per_unit })
}

pub fn parse_resource_bounds(m: Option<wire::ResourceBounds>) -> (r: Result<
    ResourceBoundsMapping,
    FromModelError,
>)
    ensures
        (match r {
            Ok(b) => spec_resource_bounds_parse(m) == Ok::<
                ResourceBoundsMapping,
                FromModelErrorView,
            >(b),
            Err(e) => spec_resource_bounds_parse(m) == Err::<
                ResourceBoundsMapping,
                FromModelErrorView,
            >(e@),
        }),
{
    let b = match m {
        Some(x) => x,
        None => wire::ResourceBounds { l1_gas: None, l2_gas: None },
    };
    let l1 = match b.l1_gas {
        Some(x) => x,
        None => wire::ResourceLimits { max_amount: None, max_price_per_unit: None },
    };
    let l2 = match b.l2_gas {
        Some(x) => x,
        None => wire::ResourceLimits { max_amount: None, max_price_per_unit: None },
    };
    let l1_gas = match parse_limits(l1) {
        Ok(x) => x,
        Err(e) => {
            return Err(e);
        },
    };
    let l2_gas = match parse_limits(l2) {
        Ok(x) => x,
        Err(e) => {
            return Err(e);
        },
    };
    Ok(ResourceBoundsMapping { l1_gas, l2_gas })
}

pub fn resource_bounds_to_model(b: ResourceBoundsMapping) -> (m: wire::ResourceBounds)
    ensures
        m == spec_resource_bounds_encode(b),
{
    wire::ResourceBounds {
        l1_gas: Some(
            wire::ResourceLimits {
                max_amount: Some(Felt::from_u64(b.l1_gas.max_amount)),
                max_price_per_unit: Some(Felt::from_u128(b.l1_gas.max_price_per_unit)),
            },
        ),
        l2_gas: Some(
            wire::ResourceLimits {
                max_amount: Some(Felt::from_u64(b.l2_gas.max_amount)),
                max_price_per_unit: Some(Felt::from_u128(b.l2_gas.max_price_per_unit)),
            },
        ),
    }
}

/// What decoding an `InvokeV0` yields; this variant cannot fail.
pub open spec fn spec_invoke_v0_parse(m: wire::InvokeV0View) -> InvokeTransactionV0View {
    InvokeTransactionV0View {
        max_fee: spec_felt_or_zero(m.max_fee),
        signature: spec_seq_or_empty(m.signature),
        contract_address: spec_felt_or_zero(m.address),
        entry_point_selector: spec_felt_or_zero(m.entry_point_selector),
        calldata: m.calldata,
    }
}

pub open spec fn spec_invoke_v0_encode(t: InvokeTransactionV0View) -> wire::InvokeV0View {
    wire::InvokeV0View {
        max_fee: Some(t.max_fee),
        signature: Some(t.signature),
        address: Some(t.contract_address),
        entry_point_selector: Some(t.entry_point_selector),
        calldata: t.calldata,
    }
}

impl wire::InvokeV0 {
    pub fn parse_model(self) -> (r: InvokeTransactionV0)
        ensures
            r@ == spec_invoke_v0_parse(self@),
    {
        InvokeTransactionV0 {
            max_fee: felt_or_zero(self.max_fee),
            signature: sig_parts(self.signature),
            contract_address: felt_or_zero(self.address),
            entry_point_selector: felt_or_zero(self.entry_point_selector),
            calldata: self.calldata,
        }
    }
}

impl InvokeTransactionV0 {
    pub fn to_model(self) -> (m: wire::InvokeV0)
        ensures
            m@ == spec_invoke_v0_encode(self@),
    {
        wire::InvokeV0 {
            max_fee: Some(self.max_fee),
            signature: Some(AccountSignature { parts: self.signature }),
            address: Some(self.contract_address),
            entry_point_selector: Some(self.entry_point_selector),
            calldata: self.calldata,
        }
    }
}

/// What decoding an `InvokeV1` yields; this variant cannot fail.
pub open spec fn spec_invoke_v1_parse(m: wire::InvokeV1View) -> InvokeTransactionV1View {
    InvokeTransactionV1View {
        sender_address: spec_felt_or_zero(m.sender),
        calldata: m.calldata,
        max_fee: spec_felt_or_zero(m.max_fee),
        signature: spec_seq_or_empty(m.signature),
        nonce: spec_felt_or_zero(m.nonce),
    }
}

pub open spec fn spec_invoke_v1_encode(t: InvokeTransactionV1View) -> wire::InvokeV1View {
    wire::InvokeV1View {
        sender: Some(t.sender_address),
        max_fee: Some(t.max_fee),
        signature: Some(t.signature),
        calldata: t.calldata,
        nonce: Some(t.nonce),
    }
}

impl wire::InvokeV1 {
    pub fn parse_model(self) -> (r: InvokeTransactionV1)
        ensures
            r@ == spec_invoke_v1_parse(self@),
    {
        InvokeTransactionV1 {
            sender_address: felt_or_zero(self.sender),
            calldata: self.calldata,
            max_fee: felt_or_zero(self.max_fee),
            signature: sig_parts(self.signature),
            nonce: felt_or_zero(self.nonce),
        }
    }
}

impl InvokeTransactionV1 {
    pub fn to_model(self) -> (m: wire::InvokeV1)
        ensures
            m@ == spec_invoke_v1_encode(self@),
    {
        wire::InvokeV1 {
            sender: Some(self.sender_address),
            max_fee: Some(self.max_fee),
            signature: Some(AccountSignature { parts: self.signature }),
            calldata: self.calldata,
            nonce: Some(self.nonce),
        }
    }
}

/// What decoding a `DeclareV0` yields; this variant cannot fail.
pub open spec fn spec_declare_v0_parse(m: wire::DeclareV0View) -> DeclareTransactionV0View {
    DeclareTransactionV0View {
        sender_address: spec_felt_or_zero(m.sender),
        max_fee: spec_felt_or_zero(m.max_fee),
        signature: spec_seq_or_empty(m.signature),
        class_hash: spec_felt_or_zero(m.class_hash),
    }
}

pub open spec fn spec_declare_v0_encode(t: DeclareTransactionV0View) -> wire::DeclareV0View {
    wire::DeclareV0View {
        sender: Some(t.sender_address),
        max_fee: Some(t.max_fee),
        signature: Some(t.signature),
        class_hash: Some(t.class_hash),
    }
}

impl wire::DeclareV0 {
    pub fn parse_model(self) -> (r: DeclareTransactionV0)
        ensures
            r@ == spec_declare_v0_parse(self@),
    {
        DeclareTransactionV0 {
            sender_address: felt_or_zero(self.sender),
            max_fee: felt_or_zero(self.max_fee),
            signature: sig_parts(self.signature),
            class_hash: felt_or_zero(self.class_hash),
        }
    }
}

impl DeclareTransactionV0 {
    pub fn to_model(self) -> (m: wire::DeclareV0)
        ensures
            m@ == spec_declare_v0_encode(self@),
    {
        wire::DeclareV0 {
            sender: Some(self.sender_address),
            max_fee: Some(self.max_fee),
            signature: Some(AccountSignature { parts: self.signature }),
            class_hash: Some(self.class_hash),
        }
    }
}

/// What decoding a `DeclareV1` yields; this variant cannot fail.
pub open spec fn spec_declare_v1_parse(m: wire::DeclareV1View) -> DeclareTransactionV1View {
    DeclareTransactionV1View {
        sender_address: spec_felt_or_zero(m.sender),
        max_fee: spec_felt_or_zero(m.max_fee),
        signature: spec_seq_or_empty(m.signature),
        nonce: spec_felt_or_zero(m.nonce),
        class_hash: spec_felt_or_zero(m.class_hash),
    }
}

pub open spec fn spec_declare_v1_encode(t: DeclareTransactionV1View) -> wire::DeclareV1View {
    wire::DeclareV1View {
        sender: Some(t.sender_address),
        max_fee: Some(t.max_fee),
        signature: Some(t.signature),
        class_hash: Some(t.class_hash),
        nonce: Some(t.nonce),
    }
}

impl wire::DeclareV1 {
    pub fn parse_model(self) -> (r: DeclareTransactionV1)
        ensures
            r@ == spec_declare_v1_parse(self@),
    {
        DeclareTransactionV1 {
            sender_address: felt_or_zero(self.sender),
            max_fee: felt_or_zero(self.max_fee),
            signature: sig_parts(self.signature),
            nonce: felt_or_zero(self.nonce),
            class_hash: felt_or_zero(self.class_hash),
        }
    }
}

impl DeclareTransactionV1 {
    pub fn to_model(self) -> (m: wire::DeclareV1)
        ensures
            m@ == spec_declare_v1_encode(self@),
    {
        wire::DeclareV1 {
            sender: Some(self.sender_address),
            max_fee: Some(self.max_fee),
            signature: Some(AccountSignature { parts: self.signature }),
            class_hash: Some(self.class_hash),
            nonce: Some(self.nonce),
        }
    }
}

/// What decoding a `DeclareV2` yields; this variant cannot fail.
pub open spec fn spec_declare_v2_parse(m: wire::DeclareV2View) -> DeclareTransactionV2View {
    DeclareTransactionV2View {
        sender_address: spec_felt_or_zero(m.sender),
        compiled_class_hash: spec_felt_or_zero(m.compiled_class_hash),
        max_fee: spec_felt_or_zero(m.max_fee),
        signature: spec_seq_or_empty(m.signature),
        nonce: spec_felt_or_zero(m.nonce),
        class_hash: spec_felt_or_zero(m.class_hash),
    }
}

pub open spec fn spec_declare_v2_encode(t: DeclareTransactionV2View) -> wire::DeclareV2View {
    wire::DeclareV2View {
        sender: Some(t.sender_address),
        max_fee: Some(t.max_fee),
        signature: Some(t.signature),
        class_hash: Some(t.class_hash),
        nonce: Some(t.nonce),
        compiled_class_hash: Some(t.compiled_class_hash),
    }
}

impl wire::DeclareV2 {
    pub fn parse_model(self) -> (r: DeclareTransactionV2)
        ensures
            r@ == spec_declare_v2_parse(self@),
    {
        DeclareTransactionV2 {
            sender_address: felt_or_zero(self.sender),
            compiled_class_hash: felt_or_zero(self.compiled_class_hash),
            max_fee: felt_or_zero(self.max_fee),
            signature: sig_parts(self.signature),
            nonce: felt_or_zero(self.nonce),
            class_hash: felt_or_zero(self.class_hash),
        }
    }
}

impl DeclareTransactionV2 {
    pub fn to_model(self) -> (m: wire::DeclareV2)
        ensures
            m@ == spec_declare_v2_encode(self@),
    {
        wire::DeclareV2 {
            sender: Some(self.sender_address),
            max_fee: Some(self.max_fee),
            signature: Some(AccountSignature { parts: self.signature }),
            class_hash: Some(self.class_hash),
            nonce: Some(self.nonce),
            compiled_class_hash: Some(self.compiled_class_hash),
        }
    }
}

/// What decoding a `Deploy` yields; this variant cannot fail (the wire
/// version is already a 32-bit integer).
pub open spec fn spec_deploy_parse(m: wire::DeployView) -> DeployTransactionView {
    DeployTransactionView {
        version: Felt { lo: m.version as u128, hi: 0 },
        contract_address_salt: spec_felt_or_zero(m.address_salt),
        constructor_calldata: m.calldata,
        class_hash: spec_felt_or_zero(m.class_hash),
    }
}

/// Encoding a `Deploy` narrows the version to 32 bits; the executable
/// encoder refuses values that do not fit.
pub open spec fn spec_deploy_encode(t: DeployTransactionView) -> wire::DeployView {
    wire::DeployView {
        version: t.version.lo as u32,
        address_salt: Some(t.contract_address_salt),
        calldata: t.constructor_calldata,
        class_hash: Some(t.class_hash),
    }
}

impl wire::Deploy {
    pub fn parse_model(self) -> (r: DeployTransaction)
        ensures
            r@ == spec_deploy_parse(self@),
    {
        DeployTransaction {
            version: Felt::from_u64(self.version as u64),
            contract_address_salt: felt_or_zero(self.address_salt),
            constructor_calldata: self.calldata,
            class_hash: felt_or_zero(self.class_hash),
        }
    }
}

impl DeployTransaction {
    pub fn to_model(self) -> (m: wire::Deploy)
        requires
            fits_u32(self.version),
        ensures
            m@ == spec_deploy_encode(self@),
    {
        let version = match crate::felt::felt_to_u32(&self.version) {
            Ok(v) => v,
            Err(_) => 0,
        };
        wire::Deploy {
            version,
            address_salt: Some(self.contract_address_salt),
            calldata: self.constructor_calldata,
            class_hash: Some(self.class_hash),
        }
    }
}

/// What decoding a `DeployAccountV1` yields; this variant cannot fail.
pub open spec fn spec_deploy_account_v1_parse(m: wire::DeployAccountV1View) -> DeployAccountTransactionV1View {
    DeployAccountTransactionV1View {
        max_fee: spec_felt_or_zero(m.max_fee),
        signature: spec_seq_or_empty(m.signature),
        nonce: spec_felt_or_zero(m.nonce),
        contract_address_salt: spec_felt_or_zero(m.address_salt),
        constructor_calldata: m.calldata,
        class_hash: spec_felt_or_zero(m.class_hash),
    }
}

pub open spec fn spec_deploy_account_v1_encode(t: DeployAccountTransactionV1View) -> wire::DeployAccountV1View {
    wire::DeployAccountV1View {
        max_fee: Some(t.max_fee),
        signature: Some(t.signature),
        class_hash: Some(t.class_hash),
        nonce: Some(t.nonce),
        address_salt: Some(t.contract_address_salt),
        calldata: t.constructor_calldata,
    }
}

impl wire::DeployAccountV1 {
    pub fn parse_model(self) -> (r: DeployAccountTransactionV1)
        ensures
            r@ == spec_deploy_account_v1_parse(self@),
    {
        DeployAccountTransactionV1 {
            max_fee: felt_or_zero(self.max_fee),
            signature: sig_parts(self.signature),
            nonce: felt_or_zero(self.nonce),
            contract_address_salt: felt_or_zero(self.address_salt),
            constructor_calldata: self.calldata,
            class_hash: felt_or_zero(self.class_hash),
        }
    }
}

impl DeployAccountTransactionV1 {
    pub fn to_model(self) -> (m: wire::DeployAccountV1)
        ensures
            m@ == spec_deploy_account_v1_encode(self@),
    {
        wire::DeployAccountV1 {
            max_fee: Some(self.max_fee),
            signature: Some(AccountSignature { parts: self.signature }),
            class_hash: Some(self.class_hash),
            nonce: Some(self.nonce),
            address_salt: Some(self.contract_address_salt),
            calldata: self.constructor_calldata,
        }
    }
}

/// What decoding an `L1HandlerV0` yields: the nonce must fit 64 bits; the
/// version of a decoded handler transaction is always the zero felt.
pub open spec fn spec_l1_handler_parse(m: wire::L1HandlerV0View) -> Result<
    L1HandlerTransactionView,
    FromModelErrorView,
> {
    if !fits_u64(spec_felt_or_zero(m.nonce)) {
        Err(FromModelErrorView::InvalidField("L1HandlerV0::nonce"@))
    } else {
        Ok(
            L1HandlerTransactionView {
                version: Felt { lo: 0, hi: 0 },
                nonce: spec_felt_or_zero(m.nonce).lo as u64,
                contract_address: spec_felt_or_zero(m.address),
                entry_point_selector: spec_felt_or_zero(m.entry_point_selector),
                calldata: m.calldata,
            },
        )
    }
}

/// Encoding an `L1HandlerV0` drops the version, which decoding restores as
/// the zero felt.
pub open spec fn spec_l1_handler_encode(t: L1HandlerTransactionView) -> wire::L1HandlerV0View {
    wire::L1HandlerV0View {
        nonce: Some(Felt { lo: t.nonce as u128, hi: 0 }),
        address: Some(t.contract_address),
        entry_point_selector: Some(t.entry_point_selector),
        calldata: t.calldata,
    }
}

impl wire::L1HandlerV0 {
    pub fn parse_model(self) -> (r: Result<L1HandlerTransaction, FromModelError>)
        ensures
            view_result(r) == spec_l1_handler_parse(self@),
    {
        let nonce_felt = felt_or_zero(self.nonce);
        let nonce = match crate::felt::felt_to_u64(&nonce_felt) {
            Ok(n) => n,
            Err(_) => {
                return Err(FromModelError::invalid_field("L1HandlerV0::nonce"));
            },
        };
        Ok(
            L1HandlerTransaction {
                version: Felt::zero(),
                nonce,
                contract_address: felt_or_zero(self.address),
                entry_point_selector: felt_or_zero(self.entry_point_selector),
                calldata: self.calldata,
            },
        )
    }
}

impl L1HandlerTransaction {
    pub fn to_model(self) -> (m: wire::L1HandlerV0)
        ensures
            m@ == spec_l1_handler_encode(self@),
    {
        wire::L1HandlerV0 {
            nonce: Some(Felt::from_u64(self.nonce)),
            address: Some(self.contract_address),
            entry_point_selector: Some(self.entry_point_selector),
            calldata: self.calldata,
        }
    }
}

/// What decoding an `InvokeV3` yields: the resource bounds must fit their
/// widths and both data-availability codes must be recognized, checked in
/// that order.
pub open spec fn spec_invoke_v3_parse(m: wire::InvokeV3View) -> Result<
    InvokeTransactionV3View,
    FromModelErrorView,
> {
    match spec_resource_bounds_parse(m.resource_bounds) {
        Err(e) => Err(e),
        Ok(rb) => match spec_volition_parse(m.nonce_data_availability_mode) {
            None => Err(
                FromModelErrorView::InvalidEnumVariant(
                    "VolitionDomain"@,
                    m.nonce_data_availability_mode,
                ),
            ),
            Some(ndam) => match spec_volition_parse(m.fee_data_availability_mode) {
                None => Err(
                    FromModelErrorView::InvalidEnumVariant(
                        "VolitionDomain"@,
                        m.fee_data_availability_mode,
                    ),
                ),
                Some(fdam) => Ok(
                    InvokeTransactionV3View {
                        sender_address: spec_felt_or_zero(m.sender),
                        calldata: m.calldata,
                        signature: spec_seq_or_empty(m.signature),
                        nonce: spec_felt_or_zero(m.nonce),
                        resource_bounds: rb,
                        tip: m.tip,
                        paymaster_data: m.paymaster_data,
                        account_deployment_data: m.account_deployment_data,
                        nonce_data_availability_mode: ndam,
                        fee_data_availability_mode: fdam,
                    },
                ),
            },
        },
    }
}

pub open spec fn spec_invoke_v3_encode(t: InvokeTransactionV3View) -> wire::InvokeV3View {
    wire::InvokeV3View {
        sender: Some(t.sender_address),
        signature: Some(t.signature),
        calldata: t.calldata,
        resource_bounds: Some(spec_resource_bounds_encode(t.resource_bounds)),
        tip: t.tip,
        paymaster_data: t.paymaster_data,
        account_deployment_data: t.account_deployment_data,
        nonce_data_availability_mode: spec_volition_code(t.nonce_data_availability_mode),
        fee_data_availability_mode: spec_volition_code(t.fee_data_availability_mode),
        nonce: Some(t.nonce),
    }
}

impl wire::InvokeV3 {
    pub fn parse_model(self) -> (r: Result<InvokeTransactionV3, FromModelError>)
        ensures
            view_result(r) == spec_invoke_v3_parse(self@),
    {
        let resource_bounds = match parse_resource_bounds(self.resource_bounds) {
            Ok(b) => b,
            Err(e) => {
                return Err(e);
            },
        };
        let nonce_data_availability_mode = match parse_volition_domain(
            self.nonce_data_availability_mode,
        ) {
            Ok(d) => d,
            Err(e) => {
                return Err(e);
            },
        };
        let fee_data_availability_mode = match parse_volition_domain(
            self.fee_data_availability_mode,
        ) {
            Ok(d) => d,
            Err(e) => {
                return Err(e);
            },
        };
        Ok(
            InvokeTransactionV3 {
                sender_address: felt_or_zero(self.sender),
                calldata: self.calldata,
                signature: sig_parts(self.signature),
                nonce: felt_or_zero(self.nonce),
                resource_bounds,
                tip: self.tip,
                paymaster_data: self.paymaster_data,
                account_deployment_data: self.account_deployment_data,
                nonce_data_availability_mode,
                fee_data_availability_mode,
            },
        )
    }
}

impl InvokeTransactionV3 {
    pub fn to_model(self) -> (m: wire::InvokeV3)
        ensures
            m@ == spec_invoke_v3_encode(self@),
    {
        wire::InvokeV3 {
            sender: Some(self.sender_address),
            signature: Some(AccountSignature { parts: self.signature }),
            calldata: self.calldata,
            resource_bounds: Some(resource_bounds_to_model(self.resource_bounds)),
            tip: self.tip,
            paymaster_data: self.paymaster_data,
            account_deployment_data: self.account_deployment_data,
            nonce_data_availability_mode: volition_domain_code(self.nonce_data_availability_mode),
            fee_data_availability_mode: volition_domain_code(self.fee_data_availability_mode),
            nonce: Some(self.nonce),
        }
    }
}

/// What decoding a `DeclareV3` yields: the resource bounds must fit their
/// widths and both data-availability codes must be recognized, checked in
/// that order.
pub open spec fn spec_declare_v3_parse(m: wire::DeclareV3View) -> Result<
    DeclareTransactionV3View,
    FromModelErrorView,
> {
    match spec_resource_bounds_parse(m.resource_bounds) {
        Err(e) => Err(e),
        Ok(rb) => match spec_volition_parse(m.nonce_data_availability_mode) {
            None => Err(
                FromModelErrorView::InvalidEnumVariant(
                    "VolitionDomain"@,
                    m.nonce_data_availability_mode,
                ),
            ),
            Some(ndam) => match spec_volition_parse(m.fee_data_availability_mode) {
                None => Err(
                    FromModelErrorView::InvalidEnumVariant(
                        "VolitionDomain"@,
                        m.fee_data_availability_mode,
                    ),
                ),
                Some(fdam) => Ok(
                    DeclareTransactionV3View {
                        sender_address: spec_felt_or_zero(m.sender),
                        compiled_class_hash: spec_felt_or_zero(m.compiled_class_hash),
                        signature: spec_seq_or_empty(m.signature),
                        nonce: spec_felt_or_zero(m.nonce),
                        class_hash: spec_felt_or_zero(m.class_hash),
                        resource_bounds: rb,
                        tip: m.tip,
                        paymaster_data: m.paymaster_data,
                        account_deployment_data: m.account_deployment_data,
                        nonce_data_availability_mode: ndam,
                        fee_data_availability_mode: fdam,
                    },
                ),
            },
        },
    }
}

pub open spec fn spec_declare_v3_encode(t: DeclareTransactionV3View) -> wire::DeclareV3View {
    wire::DeclareV3View {
        sender: Some(t.sender_address),
        compiled_class_hash: Some(t.compiled_class_hash),
        signature: Some(t.signature),
        nonce: Some(t.nonce),
        class_hash: Some(t.class_hash),
        resource_bounds: Some(spec_resource_bounds_encode(t.resource_bounds)),
        tip: t.tip,
        paymaster_data: t.paymaster_data,
        account_deployment_data: t.account_deployment_data,
        nonce_data_availability_mode: spec_volition_code(t.nonce_data_availability_mode),
        fee_data_availability_mode: spec_volition_code(t.fee_data_availability_mode),
    }
}

impl wire::DeclareV3 {
    pub fn parse_model(self) -> (r: Result<DeclareTransactionV3, FromModelError>)
        ensures
            view_result(r) == spec_declare_v3_parse(self@),
    {
        let resource_bounds = match parse_resource_bounds(self.resource_bounds) {
            Ok(b) => b,
            Err(e) => {
                return Err(e);
            },
        };
        let nonce_data_availability_mode = match parse_volition_domain(
            self.nonce_data_availability_mode,
        ) {
            Ok(d) => d,
            Err(e) => {
                return Err(e);
            },
        };
        let fee_data_availability_mode = match parse_volition_domain(
            self.fee_data_availability_mode,
        ) {
            Ok(d) => d,
            Err(e) => {
                return Err(e);
            },
        };
        Ok(
            DeclareTransactionV3 {
                sender_address: felt_or_zero(self.sender),
                compiled_class_hash: felt_or_zero(self.compiled_class_hash),
                signature: sig_parts(self.signature),
                nonce: felt_or_zero(self.nonce),
                class_hash: felt_or_zero(self.class_hash),
                resource_bounds,
                tip: self.tip,
                paymaster_data: self.paymaster_data,
                account_deployment_data: self.account_deployment_data,
                nonce_data_availability_mode,
                fee_data_availability_mode,
            },
        )
    }
}

impl DeclareTransactionV3 {
    pub fn to_model(self) -> (m: wire::DeclareV3)
        ensures
            m@ == spec_declare_v3_encode(self@),
    {
        wire::DeclareV3 {
            sender: Some(self.sender_address),
            compiled_class_hash: Some(self.compiled_class_hash),
            signature: Some(AccountSignature { parts: self.signature }),
            nonce: Some(self.nonce),
            class_hash: Some(self.class_hash),
            resource_bounds: Some(resource_bounds_to_model(self.resource_bounds)),
            tip: self.tip,
            paymaster_data: self.paymaster_data,
            account_deployment_data: self.account_deployment_data,
            nonce_data_availability_mode: volition_domain_code(self.nonce_data_availability_mode),
            fee_data_availability_mode: volition_domain_code(self.fee_data_availability_mode),
        }
    }
}

/// What decoding a `DeployAccountV3` yields: the resource bounds must fit
/// their widths and both data-availability codes must be recognized, checked
/// in that order.
pub open spec fn spec_deploy_account_v3_parse(m: wire::DeployAccountV3View) -> Result<
    DeployAccountTransactionV3View,
    FromModelErrorView,
> {
    match spec_resource_bounds_parse(m.resource_bounds) {
        Err(e) => Err(e),
        Ok(rb) => match spec_volition_parse(m.nonce_data_availability_mode) {
            None => Err(
                FromModelErrorView::InvalidEnumVariant(
                    "VolitionDomain"@,
                    m.nonce_data_availability_mode,
                ),
            ),
            Some(ndam) => match spec_volition_parse(m.fee_data_availability_mode) {
                None => Err(
                    FromModelErrorView::InvalidEnumVariant(
                        "VolitionDomain"@,
                        m.fee_data_availability_mode,
                    ),
                ),
                Some(fdam) => Ok(
                    DeployAccountTransactionV3View {
                        signature: spec_seq_or_empty(m.signature),
                        nonce: spec_felt_or_zero(m.nonce),
                        contract_address_salt: spec_felt_or_zero(m.address_salt),
                        constructor_calldata: m.calldata,
                        class_hash: spec_felt_or_zero(m.class_hash),
                        resource_bounds: rb,
                        tip: m.tip,
                        paymaster_data: m.paymaster_data,
                        nonce_data_availability_mode: ndam,
                        fee_data_availability_mode: fdam,
                    },
                ),
            },
        },
    }
}

pub open spec fn spec_deploy_account_v3_encode(t: DeployAccountTransactionV3View) -> wire::DeployAccountV3View {
    wire::DeployAccountV3View {
        signature: Some(t.signature),
        class_hash: Some(t.class_hash),
        nonce: Some(t.nonce),
        address_salt: Some(t.contract_address_salt),
        calldata: t.constructor_calldata,
        resource_bounds: Some(spec_resource_bounds_encode(t.resource_bounds)),
        tip: t.tip,
        paymaster_data: t.paymaster_data,
        nonce_data_availability_mode: spec_volition_code(t.nonce_data_availability_mode),
        fee_data_availability_mode: spec_volition_code(t.fee_data_availability_mode),
    }
}

impl wire::DeployAccountV3 {
    pub fn parse_model(self) -> (r: Result<DeployAccountTransactionV3, FromModelError>)
        ensures
            view_result(r) == spec_deploy_account_v3_parse(self@),
    {
        let resource_bounds = match parse_resource_bounds(self.resource_bounds) {
            Ok(b) => b,
            Err(e) => {
                return Err(e);
            },
        };
        let nonce_data_availability_mode = match parse_volition_domain(
            self.nonce_data_availability_mode,
        ) {
            Ok(d) => d,
            Err(e) => {
                return Err(e);
            },
        };
        let fee_data_availability_mode = match parse_volition_domain(
            self.fee_data_availability_mode,
        ) {
            Ok(d) => d,
            Err(e) => {
                return Err(e);
            },
        };
        Ok(
            DeployAccountTransactionV3 {
                signature: sig_parts(self.signature),
                nonce: felt_or_zero(self.nonce),
                contract_address_salt: felt_or_zero(self.address_salt),
                constructor_calldata: self.calldata,
                class_hash: felt_or_zero(self.class_hash),
                resource_bounds,
                tip: self.tip,
                paymaster_data: self.paymaster_data,
                nonce_data_availability_mode,
                fee_data_availability_mode,
            },
        )
    }
}

impl DeployAccountTransactionV3 {
    pub fn to_model(self) -> (m: wire::DeployAccountV3)
        ensures
            m@ == spec_deploy_account_v3_encode(self@),
    {
        wire::DeployAccountV3 {
            signature: Some(AccountSignature { parts: self.signature }),
            class_hash: Some(self.class_hash),
            nonce: Some(self.nonce),
            address_salt: Some(self.contract_address_salt),
            calldata: self.constructor_calldata,
            resource_bounds: Some(resource_bounds_to_model(self.resource_bounds)),
            tip: self.tip,
            paymaster_data: self.paymaster_data,
            nonce_data_availability_mode: volition_domain_code(self.nonce_data_availability_mode),
            fee_data_availability_mode: volition_domain_code(self.fee_data_availability_mode),
        }
    }
}

/// What decoding a wire transaction of any kind yields.
pub open spec fn spec_txn_parse(m: TxnView) -> Result<TransactionView, FromModelErrorView> {
    match m {
        TxnView::DeclareV0(t) => Ok(
            TransactionView::Declare(DeclareTransactionView::V0(spec_declare_v0_parse(t))),
        ),
        TxnView::DeclareV1(t) => Ok(
            TransactionView::Declare(DeclareTransactionView::V1(spec_declare_v1_parse(t))),
        ),
        TxnView::DeclareV2(t) => Ok(
            TransactionView::Declare(DeclareTransactionView::V2(spec_declare_v2_parse(t))),
        ),
        TxnView::DeclareV3(t) => match spec_declare_v3_parse(t) {
            Ok(x) => Ok(TransactionView::Declare(DeclareTransactionView::V3(x))),
            Err(e) => Err(e),
        },
        TxnView::Deploy(t) => Ok(TransactionView::Deploy(spec_deploy_parse(t))),
        TxnView::DeployAccountV1(t) => Ok(
            TransactionView::DeployAccount(
                DeployAccountTransactionView::V1(spec_deploy_account_v1_parse(t)),
            ),
        ),
        TxnView::DeployAccountV3(t) => match spec_deploy_account_v3_parse(t) {
            Ok(x) => Ok(TransactionView::DeployAccount(DeployAccountTransactionView::V3(x))),
            Err(e) => Err(e),
        },
        TxnView::InvokeV0(t) => Ok(
            TransactionView::Invoke(InvokeTransactionView::V0(spec_invoke_v0_parse(t))),
        ),
        TxnView::InvokeV1(t) => Ok(
            TransactionView::Invoke(InvokeTransactionView::V1(spec_invoke_v1_parse(t))),
        ),
        TxnView::InvokeV3(t) => match spec_invoke_v3_parse(t) {
            Ok(x) => Ok(TransactionView::Invoke(InvokeTransactionView::V3(x))),
            Err(e) => Err(e),
        },
        TxnView::L1Handler(t) => match spec_l1_handler_parse(t) {
            Ok(x) => Ok(TransactionView::L1Handler(x)),
            Err(e) => Err(e),
        },
    }
}

/// How a transaction of any kind is put on the wire.
pub open spec fn spec_txn_encode(t: TransactionView) -> TxnView {
    match t {
        TransactionView::Invoke(tx) => match tx {
            InvokeTransactionView::V0(x) => TxnView::InvokeV0(spec_invoke_v0_encode(x)),
            InvokeTransactionView::V1(x) => TxnView::InvokeV1(spec_invoke_v1_encode(x)),
            InvokeTransactionView::V3(x) => TxnView::InvokeV3(spec_invoke_v3_encode(x)),
        },
        TransactionView::L1Handler(x) => TxnView::L1Handler(spec_l1_handler_encode(x)),
        TransactionView::Declare(tx) => match tx {
            DeclareTransactionView::V0(x) => TxnView::DeclareV0(spec_declare_v0_encode(x)),
            DeclareTransactionView::V1(x) => TxnView::DeclareV1(spec_declare_v1_encode(x)),
            DeclareTransactionView::V2(x) => TxnView::DeclareV2(spec_declare_v2_encode(x)),
            DeclareTransactionView::V3(x) => TxnView::DeclareV3(spec_declare_v3_encode(x)),
        },
        TransactionView::Deploy(x) => TxnView::Deploy(spec_deploy_encode(x)),
        TransactionView::DeployAccount(tx) => match tx {
            DeployAccountTransactionView::V1(x) => TxnView::DeployAccountV1(
                spec_deploy_account_v1_encode(x),
            ),
            DeployAccountTransactionView::V3(x) => TxnView::DeployAccountV3(
                spec_deploy_account_v3_encode(x),
            ),
        },
    }
}

impl Txn {
    pub fn parse_model(self) -> (r: Result<Transaction, FromModelError>)
        ensures
            view_result(r) == spec_txn_parse(self@),
    {
        match self {
            Txn::DeclareV0(t) => Ok(
                Transaction::Declare(DeclareTransaction::V0(t.parse_model())),
            ),
            Txn::DeclareV1(t) => Ok(
                Transaction::Declare(DeclareTransaction::V1(t.parse_model())),
            ),
            Txn::DeclareV2(t) => Ok(
                Transaction::Declare(DeclareTransaction::V2(t.parse_model())),
            ),
            Txn::DeclareV3(t) => match t.parse_model() {
                Ok(x) => Ok(Transaction::Declare(DeclareTransaction::V3(x))),
                Err(e) => Err(e),
            },
            Txn::Deploy(t) => Ok(Transaction::Deploy(t.parse_model())),
            Txn::DeployAccountV1(t) => Ok(
                Transaction::DeployAccount(DeployAccountTransaction::V1(t.parse_model())),
            ),
            Txn::DeployAccountV3(t) => match t.parse_model() {
                Ok(x) => Ok(Transaction::DeployAccount(DeployAccountTransaction::V3(x))),
                Err(e) => Err(e),
            },
            Txn::InvokeV0(t) => Ok(Transaction::Invoke(InvokeTransaction::V0(t.parse_model()))),
            Txn::InvokeV1(t) => Ok(Transaction::Invoke(InvokeTransaction::V1(t.parse_model()))),
            Txn::InvokeV3(t) => match t.parse_model() {
                Ok(x) => Ok(Transaction::Invoke(InvokeTransaction::V3(x))),
                Err(e) => Err(e),
            },
            Txn::L1Handler(t) => match t.parse_model() {
                Ok(x) => Ok(Transaction::L1Handler(x)),
                Err(e) => Err(e),
            },
        }
    }
}

/// Whether a transaction survives the trip onto the wire and back: a deploy
/// version must fit 32 bits (the wire field's width), and an L1-handler
/// version must be the zero felt, since the wire drops it and decoding
/// restores zero.
pub open spec fn spec_transaction_encodable(t: TransactionView) -> bool {
    match t {
        TransactionView::Deploy(d) => fits_u32(d.version),
        TransactionView::L1Handler(h) => h.version == (Felt { lo: 0, hi: 0 }),
        _ => true,
    }
}

impl Transaction {
    pub fn to_model(self) -> (m: Txn)
        requires
            spec_transaction_encodable(self@),
        ensures
            m@ == spec_txn_encode(self@),
    {
        match self {
            Transaction::Invoke(tx) => match tx {
                InvokeTransaction::V0(x) => Txn::InvokeV0(x.to_model()),
                InvokeTransaction::V1(x) => Txn::InvokeV1(x.to_model()),
                InvokeTransaction::V3(x) => Txn::InvokeV3(x.to_model()),
            },
            Transaction::L1Handler(x) => Txn::L1Handler(x.to_model()),
            Transaction::Declare(tx) => match tx {
                DeclareTransaction::V0(x) => Txn::DeclareV0(x.to_model()),
                DeclareTransaction::V1(x) => Txn::DeclareV1(x.to_model()),
                DeclareTransaction::V2(x) => Txn::DeclareV2(x.to_model()),
                DeclareTransaction::V3(x) => Txn::DeclareV3(x.to_model()),
            },
            Transaction::Deploy(x) => Txn::Deploy(x.to_model()),
            Transaction::DeployAccount(tx) => match tx {
                DeployAccountTransaction::V1(x) => Txn::DeployAccountV1(x.to_model()),
                DeployAccountTransaction::V3(x) => Txn::DeployAccountV3(x.to_model()),
            },
        }
    }
}

/// What decoding a wire transaction envelope yields: the body and the hash
/// are both required.
pub open spec fn spec_transaction_with_hash_parse(m: wire::TransactionView) -> Result<
    TransactionWithHashView,
    FromModelErrorView,
> {
    match m.txn {
        None => Err(FromModelErrorView::MissingField("Transaction::transaction"@)),
        Some(txn) => match spec_txn_parse(txn) {
            Err(e) => Err(e),
            Ok(t) => match m.transaction_hash {
                None => Err(FromModelErrorView::MissingField("Transaction::transaction_hash"@)),
                Some(h) => Ok(TransactionWithHashView { transaction: t, hash: h }),
            },
        },
    }
}

pub open spec fn spec_transaction_with_hash_encode(t: TransactionWithHashView) -> wire::TransactionView {
    wire::TransactionView {
        transaction_hash: Some(t.hash),
        txn: Some(spec_txn_encode(t.transaction)),
    }
}

impl TransactionWithHash {
    /// Decodes a wire transaction envelope.
    pub fn parse_model(m: wire::Transaction) -> (r: Result<TransactionWithHash, FromModelError>)
        ensures
            view_result(r) == spec_transaction_with_hash_parse(m@),
    {
        let txn = match m.txn {
            Some(t) => t,
            None => {
                return Err(FromModelError::missing_field("Transaction::transaction"));
            },
        };
        let transaction = match txn.parse_model() {
            Ok(t) => t,
            Err(e) => {
                return Err(e);
            },
        };
        let hash = match m.transaction_hash {
            Some(h) => h,
            None => {
                return Err(FromModelError::missing_field("Transaction::transaction_hash"));
            },
        };
        Ok(TransactionWithHash { transaction, hash })
    }

    pub fn to_model(self) -> (m: wire::Transaction)
        requires
            spec_transaction_encodable(self@.transaction),
        ensures
            m@ == spec_transaction_with_hash_encode(self@),
    {
        wire::Transaction {
            transaction_hash: Some(self.hash),
            txn: Some(self.transaction.to_model()),
        }
    }
}

/// Round trip for transactions: putting an encodable transaction on the wire
/// and decoding the result yields the transaction again, for every kind and
/// version.
pub proof fn lemma_txn_round_trip(t: TransactionView)
    requires
        spec_transaction_encodable(t),
    ensures
        spec_txn_parse(spec_txn_encode(t)) == Ok::<TransactionView, FromModelErrorView>(t),
{
    match t {
        TransactionView::Invoke(tx) => match tx {
            InvokeTransactionView::V0(x) => {
                assert(spec_invoke_v0_parse(spec_invoke_v0_encode(x)) == x);
            },
            InvokeTransactionView::V1(x) => {
                assert(spec_invoke_v1_parse(spec_invoke_v1_encode(x)) == x);
            },
            InvokeTransactionView::V3(x) => {
                lemma_resource_bounds_round_trip(x.resource_bounds);
                assert(spec_invoke_v3_parse(spec_invoke_v3_encode(x)) == Ok::<
                    InvokeTransactionV3View,
                    FromModelErrorView,
                >(x));
            },
        },
        TransactionView::L1Handler(x) => {
            assert(spec_l1_handler_parse(spec_l1_handler_encode(x)) == Ok::<
                L1HandlerTransactionView,
                FromModelErrorView,
            >(x));
        },
        TransactionView::Declare(tx) => match tx {
            DeclareTransactionView::V0(x) => {
                assert(spec_declare_v0_parse(spec_declare_v0_encode(x)) == x);
            },
            DeclareTransactionView::V1(x) => {
                assert(spec_declare_v1_parse(spec_declare_v1_encode(x)) == x);
            },
            DeclareTransactionView::V2(x) => {
                assert(spec_declare_v2_parse(spec_declare_v2_encode(x)) == x);
            },
            DeclareTransactionView::V3(x) => {
                lemma_resource_bounds_round_trip(x.resource_bounds);
                assert(spec_declare_v3_parse(spec_declare_v3_encode(x)) == Ok::<
                    DeclareTransactionV3View,
                    FromModelErrorView,
                >(x));
            },
        },
        TransactionView::Deploy(x) => {
            assert(spec_deploy_parse(spec_deploy_encode(x)) == x);
        },
        TransactionView::DeployAccount(tx) => match tx {
            DeployAccountTransactionView::V1(x) => {
                assert(spec_deploy_account_v1_parse(spec_deploy_account_v1_encode(x)) == x);
            },
            DeployAccountTransactionView::V3(x) => {
                lemma_resource_bounds_round_trip(x.resource_bounds);
                assert(spec_deploy_account_v3_parse(spec_deploy_account_v3_encode(x)) == Ok::<
                    DeployAccountTransactionV3View,
                    FromModelErrorView,
                >(x));
            },
        },
    }
}

/// Every transaction that decoding yields is itself encodable: a decoded
/// deploy version came from the 32-bit wire field and a decoded L1-handler
/// version is the zero felt, so sending a decoded transaction back out can
/// never hit the encoder's preconditions.
pub proof fn lemma_parsed_transactions_encodable(m: TxnView)
    ensures
        spec_txn_parse(m) matches Ok(t) ==> spec_transaction_encodable(t),
{
    match m {
        TxnView::Deploy(d) => {
            assert(fits_u32(Felt { lo: d.version as u128, hi: 0 }));
        },
        _ => {},
    }
}

/// Resource bounds survive the trip through their felt wire form.
pub proof fn lemma_resource_bounds_round_trip(b: ResourceBoundsMapping)
    ensures
        spec_resource_bounds_parse(Some(spec_resource_bounds_encode(b))) == Ok::<
            ResourceBoundsMapping,
            FromModelErrorView,
        >(b),
{
}

/// Round trip for the wire envelope: the hash and the body both come back.
pub proof fn lemma_transaction_with_hash_round_trip(t: TransactionWithHashView)
    requires
        spec_transaction_encodable(t.transaction),
    ensures
        spec_transaction_with_hash_parse(spec_transaction_with_hash_encode(t)) == Ok::<
            TransactionWithHashView,
            FromModelErrorView,
        >(t),
{
    lemma_txn_round_trip(t.transaction);
}

} // verus!
