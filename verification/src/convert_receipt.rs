//! Conversions between wire-model receipts and the node's own model, and the
//! round-trip law for a transaction paired with its receipt.
//!
//! The same conversion contract as for transactions applies: decoding is
//! total over well-formed wire messages, fails with a named error otherwise,
//! and never panics.

use vstd::prelude::*;

use crate::convert::spec_felt_or_zero;
use crate::convert::spec_transaction_encodable;
use crate::convert::spec_transaction_with_hash_parse;
use crate::convert::spec_transaction_with_hash_encode;
use crate::convert::spec_txn_encode;
use crate::convert::felt_or_zero;
use crate::convert::view_result;
use crate::convert::FromModelError;
use crate::convert::FromModelErrorView;
use crate::felt::Felt;
use crate::felt::fits_u128;
use crate::receipts::DeclareTransactionReceipt;
use crate::receipts::DeclareTransactionReceiptView;
use crate::receipts::DeployAccountTransactionReceipt;
use crate::receipts::DeployAccountTransactionReceiptView;
use crate::receipts::DeployTransactionReceipt;
use crate::receipts::DeployTransactionReceiptView;
use crate::receipts::ExecutionResources;
use crate::receipts::ExecutionResult;
use crate::receipts::ExecutionResultView;
use crate::receipts::FeePayment;
use crate::receipts::InvokeTransactionReceipt;
use crate::receipts::InvokeTransactionReceiptView;
use crate::receipts::L1Gas;
use crate::receipts::L1HandlerTransactionReceipt;
use crate::receipts::L1HandlerTransactionReceiptView;
use crate::receipts::MsgToL1;
use crate::receipts::MsgToL1View;
use crate::receipts::PriceUnit;
use crate::receipts::TransactionReceipt;
use crate::receipts::TransactionReceiptView;
use crate::receipts::TransactionWithReceipt;
use crate::receipts::TransactionWithReceiptView;
use crate::receipts::msgs_view;
use crate::receipts::spec_receipt_hash;
use crate::transactions::TransactionWithHash;
use crate::wire_receipt as wire;
use crate::wire_receipt::PRICE_UNIT_FRI;
use crate::wire_receipt::PRICE_UNIT_WEI;
use crate::wire_receipt::wire_msgs_view;
use crate::wire_transaction;

verus! {

/// Decodes a wire price-unit code; an unknown code falls back to wei.
pub open spec fn spec_price_unit_parse(code: i32) -> PriceUnit {
    if code == PRICE_UNIT_FRI {
        PriceUnit::Fri
    } else {
        PriceUnit::Wei
    }
}

pub open spec fn spec_price_unit_code(u: PriceUnit) -> i32 {
    match u {
        PriceUnit::Wei => PRICE_UNIT_WEI,
        PriceUnit::Fri => PRICE_UNIT_FRI,
    }
}

pub fn price_unit_parse(code: i32) -> (r: PriceUnit)
    ensures
        r == spec_price_unit_parse(code),
{
    if code == PRICE_UNIT_FRI {
        PriceUnit::Fri
    } else {
        PriceUnit::Wei
    }
}

pub fn price_unit_code(u: PriceUnit) -> (r: i32)
    ensures
        r == spec_price_unit_code(u),
{
    match u {
        PriceUnit::Wei => PRICE_UNIT_WEI,
        PriceUnit::Fri => PRICE_UNIT_FRI,
    }
}

/// Decoding a message cannot fail; absent addresses fall back to zero.
pub open spec fn spec_msg_parse(m: wire::MessageToL1View) -> MsgToL1View {
    MsgToL1View {
        from_address: spec_felt_or_zero(m.from_address),
        to_address: spec_felt_or_zero(m.to_address),
        payload: m.payload,
    }
}

pub open spec fn spec_msg_encode(m: MsgToL1View) -> wire::MessageToL1View {
    wire::MessageToL1View {
        from_address: Some(m.from_address),
        payload: m.payload,
        to_address: Some(m.to_address),
    }
}

pub open spec fn spec_msgs_parse(s: Seq<wire::MessageToL1View>) -> Seq<MsgToL1View> {
    Seq::new(s.len(), |i: int| spec_msg_parse(s[i]))
}

pub open spec fn spec_msgs_encode(s: Seq<MsgToL1View>) -> Seq<wire::MessageToL1View> {
    Seq::new(s.len(), |i: int| spec_msg_encode(s[i]))
}

pub fn parse_messages(v: Vec<wire::MessageToL1>) -> (r: Vec<MsgToL1>)
    ensures
        msgs_view(r@) == spec_msgs_parse(wire_msgs_view(v@)),
{
    let ghost orig = v@;
    let mut rest = v;
    let mut out: Vec<MsgToL1> = Vec::new();
    while rest.len() > 0
        invariant
            out@.len() + rest@.len() == orig.len(),
            forall|j: int|
                0 <= j < out@.len() ==> (#[trigger] out@[j])@ == spec_msg_parse(orig[j]@),
            forall|j: int|
                0 <= j < rest@.len() ==> #[trigger] rest@[j] == orig[out@.len() + j],
        decreases rest@.len(),
    {
        let ghost pre = rest@;
        let m = rest.remove(0);
        proof {
            assert forall|j: int| 0 <= j < rest@.len() implies #[trigger] rest@[j] == orig[
                out@.len() + 1 + j
            ] by {
                assert(rest@[j] == pre.remove(0)[j]);
                assert(pre[j + 1] == orig[out@.len() + j + 1]);
            }
        }
        out.push(
            MsgToL1 {
                from_address: felt_or_zero(m.from_address),
                to_address: felt_or_zero(m.to_address),
                payload: m.payload,
            },
        );
    }
    proof {
        assert(msgs_view(out@) =~= spec_msgs_parse(wire_msgs_view(orig)));
    }
    out
}

pub fn encode_messages(v: Vec<MsgToL1>) -> (r: Vec<wire::MessageToL1>)
    ensures
        wire_msgs_view(r@) == spec_msgs_encode(msgs_view(v@)),
{
    let ghost orig = v@;
    let mut rest = v;
    let mut out: Vec<wire::MessageToL1> = Vec::new();
    while rest.len() > 0
        invariant
            out@.len() + rest@.len() == orig.len(),
            forall|j: int|
                0 <= j < out@.len() ==> (#[trigger] out@[j])@ == spec_msg_encode(orig[j]@),
            forall|j: int|
                0 <= j < rest@.len() ==> #[trigger] rest@[j] == orig[out@.len() + j],
        decreases rest@.len(),
    {
        let ghost pre = rest@;
        let m = rest.remove(0);
        proof {
            assert forall|j: int| 0 <= j < rest@.len() implies #[trigger] rest@[j] == orig[
                out@.len() + 1 + j
            ] by {
                assert(rest@[j] == pre.remove(0)[j]);
                assert(pre[j + 1] == orig[out@.len() + j + 1]);
            }
        }
        out.push(
            wire::MessageToL1 {
                from_address: Some(m.from_address),
                payload: m.payload,
                to_address: Some(m.to_address),
            },
        );
    }
    proof {
        assert(wire_msgs_view(out@) =~= spec_msgs_encode(msgs_view(orig)));
    }
    out
}

/// An absent revert reason means successful execution.
pub open spec fn spec_execution_result_parse(revert_reason: Option<Seq<char>>) -> ExecutionResultView {
    match revert_reason {
        Some(reason) => ExecutionResultView::Reverted(reason),
        None => ExecutionResultView::Succeeded,
    }
}

pub open spec fn spec_revert_reason(r: ExecutionResultView) -> Option<Seq<char>> {
    match r {
        ExecutionResultView::Succeeded => None,
        ExecutionResultView::Reverted(reason) => Some(reason),
    }
}

pub fn execution_result(revert_reason: Option<String>) -> (r: ExecutionResult)
    ensures
        r@ == spec_execution_result_parse(
            match revert_reason {
                Some(s) => Some(s@),
                None => None,
            },
        ),
{
    match revert_reason {
        Some(reason) => ExecutionResult::Reverted { reason },
        None => ExecutionResult::Succeeded,
    }
}

/// A builtin count of zero on the wire means "not used".
pub open spec fn spec_count_parse(n: u32) -> Option<u64> {
    if n == 0 {
        None
    } else {
        Some(n as u64)
    }
}

/// A count back onto the wire; `None` travels as zero.
pub open spec fn spec_count_encode(c: Option<u64>) -> u32 {
    match c {
        Some(v) => v as u32,
        None => 0,
    }
}

/// Whether a count fits the 32-bit wire field.
pub open spec fn spec_count_small(c: Option<u64>) -> bool {
    match c {
        Some(v) => v <= u32::MAX,
        None => true,
    }
}

fn count_parse(n: u32) -> (r: Option<u64>)
    ensures
        r == spec_count_parse(n),
{
    if n == 0 {
        None
    } else {
        Some(n as u64)
    }
}

fn count_encode(c: Option<u64>) -> (r: u32)
    requires
        spec_count_small(c),
    ensures
        r == spec_count_encode(c),
{
    match c {
        Some(v) => v as u32,
        None => 0,
    }
}

/// What decoding wire execution resources yields: both gas felts must fit
/// 128 bits; an absent resources message falls back to all zeros; the
/// total-gas field is not carried and decodes as zero.
pub open spec fn spec_exec_resources_parse(m: Option<wire::ExecutionResources>) -> Result<
    ExecutionResources,
    FromModelErrorView,
> {
    let e = match m {
        Some(x) => x,
        None => wire::ExecutionResources {
            builtins: None,
            steps: 0,
            memory_holes: 0,
            l1_gas: None,
            l1_data_gas: None,
            total_l1_gas: None,
        },
    };
    let b = match e.builtins {
        Some(x) => x,
        None => wire::BuiltinCounter {
            bitwise: 0,
            ecdsa: 0,
            ec_op: 0,
            pedersen: 0,
            range_check: 0,
            poseidon: 0,
            keccak: 0,
        },
    };
    if !fits_u128(spec_felt_or_zero(e.l1_gas)) {
        Err(FromModelErrorView::InvalidField("ExecutionResources::l1_gas"@))
    } else if !fits_u128(spec_felt_or_zero(e.l1_data_gas)) {
        Err(FromModelErrorView::InvalidField("ExecutionResources::l1_data_gas"@))
    } else {
        Ok(
            ExecutionResources {
                steps: e.steps as u64,
                memory_holes: spec_count_parse(e.memory_holes),
                range_check_builtin_applications: spec_count_parse(b.range_check),
                pedersen_builtin_applications: spec_count_parse(b.pedersen),
                poseidon_builtin_applications: spec_count_parse(b.poseidon),
                ec_op_builtin_applications: spec_count_parse(b.ec_op),
                ecdsa_builtin_applications: spec_count_parse(b.ecdsa),
                bitwise_builtin_applications: spec_count_parse(b.bitwise),
                keccak_builtin_applications: spec_count_parse(b.keccak),
                segment_arena_builtin: None,
                data_availability: L1Gas {
                    l1_gas: spec_felt_or_zero(e.l1_gas).lo,
                    l1_data_gas: spec_felt_or_zero(e.l1_data_gas).lo,
                },
                total_gas_consumed: L1Gas { l1_gas: 0, l1_data_gas: 0 },
            },
        )
    }
}

/// How execution resources are put on the wire: counters narrow to 32 bits,
/// the total gas is written into the gas felts, the data-availability gas
/// and the segment-arena counter are not carried.
pub open spec fn spec_exec_resources_encode(r: ExecutionResources) -> wire::ExecutionResources {
    wire::ExecutionResources {
        builtins: Some(
            wire::BuiltinCounter {
                bitwise: spec_count_encode(r.bitwise_builtin_applications),
                ecdsa: spec_count_encode(r.ecdsa_builtin_applications),
                ec_op: spec_count_encode(r.ec_op_builtin_applications),
                pedersen: spec_count_encode(r.pedersen_builtin_applications),
                range_check: spec_count_encode(r.range_check_builtin_applications),
                poseidon: spec_count_encode(r.poseidon_builtin_applications),
                keccak: spec_count_encode(r.keccak_builtin_applications),
            },
        ),
        steps: r.steps as u32,
        memory_holes: spec_count_encode(r.memory_holes),
        l1_gas: Some(Felt { lo: r.total_gas_consumed.l1_gas, hi: 0 }),
        l1_data_gas: Some(Felt { lo: r.total_gas_consumed.l1_data_gas, hi: 0 }),
        total_l1_gas: Some(Felt { lo: r.total_gas_consumed.l1_gas, hi: 0 }),
    }
}

/// Whether execution resources fit the wire's 32-bit counter fields; the
/// executable encoder requires this instead of panicking.
pub open spec fn spec_exec_resources_encodable(r: ExecutionResources) -> bool {
    &&& r.steps <= u32::MAX
    &&& spec_count_small(r.memory_holes)
    &&& spec_count_small(r.range_check_builtin_applications)
    &&& spec_count_small(r.pedersen_builtin_applications)
    &&& spec_count_small(r.poseidon_builtin_applications)
    &&& spec_count_small(r.ec_op_builtin_applications)
    &&& spec_count_small(r.ecdsa_builtin_applications)
    &&& spec_count_small(r.bitwise_builtin_applications)
    &&& spec_count_small(r.keccak_builtin_applications)
}

pub fn parse_exec_resources(m: Option<wire::ExecutionResources>) -> (r: Result<
    ExecutionResources,
    FromModelError,
>)
    ensures
        (match r {
            Ok(x) => spec_exec_resources_parse(m) == Ok::<ExecutionResources, FromModelErrorView>(
                x,
            ),
            Err(e) => spec_exec_resources_parse(m) == Err::<
                ExecutionResources,
                FromModelErrorView,
            >(e@),
        }),
{
    let e = match m {
        Some(x) => x,
        None => wire::ExecutionResources {
            builtins: None,
            steps: 0,
            memory_holes: 0,
            l1_gas: None,
            l1_data_gas: None,
            total_l1_gas: None,
        },
    };
    let b = match e.builtins {
        Some(x) => x,
        None => wire::BuiltinCounter {
            bitwise: 0,
            ecdsa: 0,
            ec_op: 0,
            pedersen: 0,
            range_check: 0,
            poseidon: 0,
            keccak: 0,
        },
    };
    let l1_gas_felt = felt_or_zero(e.l1_gas);
    let l1_gas = match crate::felt::felt_to_u128(&l1_gas_felt) {
        Ok(n) => n,
        Err(_) => {
            return Err(FromModelError::invalid_field("ExecutionResources::l1_gas"));
        },
    };
    let l1_data_gas_felt = felt_or_zero(e.l1_data_gas);
    let l1_data_gas = match crate::felt::felt_to_u128(&l1_data_gas_felt) {
        Ok(n) => n,
        Err(_) => {
            return Err(FromModelError::invalid_field("ExecutionResources::l1_data_gas"));
        },
    };
    Ok(
        ExecutionResources {
            steps: e.steps as u64,
            memory_holes: count_parse(e.memory_holes),
            range_check_builtin_applications: count_parse(b.range_check),
            pedersen_builtin_applications: count_parse(b.pedersen),
            poseidon_builtin_applications: count_parse(b.poseidon),
            ec_op_builtin_applications: count_parse(b.ec_op),
            ecdsa_builtin_applications: count_parse(b.ecdsa),
            bitwise_builtin_applications: count_parse(b.bitwise),
            keccak_builtin_applications: count_parse(b.keccak),
            segment_arena_builtin: None,
            data_availability: L1Gas { l1_gas, l1_data_gas },
            total_gas_consumed: L1Gas { l1_gas: 0, l1_data_gas: 0 },
        },
    )
}

pub fn exec_resources_to_model(r: ExecutionResources) -> (m: wire::ExecutionResources)
    requires
        spec_exec_resources_encodable(r),
    ensures
        m == spec_exec_resources_encode(r),
{
    wire::ExecutionResources {
        builtins: Some(
            wire::BuiltinCounter {
                bitwise: count_encode(r.bitwise_builtin_applications),
                ecdsa: count_encode(r.ecdsa_builtin_applications),
                ec_op: count_encode(r.ec_op_builtin_applications),
                pedersen: count_encode(r.pedersen_builtin_applications),
                range_check: count_encode(r.range_check_builtin_applications),
                poseidon: count_encode(r.poseidon_builtin_applications),
                keccak: count_encode(r.keccak_builtin_applications),
            },
        ),
        steps: r.steps as u32,
        memory_holes: count_encode(r.memory_holes),
        l1_gas: Some(Felt::from_u128(r.total_gas_consumed.l1_gas)),
        l1_data_gas: Some(Felt::from_u128(r.total_gas_consumed.l1_data_gas)),
        total_l1_gas: Some(Felt::from_u128(r.total_gas_consumed.l1_gas)),
    }
}

/// The decoded fields shared by every receipt kind.
pub struct CommonParts {
    pub actual_fee: FeePayment,
    pub messages_sent: Vec<MsgToL1>,
    pub execution_resources: ExecutionResources,
    pub execution_result: ExecutionResult,
}

#[verifier::ext_equal]
pub struct CommonPartsView {
    pub actual_fee: FeePayment,
    pub messages_sent: Seq<MsgToL1View>,
    pub execution_resources: ExecutionResources,
    pub execution_result: ExecutionResultView,
}

impl View for CommonParts {
    type V = CommonPartsView;

    open spec fn view(&self) -> CommonPartsView {
        CommonPartsView {
            actual_fee: self.actual_fee,
            messages_sent: msgs_view(self.messages_sent@),
            execution_resources: self.execution_resources,
            execution_result: self.execution_result@,
        }
    }
}

/// An absent common part falls back to all defaults.
pub open spec fn spec_common_or_default(c: Option<wire::CommonView>) -> wire::CommonView {
    match c {
        Some(x) => x,
        None => wire::CommonView {
            actual_fee: None,
            price_unit: 0,
            messages_sent: Seq::empty(),
            execution_resources: None,
            revert_reason: None,
        },
    }
}

/// What decoding the shared receipt fields yields; only the execution
/// resources can fail.
pub open spec fn spec_common_parse(c: wire::CommonView) -> Result<
    CommonPartsView,
    FromModelErrorView,
> {
    match spec_exec_resources_parse(c.execution_resources) {
        Err(e) => Err(e),
        Ok(er) => Ok(
            CommonPartsView {
                actual_fee: FeePayment {
                    amount: spec_felt_or_zero(c.actual_fee),
                    unit: spec_price_unit_parse(c.price_unit),
                },
                messages_sent: spec_msgs_parse(c.messages_sent),
                execution_resources: er,
                execution_result: spec_execution_result_parse(c.revert_reason),
            },
        ),
    }
}

pub open spec fn spec_common_encode(p: CommonPartsView) -> wire::CommonView {
    wire::CommonView {
        actual_fee: Some(p.actual_fee.amount),
        price_unit: spec_price_unit_code(p.actual_fee.unit),
        messages_sent: spec_msgs_encode(p.messages_sent),
        execution_resources: Some(spec_exec_resources_encode(p.execution_resources)),
        revert_reason: spec_revert_reason(p.execution_result),
    }
}

pub fn parse_common(c: Option<wire::Common>) -> (r: Result<CommonParts, FromModelError>)
    ensures
        view_result(r) == spec_common_parse(spec_common_or_default(wire::common_view(c))),
{
    let c0 = match c {
        Some(x) => x,
        None => wire::Common {
            actual_fee: None,
            price_unit: 0,
            messages_sent: Vec::new(),
            execution_resources: None,
            revert_reason: None,
        },
    };
    let execution_resources = match parse_exec_resources(c0.execution_resources) {
        Ok(x) => x,
        Err(e) => {
            return Err(e);
        },
    };
    let r = CommonParts {
        actual_fee: FeePayment {
            amount: felt_or_zero(c0.actual_fee),
            unit: price_unit_parse(c0.price_unit),
        },
        messages_sent: parse_messages(c0.messages_sent),
        execution_resources,
        execution_result: execution_result(c0.revert_reason),
    };
    proof {
        if c is None {
            assert(wire_msgs_view(Seq::<wire::MessageToL1>::empty())
                =~= Seq::<wire::MessageToL1View>::empty());
        }
        let sp = spec_common_parse(spec_common_or_default(wire::common_view(c)));
        assert(sp is Ok);
        assert(r@ =~~= sp->Ok_0);
    }
    Ok(r)
}

pub fn common_to_model(p: CommonParts) -> (m: wire::Common)
    requires
        spec_exec_resources_encodable(p.execution_resources),
    ensures
        m@ == spec_common_encode(p@),
{
    let revert_reason: Option<String> = match p.execution_result {
        ExecutionResult::Succeeded => None,
        ExecutionResult::Reverted { reason } => Some(reason),
    };
    wire::Common {
        actual_fee: Some(p.actual_fee.amount),
        price_unit: price_unit_code(p.actual_fee.unit),
        messages_sent: encode_messages(p.messages_sent),
        execution_resources: Some(exec_resources_to_model(p.execution_resources)),
        revert_reason,
    }
}

/// What decoding a wire invoke receipt yields.
pub open spec fn spec_invoke_receipt_parse(m: wire::InvokeView, h: Felt) -> Result<
    InvokeTransactionReceiptView,
    FromModelErrorView,
> {
    match spec_common_parse(spec_common_or_default(m.common)) {
        Err(e) => Err(e),
        Ok(c) => Ok(
            InvokeTransactionReceiptView {
                transaction_hash: h,
                actual_fee: c.actual_fee,
                messages_sent: c.messages_sent,
                events: Seq::empty(),
                execution_resources: c.execution_resources,
                execution_result: c.execution_result,
            },
        ),
    }
}

/// How an invoke receipt is put on the wire; the events are not carried.
pub open spec fn spec_invoke_receipt_encode(r: InvokeTransactionReceiptView) -> wire::InvokeView {
    wire::InvokeView {
        common: Some(
            spec_common_encode(
                CommonPartsView {
                    actual_fee: r.actual_fee,
                    messages_sent: r.messages_sent,
                    execution_resources: r.execution_resources,
                    execution_result: r.execution_result,
                },
            ),
        ),
    }
}

impl wire::Invoke {
    pub fn parse_model(self, transaction_hash: Felt) -> (r: Result<
        InvokeTransactionReceipt,
        FromModelError,
    >)
        ensures
            view_result(r) == spec_invoke_receipt_parse(self@, transaction_hash),
    {
        let c = match parse_common(self.common) {
            Ok(x) => x,
            Err(e) => {
                return Err(e);
            },
        };
        Ok(
            InvokeTransactionReceipt {
                transaction_hash,
                actual_fee: c.actual_fee,
                messages_sent: c.messages_sent,
                events: Vec::new(),
                execution_resources: c.execution_resources,
                execution_result: c.execution_result,
            },
        )
    }
}

impl InvokeTransactionReceipt {
    pub fn to_model(self) -> (m: wire::Invoke)
        requires
            spec_exec_resources_encodable(self.execution_resources),
        ensures
            m@ == spec_invoke_receipt_encode(self@),
    {
        wire::Invoke {
            common: Some(
                common_to_model(
                    CommonParts {
                        actual_fee: self.actual_fee,
                        messages_sent: self.messages_sent,
                        execution_resources: self.execution_resources,
                        execution_result: self.execution_result,
                    },
                ),
            ),
        }
    }
}

/// What decoding a wire L1-handler receipt yields.
pub open spec fn spec_l1_handler_receipt_parse(m: wire::L1HandlerView, h: Felt) -> Result<
    L1HandlerTransactionReceiptView,
    FromModelErrorView,
> {
    match spec_common_parse(spec_common_or_default(m.common)) {
        Err(e) => Err(e),
        Ok(c) => Ok(
            L1HandlerTransactionReceiptView {
                transaction_hash: h,
                actual_fee: c.actual_fee,
                messages_sent: c.messages_sent,
                events: Seq::empty(),
                execution_resources: c.execution_resources,
                execution_result: c.execution_result,
                message_hash: spec_felt_or_zero(m.msg_hash),
            },
        ),
    }
}

pub open spec fn spec_l1_handler_receipt_encode(r: L1HandlerTransactionReceiptView) -> wire::L1HandlerView {
    wire::L1HandlerView {
        common: Some(
            spec_common_encode(
                CommonPartsView {
                    actual_fee: r.actual_fee,
                    messages_sent: r.messages_sent,
                    execution_resources: r.execution_resources,
                    execution_result: r.execution_result,
                },
            ),
        ),
        msg_hash: Some(r.message_hash),
    }
}

impl wire::L1Handler {
    pub fn parse_model(self, transaction_hash: Felt) -> (r: Result<
        L1HandlerTransactionReceipt,
        FromModelError,
    >)
        ensures
            view_result(r) == spec_l1_handler_receipt_parse(self@, transaction_hash),
    {
        let c = match parse_common(self.common) {
            Ok(x) => x,
            Err(e) => {
                return Err(e);
            },
        };
        Ok(
            L1HandlerTransactionReceipt {
                transaction_hash,
                actual_fee: c.actual_fee,
                messages_sent: c.messages_sent,
                events: Vec::new(),
                execution_resources: c.execution_resources,
                execution_result: c.execution_result,
                message_hash: felt_or_zero(self.msg_hash),
            },
        )
    }
}

impl L1HandlerTransactionReceipt {
    pub fn to_model(self) -> (m: wire::L1Handler)
        requires
            spec_exec_resources_encodable(self.execution_resources),
        ensures
            m@ == spec_l1_handler_receipt_encode(self@),
    {
        wire::L1Handler {
            common: Some(
                common_to_model(
                    CommonParts {
                        actual_fee: self.actual_fee,
                        messages_sent: self.messages_sent,
                        execution_resources: self.execution_resources,
                        execution_result: self.execution_result,
                    },
                ),
            ),
            msg_hash: Some(self.message_hash),
        }
    }
}

/// What decoding a wire declare receipt yields.
pub open spec fn spec_declare_receipt_parse(m: wire::DeclareView, h: Felt) -> Result<
    DeclareTransactionReceiptView,
    FromModelErrorView,
> {
    match spec_common_parse(spec_common_or_default(m.common)) {
        Err(e) => Err(e),
        Ok(c) => Ok(
            DeclareTransactionReceiptView {
                transaction_hash: h,
                actual_fee: c.actual_fee,
                messages_sent: c.messages_sent,
                events: Seq::empty(),
                execution_resources: c.execution_resources,
                execution_result: c.execution_result,
            },
        ),
    }
}

pub open spec fn spec_declare_receipt_encode(r: DeclareTransactionReceiptView) -> wire::DeclareView {
    wire::DeclareView {
        common: Some(
            spec_common_encode(
                CommonPartsView {
                    actual_fee: r.actual_fee,
                    messages_sent: r.messages_sent,
                    execution_resources: r.execution_resources,
                    execution_result: r.execution_result,
                },
            ),
        ),
    }
}

impl wire::Declare {
    pub fn parse_model(self, transaction_hash: Felt) -> (r: Result<
        DeclareTransactionReceipt,
        FromModelError,
    >)
        ensures
            view_result(r) == spec_declare_receipt_parse(self@, transaction_hash),
    {
        let c = match parse_common(self.common) {
            Ok(x) => x,
            Err(e) => {
                return Err(e);
            },
        };
        Ok(
            DeclareTransactionReceipt {
                transaction_hash,
                actual_fee: c.actual_fee,
                messages_sent: c.messages_sent,
                events: Vec::new(),
                execution_resources: c.execution_resources,
                execution_result: c.execution_result,
            },
        )
    }
}

impl DeclareTransactionReceipt {
    pub fn to_model(self) -> (m: wire::Declare)
        requires
            spec_exec_resources_encodable(self.execution_resources),
        ensures
            m@ == spec_declare_receipt_encode(self@),
    {
        wire::Declare {
            common: Some(
                common_to_model(
                    CommonParts {
                        actual_fee: self.actual_fee,
                        messages_sent: self.messages_sent,
                        execution_resources: self.execution_resources,
                        execution_result: self.execution_result,
                    },
                ),
            ),
        }
    }
}

/// What decoding a wire deploy receipt yields.
pub open spec fn spec_deploy_receipt_parse(m: wire::DeployView, h: Felt) -> Result<
    DeployTransactionReceiptView,
    FromModelErrorView,
> {
    match spec_common_parse(spec_common_or_default(m.common)) {
        Err(e) => Err(e),
        Ok(c) => Ok(
            DeployTransactionReceiptView {
                transaction_hash: h,
                actual_fee: c.actual_fee,
                messages_sent: c.messages_sent,
                events: Seq::empty(),
                execution_resources: c.execution_resources,
                execution_result: c.execution_result,
                contract_address: spec_felt_or_zero(m.contract_address),
            },
        ),
    }
}

pub open spec fn spec_deploy_receipt_encode(r: DeployTransactionReceiptView) -> wire::DeployView {
    wire::DeployView {
        common: Some(
            spec_common_encode(
                CommonPartsView {
                    actual_fee: r.actual_fee,
                    messages_sent: r.messages_sent,
                    execution_resources: r.execution_resources,
                    execution_result: r.execution_result,
                },
            ),
        ),
        contract_address: Some(r.contract_address),
    }
}

impl wire::Deploy {
    pub fn parse_model(self, transaction_hash: Felt) -> (r: Result<
        DeployTransactionReceipt,
        FromModelError,
    >)
        ensures
            view_result(r) == spec_deploy_receipt_parse(self@, transaction_hash),
    {
        let c = match parse_common(self.common) {
            Ok(x) => x,
            Err(e) => {
                return Err(e);
            },
        };
        Ok(
            DeployTransactionReceipt {
                transaction_hash,
                actual_fee: c.actual_fee,
                messages_sent: c.messages_sent,
                events: Vec::new(),
                execution_resources: c.execution_resources,
                execution_result: c.execution_result,
                contract_address: felt_or_zero(self.contract_address),
            },
        )
    }
}

impl DeployTransactionReceipt {
    pub fn to_model(self) -> (m: wire::Deploy)
        requires
            spec_exec_resources_encodable(self.execution_resources),
        ensures
            m@ == spec_deploy_receipt_encode(self@),
    {
        wire::Deploy {
            common: Some(
                common_to_model(
                    CommonParts {
                        actual_fee: self.actual_fee,
                        messages_sent: self.messages_sent,
                        execution_resources: self.execution_resources,
                        execution_result: self.execution_result,
                    },
                ),
            ),
            contract_address: Some(self.contract_address),
        }
    }
}

/// What decoding a wire deploy-account receipt yields.
pub open spec fn spec_deploy_account_receipt_parse(m: wire::DeployAccountView, h: Felt) -> Result<
    DeployAccountTransactionReceiptView,
    FromModelErrorView,
> {
    match spec_common_parse(spec_common_or_default(m.common)) {
        Err(e) => Err(e),
        Ok(c) => Ok(
            DeployAccountTransactionReceiptView {
                transaction_hash: h,
                actual_fee: c.actual_fee,
                messages_sent: c.messages_sent,
                events: Seq::empty(),
                execution_resources: c.execution_resources,
                execution_result: c.execution_result,
                contract_address: spec_felt_or_zero(m.contract_address),
            },
        ),
    }
}

pub open spec fn spec_deploy_account_receipt_encode(r: DeployAccountTransactionReceiptView) -> wire::DeployAccountView {
    wire::DeployAccountView {
        common: Some(
            spec_common_encode(
                CommonPartsView {
                    actual_fee: r.actual_fee,
                    messages_sent: r.messages_sent,
                    execution_resources: r.execution_resources,
                    execution_result: r.execution_result,
                },
            ),
        ),
        contract_address: Some(r.contract_address),
    }
}

impl wire::DeployAccount {
    pub fn parse_model(self, transaction_hash: Felt) -> (r: Result<
        DeployAccountTransactionReceipt,
        FromModelError,
    >)
        ensures
            view_result(r) == spec_deploy_account_receipt_parse(self@, transaction_hash),
    {
        let c = match parse_common(self.common) {
            Ok(x) => x,
            Err(e) => {
                return Err(e);
            },
        };
        Ok(
            DeployAccountTransactionReceipt {
                transaction_hash,
                actual_fee: c.actual_fee,
                messages_sent: c.messages_sent,
                events: Vec::new(),
                execution_resources: c.execution_resources,
                execution_result: c.execution_result,
                contract_address: felt_or_zero(self.contract_address),
            },
        )
    }
}

impl DeployAccountTransactionReceipt {
    pub fn to_model(self) -> (m: wire::DeployAccount)
        requires
            spec_exec_resources_encodable(self.execution_resources),
        ensures
            m@ == spec_deploy_account_receipt_encode(self@),
    {
        wire::DeployAccount {
            common: Some(
                common_to_model(
                    CommonParts {
                        actual_fee: self.actual_fee,
                        messages_sent: self.messages_sent,
                        execution_resources: self.execution_resources,
                        execution_result: self.execution_result,
                    },
                ),
            ),
            contract_address: Some(self.contract_address),
        }
    }
}

/// What decoding a wire receipt envelope yields: the kind is required.
pub open spec fn spec_receipt_parse(m: wire::ReceiptView, h: Felt) -> Result<
    TransactionReceiptView,
    FromModelErrorView,
> {
    match m.kind {
        None => Err(FromModelErrorView::MissingField("Receipt::type"@)),
        Some(k) => match k {
            wire::TypeView::Invoke(x) => match spec_invoke_receipt_parse(x, h) {
                Ok(r) => Ok(TransactionReceiptView::Invoke(r)),
                Err(e) => Err(e),
            },
            wire::TypeView::L1Handler(x) => match spec_l1_handler_receipt_parse(x, h) {
                Ok(r) => Ok(TransactionReceiptView::L1Handler(r)),
                Err(e) => Err(e),
            },
            wire::TypeView::Declare(x) => match spec_declare_receipt_parse(x, h) {
                Ok(r) => Ok(TransactionReceiptView::Declare(r)),
                Err(e) => Err(e),
            },
            wire::TypeView::DeprecatedDeploy(x) => match spec_deploy_receipt_parse(x, h) {
                Ok(r) => Ok(TransactionReceiptView::Deploy(r)),
                Err(e) => Err(e),
            },
            wire::TypeView::DeployAccount(x) => match spec_deploy_account_receipt_parse(x, h) {
                Ok(r) => Ok(TransactionReceiptView::DeployAccount(r)),
                Err(e) => Err(e),
            },
        },
    }
}

pub open spec fn spec_receipt_encode(r: TransactionReceiptView) -> wire::ReceiptView {
    wire::ReceiptView {
        kind: Some(
            match r {
                TransactionReceiptView::Invoke(x) => wire::TypeView::Invoke(
                    spec_invoke_receipt_encode(x),
                ),
                TransactionReceiptView::L1Handler(x) => wire::TypeView::L1Handler(
                    spec_l1_handler_receipt_encode(x),
                ),
                TransactionReceiptView::Declare(x) => wire::TypeView::Declare(
                    spec_declare_receipt_encode(x),
                ),
                TransactionReceiptView::Deploy(x) => wire::TypeView::DeprecatedDeploy(
                    spec_deploy_receipt_encode(x),
                ),
                TransactionReceiptView::DeployAccount(x) => wire::TypeView::DeployAccount(
                    spec_deploy_account_receipt_encode(x),
                ),
            },
        ),
    }
}

impl wire::Receipt {
    pub fn parse_model(self, transaction_hash: Felt) -> (r: Result<
        TransactionReceipt,
        FromModelError,
    >)
        ensures
            view_result(r) == spec_receipt_parse(self@, transaction_hash),
    {
        let kind = match self.kind {
            Some(k) => k,
            None => {
                return Err(FromModelError::missing_field("Receipt::type"));
            },
        };
        match kind {
            wire::Type::Invoke(x) => match x.parse_model(transaction_hash) {
                Ok(r) => Ok(TransactionReceipt::Invoke(r)),
                Err(e) => Err(e),
            },
            wire::Type::L1Handler(x) => match x.parse_model(transaction_hash) {
                Ok(r) => Ok(TransactionReceipt::L1Handler(r)),
                Err(e) => Err(e),
            },
            wire::Type::Declare(x) => match x.parse_model(transaction_hash) {
                Ok(r) => Ok(TransactionReceipt::Declare(r)),
                Err(e) => Err(e),
            },
            wire::Type::DeprecatedDeploy(x) => match x.parse_model(transaction_hash) {
                Ok(r) => Ok(TransactionReceipt::Deploy(r)),
                Err(e) => Err(e),
            },
            wire::Type::DeployAccount(x) => match x.parse_model(transaction_hash) {
                Ok(r) => Ok(TransactionReceipt::DeployAccount(r)),
                Err(e) => Err(e),
            },
        }
    }
}

/// Whether a receipt fits the wire's integer widths; the executable encoder
/// requires this instead of panicking.
pub open spec fn spec_receipt_encodable(r: TransactionReceiptView) -> bool {
    match r {
        TransactionReceiptView::Invoke(x) => spec_exec_resources_encodable(x.execution_resources),
        TransactionReceiptView::L1Handler(x) => spec_exec_resources_encodable(
            x.execution_resources,
        ),
        TransactionReceiptView::Declare(x) => spec_exec_resources_encodable(x.execution_resources),
        TransactionReceiptView::Deploy(x) => spec_exec_resources_encodable(x.execution_resources),
        TransactionReceiptView::DeployAccount(x) => spec_exec_resources_encodable(
            x.execution_resources,
        ),
    }
}

impl TransactionReceipt {
    pub fn to_model(self) -> (m: wire::Receipt)
        requires
            spec_receipt_encodable(self@),
        ensures
            m@ == spec_receipt_encode(self@),
    {
        wire::Receipt {
            kind: Some(
                match self {
                    TransactionReceipt::Invoke(x) => wire::Type::Invoke(x.to_model()),
                    TransactionReceipt::L1Handler(x) => wire::Type::L1Handler(x.to_model()),
                    TransactionReceipt::Declare(x) => wire::Type::Declare(x.to_model()),
                    TransactionReceipt::Deploy(x) => wire::Type::DeprecatedDeploy(x.to_model()),
                    TransactionReceipt::DeployAccount(x) => wire::Type::DeployAccount(
                        x.to_model(),
                    ),
                },
            ),
        }
    }
}

/// What decoding a wire transaction-with-receipt yields: the transaction
/// envelope is decoded first, then the receipt against the envelope's hash;
/// an omitted envelope or receipt decodes as its empty form and fails with
/// the corresponding missing-field error.
pub open spec fn spec_transaction_with_receipt_parse(m: wire::TransactionWithReceiptView) -> Result<
    TransactionWithReceiptView,
    FromModelErrorView,
> {
    let env = match m.transaction {
        Some(t) => t,
        None => wire_transaction::TransactionView { transaction_hash: None, txn: None },
    };
    match spec_transaction_with_hash_parse(env) {
        Err(e) => Err(e),
        Ok(twh) => {
            let rec = match m.receipt {
                Some(x) => x,
                None => wire::ReceiptView { kind: None },
            };
            match spec_receipt_parse(rec, twh.hash) {
                Err(e) => Err(e),
                Ok(receipt) => Ok(
                    TransactionWithReceiptView { transaction: twh.transaction, receipt },
                ),
            }
        },
    }
}

/// How a transaction with its receipt is put on the wire: the envelope's
/// hash is the receipt's transaction hash.
pub open spec fn spec_transaction_with_receipt_encode(t: TransactionWithReceiptView) -> wire::TransactionWithReceiptView {
    wire::TransactionWithReceiptView {
        transaction: Some(
            wire_transaction::TransactionView {
                transaction_hash: Some(spec_receipt_hash(t.receipt)),
                txn: Some(spec_txn_encode(t.transaction)),
            },
        ),
        receipt: Some(spec_receipt_encode(t.receipt)),
    }
}

impl TransactionWithReceipt {
    /// Decodes a wire transaction-with-receipt.
    pub fn parse_model(m: wire::TransactionWithReceipt) -> (r: Result<
        TransactionWithReceipt,
        FromModelError,
    >)
        ensures
            view_result(r) == spec_transaction_with_receipt_parse(m@),
    {
        let env = match m.transaction {
            Some(t) => t,
            None => wire_transaction::Transaction::empty(),
        };
        let twh = match TransactionWithHash::parse_model(env) {
            Ok(t) => t,
            Err(e) => {
                return Err(e);
            },
        };
        let rec = match m.receipt {
            Some(x) => x,
            None => wire::Receipt::empty(),
        };
        let receipt = match rec.parse_model(twh.hash) {
            Ok(x) => x,
            Err(e) => {
                return Err(e);
            },
        };
        Ok(TransactionWithReceipt { transaction: twh.transaction, receipt })
    }

    pub fn to_model(self) -> (m: wire::TransactionWithReceipt)
        requires
            spec_transaction_encodable(self@.transaction),
            spec_receipt_encodable(self@.receipt),
        ensures
            m@ == spec_transaction_with_receipt_encode(self@),
    {
        let hash = self.receipt.transaction_hash();
        wire::TransactionWithReceipt {
            transaction: Some(
                wire_transaction::Transaction {
                    transaction_hash: Some(hash),
                    txn: Some(self.transaction.to_model()),
                },
            ),
            receipt: Some(self.receipt.to_model()),
        }
    }
}

/// Whether a receipt survives the trip onto the wire and back: its counters
/// fit the wire widths and carry no zero under `Some` (zero travels as "not
/// used"), the segment-arena counter and both gas records are not carried by
/// the wire and must hold their default values, and the events list is empty
/// (events travel in a stream of their own).
pub open spec fn spec_exec_resources_round_trippable(r: ExecutionResources) -> bool {
    &&& spec_exec_resources_encodable(r)
    &&& r.memory_holes != Some(0u64)
    &&& r.range_check_builtin_applications != Some(0u64)
    &&& r.pedersen_builtin_applications != Some(0u64)
    &&& r.poseidon_builtin_applications != Some(0u64)
    &&& r.ec_op_builtin_applications != Some(0u64)
    &&& r.ecdsa_builtin_applications != Some(0u64)
    &&& r.bitwise_builtin_applications != Some(0u64)
    &&& r.keccak_builtin_applications != Some(0u64)
    &&& r.segment_arena_builtin is None
    &&& r.data_availability == (L1Gas { l1_gas: 0, l1_data_gas: 0 })
    &&& r.total_gas_consumed == (L1Gas { l1_gas: 0, l1_data_gas: 0 })
}

pub open spec fn spec_receipt_round_trippable(r: TransactionReceiptView) -> bool {
    match r {
        TransactionReceiptView::Invoke(x) => spec_exec_resources_round_trippable(
            x.execution_resources,
        ) && x.events.len() == 0,
        TransactionReceiptView::L1Handler(x) => spec_exec_resources_round_trippable(
            x.execution_resources,
        ) && x.events.len() == 0,
        TransactionReceiptView::Declare(x) => spec_exec_resources_round_trippable(
            x.execution_resources,
        ) && x.events.len() == 0,
        TransactionReceiptView::Deploy(x) => spec_exec_resources_round_trippable(
            x.execution_resources,
        ) && x.events.len() == 0,
        TransactionReceiptView::DeployAccount(x) => spec_exec_resources_round_trippable(
            x.execution_resources,
        ) && x.events.len() == 0,
    }
}

/// Execution resources survive the trip onto the wire and back.
pub proof fn lemma_exec_resources_round_trip(r: ExecutionResources)
    requires
        spec_exec_resources_round_trippable(r),
    ensures
        spec_exec_resources_parse(Some(spec_exec_resources_encode(r))) == Ok::<
            ExecutionResources,
            FromModelErrorView,
        >(r),
{
}

/// A list of messages survives the trip onto the wire and back.
pub proof fn lemma_msgs_round_trip(s: Seq<MsgToL1View>)
    ensures
        spec_msgs_parse(spec_msgs_encode(s)) == s,
{
    assert(spec_msgs_parse(spec_msgs_encode(s)) =~~= s);
}

/// The shared receipt fields survive the trip onto the wire and back.
pub proof fn lemma_common_round_trip(p: CommonPartsView)
    requires
        spec_exec_resources_round_trippable(p.execution_resources),
    ensures
        spec_common_parse(spec_common_or_default(Some(spec_common_encode(p)))) == Ok::<
            CommonPartsView,
            FromModelErrorView,
        >(p),
{
    lemma_exec_resources_round_trip(p.execution_resources);
    lemma_msgs_round_trip(p.messages_sent);
    let parsed = spec_common_parse(spec_common_or_default(Some(spec_common_encode(p))));
    assert(parsed is Ok);
    assert(parsed->Ok_0 =~~= p);
}

/// A receipt survives the trip onto the wire and back, decoded against its
/// own transaction hash.
pub proof fn lemma_receipt_round_trip(r: TransactionReceiptView)
    requires
        spec_receipt_round_trippable(r),
    ensures
        spec_receipt_parse(spec_receipt_encode(r), spec_receipt_hash(r)) == Ok::<
            TransactionReceiptView,
            FromModelErrorView,
        >(r),
{
    match r {
        TransactionReceiptView::Invoke(x) => {
            lemma_common_round_trip(
                CommonPartsView {
                    actual_fee: x.actual_fee,
                    messages_sent: x.messages_sent,
                    execution_resources: x.execution_resources,
                    execution_result: x.execution_result,
                },
            );
            let parsed = spec_invoke_receipt_parse(
                spec_invoke_receipt_encode(x),
                x.transaction_hash,
            );
            assert(parsed is Ok);
            assert(parsed->Ok_0 =~~= x);
        },
        TransactionReceiptView::L1Handler(x) => {
            lemma_common_round_trip(
                CommonPartsView {
                    actual_fee: x.actual_fee,
                    messages_sent: x.messages_sent,
                    execution_resources: x.execution_resources,
                    execution_result: x.execution_result,
                },
            );
            let parsed = spec_l1_handler_receipt_parse(
                spec_l1_handler_receipt_encode(x),
                x.transaction_hash,
            );
            assert(parsed is Ok);
            assert(parsed->Ok_0 =~~= x);
        },
        TransactionReceiptView::Declare(x) => {
            lemma_common_round_trip(
                CommonPartsView {
                    actual_fee: x.actual_fee,
                    messages_sent: x.messages_sent,
                    execution_resources: x.execution_resources,
                    execution_result: x.execution_result,
                },
            );
            let parsed = spec_declare_receipt_parse(
                spec_declare_receipt_encode(x),
                x.transaction_hash,
            );
            assert(parsed is Ok);
            assert(parsed->Ok_0 =~~= x);
        },
        TransactionReceiptView::Deploy(x) => {
            lemma_common_round_trip(
                CommonPartsView {
                    actual_fee: x.actual_fee,
                    messages_sent: x.messages_sent,
                    execution_resources: x.execution_resources,
                    execution_result: x.execution_result,
                },
            );
            let parsed = spec_deploy_receipt_parse(
                spec_deploy_receipt_encode(x),
                x.transaction_hash,
            );
            assert(parsed is Ok);
            assert(parsed->Ok_0 =~~= x);
        },
        TransactionReceiptView::DeployAccount(x) => {
            lemma_common_round_trip(
                CommonPartsView {
                    actual_fee: x.actual_fee,
                    messages_sent: x.messages_sent,
                    execution_resources: x.execution_resources,
                    execution_result: x.execution_result,
                },
            );
            let parsed = spec_deploy_account_receipt_parse(
                spec_deploy_account_receipt_encode(x),
                x.transaction_hash,
            );
            assert(parsed is Ok);
            assert(parsed->Ok_0 =~~= x);
        },
    }
}

/// Round trip for a transaction paired with its receipt: encoding to wire
/// form and decoding back yields the original, for every transaction kind
/// and version.
pub proof fn lemma_transaction_with_receipt_round_trip(t: TransactionWithReceiptView)
    requires
        spec_transaction_encodable(t.transaction),
        spec_receipt_round_trippable(t.receipt),
    ensures
        spec_transaction_with_receipt_parse(spec_transaction_with_receipt_encode(t)) == Ok::<
            TransactionWithReceiptView,
            FromModelErrorView,
        >(t),
{
    let h = spec_receipt_hash(t.receipt);
    crate::convert::lemma_transaction_with_hash_round_trip(
        crate::transactions::TransactionWithHashView { transaction: t.transaction, hash: h },
    );
    lemma_receipt_round_trip(t.receipt);
    assert(spec_transaction_with_hash_encode(
        crate::transactions::TransactionWithHashView { transaction: t.transaction, hash: h },
    ) == (wire_transaction::TransactionView {
        transaction_hash: Some(h),
        txn: Some(spec_txn_encode(t.transaction)),
    }));
}

} // verus!
