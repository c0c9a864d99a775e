//! Reading a transactions response stream.
//!
//! A peer answers a transactions request with a stream of messages, one
//! transaction-with-receipt each, closed by a terminal marker.  The caller
//! knows from the request's metadata how many transactions it expects.  A
//! stream that ends before delivering that many is malformed: it is reported
//! as a bad request, except that a stream ending before the first message
//! counts as a plain end of stream.

use vstd::prelude::*;

use crate::convert_receipt::spec_transaction_with_receipt_parse;
use crate::decimal::dec_str;
use crate::decimal::u64_to_string;
use crate::receipts::TransactionWithReceipt;
use crate::receipts::TransactionWithReceiptView;
use crate::wire_receipt;

verus! {

/// The terminal marker of a response stream.
#[derive(Clone, Copy, Debug, PartialEq, Eq)]
pub struct Fin {}

/// One message of a transactions response stream.
#[derive(Clone, Debug, PartialEq, Eq)]
pub enum TransactionMessage {
    TransactionWithReceipt(wire_receipt::TransactionWithReceipt),
    Fin(Fin),
}

#[verifier::ext_equal]
pub enum TransactionMessageView {
    TransactionWithReceipt(wire_receipt::TransactionWithReceiptView),
    Fin,
}

impl View for TransactionMessage {
    type V = TransactionMessageView;

    open spec fn view(&self) -> TransactionMessageView {
        match self {
            TransactionMessage::TransactionWithReceipt(m) => (
            TransactionMessageView::TransactionWithReceipt(m@)),
            TransactionMessage::Fin(_) => TransactionMessageView::Fin,
        }
    }
}

/// One response of a transactions stream.
#[derive(Clone, Debug, PartialEq, Eq)]
pub struct TransactionsResponse {
    pub transaction_message: Option<TransactionMessage>,
}

#[verifier::ext_equal]
pub struct TransactionsResponseView {
    pub transaction_message: Option<TransactionMessageView>,
}

impl View for TransactionsResponse {
    type V = TransactionsResponseView;

    open spec fn view(&self) -> TransactionsResponseView {
        TransactionsResponseView {
            transaction_message: match &self.transaction_message {
                Some(m) => Some(m@),
                None => None,
            },
        }
    }
}

/// The views of a list of responses.
pub open spec fn responses_view(v: Seq<TransactionsResponse>) -> Seq<TransactionsResponseView> {
    Seq::new(v.len(), |i: int| v[i]@)
}

/// The views of a list of decoded transactions.
pub open spec fn twrs_view(v: Seq<TransactionWithReceipt>) -> Seq<TransactionWithReceiptView> {
    Seq::new(v.len(), |i: int| v[i]@)
}

/// A failure while reading a peer's response stream.
#[derive(Clone, Debug, PartialEq, Eq)]
pub enum SyncHandlersError {
    /// The stream ended before the first expected message.
    EndOfStream,
    /// The peer's response was malformed; carries the complaint.
    BadRequest(String),
}

#[verifier::ext_equal]
pub enum SyncHandlersErrorView {
    EndOfStream,
    BadRequest(Seq<char>),
}

impl View for SyncHandlersError {
    type V = SyncHandlersErrorView;

    open spec fn view(&self) -> SyncHandlersErrorView {
        match self {
            SyncHandlersError::EndOfStream => SyncHandlersErrorView::EndOfStream,
            SyncHandlersError::BadRequest(s) => SyncHandlersErrorView::BadRequest(s@),
        }
    }
}

/// The error for a stream that ended at position `i` of `count` expected
/// messages: a plain end of stream at the very start, a malformed short
/// response after that.
pub open spec fn spec_handle_fin(count: int, i: int) -> SyncHandlersErrorView {
    if i == 0 {
        SyncHandlersErrorView::EndOfStream
    } else {
        SyncHandlersErrorView::BadRequest(
            "Expected "@ + dec_str(count) + " messages in stream, got "@ + dec_str(i),
        )
    }
}

/// What reading the stream yields from position `i` on, with `acc` already
/// read: each further position must hold a message with a convertible
/// transaction-with-receipt; the terminal marker or the stream's end before
/// position `count` is a short response.
pub open spec fn spec_read_loop(
    s: Seq<TransactionsResponseView>,
    count: int,
    i: int,
    acc: Seq<TransactionWithReceiptView>,
) -> Result<Seq<TransactionWithReceiptView>, SyncHandlersErrorView>
    decreases count - i,
{
    if i >= count {
        Ok(acc)
    } else if i >= s.len() {
        Err(spec_handle_fin(count, i))
    } else {
        match s[i].transaction_message {
            None => Err(SyncHandlersErrorView::BadRequest("No message"@)),
            Some(TransactionMessageView::Fin) => Err(spec_handle_fin(count, i)),
            Some(TransactionMessageView::TransactionWithReceipt(m)) => match
                spec_transaction_with_receipt_parse(m) {
                Err(_) => Err(
                    SyncHandlersErrorView::BadRequest("Converting transaction with receipt"@),
                ),
                Ok(v) => spec_read_loop(s, count, i + 1, acc.push(v)),
            },
        }
    }
}

/// What reading a whole response stream yields.
pub open spec fn spec_read_transactions_stream(
    s: Seq<TransactionsResponseView>,
    count: int,
) -> Result<Seq<TransactionWithReceiptView>, SyncHandlersErrorView> {
    spec_read_loop(s, count, 0, Seq::empty())
}

/// Reads the first `transactions_count` transactions out of the collected
/// messages of a response stream.
pub fn read_transactions_stream(
    responses: Vec<TransactionsResponse>,
    transactions_count: usize,
) -> (r: Result<Vec<TransactionWithReceipt>, SyncHandlersError>)
    ensures
        (match r {
            Ok(v) => spec_read_transactions_stream(responses_view(responses@), transactions_count as int)
                == Ok::<Seq<TransactionWithReceiptView>, SyncHandlersErrorView>(twrs_view(v@)),
            Err(e) => spec_read_transactions_stream(responses_view(responses@), transactions_count as int)
                == Err::<Seq<TransactionWithReceiptView>, SyncHandlersErrorView>(e@),
        }),
{
    let ghost sv = responses_view(responses@);
    let ghost count = transactions_count as int;
    let mut rest = responses;
    let mut out: Vec<TransactionWithReceipt> = Vec::new();
    let mut i: usize = 0;
    proof {
        assert(twrs_view(out@) =~= Seq::<TransactionWithReceiptView>::empty());
    }
    while i < transactions_count
        invariant
            i <= transactions_count,
            count == transactions_count as int,
            sv == responses_view(responses@),
            out@.len() == i,
            i + rest@.len() == sv.len(),
            forall|j: int| 0 <= j < rest@.len() ==> (#[trigger] rest@[j])@ == sv[i + j],
            spec_read_loop(sv, count, i as int, twrs_view(out@)) == spec_read_transactions_stream(
                sv,
                count,
            ),
        decreases transactions_count - i,
    {
        if rest.len() == 0 {
            let e = handle_fin(transactions_count, i);
            proof {
                assert(i as int >= sv.len());
                assert(spec_read_loop(sv, count, i as int, twrs_view(out@)) == Err::<
                    Seq<TransactionWithReceiptView>,
                    SyncHandlersErrorView,
                >(e@));
            }
            return Err(e);
        }
        let ghost pre = rest@;
        let resp = rest.remove(0);
        proof {
            assert forall|j: int| 0 <= j < rest@.len() implies (#[trigger] rest@[j])@ == sv[
                i + 1 + j
            ] by {
                assert(rest@[j] == pre.remove(0)[j]);
                assert(pre[j + 1]@ == sv[i + j + 1]);
            }
            assert(resp@ == sv[i as int]);
        }
        let msg = match resp.transaction_message {
            Some(m) => m,
            None => {
                let e = SyncHandlersError::BadRequest("No message".to_owned());
                proof {
                    assert(sv[i as int].transaction_message is None);
                    assert(e@ =~~= SyncHandlersErrorView::BadRequest("No message"@));
                    assert(spec_read_loop(sv, count, i as int, twrs_view(out@)) == Err::<
                        Seq<TransactionWithReceiptView>,
                        SyncHandlersErrorView,
                    >(e@));
                }
                return Err(e);
            },
        };
        let m = match msg {
            TransactionMessage::TransactionWithReceipt(m) => m,
            TransactionMessage::Fin(_) => {
                let e = handle_fin(transactions_count, i);
                proof {
                    assert(sv[i as int].transaction_message matches Some(mm) && mm is Fin);
                    assert(spec_read_loop(sv, count, i as int, twrs_view(out@)) == Err::<
                        Seq<TransactionWithReceiptView>,
                        SyncHandlersErrorView,
                    >(e@));
                }
                return Err(e);
            },
        };
        let v = match TransactionWithReceipt::parse_model(m) {
            Ok(v) => v,
            Err(_) => {
                let e = SyncHandlersError::BadRequest(
                    "Converting transaction with receipt".to_owned(),
                );
                proof {
                    assert(spec_transaction_with_receipt_parse(m@) is Err);
                    assert(e@ =~~= SyncHandlersErrorView::BadRequest(
                        "Converting transaction with receipt"@,
                    ));
                    assert(spec_read_loop(sv, count, i as int, twrs_view(out@)) == Err::<
                        Seq<TransactionWithReceiptView>,
                        SyncHandlersErrorView,
                    >(e@));
                }
                return Err(e);
            },
        };
        let ghost acc_old = twrs_view(out@);
        out.push(v);
        proof {
            assert(twrs_view(out@) =~= acc_old.push(v@));
            assert(spec_transaction_with_receipt_parse(m@) == Ok::<
                TransactionWithReceiptView,
                crate::convert::FromModelErrorView,
            >(v@));
            assert(spec_read_loop(sv, count, i as int, acc_old) == spec_read_loop(
                sv,
                count,
                i + 1,
                acc_old.push(v@),
            ));
        }
        i = i + 1;
    }
    proof {
        assert(spec_read_loop(sv, count, i as int, twrs_view(out@)) == Ok::<
            Seq<TransactionWithReceiptView>,
            SyncHandlersErrorView,
        >(twrs_view(out@)));
    }
    Ok(out)
}

/// The error for a stream that ended early, as the specification renders it.
fn handle_fin(transactions_count: usize, i: usize) -> (e: SyncHandlersError)
    ensures
        e@ == spec_handle_fin(transactions_count as int, i as int),
{
    if i == 0 {
        SyncHandlersError::EndOfStream
    } else {
        let mut s = "Expected ".to_owned();
        s.append(u64_to_string(transactions_count as u64).as_str());
        s.append(" messages in stream, got ");
        s.append(u64_to_string(i as u64).as_str());
        proof {
            assert(s@ =~= "Expected "@ + dec_str(transactions_count as int)
                + " messages in stream, got "@ + dec_str(i as int));
        }
        SyncHandlersError::BadRequest(s)
    }
}

} // verus!
