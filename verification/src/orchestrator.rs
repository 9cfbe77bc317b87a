//! The order-fulfillment orchestrator: one poll cycle over the open orders.
//!
//! Each order's status selects one of three workflows — approve-and-invoice,
//! fund-and-confirm, or skip — and each workflow is a step machine: every
//! state names the one outside call to perform next, and the transition
//! functions decide, from the call's classified result, what follows. The
//! surrounding application performs the calls and feeds the results back; the
//! decisions, and the cycle-level bookkeeping that isolates per-order
//! failures and stops the whole cycle on a credential rejection, are verified
//! here.

use vstd::prelude::*;

use crate::encoding::{encode_hex, spec_dec_digits, spec_hex_of, tx_point};
use crate::errors::{CallFailure, OrderError};
use crate::fee::spec_fee_half_sats;
use crate::model::{Order, OrderStatus, Orders, Outpoint, SpendableOutput};
use crate::selector::{select, spec_is_min_cover, spec_no_cover, spec_shortfall};

verus! {

/// Validity window of a seller invoice: 48 hours.
pub const INVOICE_EXPIRY_SECONDS: u64 = 172800;

/// Which workflow an order's status calls for.
#[derive(Clone, Copy, Debug, PartialEq, Eq, Structural)]
pub enum Workflow {
    /// Approve the order: probe the buyer if policy asks, invoice, accept.
    Approve,
    /// Fund the order: fee rate, coin selection, profitability, open, record.
    Fund,
    /// Nothing to do for this status.
    Skip,
}

/// Status dispatch: exactly one workflow per actionable status, and a skip —
/// no marketplace mutation — for every other status.
pub fn classify_status(status: OrderStatus) -> (w: Workflow)
    ensures
        w == (match status {
            OrderStatus::WaitingForSellerApproval => Workflow::Approve,
            OrderStatus::WaitingForChannelOpen => Workflow::Fund,
            OrderStatus::Other => Workflow::Skip,
        }),
{
    match status {
        OrderStatus::WaitingForSellerApproval => Workflow::Approve,
        OrderStatus::WaitingForChannelOpen => Workflow::Fund,
        OrderStatus::Other => Workflow::Skip,
    }
}

/// Typed result of the node's connect-to-peer call.
#[derive(Clone, Copy, Debug, PartialEq, Eq, Structural)]
pub enum ConnectOutcome {
    /// A fresh connection was established.
    Connected,
    /// The node was already connected to that peer.
    AlreadyConnected,
    /// The peer could not be reached.
    Failed,
}

/// Whether a connect outcome counts as the buyer being reachable. The probe
/// is an idempotent connectivity check: an already-standing connection is
/// exactly as good as a fresh one.
pub fn probe_success(outcome: ConnectOutcome) -> (b: bool)
    ensures
        b <==> (outcome == ConnectOutcome::Connected || outcome
            == ConnectOutcome::AlreadyConnected),
{
    match outcome {
        ConnectOutcome::Connected => true,
        ConnectOutcome::AlreadyConnected => true,
        ConnectOutcome::Failed => false,
    }
}

/// The address to probe among those the marketplace advertises for a peer:
/// the first. An empty list is a condition to handle (the buyer is
/// unreachable), never a crash.
pub fn probe_address(addresses: &Vec<String>) -> (r: Option<&String>)
    ensures
        match r {
            Some(a) => addresses@.len() > 0 && *a == addresses@[0],
            None => addresses@.len() == 0,
        },
{
    if addresses.len() == 0 {
        None
    } else {
        Some(&addresses[0])
    }
}

/// How the cycle reacts to a classified call failure: a credential rejection
/// stops the whole cycle (every in-flight call of this batch would carry the
/// same stale token); anything else is confined to the current order.
#[derive(Clone, Copy, Debug, PartialEq, Eq, Structural)]
pub enum FailureDirective {
    /// Stop processing this cycle and renew the credential.
    AbortCycle,
    /// Record the order as failed and continue with the next.
    FailOrder(OrderError),
}

/// Decide the scope of a failed marketplace call.
pub fn on_call_failure(failure: CallFailure) -> (d: FailureDirective)
    ensures
        d == (match failure {
            CallFailure::AuthRejected => FailureDirective::AbortCycle,
            _ => FailureDirective::FailOrder(OrderError::MarketplaceCall(failure)),
        }),
{
    match failure {
        CallFailure::AuthRejected => FailureDirective::AbortCycle,
        _ => FailureDirective::FailOrder(OrderError::MarketplaceCall(failure)),
    }
}

// ---------------------------------------------------------------------------
// Approve workflow: probe (if policy asks), invoice, accept.
// ---------------------------------------------------------------------------

/// Terminal result of the approve workflow.
pub enum ApproveOutcome {
    /// Invoice created and order accepted.
    Accepted,
    /// The buyer was unreachable and policy demanded rejection; the order was
    /// rejected remotely.
    RejectedOffline,
}

/// One step of the approve workflow: the outside call to perform next.
pub enum ApproveStep {
    /// Resolve the buyer's addresses and try to connect to their node.
    ProbeBuyer { pubkey: String },
    /// The buyer is unreachable: reject the order remotely, then stop.
    RejectOrder { order_id: String },
    /// Create an invoice over the amount the seller is owed.
    CreateInvoice { amount_sats: u64, expiry_seconds: u64 },
    /// Accept the order, attaching the invoice.
    AcceptOrder { order_id: String, invoice: String },
    /// The workflow is finished.
    Done(ApproveOutcome),
}

/// Start approving an order: probe the buyer first when policy requires
/// rejection of offline buyers, otherwise go straight to invoicing.
pub fn approve_begin(order: &Order, reject_if_buyer_offline: bool) -> (step: ApproveStep)
    requires
        order.wf(),
        order.status == OrderStatus::WaitingForSellerApproval,
    ensures
        step == if reject_if_buyer_offline {
            (ApproveStep::ProbeBuyer { pubkey: order.counterparty_pubkey })
        } else {
            (ApproveStep::CreateInvoice {
                amount_sats: order.seller_invoice_sats->0,
                expiry_seconds: INVOICE_EXPIRY_SECONDS,
            })
        },
{
    if reject_if_buyer_offline {
        ApproveStep::ProbeBuyer { pubkey: order.counterparty_pubkey.clone() }
    } else {
        approve_invoice_step(order)
    }
}

/// The invoicing step for an order awaiting approval: the invoice is sized at
/// what the seller is owed and valid for 48 hours.
fn approve_invoice_step(order: &Order) -> (step: ApproveStep)
    requires
        order.wf(),
        order.status == OrderStatus::WaitingForSellerApproval,
    ensures
        step == (ApproveStep::CreateInvoice {
            amount_sats: order.seller_invoice_sats->0,
            expiry_seconds: INVOICE_EXPIRY_SECONDS,
        }),
{
    let amount_sats = order.seller_invoice_sats.unwrap();
    ApproveStep::CreateInvoice { amount_sats, expiry_seconds: INVOICE_EXPIRY_SECONDS }
}

/// React to the reachability probe: an unreachable buyer means the order is
/// rejected and the workflow stops; otherwise invoicing proceeds.
pub fn approve_on_probe(order: &Order, buyer_reachable: bool) -> (step: ApproveStep)
    requires
        order.wf(),
        order.status == OrderStatus::WaitingForSellerApproval,
    ensures
        step == if buyer_reachable {
            (ApproveStep::CreateInvoice {
                amount_sats: order.seller_invoice_sats->0,
                expiry_seconds: INVOICE_EXPIRY_SECONDS,
            })
        } else {
            (ApproveStep::RejectOrder { order_id: order.id })
        },
{
    if buyer_reachable {
        approve_invoice_step(order)
    } else {
        ApproveStep::RejectOrder { order_id: order.id.clone() }
    }
}

/// The rejection was delivered: the workflow ends with the order rejected.
pub fn approve_on_rejected() -> (step: ApproveStep)
    ensures
        step is Done,
        step->Done_0 is RejectedOffline,
{
    ApproveStep::Done(ApproveOutcome::RejectedOffline)
}

/// The node issued the invoice: accept the order with exactly that invoice.
pub fn approve_on_invoice(order: &Order, invoice: String) -> (step: ApproveStep)
    ensures
        step == (ApproveStep::AcceptOrder { order_id: order.id, invoice }),
{
    ApproveStep::AcceptOrder { order_id: order.id.clone(), invoice }
}

/// The marketplace accepted the order: the workflow is complete.
pub fn approve_on_accepted() -> (step: ApproveStep)
    ensures
        step is Done,
        step->Done_0 is Accepted,
{
    ApproveStep::Done(ApproveOutcome::Accepted)
}

// ---------------------------------------------------------------------------
// Fund workflow: fee rate, outputs, selection, profitability, open, record.
// ---------------------------------------------------------------------------

/// Everything the node needs to open the channel.
pub struct OpenChannelParams {
    /// The buyer's node public key (hex).
    pub node_pubkey: String,
    /// Fee rate for the funding transaction.
    pub sat_per_vbyte: u32,
    /// Channel capacity in satoshis.
    pub capacity_sats: u64,
    /// The wallet outputs the funding transaction must spend.
    pub outpoints: Vec<Outpoint>,
}

/// The closed set of reasons an order can be cancelled with.
#[derive(Clone, Copy, Debug, PartialEq, Eq, Structural)]
pub enum CancelReason {
    /// The buyer's node could not be connected to.
    UnableToConnectToNode,
}

/// A cancel mutation to deliver to the marketplace.
pub struct CancelOrder {
    /// The order to cancel.
    pub order_id: String,
    /// Why it is cancelled.
    pub reason: CancelReason,
}

/// Terminal result of the fund workflow.
pub enum FundOutcome {
    /// The channel was opened and its funding transaction recorded.
    Funded { tx_point: String },
    /// The workflow stopped before the open-channel call.
    Aborted(OrderError),
    /// The open-channel call failed but the buyer answered the probe: the
    /// order is left as it is and retried on a later cycle.
    OpenFailedBuyerReachable,
    /// The open-channel call failed and the buyer was unreachable: the order
    /// was cancelled.
    OpenFailedCancelled,
}

/// One step of the fund workflow: the outside call to perform next.
pub enum FundStep {
    /// Ask the fee oracle for the current fastest rate.
    FetchFeeRate,
    /// Snapshot the wallet's spendable outputs.
    ListOutputs { rate_sat_per_vbyte: u32 },
    /// Open the channel on-chain.
    OpenChannel(OpenChannelParams),
    /// Record the funding transaction with the marketplace.
    RecordFunding { order_id: String, tx_point: String },
    /// The open failed: probe whether the buyer is reachable at all.
    ProbeBuyer { pubkey: String },
    /// The buyer is unreachable: cancel the order.
    Cancel(CancelOrder),
    /// The workflow is finished.
    Done(FundOutcome),
}

/// Start funding an order: the first thing needed is the current fee rate.
pub fn fund_begin() -> (step: FundStep)
    ensures
        step is FetchFeeRate,
{
    FundStep::FetchFeeRate
}

/// The oracle answered: list the wallet's spendable outputs next.
pub fn fund_on_fee_rate(rate_sat_per_vbyte: u32) -> (step: FundStep)
    ensures
        step == (FundStep::ListOutputs { rate_sat_per_vbyte }),
{
    FundStep::ListOutputs { rate_sat_per_vbyte }
}

/// The oracle could not be read: this order is skipped for the cycle; the
/// process and the other orders continue.
pub fn fund_on_oracle_failure() -> (step: FundStep)
    ensures
        step is Done,
        step->Done_0 == FundOutcome::Aborted(OrderError::OracleUnavailable),
{
    FundStep::Done(FundOutcome::Aborted(OrderError::OracleUnavailable))
}

/// The wallet snapshot is in: run coin selection and the profitability gate.
///
/// The channel may only be opened when a funding prefix exists *and* its fee
/// does not exceed what the seller is owed — opening a channel that costs the
/// seller more than they receive is never allowed, so an unprofitable plan
/// aborts the workflow here, before any node call.
pub fn fund_on_outputs(order: &Order, rate_sat_per_vbyte: u32, outputs: &Vec<SpendableOutput>) -> (
    step: FundStep)
    requires
        order.wf(),
        order.status == OrderStatus::WaitingForChannelOpen,
    ensures
        ({
            let size = order.size_sats as int;
            let rate = rate_sat_per_vbyte as int;
            let invoice = order.seller_invoice_sats->0 as int;
            match step {
                FundStep::OpenChannel(p) => {
                    &&& spec_is_min_cover(outputs@, p.outpoints@.len() as int, size, rate)
                    &&& spec_fee_half_sats(p.outpoints@.len() as int, rate) <= 2 * invoice
                    &&& forall|i: int|
                        0 <= i < p.outpoints@.len() ==> p.outpoints@[i]
                            == #[trigger] outputs@[i].outpoint
                    &&& p.node_pubkey == order.counterparty_pubkey
                    &&& p.sat_per_vbyte == rate_sat_per_vbyte
                    &&& p.capacity_sats == order.size_sats
                },
                FundStep::Done(outcome) => match outcome {
                    FundOutcome::Aborted(e) => match e {
                        OrderError::InsufficientFunds(ins) => {
                            &&& spec_no_cover(outputs@, size, rate)
                            &&& ins.shortfall_sats == spec_shortfall(outputs@, size, rate)
                        },
                        OrderError::Unprofitable { fee_half_sats, seller_invoice_sats } => {
                            &&& exists|k: int|
                                spec_is_min_cover(outputs@, k, size, rate) && fee_half_sats
                                    == spec_fee_half_sats(k, rate)
                            &&& fee_half_sats > 2 * invoice
                            &&& seller_invoice_sats == order.seller_invoice_sats->0
                        },
                        _ => false,
                    },
                    _ => false,
                },
                _ => false,
            }
        }),
{
    let seller_invoice_sats = order.seller_invoice_sats.unwrap();
    match select(order.size_sats, rate_sat_per_vbyte, outputs) {
        Err(insufficient) => FundStep::Done(
            FundOutcome::Aborted(OrderError::InsufficientFunds(insufficient)),
        ),
        Ok(plan) => {
            if plan.fee_half_sats > 2 * (seller_invoice_sats as u128) {
                FundStep::Done(
                    FundOutcome::Aborted(
                        OrderError::Unprofitable {
                            fee_half_sats: plan.fee_half_sats,
                            seller_invoice_sats,
                        },
                    ),
                )
            } else {
                proof {
                    let k = plan.outpoints@.len() as int;
                    assert(spec_is_min_cover(
                        outputs@,
                        k,
                        order.size_sats as int,
                        rate_sat_per_vbyte as int,
                    ));
                }
                FundStep::OpenChannel(
                    OpenChannelParams {
                        node_pubkey: order.counterparty_pubkey.clone(),
                        sat_per_vbyte: rate_sat_per_vbyte,
                        capacity_sats: order.size_sats,
                        outpoints: plan.outpoints,
                    },
                )
            }
        },
    }
}

/// How the node reports the funding transaction id of a freshly opened
/// channel.
pub enum FundingTxid {
    /// Raw transaction id bytes, to be hex-encoded.
    Bytes(Vec<u8>),
    /// Already a hex string.
    Text(String),
    /// Absent from the response.
    Missing,
}

/// The node opened the channel: build the `txid:outputIndex` reference and
/// record it with the marketplace. A response that carries no transaction id
/// fails the order — there is nothing to record.
pub fn fund_on_open_success(order: &Order, txid: FundingTxid, output_index: u32) -> (step: FundStep)
    ensures
        match step {
            FundStep::RecordFunding { order_id, tx_point } => {
                &&& order_id == order.id
                &&& match txid {
                    FundingTxid::Bytes(b) => tx_point@ == spec_hex_of(b@) + seq![':']
                        + spec_dec_digits(output_index as int),
                    FundingTxid::Text(s) => tx_point@ == s@ + seq![':'] + spec_dec_digits(
                        output_index as int,
                    ),
                    FundingTxid::Missing => false,
                }
            },
            FundStep::Done(outcome) => {
                &&& txid is Missing
                &&& outcome == FundOutcome::Aborted(OrderError::MissingFundingTxid)
            },
            _ => false,
        },
{
    match txid {
        FundingTxid::Bytes(b) => {
            let txid_hex = encode_hex(&b);
            FundStep::RecordFunding {
                order_id: order.id.clone(),
                tx_point: tx_point(txid_hex.as_str(), output_index),
            }
        },
        FundingTxid::Text(s) => FundStep::RecordFunding {
            order_id: order.id.clone(),
            tx_point: tx_point(s.as_str(), output_index),
        },
        FundingTxid::Missing => FundStep::Done(
            FundOutcome::Aborted(OrderError::MissingFundingTxid),
        ),
    }
}

/// The open-channel call failed: probe the buyer before deciding whether the
/// order can stay.
pub fn fund_on_open_failure(order: &Order) -> (step: FundStep)
    ensures
        step == (FundStep::ProbeBuyer { pubkey: order.counterparty_pubkey }),
{
    FundStep::ProbeBuyer { pubkey: order.counterparty_pubkey.clone() }
}

/// React to the probe after a failed open: a reachable buyer keeps the order
/// for a later cycle; an unreachable one has the order cancelled, with the
/// one cancellation reason the marketplace understands for it.
pub fn fund_on_probe(order: &Order, buyer_reachable: bool) -> (step: FundStep)
    ensures
        step == if buyer_reachable {
            FundStep::Done(FundOutcome::OpenFailedBuyerReachable)
        } else {
            (FundStep::Cancel(
                CancelOrder { order_id: order.id, reason: CancelReason::UnableToConnectToNode },
            ))
        },
{
    if buyer_reachable {
        FundStep::Done(FundOutcome::OpenFailedBuyerReachable)
    } else {
        FundStep::Cancel(
            CancelOrder {
                order_id: order.id.clone(),
                reason: CancelReason::UnableToConnectToNode,
            },
        )
    }
}

/// The cancellation was delivered: the workflow ends.
pub fn fund_on_cancelled() -> (step: FundStep)
    ensures
        step is Done,
        step->Done_0 is OpenFailedCancelled,
{
    FundStep::Done(FundOutcome::OpenFailedCancelled)
}

/// The funding transaction was recorded with the marketplace: the workflow is
/// complete.
pub fn fund_on_recorded(tx_point: String) -> (step: FundStep)
    ensures
        step == FundStep::Done(FundOutcome::Funded { tx_point }),
{
    FundStep::Done(FundOutcome::Funded { tx_point })
}

// ---------------------------------------------------------------------------
// Cycle bookkeeping: per-order isolation, credential-rejection abort.
// ---------------------------------------------------------------------------

/// What one order's workflow came to within a cycle.
pub enum OrderOutcome {
    /// Approved: invoice issued and order accepted.
    Approved,
    /// Rejected because the buyer was offline.
    RejectedOffline,
    /// Channel opened and recorded.
    Funded { tx_point: String },
    /// Status asked for nothing.
    Skipped,
    /// The workflow failed; the failure is confined to this order.
    Failed(OrderError),
}

/// The cycle-level record of a finished approve workflow.
pub fn outcome_of_approve(outcome: ApproveOutcome) -> (o: OrderOutcome)
    ensures
        o == match outcome {
            ApproveOutcome::Accepted => OrderOutcome::Approved,
            ApproveOutcome::RejectedOffline => OrderOutcome::RejectedOffline,
        },
{
    match outcome {
        ApproveOutcome::Accepted => OrderOutcome::Approved,
        ApproveOutcome::RejectedOffline => OrderOutcome::RejectedOffline,
    }
}

/// The cycle-level record of a finished fund workflow. A failed open is a
/// per-order failure either way: with the buyer reachable the order stays for
/// a later cycle; with the buyer unreachable it was cancelled and the failure
/// names the unreachable counterparty.
pub fn outcome_of_fund(outcome: FundOutcome) -> (o: OrderOutcome)
    ensures
        o == match outcome {
            FundOutcome::Funded { tx_point } => (OrderOutcome::Funded { tx_point }),
            FundOutcome::Aborted(e) => OrderOutcome::Failed(e),
            FundOutcome::OpenFailedBuyerReachable => OrderOutcome::Failed(
                OrderError::NodeCallFailed,
            ),
            FundOutcome::OpenFailedCancelled => OrderOutcome::Failed(
                OrderError::CounterpartyUnreachable,
            ),
        },
{
    match outcome {
        FundOutcome::Funded { tx_point } => OrderOutcome::Funded { tx_point },
        FundOutcome::Aborted(e) => OrderOutcome::Failed(e),
        FundOutcome::OpenFailedBuyerReachable => OrderOutcome::Failed(OrderError::NodeCallFailed),
        FundOutcome::OpenFailedCancelled => OrderOutcome::Failed(
            OrderError::CounterpartyUnreachable,
        ),
    }
}

/// Record of one poll cycle: which order is next, what each processed order
/// came to, and whether a credential rejection stopped the batch.
pub struct Cycle {
    /// The batch of orders, in the sequence the marketplace returned them.
    pub orders: Orders,
    /// Index of the first unprocessed order.
    pub next: usize,
    /// Outcome of each processed order, in processing sequence.
    pub outcomes: Vec<OrderOutcome>,
    /// A marketplace call rejected the credential: the batch is stopped.
    pub auth_rejected: bool,
}

impl Cycle {
    /// One outcome per processed order, and nothing past the batch.
    pub open spec fn wf(&self) -> bool {
        &&& self.outcomes@.len() == self.next
        &&& self.next <= self.orders.list@.len()
    }

    /// The order to process next, if the cycle is still running.
    pub open spec fn spec_current(&self) -> Option<Order> {
        if !self.auth_rejected && self.next < self.orders.list@.len() {
            Some(self.orders.list@[self.next as int])
        } else {
            None
        }
    }

    /// A cycle that has just fetched its batch: nothing processed yet.
    pub fn new(orders: Orders) -> (c: Cycle)
        ensures
            c.wf(),
            c.orders == orders,
            c.next == 0,
            c.outcomes@ =~= Seq::<OrderOutcome>::empty(),
            !c.auth_rejected,
    {
        Cycle { orders, next: 0, outcomes: Vec::new(), auth_rejected: false }
    }

    /// The order to process next: none once the batch is exhausted or a
    /// credential rejection stopped the cycle.
    pub fn current(&self) -> (r: Option<&Order>)
        requires
            self.wf(),
        ensures
            match r {
                Some(o) => self.spec_current() == Some(*o),
                None => self.spec_current() is None,
            },
    {
        if self.auth_rejected {
            None
        } else if self.next < self.orders.list.len() {
            Some(&self.orders.list[self.next])
        } else {
            None
        }
    }

    /// Record the current order's outcome and move to the next. Outcomes
    /// already recorded are untouched: one order's result never disturbs
    /// another's.
    pub fn record_outcome(&mut self, outcome: OrderOutcome)
        requires
            old(self).wf(),
            old(self).spec_current() is Some,
        ensures
            final(self).wf(),
            final(self).orders == old(self).orders,
            final(self).auth_rejected == old(self).auth_rejected,
            final(self).next == old(self).next + 1,
            final(self).outcomes@ == old(self).outcomes@.push(outcome),
    {
        let batch_len = self.orders.list.len();
        self.outcomes.push(outcome);
        proof {
            assert(self.next < batch_len);
        }
        self.next = self.next + 1;
    }

    /// A marketplace call rejected the credential: stop the batch. Every
    /// outcome recorded so far stands; no further order is attempted.
    pub fn abort_auth(&mut self)
        requires
            old(self).wf(),
        ensures
            final(self).wf(),
            final(self).orders == old(self).orders,
            final(self).next == old(self).next,
            final(self).outcomes == old(self).outcomes,
            final(self).auth_rejected,
            final(self).spec_current() is None,
    {
        self.auth_rejected = true;
    }

    /// Whether the cycle is over, by exhaustion or by credential rejection.
    pub fn finished(&self) -> (b: bool)
        requires
            self.wf(),
        ensures
            b == (self.spec_current() is None),
    {
        self.auth_rejected || self.next >= self.orders.list.len()
    }

    /// Whether the credential must be renewed before the next cycle begins.
    pub fn needs_renewal(&self) -> (b: bool)
        ensures
            b == self.auth_rejected,
    {
        self.auth_rejected
    }
}

/// Auth-rejection isolation: when the credential is rejected while an order
/// is being processed, the outcomes of the orders already completed in the
/// cycle stand untouched, no later order of the batch is attempted, and the
/// cycle demands a credential renewal before the next one.
pub proof fn lemma_auth_rejection_isolation(pre: Cycle, post: Cycle)
    requires
        pre.wf(),
        post == (Cycle { auth_rejected: true, ..pre }),
    ensures
        post.outcomes == pre.outcomes,
        forall|i: int| 0 <= i < pre.outcomes@.len() ==> post.outcomes@[i] == pre.outcomes@[i],
        post.spec_current() is None,
        post.auth_rejected,
{
}

} // verus!
