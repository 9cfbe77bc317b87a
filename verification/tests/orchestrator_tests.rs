use magma_seller::errors::{CallFailure, OrderError};
use magma_seller::model::{Order, OrderStatus, Orders, Outpoint, SpendableOutput};
use magma_seller::orchestrator::{
    approve_begin, approve_on_accepted, approve_on_invoice, approve_on_probe,
    approve_on_rejected, classify_status, fund_begin, fund_on_cancelled, fund_on_fee_rate,
    fund_on_open_failure, fund_on_open_success, fund_on_oracle_failure, fund_on_outputs,
    fund_on_probe, fund_on_recorded, on_call_failure, outcome_of_approve, outcome_of_fund,
    probe_address, probe_success, ApproveOutcome, ApproveStep, CancelReason, ConnectOutcome,
    Cycle, FailureDirective, FundOutcome, FundStep, FundingTxid, OrderOutcome, Workflow,
    INVOICE_EXPIRY_SECONDS,
};

fn order(status: OrderStatus, size_sats: u64, invoice: Option<u64>) -> Order {
    Order {
        id: "order-1".to_string(),
        status,
        size_sats,
        counterparty_pubkey: "02abc".to_string(),
        seller_invoice_sats: invoice,
    }
}

fn output(txid: &str, amount_sats: u64) -> SpendableOutput {
    SpendableOutput {
        outpoint: Outpoint { txid_hex: txid.to_string(), output_index: 0 },
        amount_sats,
    }
}

// A mock node gateway: counts how often its open-channel capability is hit.
struct NodeMock {
    open_channel_calls: usize,
}

impl NodeMock {
    fn new() -> NodeMock {
        NodeMock { open_channel_calls: 0 }
    }

    fn open_channel(&mut self) {
        self.open_channel_calls += 1;
    }
}

#[test]
fn status_dispatch_is_exact() {
    assert_eq!(
        classify_status(OrderStatus::WaitingForSellerApproval),
        Workflow::Approve
    );
    assert_eq!(classify_status(OrderStatus::WaitingForChannelOpen), Workflow::Fund);
    assert_eq!(classify_status(OrderStatus::Other), Workflow::Skip);
}

#[test]
fn already_connected_probe_counts_as_success() {
    assert!(probe_success(ConnectOutcome::Connected));
    assert!(probe_success(ConnectOutcome::AlreadyConnected));
    assert!(!probe_success(ConnectOutcome::Failed));
    // The idempotent reconnection probe: an "already connected" answer is
    // treated identically to a fresh successful connection.
    assert_eq!(
        probe_success(ConnectOutcome::AlreadyConnected),
        probe_success(ConnectOutcome::Connected)
    );
}

#[test]
fn probe_address_takes_first_and_handles_empty() {
    let addrs = vec!["9.9.9.9:9735".to_string(), "other:1".to_string()];
    assert_eq!(probe_address(&addrs), Some(&addrs[0]));
    let empty: Vec<String> = Vec::new();
    assert_eq!(probe_address(&empty), None);
}

#[test]
fn auth_rejection_aborts_cycle_other_failures_stay_with_order() {
    assert!(matches!(
        on_call_failure(CallFailure::AuthRejected),
        FailureDirective::AbortCycle
    ));
    assert!(matches!(
        on_call_failure(CallFailure::Transient),
        FailureDirective::FailOrder(OrderError::MarketplaceCall(CallFailure::Transient))
    ));
    assert!(matches!(
        on_call_failure(CallFailure::NotFound),
        FailureDirective::FailOrder(OrderError::MarketplaceCall(CallFailure::NotFound))
    ));
}

#[test]
fn approve_workflow_happy_path() {
    let o = order(OrderStatus::WaitingForSellerApproval, 1_000_000, Some(5_000));
    let step = approve_begin(&o, true);
    match step {
        ApproveStep::ProbeBuyer { pubkey } => assert_eq!(pubkey, "02abc"),
        _ => panic!("expected a probe step"),
    }
    let step = approve_on_probe(&o, true);
    match step {
        ApproveStep::CreateInvoice { amount_sats, expiry_seconds } => {
            assert_eq!(amount_sats, 5_000);
            assert_eq!(expiry_seconds, INVOICE_EXPIRY_SECONDS);
            assert_eq!(expiry_seconds, 172_800);
        },
        _ => panic!("expected an invoice step"),
    }
    let step = approve_on_invoice(&o, "lnbc-invoice".to_string());
    match step {
        ApproveStep::AcceptOrder { order_id, invoice } => {
            assert_eq!(order_id, "order-1");
            assert_eq!(invoice, "lnbc-invoice");
        },
        _ => panic!("expected an accept step"),
    }
    let step = approve_on_accepted();
    assert!(matches!(step, ApproveStep::Done(ApproveOutcome::Accepted)));
}

#[test]
fn approve_workflow_rejects_offline_buyer() {
    let o = order(OrderStatus::WaitingForSellerApproval, 1_000_000, Some(5_000));
    let step = approve_on_probe(&o, false);
    match step {
        ApproveStep::RejectOrder { order_id } => assert_eq!(order_id, "order-1"),
        _ => panic!("expected a reject step"),
    }
    let step = approve_on_rejected();
    assert!(matches!(step, ApproveStep::Done(ApproveOutcome::RejectedOffline)));
}

#[test]
fn approve_skips_probe_when_policy_is_off() {
    let o = order(OrderStatus::WaitingForSellerApproval, 1_000_000, Some(5_000));
    let step = approve_begin(&o, false);
    assert!(matches!(step, ApproveStep::CreateInvoice { amount_sats: 5_000, .. }));
}

#[test]
fn fund_workflow_happy_path() {
    let o = order(OrderStatus::WaitingForChannelOpen, 1_000_000, Some(10_000));
    assert!(matches!(fund_begin(), FundStep::FetchFeeRate));
    assert!(matches!(
        fund_on_fee_rate(10),
        FundStep::ListOutputs { rate_sat_per_vbyte: 10 }
    ));
    let outputs = vec![
        output("aa", 500_000),
        output("bb", 400_000),
        output("cc", 300_000),
    ];
    let mut node = NodeMock::new();
    let step = fund_on_outputs(&o, 10, &outputs);
    match step {
        FundStep::OpenChannel(params) => {
            node.open_channel();
            assert_eq!(params.node_pubkey, "02abc");
            assert_eq!(params.sat_per_vbyte, 10);
            assert_eq!(params.capacity_sats, 1_000_000);
            assert_eq!(params.outpoints.len(), 3);
            assert_eq!(params.outpoints[0].txid_hex, "aa");
        },
        _ => panic!("expected an open-channel step"),
    }
    assert_eq!(node.open_channel_calls, 1);
    let step = fund_on_open_success(&o, FundingTxid::Text("beef".to_string()), 1);
    match step {
        FundStep::RecordFunding { order_id, tx_point } => {
            assert_eq!(order_id, "order-1");
            assert_eq!(tx_point, "beef:1");
        },
        _ => panic!("expected a record step"),
    }
    let step = fund_on_recorded("beef:1".to_string());
    match step {
        FundStep::Done(FundOutcome::Funded { tx_point }) => assert_eq!(tx_point, "beef:1"),
        _ => panic!("expected the funded outcome"),
    }
}

#[test]
fn profitability_gate_aborts_before_node_call() {
    // fee at 3 inputs and 10 sat/vB is 2690 sats; a seller invoice of 2000
    // sats makes the order unprofitable. The node mock must record zero
    // open-channel calls.
    let o = order(OrderStatus::WaitingForChannelOpen, 1_000_000, Some(2_000));
    let outputs = vec![
        output("aa", 500_000),
        output("bb", 400_000),
        output("cc", 300_000),
    ];
    let mut node = NodeMock::new();
    let step = fund_on_outputs(&o, 10, &outputs);
    match step {
        FundStep::OpenChannel(_) => {
            node.open_channel();
            panic!("unprofitable order must not reach the node");
        },
        FundStep::Done(FundOutcome::Aborted(OrderError::Unprofitable {
            fee_half_sats,
            seller_invoice_sats,
        })) => {
            assert_eq!(fee_half_sats, 5380);
            assert_eq!(seller_invoice_sats, 2_000);
        },
        _ => panic!("expected the unprofitable outcome"),
    }
    assert_eq!(node.open_channel_calls, 0);
}

#[test]
fn profitability_gate_boundary_fee_equal_to_invoice_is_allowed() {
    // fee = 2690 sats exactly; an invoice of 2690 is still (just) acceptable.
    let o = order(OrderStatus::WaitingForChannelOpen, 1_000_000, Some(2_690));
    let outputs = vec![
        output("aa", 500_000),
        output("bb", 400_000),
        output("cc", 300_000),
    ];
    assert!(matches!(fund_on_outputs(&o, 10, &outputs), FundStep::OpenChannel(_)));
    // One sat less and the order is unprofitable.
    let o = order(OrderStatus::WaitingForChannelOpen, 1_000_000, Some(2_689));
    assert!(matches!(
        fund_on_outputs(&o, 10, &outputs),
        FundStep::Done(FundOutcome::Aborted(OrderError::Unprofitable { .. }))
    ));
}

#[test]
fn fund_workflow_insufficient_funds() {
    let o = order(OrderStatus::WaitingForChannelOpen, 1_000_000, Some(10_000));
    let outputs = vec![output("aa", 999_999)];
    let step = fund_on_outputs(&o, 10, &outputs);
    match step {
        FundStep::Done(FundOutcome::Aborted(OrderError::InsufficientFunds(e))) => {
            assert_eq!(e.shortfall_sats, 1);
        },
        _ => panic!("expected the insufficient-funds outcome"),
    }
}

#[test]
fn fund_oracle_failure_aborts_order_only() {
    assert!(matches!(
        fund_on_oracle_failure(),
        FundStep::Done(FundOutcome::Aborted(OrderError::OracleUnavailable))
    ));
}

#[test]
fn fund_open_failure_probes_then_cancels_offline_buyer() {
    let o = order(OrderStatus::WaitingForChannelOpen, 1_000_000, Some(10_000));
    let step = fund_on_open_failure(&o);
    match step {
        FundStep::ProbeBuyer { pubkey } => assert_eq!(pubkey, "02abc"),
        _ => panic!("expected a probe step"),
    }
    let step = fund_on_probe(&o, false);
    match step {
        FundStep::Cancel(cancel) => {
            assert_eq!(cancel.order_id, "order-1");
            assert_eq!(cancel.reason, CancelReason::UnableToConnectToNode);
        },
        _ => panic!("expected a cancel step"),
    }
    assert!(matches!(
        fund_on_cancelled(),
        FundStep::Done(FundOutcome::OpenFailedCancelled)
    ));
}

#[test]
fn fund_open_failure_keeps_order_when_buyer_reachable() {
    let o = order(OrderStatus::WaitingForChannelOpen, 1_000_000, Some(10_000));
    let step = fund_on_probe(&o, true);
    assert!(matches!(
        step,
        FundStep::Done(FundOutcome::OpenFailedBuyerReachable)
    ));
}

#[test]
fn funding_txid_bytes_are_hex_encoded() {
    let o = order(OrderStatus::WaitingForChannelOpen, 1_000_000, Some(10_000));
    let step = fund_on_open_success(&o, FundingTxid::Bytes(vec![0xde, 0xad, 0x01]), 2);
    match step {
        FundStep::RecordFunding { tx_point, .. } => assert_eq!(tx_point, "dead01:2"),
        _ => panic!("expected a record step"),
    }
    let step = fund_on_open_success(&o, FundingTxid::Missing, 0);
    assert!(matches!(
        step,
        FundStep::Done(FundOutcome::Aborted(OrderError::MissingFundingTxid))
    ));
}

#[test]
fn outcome_conversions_are_exact() {
    assert!(matches!(
        outcome_of_approve(ApproveOutcome::Accepted),
        OrderOutcome::Approved
    ));
    assert!(matches!(
        outcome_of_approve(ApproveOutcome::RejectedOffline),
        OrderOutcome::RejectedOffline
    ));
    match outcome_of_fund(FundOutcome::Funded { tx_point: "t:0".to_string() }) {
        OrderOutcome::Funded { tx_point } => assert_eq!(tx_point, "t:0"),
        _ => panic!("expected the funded outcome"),
    }
    assert!(matches!(
        outcome_of_fund(FundOutcome::OpenFailedBuyerReachable),
        OrderOutcome::Failed(OrderError::NodeCallFailed)
    ));
    assert!(matches!(
        outcome_of_fund(FundOutcome::OpenFailedCancelled),
        OrderOutcome::Failed(OrderError::CounterpartyUnreachable)
    ));
}

#[test]
fn cycle_processes_orders_in_sequence() {
    let orders = Orders {
        list: vec![
            order(OrderStatus::Other, 1, None),
            order(OrderStatus::WaitingForSellerApproval, 10, Some(5)),
        ],
    };
    let mut cycle = Cycle::new(orders);
    let current = cycle.current().expect("first order");
    assert_eq!(current.status, OrderStatus::Other);
    cycle.record_outcome(OrderOutcome::Skipped);
    let current = cycle.current().expect("second order");
    assert_eq!(current.status, OrderStatus::WaitingForSellerApproval);
    cycle.record_outcome(OrderOutcome::Approved);
    assert!(cycle.current().is_none());
    assert!(cycle.finished());
    assert!(!cycle.needs_renewal());
    assert_eq!(cycle.outcomes.len(), 2);
}

#[test]
fn auth_rejection_isolation_scenario() {
    // Three orders; the first two complete, the third order's call rejects
    // the credential. The first two outcomes stand, no further order is
    // attempted, and a renewal is demanded before the next cycle.
    let orders = Orders {
        list: vec![
            order(OrderStatus::WaitingForSellerApproval, 10, Some(5)),
            order(OrderStatus::Other, 1, None),
            order(OrderStatus::WaitingForChannelOpen, 10, Some(5)),
        ],
    };
    let mut cycle = Cycle::new(orders);
    cycle.record_outcome(OrderOutcome::Approved);
    cycle.record_outcome(OrderOutcome::Skipped);
    assert!(cycle.current().is_some());
    cycle.abort_auth();
    assert_eq!(cycle.outcomes.len(), 2);
    assert!(matches!(cycle.outcomes[0], OrderOutcome::Approved));
    assert!(matches!(cycle.outcomes[1], OrderOutcome::Skipped));
    assert!(cycle.current().is_none());
    assert!(cycle.finished());
    assert!(cycle.needs_renewal());
}
