//! Data model of the marketplace and wallet values the bot reasons about.
//!
//! Orders arrive from the marketplace with their sizes and invoice amounts as
//! decimal strings; they are validated into `Order` values once, so that every
//! later decision works on checked integers. Wallet outputs are plain
//! `(outpoint, amount)` snapshots taken per funding decision.

use vstd::prelude::*;

use crate::encoding::{parse_sats, spec_all_digits, spec_dec_value};

verus! {

/// Lifecycle state of a marketplace order. Only two states call for work by
/// the seller; everything else is observed and skipped.
#[derive(Clone, Copy, Debug, PartialEq, Eq, Structural)]
pub enum OrderStatus {
    /// The buyer has placed the order; the seller must approve it by
    /// attaching an invoice, or reject it.
    WaitingForSellerApproval,
    /// The buyer has paid the invoice; the seller must fund and open the
    /// channel on-chain.
    WaitingForChannelOpen,
    /// Any other status reported by the marketplace: nothing to do.
    Other,
}

/// A marketplace sell order, validated into plain integers.
#[derive(Clone, Debug, PartialEq, Eq)]
pub struct Order {
    /// Marketplace-assigned opaque identifier.
    pub id: String,
    /// Current lifecycle state.
    pub status: OrderStatus,
    /// Target channel capacity in satoshis.
    pub size_sats: u64,
    /// The buyer's node public key (hex), used both as the funding target
    /// and as the peer identity for connection probes.
    pub counterparty_pubkey: String,
    /// Satoshis owed to the seller before the channel is opened; present
    /// exactly when the status calls for invoicing or funding.
    pub seller_invoice_sats: Option<u64>,
}

impl Order {
    /// Validity of an order as the orchestrator relies on it: the channel
    /// size is positive, and whenever the status calls for work the invoice
    /// amount is known.
    pub open spec fn wf(&self) -> bool {
        &&& self.size_sats > 0
        &&& self.status != OrderStatus::Other ==> self.seller_invoice_sats is Some
    }
}

/// Why an order as the marketplace reports it cannot be taken into the model.
#[derive(Clone, Copy, Debug, PartialEq, Eq, Structural)]
pub enum OrderParseError {
    /// The size string is not a positive 64-bit decimal number.
    BadSize,
    /// The status calls for invoicing or funding but no invoice amount came.
    MissingInvoiceAmount,
    /// The invoice amount string is not a 64-bit decimal number.
    BadInvoiceAmount,
}

/// Validate an order as the marketplace reports it: the size and the invoice
/// amount arrive as decimal strings and are parsed exactly; an actionable
/// status must come with an invoice amount. The result is a well-formed
/// [`Order`].
pub fn order_from_wire(
    id: String,
    status: OrderStatus,
    size: &str,
    counterparty_pubkey: String,
    seller_invoice_amount: Option<&str>,
) -> (r: Result<Order, OrderParseError>)
    ensures
        ({
            let size_ok = size@.len() > 0 && spec_all_digits(size@) && 0 < spec_dec_value(size@)
                <= u64::MAX;
            match r {
                Ok(o) => {
                    &&& o.wf()
                    &&& o.id == id
                    &&& o.status == status
                    &&& o.counterparty_pubkey == counterparty_pubkey
                    &&& size_ok
                    &&& o.size_sats == spec_dec_value(size@)
                    &&& match seller_invoice_amount {
                        Some(s) => {
                            &&& s@.len() > 0
                            &&& spec_all_digits(s@)
                            &&& o.seller_invoice_sats == Some(spec_dec_value(s@) as u64)
                            &&& spec_dec_value(s@) <= u64::MAX
                        },
                        None => o.seller_invoice_sats is None && status == OrderStatus::Other,
                    }
                },
                Err(e) => match e {
                    OrderParseError::BadSize => !size_ok,
                    OrderParseError::MissingInvoiceAmount => {
                        &&& size_ok
                        &&& status != OrderStatus::Other
                        &&& seller_invoice_amount is None
                    },
                    OrderParseError::BadInvoiceAmount => {
                        &&& size_ok
                        &&& seller_invoice_amount matches Some(s) && !(s@.len() > 0
                            && spec_all_digits(s@) && spec_dec_value(s@) <= u64::MAX)
                    },
                },
            }
        }),
{
    let size_sats = match parse_sats(size) {
        Some(v) => v,
        None => {
            return Err(OrderParseError::BadSize);
        },
    };
    if size_sats == 0 {
        return Err(OrderParseError::BadSize);
    }
    let seller_invoice_sats = match seller_invoice_amount {
        Some(s) => match parse_sats(s) {
            Some(v) => Some(v),
            None => {
                return Err(OrderParseError::BadInvoiceAmount);
            },
        },
        None => match status {
            OrderStatus::Other => None,
            _ => {
                return Err(OrderParseError::MissingInvoiceAmount);
            },
        },
    };
    Ok(Order { id, status, size_sats, counterparty_pubkey, seller_invoice_sats })
}

/// Reference to one unspent transaction output of the node's wallet.
#[derive(Clone, Debug, PartialEq, Eq)]
pub struct Outpoint {
    /// Transaction id, hex-encoded as the node reports it.
    pub txid_hex: String,
    /// Index of the output within that transaction.
    pub output_index: u32,
}

impl Outpoint {
    /// Copy that provably preserves the value.
    pub fn dup(&self) -> (r: Outpoint)
        ensures
            r == *self,
    {
        Outpoint { txid_hex: self.txid_hex.clone(), output_index: self.output_index }
    }
}

/// One spendable wallet output, as listed by the node with the
/// minimum-confirmation filter already applied.
#[derive(Clone, Debug, PartialEq, Eq)]
pub struct SpendableOutput {
    /// Where the output sits on chain.
    pub outpoint: Outpoint,
    /// Its value in satoshis.
    pub amount_sats: u64,
}

/// The batch of open orders fetched for one poll cycle.
#[derive(Clone, Debug, PartialEq, Eq)]
pub struct Orders {
    /// The orders in the sequence the marketplace returned them.
    pub list: Vec<Order>,
}

impl Orders {
    /// Every order of the batch is well formed.
    pub open spec fn wf(&self) -> bool {
        forall|i: int| 0 <= i < self.list@.len() ==> #[trigger] self.list@[i].wf()
    }

    /// Number of orders in the batch.
    pub fn len(&self) -> (n: usize)
        ensures
            n == self.list@.len(),
    {
        self.list.len()
    }
}

} // verus!
