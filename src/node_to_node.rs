use vstd::prelude::*;
use crate::outcome::{
    elapsed_secs, is_failure, is_success, ok_status, spec_elapsed_secs, test_err, test_ok,
    NANOS_PER_SEC,
};

verus! {

/// Amount of the invoice that the receiving session creates, in millisatoshi.
pub const INVOICE_AMOUNT_MSAT: u64 = 1_000;

/// Expiry of that invoice, in seconds: short, so that old invoices are pruned.
pub const INVOICE_EXPIRY_SECS: u32 = 60;

/// What the node-to-node scenario does once the receiver has answered the
/// invoice request.
pub enum InvoiceStep {
    /// Pay the encoded invoice; the timer started at `started_ns`.
    PayInvoice { bolt11: String, started_ns: u64 },
    /// The scenario is over with this result.
    Finished((Option<u64>, String)),
}

/// The message recorded when the receiver could not create the invoice.
pub open spec fn invoice_failure_message(err: Seq<char>) -> Seq<char> {
    "[sdk-rx] Failed to create invoice: "@ + err
}

/// The message recorded when the sender could not pay the invoice.
pub open spec fn payment_failure_message(err: Seq<char>) -> Seq<char> {
    "[sdk-tx] Failed to send payment: "@ + err
}

/// The description written into the invoice.
pub fn invoice_description() -> (r: String)
    ensures
        r@ == "test-gl2gl"@,
{
    String::from_str("test-gl2gl")
}

/// Decides the next step after the receiver answered the invoice request at
/// clock reading `now_ns`: an invoice starts the timer there, an error ends
/// the scenario untimed.
pub fn after_invoice(invoice: Result<String, String>, now_ns: u64) -> (r: InvoiceStep)
    ensures
        match invoice {
            Ok(bolt11) => r == (InvoiceStep::PayInvoice { bolt11, started_ns: now_ns }),
            Err(e) => r matches InvoiceStep::Finished(res) && res.0 is None && res.1@
                == invoice_failure_message(e@),
        },
        r matches InvoiceStep::Finished(res) ==> is_failure(res),
{
    match invoice {
        Ok(bolt11) => InvoiceStep::PayInvoice { bolt11, started_ns: now_ns },
        Err(e) => {
            let msg = String::from_str("[sdk-rx] Failed to create invoice: ").concat(e.as_str());
            proof {
                reveal_strlit("[sdk-rx] Failed to create invoice: ");
            }
            InvoiceStep::Finished(test_err(msg.as_str()))
        },
    }
}

/// The result of the node-to-node scenario once the sender answered at clock
/// reading `now_ns`, the timer having started at `started_ns`.
pub fn after_payment(sent: Result<(), String>, started_ns: u64, now_ns: u64) -> (r: (
    Option<u64>,
    String,
))
    ensures
        match sent {
            Ok(_) => r.0 == Some(spec_elapsed_secs(started_ns, now_ns)) && r.1@ == ok_status(),
            Err(e) => r.0 is None && r.1@ == payment_failure_message(e@),
        },
        sent is Ok <==> is_success(r),
        sent is Err <==> is_failure(r),
{
    match sent {
        Ok(_) => test_ok(elapsed_secs(started_ns, now_ns)),
        Err(e) => {
            let msg = String::from_str("[sdk-tx] Failed to send payment: ").concat(e.as_str());
            proof {
                reveal_strlit("[sdk-tx] Failed to send payment: ");
            }
            test_err(msg.as_str())
        },
    }
}

/// The node-to-node timer leaves out the time taken to create the invoice:
/// when the invoice request goes out at `requested_ns`, the invoice is ready
/// `invoice_delay_ns` later (where the timer starts) and the payment completes
/// `pay_delay_ns` after that, the elapsed seconds are those of the payment
/// delay alone.
pub proof fn lemma_timer_excludes_invoice_creation(
    requested_ns: u64,
    invoice_delay_ns: u64,
    pay_delay_ns: u64,
)
    requires
        requested_ns + invoice_delay_ns + pay_delay_ns <= u64::MAX,
    ensures
        spec_elapsed_secs(
            (requested_ns + invoice_delay_ns) as u64,
            (requested_ns + invoice_delay_ns + pay_delay_ns) as u64,
        ) == pay_delay_ns / NANOS_PER_SEC,
{
}

} // verus!
