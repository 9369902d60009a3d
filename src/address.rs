use vstd::prelude::*;
use crate::outcome::{elapsed_secs, is_failure, is_success, ok_status, spec_elapsed_secs, test_err, test_ok};

verus! {

/// Amount paid to an address, in millisatoshi.
pub const ADDRESS_AMOUNT_MSAT: u64 = 1_000;

/// What the input parser made of an address string.
pub enum ParsedAddress {
    /// A payable LNURL-pay descriptor.
    LnUrlPay,
    /// The LNURL service answered with an error, for this reason.
    LnUrlError(String),
    /// Anything else, or nothing that parses.
    Other,
}

/// How an LNURL-pay call ended.
pub enum PayOutcome {
    /// The endpoint reported success.
    EndpointSuccess,
    /// The endpoint reported an error, for this reason.
    EndpointError(String),
    /// The payment itself failed, for this reason.
    PayError(String),
    /// The call failed before an answer came, with this description.
    Failed(String),
}

/// The message recorded when the address led to an LNURL error.
pub open spec fn lnurl_error_message(reason: Seq<char>) -> Seq<char> {
    "LNURL error: "@ + reason
}

/// The message recorded when the address is not a payable LNURL-pay address.
pub open spec fn parse_failure_message() -> Seq<char> {
    "Failed to parse LN Address"@
}

/// The comment sent along with a payment to an address.
pub fn pay_comment() -> (r: String)
    ensures
        r@ == "test-gl2lnurl"@,
{
    String::from_str("test-gl2lnurl")
}

/// What an address scenario does once its address has been parsed.
pub enum AddressStep {
    /// Pay the address; the timer started at `started_ns`.
    Pay { started_ns: u64 },
    /// The scenario is over with this result.
    Finished((Option<u64>, String)),
}

/// Decides what follows the parse of an address, finished at clock reading
/// `now_ns`: a payable address starts the timer there, anything else ends the
/// scenario untimed.
pub fn after_parse(parsed: &ParsedAddress, now_ns: u64) -> (r: AddressStep)
    ensures
        match parsed {
            ParsedAddress::LnUrlPay => r == (AddressStep::Pay { started_ns: now_ns }),
            ParsedAddress::LnUrlError(reason) => r matches AddressStep::Finished(res) && res.0 is None
                && res.1@ == lnurl_error_message(reason@),
            ParsedAddress::Other => r matches AddressStep::Finished(res) && res.0 is None && res.1@
                == parse_failure_message(),
        },
        r matches AddressStep::Finished(res) ==> is_failure(res),
{
    match parsed {
        ParsedAddress::LnUrlPay => AddressStep::Pay { started_ns: now_ns },
        ParsedAddress::LnUrlError(reason) => {
            let msg = String::from_str("LNURL error: ").concat(reason.as_str());
            proof {
                reveal_strlit("LNURL error: ");
            }
            AddressStep::Finished(test_err(msg.as_str()))
        },
        ParsedAddress::Other => {
            proof {
                reveal_strlit("Failed to parse LN Address");
            }
            AddressStep::Finished(test_err("Failed to parse LN Address"))
        },
    }
}

/// The reported text, or `fallback` where the report is empty.
pub open spec fn reported_or(text: Seq<char>, fallback: Seq<char>) -> Seq<char> {
    if text.len() > 0 {
        text
    } else {
        fallback
    }
}

/// The failed result that carries `text`, or `fallback` where `text` is empty.
fn failure_reported(text: &String, fallback: &str) -> (r: (Option<u64>, String))
    requires
        fallback@.len() > 0,
    ensures
        r.0 is None,
        r.1@ == reported_or(text@, fallback@),
        is_failure(r),
{
    if text.as_str().is_empty() {
        test_err(fallback)
    } else {
        test_err(text.as_str())
    }
}

/// The result of an address scenario whose payment ended with `outcome` at
/// clock reading `now_ns`, the timer having started at `started_ns`. A failure
/// carries the reported reason, or a fixed message where the report is empty.
pub fn after_pay(outcome: &PayOutcome, started_ns: u64, now_ns: u64) -> (r: (Option<u64>, String))
    ensures
        match outcome {
            PayOutcome::EndpointSuccess => r.0 == Some(spec_elapsed_secs(started_ns, now_ns))
                && r.1@ == ok_status(),
            PayOutcome::EndpointError(reason) => r.0 is None && r.1@ == reported_or(
                reason@,
                "LNURL endpoint reported an error"@,
            ),
            PayOutcome::PayError(reason) => r.0 is None && r.1@ == reported_or(
                reason@,
                "LNURL payment failed"@,
            ),
            PayOutcome::Failed(description) => r.0 is None && r.1@ == reported_or(
                description@,
                "LNURL pay call failed"@,
            ),
        },
        outcome is EndpointSuccess <==> is_success(r),
        !(outcome is EndpointSuccess) <==> is_failure(r),
{
    proof {
        reveal_strlit("LNURL endpoint reported an error");
        reveal_strlit("LNURL payment failed");
        reveal_strlit("LNURL pay call failed");
    }
    match outcome {
        PayOutcome::EndpointSuccess => test_ok(elapsed_secs(started_ns, now_ns)),
        PayOutcome::EndpointError(reason) => failure_reported(
            reason,
            "LNURL endpoint reported an error",
        ),
        PayOutcome::PayError(reason) => failure_reported(reason, "LNURL payment failed"),
        PayOutcome::Failed(description) => failure_reported(description, "LNURL pay call failed"),
    }
}

} // verus!
