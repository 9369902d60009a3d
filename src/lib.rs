//! Measurement logic of a payment-latency benchmark: the timed outcome of each
//! payment scenario, the decisions taken between the node calls, the row that
//! a run appends to its CSV log, and the seed that a node session starts from.

pub mod address;
pub mod node_to_node;
pub mod outcome;
pub mod record;
pub mod seed;

pub use address::{after_parse, after_pay, pay_comment, AddressStep, ParsedAddress, PayOutcome, ADDRESS_AMOUNT_MSAT};
pub use node_to_node::{after_invoice, after_payment, invoice_description, InvoiceStep, INVOICE_AMOUNT_MSAT, INVOICE_EXPIRY_SECS};
pub use outcome::{elapsed_secs, test_err, test_ok, NANOS_PER_SEC};
pub use record::{csv_fields, csv_row, elapsed_field, u64_to_decimal};
pub use seed::{seed_from_mnemonic, SeedError};
