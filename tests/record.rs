use pulse::{csv_fields, csv_row, elapsed_field, seed_from_mnemonic, u64_to_decimal, SeedError};

const PHRASE: &str =
    "abandon abandon abandon abandon abandon abandon abandon abandon abandon abandon abandon about";

#[test]
fn decimal_text_of_numbers() {
    assert_eq!(u64_to_decimal(0), "0");
    assert_eq!(u64_to_decimal(7), "7");
    assert_eq!(u64_to_decimal(10), "10");
    assert_eq!(u64_to_decimal(1_700_000_000), "1700000000");
    assert_eq!(u64_to_decimal(u64::MAX), "18446744073709551615");
}

#[test]
fn elapsed_field_is_empty_on_failure() {
    assert_eq!(elapsed_field(Some(12)), "12");
    assert_eq!(elapsed_field(None), "");
}

#[test]
fn row_has_seven_fields_in_order() {
    let fields = csv_fields(
        1_700_000_000,
        &(Some(2), "Ok".to_string()),
        &(None, "[sdk-tx] Failed to send payment: x".to_string()),
        &(Some(11), "Ok".to_string()),
    );
    assert_eq!(
        fields,
        vec!["1700000000", "2", "Ok", "", "[sdk-tx] Failed to send payment: x", "11", "Ok"]
    );
}

#[test]
fn row_bytes_of_plain_fields() {
    let bytes = csv_row(
        1_700_000_000,
        &(Some(2), "Ok".to_string()),
        &(Some(3), "Ok".to_string()),
        &(None, "Failed to parse LN Address".to_string()),
    );
    assert_eq!(bytes, b"1700000000,2,Ok,3,Ok,,Failed to parse LN Address\n".to_vec());
}

#[test]
fn row_bytes_quote_a_message_with_a_comma() {
    let bytes = csv_row(
        42,
        &(None, "timeout, retry later".to_string()),
        &(Some(3), "Ok".to_string()),
        &(None, "say \"no\"".to_string()),
    );
    assert_eq!(bytes, b"42,,\"timeout, retry later\",3,Ok,,\"say \"\"no\"\"\"\n".to_vec());
}

#[test]
fn appended_rows_keep_earlier_ones() {
    let mut log = csv_row(1, &(Some(1), "Ok".to_string()), &(Some(2), "Ok".to_string()), &(Some(3), "Ok".to_string()));
    let first = log.clone();
    log.extend(csv_row(2, &(None, "a".to_string()), &(None, "b".to_string()), &(None, "c".to_string())));
    assert!(log.starts_with(&first));
    let text = String::from_utf8(log).unwrap();
    let lines: Vec<&str> = text.lines().collect();
    assert_eq!(lines, vec!["1,1,Ok,2,Ok,3,Ok", "2,,a,,b,,c"]);
    for line in lines {
        assert_eq!(line.split(',').count(), 7);
    }
}

#[test]
fn seed_of_a_valid_mnemonic() {
    let seed = seed_from_mnemonic(PHRASE).unwrap();
    assert_eq!(seed.len(), 64);
    // BIP-39 reference seed of this phrase with an empty passphrase.
    assert_eq!(&seed[..4], &[0x5e, 0xb0, 0x0b, 0xbd]);
    assert_eq!(seed_from_mnemonic(PHRASE).unwrap(), seed);
}

#[test]
fn row_bytes_of_a_non_ascii_message() {
    let bytes = csv_row(9, &(None, "délai".to_string()), &(Some(0), "Ok".to_string()), &(None, "x\ny".to_string()));
    assert_eq!(bytes, "9,,délai,0,Ok,,\"x\ny\"\n".as_bytes().to_vec());
}

#[test]
fn seed_of_an_invalid_mnemonic() {
    let bad = "abandon abandon abandon abandon abandon abandon abandon abandon abandon abandon abandon abandon";
    assert_eq!(seed_from_mnemonic(bad), Err(SeedError::InvalidMnemonic));
    assert_eq!(seed_from_mnemonic("not a phrase"), Err(SeedError::InvalidMnemonic));
}
