use vstd::prelude::*;
use vstd::utf8::encode_utf8;

verus! {

/// The character of a decimal digit.
pub open spec fn digit_char(d: nat) -> char {
    seq!['0', '1', '2', '3', '4', '5', '6', '7', '8', '9'][d as int]
}

/// The decimal text of `n`, without sign or leading zeros.
pub open spec fn decimal(n: nat) -> Seq<char>
    decreases n,
{
    if n < 10 {
        seq![digit_char(n)]
    } else {
        decimal(n / 10).push(digit_char(n % 10))
    }
}

/// The text of an elapsed-seconds field: the number, or nothing on failure.
pub open spec fn elapsed_text(e: Option<u64>) -> Seq<char> {
    match e {
        Some(d) => decimal(d as nat),
        None => Seq::empty(),
    }
}

/// The seven fields of a run's row: its start time, then elapsed seconds and
/// status of the first address scenario, the node-to-node scenario and the
/// second address scenario.
pub open spec fn row_fields(
    start_ts: u64,
    first: (Option<u64>, String),
    middle: (Option<u64>, String),
    last: (Option<u64>, String),
) -> Seq<Seq<char>> {
    seq![
        decimal(start_ts as nat),
        elapsed_text(first.0),
        first.1@,
        elapsed_text(middle.0),
        middle.1@,
        elapsed_text(last.0),
        last.1@,
    ]
}

/// A character that makes the writer quote the field holding it: a comma, a
/// double quote, a carriage return or a line feed.
pub open spec fn is_special(c: char) -> bool {
    let u = c as u32;
    u == 44 || u == 34 || u == 13 || u == 10
}

/// Whether the writer puts the field in quotes.
pub open spec fn needs_quotes(f: Seq<char>) -> bool {
    exists|i: int| 0 <= i < f.len() && is_special(#[trigger] f[i])
}

/// The bytes `b` with every double quote written twice.
pub open spec fn double_quotes(b: Seq<u8>) -> Seq<u8>
    decreases b.len(),
{
    if b.len() == 0 {
        Seq::empty()
    } else {
        double_quotes(b.drop_last()) + if b.last() == 34u8 {
            seq![34u8, 34u8]
        } else {
            seq![b.last()]
        }
    }
}

/// One field as the writer puts it down: its UTF-8 bytes, in double quotes
/// with inner quotes doubled where the field needs quotes.
pub open spec fn csv_field(f: Seq<char>) -> Seq<u8> {
    if needs_quotes(f) {
        seq![34u8] + double_quotes(encode_utf8(f)) + seq![34u8]
    } else {
        encode_utf8(f)
    }
}

/// The fields as the writer puts them down, separated by commas.
pub open spec fn joined_fields(fields: Seq<Seq<char>>) -> Seq<u8>
    decreases fields.len(),
{
    if fields.len() <= 1 {
        if fields.len() == 0 {
            Seq::empty()
        } else {
            csv_field(fields[0])
        }
    } else {
        joined_fields(fields.drop_last()) + seq![44u8] + csv_field(fields.last())
    }
}

/// One CSV record: the joined fields and a line feed. A record that would
/// otherwise be a bare line feed is written as an empty quoted field.
pub open spec fn csv_record(fields: Seq<Seq<char>>) -> Seq<u8> {
    if joined_fields(fields).len() == 0 {
        seq![34u8, 34u8, 10u8]
    } else {
        joined_fields(fields) + seq![10u8]
    }
}

/// Relies on csv::Writer::write_record, on a writer built with
/// `Writer::from_writer` over an in-memory buffer, then taken back with
/// `into_inner`. With the default configuration (delimiter `,`, terminator
/// `\n`, double quotes only where a field holds `,` `"` CR or LF, inner quotes
/// doubled) the bytes are `csv_record` of the fields. Writing into a `Vec`
/// cannot fail, and a fresh writer has no earlier record whose length differs.
#[verifier::external_body]
fn write_csv_record(fields: &Vec<String>) -> (r: Option<Vec<u8>>)
    ensures
        r is Some,
        r matches Some(bytes) ==> bytes@ == csv_record(fields.deep_view()),
{
    let mut wtr = csv::Writer::from_writer(Vec::new());
    match wtr.write_record(fields) {
        Ok(()) => wtr.into_inner().ok(),
        Err(_) => None,
    }
}

/// A single digit as text.
fn digit_text(d: u64) -> (r: &'static str)
    requires
        d < 10,
    ensures
        r@ == seq![digit_char(d as nat)],
{
    proof {
        reveal_strlit("0");
        reveal_strlit("1");
        reveal_strlit("2");
        reveal_strlit("3");
        reveal_strlit("4");
        reveal_strlit("5");
        reveal_strlit("6");
        reveal_strlit("7");
        reveal_strlit("8");
        reveal_strlit("9");
    }
    let r = match d {
        0 => "0",
        1 => "1",
        2 => "2",
        3 => "3",
        4 => "4",
        5 => "5",
        6 => "6",
        7 => "7",
        8 => "8",
        _ => "9",
    };
    assert(r@ =~= seq![digit_char(d as nat)]);
    r
}

/// Appends the decimal text of `n` to `out`.
fn append_decimal(out: &mut String, n: u64)
    ensures
        final(out)@ == old(out)@ + decimal(n as nat),
    decreases n,
{
    if n >= 10 {
        append_decimal(out, n / 10);
    }
    out.append(digit_text(n % 10));
    assert(final(out)@ =~= old(out)@ + decimal(n as nat));
}

/// The decimal text of `n`.
pub fn u64_to_decimal(n: u64) -> (r: String)
    ensures
        r@ == decimal(n as nat),
{
    let mut out = String::new();
    append_decimal(&mut out, n);
    assert(out@ =~= decimal(n as nat));
    out
}

/// The text of an elapsed-seconds field: the number, or an empty field when
/// the scenario failed.
pub fn elapsed_field(e: Option<u64>) -> (r: String)
    ensures
        r@ == elapsed_text(e),
{
    match e {
        Some(d) => u64_to_decimal(d),
        None => String::new(),
    }
}

/// The seven fields of the row that records a run started at `start_ts`.
pub fn csv_fields(
    start_ts: u64,
    first: &(Option<u64>, String),
    middle: &(Option<u64>, String),
    last: &(Option<u64>, String),
) -> (r: Vec<String>)
    ensures
        r.deep_view() == row_fields(start_ts, *first, *middle, *last),
{
    let mut r: Vec<String> = Vec::new();
    r.push(u64_to_decimal(start_ts));
    r.push(elapsed_field(first.0));
    r.push(first.1.clone());
    r.push(elapsed_field(middle.0));
    r.push(middle.1.clone());
    r.push(elapsed_field(last.0));
    r.push(last.1.clone());
    assert(r.deep_view() =~= row_fields(start_ts, *first, *middle, *last));
    r
}

/// The CSV bytes of the row that records a run started at `start_ts`.
pub fn csv_row(
    start_ts: u64,
    first: &(Option<u64>, String),
    middle: &(Option<u64>, String),
    last: &(Option<u64>, String),
) -> (r: Vec<u8>)
    ensures
        r@ == csv_record(row_fields(start_ts, *first, *middle, *last)),
{
    let fields = csv_fields(start_ts, first, middle, last);
    write_csv_record(&fields).unwrap()
}

/// Every row holds seven fields: the bytes of a run's row are its seven
/// fields, each as the writer puts it down, separated by six commas and
/// ended by a line feed.
pub proof fn lemma_row_has_seven_fields(
    start_ts: u64,
    first: (Option<u64>, String),
    middle: (Option<u64>, String),
    last: (Option<u64>, String),
)
    ensures
        ({
            let f = row_fields(start_ts, first, middle, last);
            csv_record(f) == csv_field(f[0]) + seq![44u8] + csv_field(f[1]) + seq![44u8]
                + csv_field(f[2]) + seq![44u8] + csv_field(f[3]) + seq![44u8] + csv_field(f[4])
                + seq![44u8] + csv_field(f[5]) + seq![44u8] + csv_field(f[6]) + seq![10u8]
        }),
{
    let f = row_fields(start_ts, first, middle, last);
    let comma: Seq<u8> = seq![44u8];
    assert(f.subrange(0, 1).drop_last() =~= Seq::<Seq<char>>::empty());
    let mut acc = csv_field(f[0]);
    assert(joined_fields(f.subrange(0, 1)) == acc);
    assert(f.subrange(0, 2).drop_last() =~= f.subrange(0, 1));
    acc = acc + comma + csv_field(f[1]);
    assert(joined_fields(f.subrange(0, 2)) == acc);
    assert(f.subrange(0, 3).drop_last() =~= f.subrange(0, 2));
    acc = acc + comma + csv_field(f[2]);
    assert(joined_fields(f.subrange(0, 3)) == acc);
    assert(f.subrange(0, 4).drop_last() =~= f.subrange(0, 3));
    acc = acc + comma + csv_field(f[3]);
    assert(joined_fields(f.subrange(0, 4)) == acc);
    assert(f.subrange(0, 5).drop_last() =~= f.subrange(0, 4));
    acc = acc + comma + csv_field(f[4]);
    assert(joined_fields(f.subrange(0, 5)) == acc);
    assert(f.subrange(0, 6).drop_last() =~= f.subrange(0, 5));
    acc = acc + comma + csv_field(f[5]);
    assert(joined_fields(f.subrange(0, 6)) == acc);
    assert(f.subrange(0, 7).drop_last() =~= f.subrange(0, 6));
    acc = acc + comma + csv_field(f[6]);
    assert(joined_fields(f.subrange(0, 7)) == acc);
    assert(f.subrange(0, 7) =~= f);
    let j = joined_fields(f);
    assert(j.len() > 0);
}

} // verus!
