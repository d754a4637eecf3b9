//! Event records for the log side-channel.
//!
//! Every create, claim and refund emits one comma-separated record:
//! `event_kind,giveaway_id_hex,amount,payer_identity,asset_identity_or_zero`,
//! where the payer and asset identities are rendered in base58 and the
//! asset field is the literal `0` for native-asset operations.  The record
//! is produced as bytes; the host appends it to its log and never reads it
//! back.

use vstd::prelude::*;

verus! {

/// The operation kinds that the log distinguishes.
#[derive(Clone, Copy, Debug, PartialEq, Eq, Structural)]
pub enum EventType {
    Create,
    Receive,
    Refund,
}

/// The numeric code a record carries for each event kind.
pub open spec fn spec_event_code(kind: EventType) -> u32 {
    match kind {
        EventType::Create => 0,
        EventType::Receive => 1,
        EventType::Refund => 2,
    }
}

/// The numeric code a record carries for each event kind.
pub fn event_code(kind: EventType) -> (code: u32)
    ensures
        code == spec_event_code(kind),
{
    match kind {
        EventType::Create => 0,
        EventType::Receive => 1,
        EventType::Refund => 2,
    }
}

/// The ASCII decimal digits of `n`, most significant first, with no sign
/// and no leading zero except for `n == 0` itself.
pub open spec fn decimal_digits(n: int) -> Seq<u8>
    decreases n,
{
    if n < 10 {
        seq![(48 + if n < 0 { 0int } else { n % 10 }) as u8]
    } else {
        decimal_digits(n / 10) + seq![(48 + n % 10) as u8]
    }
}

/// Renders `n` in ASCII decimal.
pub fn u128_to_decimal(n: u128) -> (digits: Vec<u8>)
    ensures
        digits@ == decimal_digits(n as int),
    decreases n,
{
    if n < 10 {
        let mut digits: Vec<u8> = Vec::new();
        digits.push(48 + (n as u8));
        assert(digits@ =~= decimal_digits(n as int));
        digits
    } else {
        let mut digits: Vec<u8> = u128_to_decimal(n / 10);
        digits.push(48 + ((n % 10) as u8));
        assert(digits@ =~= decimal_digits(n as int));
        digits
    }
}

/// Renders `n` in ASCII decimal.
pub fn u32_to_decimal(n: u32) -> (digits: Vec<u8>)
    ensures
        digits@ == decimal_digits(n as int),
{
    let wide: u128 = n as u128;
    u128_to_decimal(wide)
}

/// The ASCII character for one hex digit value, lowercase.
pub open spec fn hex_digit(value: int) -> u8 {
    if value < 10 {
        (48 + value) as u8
    } else {
        (87 + value) as u8
    }
}

/// The lowercase hex rendering of `bytes`: two digits per byte, high
/// nibble first.
pub open spec fn hex_of(bytes: Seq<u8>) -> Seq<u8> {
    Seq::new(
        2 * bytes.len(),
        |i: int|
            if i % 2 == 0 {
                hex_digit(bytes[i / 2] as int / 16)
            } else {
                hex_digit(bytes[i / 2] as int % 16)
            },
    )
}

/// The base58 rendering (Bitcoin alphabet) of `bytes`, as ASCII: a
/// function of the bytes alone.
pub uninterp spec fn base58_of(bytes: Seq<u8>) -> Seq<u8>;

/// Relies on hex's `encode`: lowercase hex, two digits per byte, high
/// nibble first.
#[verifier::external_body]
pub fn hex_encode(bytes: &[u8]) -> (text: Vec<u8>)
    ensures
        text@ == hex_of(bytes@),
{
    hex::encode(bytes).into_bytes()
}

/// Relies on bs58's `encode` with its default (Bitcoin) alphabet: the
/// rendering depends on the input bytes alone, and an empty input renders
/// to an empty string.
#[verifier::external_body]
pub fn base58_encode(bytes: &[u8]) -> (text: Vec<u8>)
    ensures
        text@ == base58_of(bytes@),
        bytes@.len() == 0 ==> text@.len() == 0,
{
    bs58::encode(bytes).into_string().into_bytes()
}

/// The comma-separated log record for one operation.  `asset` is `None`
/// for the native asset, rendered as the literal `0`.
pub open spec fn spec_event_record(
    kind: EventType,
    giveaway_id: Seq<u8>,
    amount: u128,
    payer: Seq<u8>,
    asset: Option<Seq<u8>>,
) -> Seq<u8> {
    let comma = seq![44u8];
    let asset_text = match asset {
        Some(mint) => base58_of(mint),
        None => seq![48u8],
    };
    decimal_digits(spec_event_code(kind) as int) + comma + hex_of(giveaway_id) + comma
        + decimal_digits(amount as int) + comma + base58_of(payer) + comma + asset_text
}

/// Builds the log record for one operation, as the bytes the host appends
/// to its log.
pub fn format_event(
    kind: EventType,
    giveaway_id: &[u8; 20],
    amount: u128,
    payer: &[u8; 32],
    asset: Option<&[u8; 32]>,
) -> (record: Vec<u8>)
    ensures
        record@ == spec_event_record(
            kind,
            giveaway_id@,
            amount,
            payer@,
            match asset {
                Some(mint) => Some(mint@),
                None => None,
            },
        ),
{
    let mut record: Vec<u8> = u32_to_decimal(event_code(kind));
    record.push(44);
    let id_hex: Vec<u8> = hex_encode(giveaway_id.as_slice());
    crate::codec::push_bytes(&mut record, id_hex.as_slice());
    record.push(44);
    let amount_text: Vec<u8> = u128_to_decimal(amount);
    crate::codec::push_bytes(&mut record, amount_text.as_slice());
    record.push(44);
    let payer_text: Vec<u8> = base58_encode(payer.as_slice());
    crate::codec::push_bytes(&mut record, payer_text.as_slice());
    record.push(44);
    match asset {
        Some(mint) => {
            let mint_text: Vec<u8> = base58_encode(mint.as_slice());
            crate::codec::push_bytes(&mut record, mint_text.as_slice());
        },
        None => {
            record.push(48);
        },
    }
    assert(record@ =~= spec_event_record(
        kind,
        giveaway_id@,
        amount,
        payer@,
        match asset {
            Some(mint) => Some(mint@),
            None => None,
        },
    ));
    record
}

} // verus!
