use vstd::prelude::*;

verus! {

/// How many leading one bits a byte starts with.
pub open spec fn leading_ones(b: u8) -> int {
    if b < 0x80 { 0 }
    else if b < 0xC0 { 1 }
    else if b < 0xE0 { 2 }
    else if b < 0xF0 { 3 }
    else if b < 0xF8 { 4 }
    else if b < 0xFC { 5 }
    else if b < 0xFE { 6 }
    else if b == 0xFE { 7 }
    else { 8 }
}

/// The payload bits a lead byte contributes, once its length marker is
/// masked off.
pub open spec fn lead_payload(b: u8) -> int {
    let n = leading_ones(b);
    if n == 0 { b as int }
    else if n == 2 { (b & 0x3F) as int }
    else if n == 3 { (b & 0x1F) as int }
    else if n == 4 { (b & 0x0F) as int }
    else if n == 5 { (b & 0x07) as int }
    else { (b & 0x03) as int }
}

/// Whether a byte is a continuation byte (`10xxxxxx`).
pub open spec fn is_continuation(b: u8) -> bool {
    b & 0xC0 == 0x80
}

/// The code-point value: the lead's payload, extended by six bits for
/// each continuation byte in turn.
pub open spec fn seq_value(acc: int, rest: Seq<u8>) -> int
    decreases rest.len(),
{
    if rest.len() == 0 {
        acc
    } else {
        seq_value(acc * 64 + (rest.first() & 0x3F), rest.drop_first())
    }
}

/// A value that a `char` may hold: below the surrogate range or between
/// it and the end of the Unicode code space.
pub open spec fn is_scalar_value(v: int) -> bool {
    (0 <= v && v < 0xD800) || (0xE000 <= v && v < 0x110000)
}

/// How many continuation bytes must follow the given lead byte, or
/// `None` when the byte cannot begin a sequence (a bare continuation
/// byte, or `0xFE`/`0xFF`).
pub open spec fn spec_followup_len(lead: u8) -> Option<usize> {
    let n = leading_ones(lead);
    if n == 0 { Some(0usize) }
    else if 2 <= n && n <= 6 { Some((n - 1) as usize) }
    else { None }
}

/// What a lead byte and its continuation bytes decode to: the value of
/// the character their payload bits spell, or `None` when the byte
/// count is wrong, a continuation byte is malformed, or the value is
/// not one a `char` may hold.
pub open spec fn spec_read(lead: u8, rest: Seq<u8>) -> Option<u32> {
    match spec_followup_len(lead) {
        Option::None => Option::None,
        Option::Some(k) => {
            if rest.len() != k as int {
                Option::None
            } else if exists|i: int| 0 <= i < rest.len() && !is_continuation(rest[i]) {
                Option::None
            } else {
                let v = seq_value(lead_payload(lead), rest);
                if is_scalar_value(v) {
                    Option::Some(v as u32)
                } else {
                    Option::None
                }
            }
        },
    }
}

/// Relies on char::from_u32 of std: it returns `Some` exactly for the
/// values a `char` may hold (not a surrogate, at most `char::MAX`), and
/// the returned character has the given value.
pub assume_specification[ char::from_u32 ](v: u32) -> (r: Option<char>)
    ensures
        r is Some <==> is_scalar_value(v as int),
        r matches Some(c) ==> c as u32 == v,
;

/// How many continuation bytes to read after this lead byte.
pub fn followup_len(lead: u8) -> (r: Option<usize>)
    ensures
        r == spec_followup_len(lead),
{
    if lead < 0x80 { Some(0) }
    else if lead < 0xC0 { None }
    else if lead < 0xE0 { Some(1) }
    else if lead < 0xF0 { Some(2) }
    else if lead < 0xF8 { Some(3) }
    else if lead < 0xFC { Some(4) }
    else if lead < 0xFE { Some(5) }
    else { None }
}

/// Assembles one character from a lead byte and the continuation bytes
/// read after it. Total: a malformed sequence yields `None`, never a
/// panic.
pub fn read_char(lead: u8, rest: &Vec<u8>) -> (r: Option<char>)
    ensures
        (r is Some) == (spec_read(lead, rest@) is Some),
        r matches Some(c) ==> spec_read(lead, rest@) == Some(c as u32),
{
    let expected = match followup_len(lead) {
        Some(k) => k,
        None => {
            return None;
        },
    };
    if rest.len() != expected {
        return None;
    }
    let payload: u64 = if lead < 0x80 {
        lead as u64
    } else if lead < 0xE0 {
        (lead & 0x3F) as u64
    } else if lead < 0xF0 {
        (lead & 0x1F) as u64
    } else if lead < 0xF8 {
        (lead & 0x0F) as u64
    } else if lead < 0xFC {
        (lead & 0x07) as u64
    } else {
        (lead & 0x03) as u64
    };
    assert(payload as int == lead_payload(lead));
    let mut acc: u64 = payload;
    let mut i: usize = 0;
    proof {
        assert(rest@.skip(0) =~= rest@);
    }
    while i < rest.len()
        invariant
            0 <= i <= rest@.len(),
            rest@.len() <= 5,
            i == 0 ==> acc < 0x100,
            i == 1 ==> acc < 0x4000,
            i == 2 ==> acc < 0x100000,
            i == 3 ==> acc < 0x4000000,
            i == 4 ==> acc < 0x100000000,
            i == 5 ==> acc < 0x4000000000,
            seq_value(acc as int, rest@.skip(i as int)) == seq_value(lead_payload(lead), rest@),
            forall|j: int| 0 <= j < i ==> is_continuation(rest@[j]),
        decreases rest@.len() - i,
    {
        let b = rest[i];
        if b & 0xC0 != 0x80 {
            assert(!is_continuation(rest@[i as int]));
            return None;
        }
        assert(rest@.skip(i as int).first() == rest@[i as int]);
        assert(rest@.skip(i as int).drop_first() =~= rest@.skip(i as int + 1));
        assert((b & 0x3F) < 64) by (bit_vector);
        acc = acc * 64 + ((b & 0x3F) as u64);
        i = i + 1;
    }
    assert(rest@.skip(i as int) =~= Seq::<u8>::empty());
    assert(acc as int == seq_value(lead_payload(lead), rest@));
    if acc < 0x100000000 {
        let res = char::from_u32(acc as u32);
        proof {
            assert(acc as u32 as int == acc as int);
        }
        res
    } else {
        None
    }
}

} // verus!
