use vstd::prelude::*;

verus! {

/// A 128-bit agent identifier. Assigned once when the agent is created,
/// immutable afterwards, and never reused: the registry rejects an insertion
/// under an identifier it already holds.
#[derive(Clone, Copy, Debug, PartialEq, Eq, Structural, Hash)]
pub struct AgentId {
    pub bits: u128,
}

/// Relies on uuid::Uuid::new_v4 and uuid::Uuid::as_u128: 128 bits drawn from
/// the operating system's random source, with the version and variant fields
/// forced to the random-uuid pattern (a nonzero mask is or-ed in), so the
/// value is never zero. Beyond that, nothing holds of any single outcome.
#[verifier::external_body]
fn random_id_bits() -> (r: u128)
    ensures
        r != 0,
{
    uuid::Uuid::new_v4().as_u128()
}

impl AgentId {
    /// Draws a fresh random identifier. Freshness with respect to a registry
    /// is not promised here: the registry's create path checks for a clash
    /// and reports it as an error instead of overwriting.
    pub fn fresh() -> (r: AgentId)
        ensures
            r.bits != 0,
    {
        AgentId { bits: random_id_bits() }
    }

    /// Renders this identifier in the canonical hyphenated lowercase
    /// hexadecimal form (8-4-4-4-12 digits).
    pub fn render(&self) -> (r: String)
        ensures
            r@ == spec_id_text(self.bits),
    {
        let mut out = String::new();
        push_hex(&mut out, (self.bits >> 96) as u64, 8);
        push_char(&mut out, '-');
        push_hex(&mut out, ((self.bits >> 80) & 0xffff) as u64, 4);
        push_char(&mut out, '-');
        push_hex(&mut out, ((self.bits >> 64) & 0xffff) as u64, 4);
        push_char(&mut out, '-');
        push_hex(&mut out, ((self.bits >> 48) & 0xffff) as u64, 4);
        push_char(&mut out, '-');
        push_hex(&mut out, (self.bits & 0xffff_ffff_ffff) as u64, 12);
        proof {
            assert(out@ =~= spec_id_text(self.bits));
        }
        out
    }
}

/// The hyphenated text of a 128-bit identifier: five groups of hexadecimal
/// digits, 8-4-4-4-12, most significant digit first.
pub open spec fn spec_id_text(bits: u128) -> Seq<char> {
    spec_hex_text((bits >> 96) as u64, 8) + seq!['-'] + spec_hex_text(
        ((bits >> 80) & 0xffff) as u64,
        4,
    ) + seq!['-'] + spec_hex_text(((bits >> 64) & 0xffff) as u64, 4) + seq!['-'] + spec_hex_text(
        ((bits >> 48) & 0xffff) as u64,
        4,
    ) + seq!['-'] + spec_hex_text((bits & 0xffff_ffff_ffff) as u64, 12)
}

/// `digits` hexadecimal digits of `n`, most significant first; digit `i`
/// is the nibble `digits - 1 - i` of `n`.
pub open spec fn spec_hex_text(n: u64, digits: nat) -> Seq<char> {
    Seq::new(digits, |i: int| spec_hex_digit(((n >> ((digits - 1 - i) * 4)) & 0xf) as int))
}

/// The lowercase hexadecimal digit for a value below sixteen.
pub open spec fn spec_hex_digit(d: int) -> char {
    if d == 0 {
        '0'
    } else if d == 1 {
        '1'
    } else if d == 2 {
        '2'
    } else if d == 3 {
        '3'
    } else if d == 4 {
        '4'
    } else if d == 5 {
        '5'
    } else if d == 6 {
        '6'
    } else if d == 7 {
        '7'
    } else if d == 8 {
        '8'
    } else if d == 9 {
        '9'
    } else if d == 10 {
        'a'
    } else if d == 11 {
        'b'
    } else if d == 12 {
        'c'
    } else if d == 13 {
        'd'
    } else if d == 14 {
        'e'
    } else {
        'f'
    }
}

/// The lowercase hexadecimal digit character for `d`.
pub fn hex_digit_char(d: u64) -> (c: char)
    requires
        d < 16,
    ensures
        c == spec_hex_digit(d as int),
{
    match d {
        0 => '0',
        1 => '1',
        2 => '2',
        3 => '3',
        4 => '4',
        5 => '5',
        6 => '6',
        7 => '7',
        8 => '8',
        9 => '9',
        10 => 'a',
        11 => 'b',
        12 => 'c',
        13 => 'd',
        14 => 'e',
        _ => 'f',
    }
}

/// Appends the `digits` least significant hexadecimal digits of `n` to `out`,
/// most significant digit first.
pub fn push_hex(out: &mut String, n: u64, digits: usize)
    requires
        digits <= 16,
    ensures
        final(out)@ == old(out)@ + spec_hex_text(n, digits as nat),
{
    let mut i: usize = 0;
    while i < digits
        invariant
            i <= digits <= 16,
            out@ == old(out)@ + spec_hex_text(n, digits as nat).subrange(0, i as int),
        decreases digits - i,
    {
        let shift: u64 = ((digits - 1 - i) as u64) * 4;
        let d: u64 = (n >> shift) & 0xf;
        assert((n >> shift) & 0xf < 16) by (bit_vector);
        let c = hex_digit_char(d);
        push_char(out, c);
        proof {
            assert(spec_hex_text(n, digits as nat).subrange(0, i + 1) =~= spec_hex_text(
                n,
                digits as nat,
            ).subrange(0, i as int).push(c));
        }
        i = i + 1;
    }
    proof {
        assert(spec_hex_text(n, digits as nat).subrange(0, digits as int) =~= spec_hex_text(
            n,
            digits as nat,
        ));
    }
}

/// Relies on String::push of std: appends exactly the one character to the
/// end of the string.
#[verifier::external_body]
pub(crate) fn push_char(out: &mut String, c: char)
    ensures
        final(out)@ == old(out)@ + seq![c],
{
    out.push(c);
}

} // verus!
