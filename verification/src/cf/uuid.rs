//! A universally unique identifier held as its sixteen bytes, with the
//! canonical hexadecimal rendering verified.

use vstd::prelude::*;

use crate::ns;

verus! {

/// Sixteen bytes naming something uniquely.
pub struct Uuid {
    bytes: Vec<u8>,
}

impl View for Uuid {
    type V = Seq<u8>;

    closed spec fn view(&self) -> Seq<u8> {
        self.bytes@
    }
}

/// The upper-case hexadecimal digit of a value below sixteen.
pub open spec fn hex_digit(d: u8) -> char {
    if d < 10 {
        ((48 + d) as u8) as char
    } else {
        ((55 + d) as u8) as char
    }
}

/// The two upper-case hexadecimal digits of a byte.
pub open spec fn byte_hex(b: u8) -> Seq<char> {
    seq![hex_digit(b / 16), hex_digit(b % 16)]
}

/// The hexadecimal digits of a byte run.
pub open spec fn bytes_hex(s: Seq<u8>) -> Seq<char>
    decreases s.len(),
{
    if s.len() == 0 {
        Seq::empty()
    } else {
        bytes_hex(s.drop_last()) + byte_hex(s.last())
    }
}

/// The canonical rendering of sixteen bytes: five upper-case hexadecimal
/// groups of eight, four, four, four and twelve digits, joined by dashes.
pub open spec fn uuid_chars(b: Seq<u8>) -> Seq<char> {
    bytes_hex(b.subrange(0, 4)) + seq!['-'] + bytes_hex(b.subrange(4, 6)) + seq!['-'] + bytes_hex(
        b.subrange(6, 8),
    ) + seq!['-'] + bytes_hex(b.subrange(8, 10)) + seq!['-'] + bytes_hex(b.subrange(10, 16))
}

fn push_hex(out: &mut Vec<char>, bytes: &Vec<u8>, start: usize, end: usize)
    requires
        start <= end <= bytes@.len(),
    ensures
        final(out)@ == old(out)@ + bytes_hex(bytes@.subrange(start as int, end as int)),
{
    let ghost lo = start as int;
    let mut k: usize = start;
    proof {
        assert(bytes@.subrange(lo, lo).len() == 0);
        assert(out@ =~= out@ + bytes_hex(bytes@.subrange(lo, lo)));
    }
    while k < end
        invariant
            lo == start as int,
            start <= k <= end <= bytes@.len(),
            out@ == old(out)@ + bytes_hex(bytes@.subrange(lo, k as int)),
        decreases end - k,
    {
        proof {
            assert(bytes@.subrange(lo, k as int + 1).drop_last() =~= bytes@.subrange(
                lo,
                k as int,
            ));
            assert(bytes@.subrange(lo, k as int + 1).last() == bytes@[k as int]);
        }
        let b = bytes[k];
        let hi = b / 16;
        let lo_nib = b % 16;
        let c1: char = if hi < 10 {
            (48 + hi) as char
        } else {
            (55 + hi) as char
        };
        let c2: char = if lo_nib < 10 {
            (48 + lo_nib) as char
        } else {
            (55 + lo_nib) as char
        };
        out.push(c1);
        out.push(c2);
        proof {
            assert(out@ =~= old(out)@ + bytes_hex(bytes@.subrange(lo, k as int + 1)));
        }
        k += 1;
    }
}

impl Uuid {
    /// An identifier holding exactly the given sixteen bytes.
    pub fn from_bytes(bytes: Vec<u8>) -> (r: Uuid)
        requires
            bytes@.len() == 16,
        ensures
            r@ == bytes@,
    {
        Uuid { bytes }
    }

    /// The bytes of the identifier.
    pub fn bytes(&self) -> (r: &Vec<u8>)
        ensures
            r@ == self@,
    {
        &self.bytes
    }

    /// Whether two identifiers hold the same bytes.
    pub fn equal(&self, other: &Uuid) -> (r: bool)
        ensures
            r == (self@ =~= other@),
    {
        if self.bytes.len() != other.bytes.len() {
            return false;
        }
        let mut k: usize = 0;
        while k < self.bytes.len()
            invariant
                k <= self@.len(),
                self@.len() == other@.len(),
                forall|t: int| 0 <= t < k ==> self@[t] == other@[t],
            decreases self@.len() - k,
        {
            if self.bytes[k] != other.bytes[k] {
                return false;
            }
            k += 1;
        }
        proof {
            assert(self@ =~= other@);
        }
        true
    }

    /// The canonical dashed upper-case hexadecimal rendering.
    pub fn to_cf_string(&self) -> (r: ns::String)
        requires
            self@.len() == 16,
        ensures
            r@ == uuid_chars(self@),
    {
        let mut out: Vec<char> = Vec::new();
        push_hex(&mut out, &self.bytes, 0, 4);
        out.push('-');
        push_hex(&mut out, &self.bytes, 4, 6);
        out.push('-');
        push_hex(&mut out, &self.bytes, 6, 8);
        out.push('-');
        push_hex(&mut out, &self.bytes, 8, 10);
        out.push('-');
        push_hex(&mut out, &self.bytes, 10, 16);
        proof {
            assert(out@ =~= uuid_chars(self@));
        }
        ns::String::from_chars(out)
    }
}

} // verus!
