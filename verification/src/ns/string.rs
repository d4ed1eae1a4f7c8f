//! A string value, held as its characters, with the documented
//! string-to-number and case conversions verified against exact
//! specifications.

use vstd::prelude::*;
use vstd::std_specs::iter::IteratorSpec;

verus! {

broadcast use vstd::string::next_postcondition, vstd::string::axiom_spec_iter;

/// The byte encodings a string can be asked to produce.
#[derive(Clone, Copy, Debug, PartialEq, Eq, Structural)]
pub enum Encoding {
    Ascii,
    Utf8,
    MacOsRoman,
}

/// A string value of the binding layer, held as its characters.
pub struct String {
    chars: Vec<char>,
}

/// A mutable copy of a string value.
pub struct StringMut {
    pub string: String,
}

impl View for String {
    type V = Seq<char>;

    closed spec fn view(&self) -> Seq<char> {
        self.chars@
    }
}

/// Whitespace, as the leading-junk rule of the numeric conversions skips
/// it.
pub open spec fn is_space(c: char) -> bool {
    c == ' ' || c == '\t' || c == '\n' || c == '\r'
}

/// A decimal digit.
pub open spec fn is_digit(c: char) -> bool {
    '0' <= c && c <= '9'
}

/// The value of a decimal digit.
pub open spec fn digit_val(c: char) -> int {
    c as int - '0' as int
}

/// The string with its leading whitespace removed.
pub open spec fn skip_spaces(s: Seq<char>) -> Seq<char>
    decreases s.len(),
{
    if s.len() > 0 && is_space(s[0]) {
        skip_spaces(s.skip(1))
    } else {
        s
    }
}

/// The string with its leading zero digits removed.
pub open spec fn skip_zeros(s: Seq<char>) -> Seq<char>
    decreases s.len(),
{
    if s.len() > 0 && s[0] == '0' {
        skip_zeros(s.skip(1))
    } else {
        s
    }
}

/// The value of the leading digit run, folded onto an accumulator; the run
/// ends at the first non-digit.
pub open spec fn digit_run_value(s: Seq<char>, acc: int) -> int
    decreases s.len(),
{
    if s.len() > 0 && is_digit(s[0]) {
        digit_run_value(s.skip(1), acc * 10 + digit_val(s[0]))
    } else {
        acc
    }
}

/// The unbounded value of the leading decimal integer: leading whitespace
/// is skipped, one sign is honoured, and the digits up to the first
/// non-digit are read; a string with no leading digits has value zero.
pub open spec fn int_prefix_value(s: Seq<char>) -> int {
    let t = skip_spaces(s);
    if t.len() > 0 && t[0] == '-' {
        -digit_run_value(t.skip(1), 0)
    } else if t.len() > 0 && t[0] == '+' {
        digit_run_value(t.skip(1), 0)
    } else {
        digit_run_value(t, 0)
    }
}

/// A value squeezed into the inclusive range `lo ..= hi`.
pub open spec fn clamped(v: int, lo: int, hi: int) -> int {
    if v < lo {
        lo
    } else if v > hi {
        hi
    } else {
        v
    }
}

/// The truth value of a string: whitespace, one optional sign and zero
/// digits are skipped; the string is true exactly when the next character
/// is `Y`, `y`, `T`, `t` or a digit one to nine.
pub open spec fn bool_value(s: Seq<char>) -> bool {
    let t = skip_spaces(s);
    let u = if t.len() > 0 && (t[0] == '-' || t[0] == '+') {
        t.skip(1)
    } else {
        t
    };
    let v = skip_zeros(u);
    v.len() > 0 && (v[0] == 'Y' || v[0] == 'y' || v[0] == 'T' || v[0] == 't' || ('1' <= v[0]
        && v[0] <= '9'))
}

/// A character folded to lower case over the ascii letters.
pub open spec fn lower_char(c: char) -> char {
    if 'A' <= c && c <= 'Z' {
        ((c as u8) + 32) as char
    } else {
        c
    }
}

/// The number of bytes the eight-bit transformation format spends on one
/// character.
pub open spec fn utf8_len_char(c: char) -> int {
    if (c as u32) < 0x80 {
        1
    } else if (c as u32) < 0x800 {
        2
    } else if (c as u32) < 0x1_0000 {
        3
    } else {
        4
    }
}

/// The byte length of a string in the eight-bit transformation format.
pub open spec fn utf8_len(s: Seq<char>) -> int
    decreases s.len(),
{
    if s.len() == 0 {
        0
    } else {
        utf8_len(s.drop_last()) + utf8_len_char(s.last())
    }
}

proof fn lemma_skip_spaces_step(s: Seq<char>, i: int)
    requires
        0 <= i < s.len(),
        is_space(s[i]),
    ensures
        skip_spaces(s.skip(i)) == skip_spaces(s.skip(i + 1)),
{
    assert(s.skip(i)[0] == s[i]);
    assert(s.skip(i).skip(1) =~= s.skip(i + 1));
}

proof fn lemma_skip_zeros_step(s: Seq<char>, i: int)
    requires
        0 <= i < s.len(),
        s[i] == '0',
    ensures
        skip_zeros(s.skip(i)) == skip_zeros(s.skip(i + 1)),
{
    assert(s.skip(i)[0] == s[i]);
    assert(s.skip(i).skip(1) =~= s.skip(i + 1));
}

proof fn lemma_digit_run_step(s: Seq<char>, i: int, acc: int)
    requires
        0 <= i < s.len(),
        is_digit(s[i]),
    ensures
        digit_run_value(s.skip(i), acc) == digit_run_value(s.skip(i + 1), acc * 10 + digit_val(
            s[i],
        )),
{
    assert(s.skip(i)[0] == s[i]);
    assert(s.skip(i).skip(1) =~= s.skip(i + 1));
}

/// Folding more digits onto a non-negative accumulator never lowers it.
proof fn lemma_digit_run_lower(s: Seq<char>, acc: int)
    requires
        acc >= 0,
    ensures
        digit_run_value(s, acc) >= acc,
    decreases s.len(),
{
    if s.len() > 0 && is_digit(s[0]) {
        lemma_digit_run_lower(s.skip(1), acc * 10 + digit_val(s[0]));
    }
}

/// Reads the leading decimal integer of `s` starting at nothing skipped,
/// and squeezes it into `lo ..= hi`.  `bound` must be the magnitude of
/// `lo`, which must be one more than `hi`, as it is for the two's
/// complement ranges this serves.
#[verifier::loop_isolation(false)]
fn decimal_prefix_clamped(chars: &Vec<char>, lo: i64, hi: i64, bound: u64) -> (r: i64)
    requires
        lo < 0 && hi > 0,
        lo + bound == 0,
        hi + 1 == bound,
    ensures
        r == clamped(int_prefix_value(chars@), lo as int, hi as int),
{
    let ghost s = chars@;
    let n = chars.len();
    let mut i: usize = 0;
    proof {
        assert(s.skip(0) =~= s);
    }
    while i < n && (chars[i] == ' ' || chars[i] == '\t' || chars[i] == '\n' || chars[i] == '\r')
        invariant
            i <= n,
            n == s.len(),
            skip_spaces(s) == skip_spaces(s.skip(i as int)),
        decreases n - i,
    {
        proof {
            lemma_skip_spaces_step(s, i as int);
        }
        i += 1;
    }
    proof {
        if i < n {
            assert(s.skip(i as int)[0] == s[i as int]);
        }
        assert(skip_spaces(s) == s.skip(i as int));
    }
    let ghost t = skip_spaces(s);
    let mut negative = false;
    if i < n && (chars[i] == '-' || chars[i] == '+') {
        negative = chars[i] == '-';
        i += 1;
        proof {
            assert(t.skip(1) =~= s.skip(i as int));
        }
    }
    let ghost run_start = i as int;
    let ghost run = digit_run_value(s.skip(run_start), 0);
    proof {
        lemma_digit_run_lower(s.skip(run_start), 0);
    }
    let positive_bound: u64 = if negative {
        bound
    } else {
        bound - 1
    };
    let mut acc: u64 = 0;
    let ghost mut acc_g: int = 0;
    while i < n && '0' <= chars[i] && chars[i] <= '9'
        invariant
            run_start <= i as int <= n,
            n == s.len(),
            run == digit_run_value(s.skip(i as int), acc_g),
            0 <= acc_g,
            acc == acc_g,
            acc_g <= positive_bound,
            positive_bound == if negative {
                bound as int
            } else {
                bound - 1
            },
            lo < 0 && hi > 0 && lo + bound == 0 && hi + 1 == bound,
        decreases n - i,
    {
        let c = chars[i];
        let d: u64 = (c as u32 - '0' as u32) as u64;
        proof {
            lemma_digit_run_step(s, i as int, acc_g);
        }
        let wide: u128 = (acc as u128) * 10 + (d as u128);
        if wide > positive_bound as u128 {
            proof {
                lemma_digit_run_lower(s.skip(i as int + 1), acc_g * 10 + digit_val(s[i as int]));
                assert(run > positive_bound);
            }
            if negative {
                return lo;
            } else {
                return hi;
            }
        }
        acc = wide as u64;
        proof {
            acc_g = acc_g * 10 + digit_val(s[i as int]);
        }
        i += 1;
    }
    proof {
        assert(digit_run_value(s.skip(i as int), acc_g) == acc_g);
        assert(run == acc_g);
    }
    if negative {
        if acc == bound {
            lo
        } else {
            -(acc as i64)
        }
    } else {
        acc as i64
    }
}

impl String {
    /// The number of characters held.
    pub fn len(&self) -> (r: usize)
        ensures
            r == self@.len(),
    {
        self.chars.len()
    }

    /// Whether no characters are held.
    pub fn is_empty(&self) -> (r: bool)
        ensures
            r == (self@.len() == 0),
    {
        self.chars.len() == 0
    }

    /// A string holding exactly the given characters.
    pub fn from_chars(chars: Vec<char>) -> (r: String)
        ensures
            r@ == chars@,
    {
        String { chars }
    }

    /// A string holding exactly the characters of a native string slice.
    #[verifier::loop_isolation(false)]
    pub fn with_str(s: &str) -> (r: String)
        ensures
            r@ == s@,
    {
        let mut chars: Vec<char> = Vec::new();
        let mut it = s.chars();
        loop
            invariant
                it.obeys_prophetic_iter_laws(),
                it.decrease() is Some,
                chars@ + it.remaining() == s@,
            decreases it.decrease()->0,
        {
            match it.next() {
                Some(c) => {
                    chars.push(c);
                    proof {
                        assert(chars@ + it.remaining() =~= s@);
                    }
                },
                None => {
                    proof {
                        assert(chars@ =~= s@);
                    }
                    return String { chars };
                },
            }
        }
    }

    /// The characters folded to lower case over the ascii letters.
    #[verifier::loop_isolation(false)]
    pub fn lowercased(&self) -> (r: String)
        ensures
            r@.len() == self@.len(),
            forall|k: int| 0 <= k < self@.len() ==> r@[k] == lower_char(self@[k]),
    {
        let mut out: Vec<char> = Vec::new();
        let mut k: usize = 0;
        while k < self.chars.len()
            invariant
                k <= self@.len(),
                out@.len() == k,
                forall|t: int| 0 <= t < k ==> out@[t] == lower_char(self@[t]),
            decreases self@.len() - k,
        {
            let c = self.chars[k];
            if 'A' <= c && c <= 'Z' {
                out.push(((c as u8) + 32) as char);
            } else {
                out.push(c);
            }
            k += 1;
        }
        String { chars: out }
    }

    /// The leading decimal integer squeezed into the 32-bit range.
    pub fn to_i32(&self) -> (r: i32)
        ensures
            r == clamped(int_prefix_value(self@), i32::MIN as int, i32::MAX as int),
    {
        let v = decimal_prefix_clamped(&self.chars, i32::MIN as i64, i32::MAX as i64, 0x8000_0000);
        v as i32
    }

    /// The leading decimal integer squeezed into the 64-bit range.
    pub fn to_i64(&self) -> (r: i64)
        ensures
            r == clamped(int_prefix_value(self@), i64::MIN as int, i64::MAX as int),
    {
        decimal_prefix_clamped(&self.chars, i64::MIN, i64::MAX, 0x8000_0000_0000_0000)
    }

    /// The leading decimal integer squeezed into the platform's signed
    /// word range.
    pub fn to_integer(&self) -> (r: crate::ns::Integer)
        ensures
            r == clamped(int_prefix_value(self@), isize::MIN as int, isize::MAX as int),
    {
        let v = decimal_prefix_clamped(&self.chars, i64::MIN, i64::MAX, 0x8000_0000_0000_0000);
        if v > isize::MAX as i64 {
            proof {
                assert(int_prefix_value(self@) > isize::MAX as int);
            }
            isize::MAX
        } else if v < isize::MIN as i64 {
            isize::MIN
        } else {
            v as isize
        }
    }

    /// The truth value of the string: whitespace, one sign and leading
    /// zeros are skipped; true exactly on `Y`, `y`, `T`, `t` or a digit
    /// one to nine.
    #[verifier::loop_isolation(false)]
    pub fn to_bool(&self) -> (r: bool)
        ensures
            r == bool_value(self@),
    {
        let ghost s = self@;
        let n = self.chars.len();
        let mut i: usize = 0;
        proof {
            assert(s.skip(0) =~= s);
        }
        while i < n && (self.chars[i] == ' ' || self.chars[i] == '\t' || self.chars[i] == '\n'
            || self.chars[i] == '\r')
            invariant
                i <= n,
            n == s.len(),
                skip_spaces(s) == skip_spaces(s.skip(i as int)),
            decreases n - i,
        {
            proof {
                lemma_skip_spaces_step(s, i as int);
            }
            i += 1;
        }
        proof {
            if i < n {
                assert(s.skip(i as int)[0] == s[i as int]);
            }
            assert(skip_spaces(s) == s.skip(i as int));
        }
        let ghost t = skip_spaces(s);
        if i < n && (self.chars[i] == '-' || self.chars[i] == '+') {
            i += 1;
            proof {
                assert(t.skip(1) =~= s.skip(i as int));
            }
        }
        let ghost u_start = i as int;
        while i < n && self.chars[i] == '0'
            invariant
                u_start <= i as int <= n,
                n == s.len(),
                skip_zeros(s.skip(u_start)) == skip_zeros(s.skip(i as int)),
            decreases n - i,
        {
            proof {
                lemma_skip_zeros_step(s, i as int);
            }
            i += 1;
        }
        proof {
            if i < n {
                assert(s.skip(i as int)[0] == s[i as int]);
            }
            assert(skip_zeros(s.skip(u_start)) == s.skip(i as int));
        }
        if i < n {
            proof {
                assert(s.skip(i as int)[0] == s[i as int]);
            }
            let c = self.chars[i];
            c == 'Y' || c == 'y' || c == 'T' || c == 't' || ('1' <= c && c <= '9')
        } else {
            false
        }
    }

    /// Whether two strings hold the same characters.
    pub fn is_equal_to(&self, other: &String) -> (r: bool)
        ensures
            r == (self@ =~= other@),
    {
        if self.chars.len() != other.chars.len() {
            return false;
        }
        let mut k: usize = 0;
        while k < self.chars.len()
            invariant
                k <= self@.len(),
                self@.len() == other@.len(),
                forall|t: int| 0 <= t < k ==> self@[t] == other@[t],
            decreases self@.len() - k,
        {
            if self.chars[k] != other.chars[k] {
                return false;
            }
            k += 1;
        }
        proof {
            assert(self@ =~= other@);
        }
        true
    }

    /// A mutable copy holding the same characters.
    #[verifier::loop_isolation(false)]
    pub fn copy_mut(&self) -> (r: StringMut)
        ensures
            r.string@ == self@,
    {
        let mut chars: Vec<char> = Vec::new();
        let mut k: usize = 0;
        while k < self.chars.len()
            invariant
                k <= self@.len(),
                chars@ == self@.subrange(0, k as int),
            decreases self@.len() - k,
        {
            chars.push(self.chars[k]);
            proof {
                assert(chars@ =~= self@.subrange(0, k as int + 1));
            }
            k += 1;
        }
        proof {
            assert(chars@ =~= self@);
        }
        StringMut { string: String { chars } }
    }

    /// The characters of the half-open range as a new string.
    #[verifier::loop_isolation(false)]
    pub fn substring(&self, range: core::ops::Range<usize>) -> (r: String)
        requires
            range.start <= range.end <= self@.len(),
        ensures
            r@ == self@.subrange(range.start as int, range.end as int),
    {
        let mut chars: Vec<char> = Vec::new();
        let mut k: usize = range.start;
        let end = range.end;
        let ghost start = range.start as int;
        while k < end
            invariant
                start <= k as int <= end <= self@.len(),
                chars@ == self@.subrange(start, k as int),
            decreases end - k,
        {
            chars.push(self.chars[k]);
            proof {
                assert(chars@ =~= self@.subrange(start, k as int + 1));
            }
            k += 1;
        }
        String { chars }
    }

    /// The bytes of the string in the asked encoding, where every
    /// character fits in it: this model serves the seven-bit range, on
    /// which the supported encodings agree.  A string with a character
    /// outside that range has no such bytes.
    #[verifier::loop_isolation(false)]
    pub fn c_string(&self, encoding: Encoding) -> (r: Option<Vec<u8>>)
        ensures
            (forall|k: int| 0 <= k < self@.len() ==> (self@[k] as u32) < 0x80) <==> r is Some,
            r matches Some(bytes) ==> bytes@.len() == self@.len() && forall|k: int|
                0 <= k < self@.len() ==> bytes@[k] == self@[k] as u8,
    {
        let _ = encoding;
        let mut out: Vec<u8> = Vec::new();
        let mut k: usize = 0;
        while k < self.chars.len()
            invariant
                k <= self@.len(),
                out@.len() == k,
                forall|t: int| 0 <= t < k ==> (self@[t] as u32) < 0x80,
                forall|t: int| 0 <= t < k ==> out@[t] == self@[t] as u8,
            decreases self@.len() - k,
        {
            let c = self.chars[k];
            if (c as u32) >= 0x80 {
                return None;
            }
            out.push(c as u8);
            k += 1;
        }
        Some(out)
    }

    /// The byte length of the string in the asked encoding: the eight-bit
    /// transformation format counts each character's encoded width; the
    /// fixed encodings count one byte per character when every character
    /// fits the seven-bit range and report zero otherwise.
    #[verifier::loop_isolation(false)]
    pub fn len_of_bytes(&self, encoding: Encoding) -> (r: crate::ns::UInteger)
        requires
            self@.len() <= usize::MAX / 4,
        ensures
            encoding is Utf8 ==> r == utf8_len(self@),
            !(encoding is Utf8) ==> r == (if forall|k: int|
                0 <= k < self@.len() ==> (self@[k] as u32) < 0x80 {
                self@.len() as int
            } else {
                0
            }),
    {
        match encoding {
            Encoding::Utf8 => {
                let mut total: usize = 0;
                let mut k: usize = 0;
                while k < self.chars.len()
                    invariant
                        k <= self@.len() <= usize::MAX / 4,
                        total == utf8_len(self@.subrange(0, k as int)),
                        total <= 4 * k,
                    decreases self@.len() - k,
                {
                    proof {
                        assert(self@.subrange(0, k as int + 1).drop_last() =~= self@.subrange(
                            0,
                            k as int,
                        ));
                        assert(self@.subrange(0, k as int + 1).last() == self@[k as int]);
                    }
                    let c = self.chars[k] as u32;
                    let w: usize = if c < 0x80 {
                        1
                    } else if c < 0x800 {
                        2
                    } else if c < 0x1_0000 {
                        3
                    } else {
                        4
                    };
                    total += w;
                    k += 1;
                }
                proof {
                    assert(self@.subrange(0, self@.len() as int) =~= self@);
                }
                total
            },
            _ => {
                let mut k: usize = 0;
                while k < self.chars.len()
                    invariant
                        k <= self@.len(),
                        forall|t: int| 0 <= t < k ==> (self@[t] as u32) < 0x80,
                    decreases self@.len() - k,
                {
                    if (self.chars[k] as u32) >= 0x80 {
                        return 0;
                    }
                    k += 1;
                }
                self.chars.len()
            },
        }
    }
}

} // verus!
