//! Unsigned decimal numerals, the form in which a frequency is reported.

use vstd::prelude::*;
use vstd::string::*;

verus! {

/// An ASCII decimal digit.
pub open spec fn is_digit(c: char) -> bool {
    '0' <= c <= '9'
}

/// Every character of `s` is an ASCII decimal digit.
pub open spec fn all_digits(s: Seq<char>) -> bool {
    forall|i: int| 0 <= i < s.len() ==> is_digit(#[trigger] s[i])
}

/// `s` splits at `k` into a non-empty run of digits and either nothing or a
/// point followed by digits only.
pub open spec fn numeral_split(s: Seq<char>, k: int) -> bool {
    &&& 0 < k <= s.len()
    &&& all_digits(s.subrange(0, k))
    &&& k < s.len() ==> s[k] == '.' && all_digits(s.subrange(k + 1, s.len() as int))
}

/// A well-formed numeral: one or more digits, optionally followed by a point
/// and zero or more digits. No sign, no exponent, no digits from other scripts.
///
/// This is the grammar of the numeral group of the field patterns, in ASCII
/// digits. Every such text reads as a floating-point number, and among the
/// texts that the group can capture no other does.
pub open spec fn is_numeral(s: Seq<char>) -> bool {
    exists|k: int| numeral_split(s, k)
}

/// The numeral of a reading that is absent or malformed.
pub open spec fn zero_numeral() -> Seq<char> {
    seq!['0']
}

/// The numeral that stands for a field: the captured text where the field was
/// found and is well formed, zero otherwise.
pub open spec fn numeral_of(capture: Option<Seq<char>>) -> Seq<char> {
    match capture {
        Some(s) => if is_numeral(s) { s } else { zero_numeral() },
        None => zero_numeral(),
    }
}

/// The characters of a captured piece of text, if there is one.
pub open spec fn text_view(capture: Option<&str>) -> Option<Seq<char>> {
    match capture {
        Some(s) => Some(s@),
        None => None,
    }
}

/// The zero numeral is itself well formed.
pub proof fn zero_numeral_is_numeral()
    ensures
        is_numeral(zero_numeral()),
{
    assert(numeral_split(zero_numeral(), 1));
}

/// Whatever was captured, the numeral that stands for it is well formed.
pub proof fn numeral_of_is_numeral(capture: Option<Seq<char>>)
    ensures
        is_numeral(numeral_of(capture)),
{
    zero_numeral_is_numeral();
}

/// A numeral holds ASCII characters only.
pub proof fn numeral_is_ascii(s: Seq<char>)
    requires
        is_numeral(s),
    ensures
        vstd::utf8::is_ascii_chars(s),
{
    let k = choose|k: int| numeral_split(s, k);
    assert forall|i: int| 0 <= i < s.len() implies '\0' <= #[trigger] s[i] <= '\u{7f}' by {
        if i < k {
            assert(s.subrange(0, k)[i] == s[i]);
        } else if i > k {
            assert(s.subrange(k + 1, s.len() as int)[i - k - 1] == s[i]);
        }
    }
}

fn is_digit_byte(b: u8) -> (r: bool)
    ensures
        r == (0x30 <= b <= 0x39),
{
    b >= 0x30 && b <= 0x39
}

/// Decides whether `s` is a well-formed numeral.
pub fn is_numeral_text(s: &str) -> (r: bool)
    ensures
        r == is_numeral(s@),
{
    if !s.is_ascii() {
        proof {
            if is_numeral(s@) {
                numeral_is_ascii(s@);
            }
        }
        return false;
    }
    broadcast use is_ascii_spec_bytes;

    let bytes = s.as_bytes();
    let n = bytes.len();
    assert(n == s@.len());
    assert(forall|i: int| 0 <= i < n ==> bytes@[i] == s@[i] as u8);
    let mut k: usize = 0;
    while k < n && is_digit_byte(bytes[k])
        invariant
            k <= n,
            n == bytes@.len(),
            n == s@.len(),
            vstd::utf8::is_ascii_chars(s@),
            forall|i: int| 0 <= i < n ==> bytes@[i] == s@[i] as u8,
            forall|i: int| 0 <= i < k ==> is_digit(#[trigger] s@[i]),
        decreases n - k,
    {
        k += 1;
    }
    // `k` is the length of the leading run of digits, so no other split can work.
    assert(k < n ==> !is_digit(s@[k as int]));
    assert forall|j: int| numeral_split(s@, j) implies j == k by {
        if j < k {
            assert(is_digit(s@[j]));
        } else if j > k {
            assert(s@.subrange(0, j)[k as int] == s@[k as int]);
        }
    }
    if k == 0 {
        return false;
    }
    assert(all_digits(s@.subrange(0, k as int)));
    if k == n {
        assert(numeral_split(s@, k as int));
        return true;
    }
    if bytes[k] != 0x2e {
        return false;
    }
    assert(s@[k as int] == '.');
    let mut j: usize = k + 1;
    while j < n && is_digit_byte(bytes[j])
        invariant
            k < j <= n,
            n == bytes@.len(),
            n == s@.len(),
            vstd::utf8::is_ascii_chars(s@),
            forall|i: int| 0 <= i < n ==> bytes@[i] == s@[i] as u8,
            forall|i: int| k < i < j ==> is_digit(#[trigger] s@[i]),
        decreases n - j,
    {
        j += 1;
    }
    if j == n {
        assert(all_digits(s@.subrange(k + 1, n as int)));
        assert(numeral_split(s@, k as int));
        true
    } else {
        assert(!is_digit(s@[j as int]));
        assert(s@.subrange(k + 1, n as int)[j - k - 1] == s@[j as int]);
        false
    }
}

/// One frequency reading in MHz, held as the numeral that reported it.
#[derive(Debug, PartialEq, Eq)]
pub struct Reading {
    text: String,
}

impl View for Reading {
    type V = Seq<char>;

    /// The numeral of the reading.
    closed spec fn view(&self) -> Seq<char> {
        self.text@
    }
}

impl Reading {
    #[verifier::type_invariant]
    spec fn well_formed(self) -> bool {
        is_numeral(self.text@)
    }

    /// The reading that stands for an absent or malformed field.
    pub fn zero() -> (r: Reading)
        ensures
            r@ == zero_numeral(),
    {
        let text = String::from_str("0");
        proof {
            reveal_strlit("0");
            assert(text@ =~= zero_numeral());
            zero_numeral_is_numeral();
        }
        Reading { text }
    }

    /// Reads a numeral: `Some` exactly when `s` is well formed, and then the
    /// reading holds `s` unchanged.
    pub fn parse(s: &str) -> (r: Option<Reading>)
        ensures
            r is Some <==> is_numeral(s@),
            r matches Some(reading) ==> reading@ == s@,
    {
        if is_numeral_text(s) {
            Some(Reading { text: String::from_str(s) })
        } else {
            None
        }
    }

    /// The reading for what the search for a field pattern captured in its
    /// numeral group, if anything: the captured numeral where it is well
    /// formed, zero otherwise.
    ///
    /// The grammar is that of the group. A text of another shape that would
    /// still read as a floating-point number, such as `1e5`, `.5`, `+3` or
    /// `inf`, is no capture of the group, and reads zero here.
    pub fn from_capture(capture: Option<&str>) -> (r: Reading)
        ensures
            r@ == numeral_of(text_view(capture)),
    {
        match capture {
            Some(s) => match Reading::parse(s) {
                Some(reading) => reading,
                None => Reading::zero(),
            },
            None => Reading::zero(),
        }
    }

    /// The numeral of the reading, which is always well formed.
    pub fn as_str(&self) -> (s: &str)
        ensures
            s@ == self@,
            is_numeral(s@),
    {
        proof {
            use_type_invariant(self);
        }
        self.text.as_str()
    }
}

} // verus!
