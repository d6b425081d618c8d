//! The window catalogue: six amplitude-taper shapes, each with a fixed
//! canonical display name, parsed case-insensitively.

use vstd::prelude::*;

verus! {

/// The shape of an amplitude window applied to a sample block before the
/// forward transform.
#[derive(Clone, Copy, Debug, PartialEq, Eq, Structural)]
pub enum WindowType {
    /// A basic half cosine curve with its maximum in the middle.
    Hanning,
    /// Like `Hanning`, but with some scaling applied.
    Hamming,
    /// A cosine sum whose main lobe is wider than `Hamming`'s.
    Blackman,
    /// A four-term cosine sum, similar to `Blackman`.
    BlackmanHarris,
    /// A linear absolute-value ramp; the ends are non-zero.
    Parzen,
    /// Like `Parzen`, but squared.
    Welch,
}

/// The canonical display name of each window shape.
pub open spec fn spec_name(w: WindowType) -> Seq<char> {
    match w {
        WindowType::Hanning => "Hanning"@,
        WindowType::Hamming => "Hamming"@,
        WindowType::Blackman => "Blackman"@,
        WindowType::BlackmanHarris => "Blackman Harris"@,
        WindowType::Parzen => "Parzen"@,
        WindowType::Welch => "Welch"@,
    }
}

/// ASCII lower-casing of one character; characters outside `'A'..='Z'`
/// pass through unchanged.
pub open spec fn lower_char(c: char) -> char {
    if 'A' <= c && c <= 'Z' {
        ((c as int) + 32) as char
    } else {
        c
    }
}

/// Two character sequences are equal up to ASCII case.
pub open spec fn eq_ignore_case(a: Seq<char>, b: Seq<char>) -> bool {
    &&& a.len() == b.len()
    &&& forall|i: int| 0 <= i < a.len() ==> lower_char(a[i]) == lower_char(b[i])
}

/// Which window shape, if any, a name denotes: the first of the six
/// catalogue entries whose canonical name matches up to ASCII case.
pub open spec fn spec_from_name(s: Seq<char>) -> Option<WindowType> {
    if eq_ignore_case(s, spec_name(WindowType::Hanning)) {
        Some(WindowType::Hanning)
    } else if eq_ignore_case(s, spec_name(WindowType::Hamming)) {
        Some(WindowType::Hamming)
    } else if eq_ignore_case(s, spec_name(WindowType::Blackman)) {
        Some(WindowType::Blackman)
    } else if eq_ignore_case(s, spec_name(WindowType::BlackmanHarris)) {
        Some(WindowType::BlackmanHarris)
    } else if eq_ignore_case(s, spec_name(WindowType::Parzen)) {
        Some(WindowType::Parzen)
    } else if eq_ignore_case(s, spec_name(WindowType::Welch)) {
        Some(WindowType::Welch)
    } else {
        None
    }
}

fn to_lower(c: char) -> (r: char)
    ensures
        r == lower_char(c),
{
    match c {
        'A' => 'a',
        'B' => 'b',
        'C' => 'c',
        'D' => 'd',
        'E' => 'e',
        'F' => 'f',
        'G' => 'g',
        'H' => 'h',
        'I' => 'i',
        'J' => 'j',
        'K' => 'k',
        'L' => 'l',
        'M' => 'm',
        'N' => 'n',
        'O' => 'o',
        'P' => 'p',
        'Q' => 'q',
        'R' => 'r',
        'S' => 's',
        'T' => 't',
        'U' => 'u',
        'V' => 'v',
        'W' => 'w',
        'X' => 'x',
        'Y' => 'y',
        'Z' => 'z',
        _ => c,
    }
}

/// Character-wise comparison of two strings up to ASCII case.
fn str_eq_ignore_case(a: &str, b: &str) -> (r: bool)
    ensures
        r == eq_ignore_case(a@, b@),
{
    let alen = a.unicode_len();
    let blen = b.unicode_len();
    if alen != blen {
        return false;
    }
    for i in 0..alen
        invariant
            alen == a@.len(),
            blen == b@.len(),
            alen == blen,
            forall|j: int| 0 <= j < i ==> lower_char(a@[j]) == lower_char(b@[j]),
    {
        let ca = a.get_char(i);
        let cb = b.get_char(i);
        if to_lower(ca) != to_lower(cb) {
            return false;
        }
    }
    true
}

impl WindowType {
    /// The canonical display name of this window shape.
    pub fn get_name(self) -> (r: &'static str)
        ensures
            r@ == spec_name(self),
    {
        match self {
            WindowType::Hanning => "Hanning",
            WindowType::Hamming => "Hamming",
            WindowType::Blackman => "Blackman",
            WindowType::BlackmanHarris => "Blackman Harris",
            WindowType::Parzen => "Parzen",
            WindowType::Welch => "Welch",
        }
    }

    /// Looks a window shape up by name, ignoring ASCII case; a name that
    /// matches no catalogue entry denotes no window rather than an error.
    pub fn from_name(name: &str) -> (r: Option<WindowType>)
        ensures
            r == spec_from_name(name@),
    {
        if str_eq_ignore_case(name, "Hanning") {
            Some(WindowType::Hanning)
        } else if str_eq_ignore_case(name, "Hamming") {
            Some(WindowType::Hamming)
        } else if str_eq_ignore_case(name, "Blackman") {
            Some(WindowType::Blackman)
        } else if str_eq_ignore_case(name, "Blackman Harris") {
            Some(WindowType::BlackmanHarris)
        } else if str_eq_ignore_case(name, "Parzen") {
            Some(WindowType::Parzen)
        } else if str_eq_ignore_case(name, "Welch") {
            Some(WindowType::Welch)
        } else {
            None
        }
    }

    /// Same lookup as [`WindowType::from_name`], under the constructor
    /// name the host boundary uses.
    pub fn new(variant: &str) -> (r: Option<WindowType>)
        ensures
            r == spec_from_name(variant@),
    {
        Self::from_name(variant)
    }

    /// The canonical names of all six window shapes, in catalogue order.
    pub fn variants() -> (r: Vec<&'static str>)
        ensures
            r@.len() == 6,
            r@[0]@ == spec_name(WindowType::Hanning),
            r@[1]@ == spec_name(WindowType::Hamming),
            r@[2]@ == spec_name(WindowType::Blackman),
            r@[3]@ == spec_name(WindowType::BlackmanHarris),
            r@[4]@ == spec_name(WindowType::Parzen),
            r@[5]@ == spec_name(WindowType::Welch),
    {
        let mut v: Vec<&'static str> = Vec::new();
        v.push(WindowType::Hanning.get_name());
        v.push(WindowType::Hamming.get_name());
        v.push(WindowType::Blackman.get_name());
        v.push(WindowType::BlackmanHarris.get_name());
        v.push(WindowType::Parzen.get_name());
        v.push(WindowType::Welch.get_name());
        v
    }
}

proof fn lemma_eq_same_target(a: Seq<char>, b: Seq<char>, n: Seq<char>)
    requires
        eq_ignore_case(a, b),
    ensures
        eq_ignore_case(a, n) == eq_ignore_case(b, n),
{
    if eq_ignore_case(a, n) {
        assert forall|i: int| 0 <= i < b.len() implies lower_char(b[i]) == lower_char(n[i]) by {
            assert(lower_char(a[i]) == lower_char(b[i]));
        }
    }
    if eq_ignore_case(b, n) {
        assert forall|i: int| 0 <= i < a.len() implies lower_char(a[i]) == lower_char(n[i]) by {
            assert(lower_char(a[i]) == lower_char(b[i]));
        }
    }
}

/// Parsing ignores ASCII case: two names equal up to case denote the
/// same window shape, or both denote none.
pub proof fn lemma_parse_case_insensitive(a: Seq<char>, b: Seq<char>)
    requires
        eq_ignore_case(a, b),
    ensures
        spec_from_name(a) == spec_from_name(b),
{
    lemma_eq_same_target(a, b, spec_name(WindowType::Hanning));
    lemma_eq_same_target(a, b, spec_name(WindowType::Hamming));
    lemma_eq_same_target(a, b, spec_name(WindowType::Blackman));
    lemma_eq_same_target(a, b, spec_name(WindowType::BlackmanHarris));
    lemma_eq_same_target(a, b, spec_name(WindowType::Parzen));
    lemma_eq_same_target(a, b, spec_name(WindowType::Welch));
}

/// Round trip of a window name: the canonical name of every window shape
/// parses back to exactly that shape.
pub proof fn lemma_name_round_trip(w: WindowType)
    ensures
        spec_from_name(spec_name(w)) == Some(w),
{
    reveal_strlit("Hanning");
    reveal_strlit("Hamming");
    reveal_strlit("Blackman");
    reveal_strlit("Blackman Harris");
    reveal_strlit("Parzen");
    reveal_strlit("Welch");
    assert(eq_ignore_case(spec_name(w), spec_name(w)));
    if w is Hamming {
        assert(lower_char("Hamming"@[2]) != lower_char("Hanning"@[2]));
    }
}

} // verus!
