//! Character-level building blocks shared by the parsers of this library:
//! Unicode whitespace, searching and trimming within a range, and decimal
//! numbers in both directions.

use vstd::prelude::*;
use vstd::string::StringSliceAdditionalSpecFns;
use vstd::string::StrSliceExecFns;
use vstd::string::StringExecFns;

verus! {

broadcast use vstd::utf8::encode_utf8_decode_utf8;

/// The Unicode `White_Space` property, which `char::is_whitespace` tests.
pub open spec fn is_white(c: char) -> bool {
    let u = c as u32;
    ||| (0x9 <= u && u <= 0xd)
    ||| u == 0x20
    ||| u == 0x85
    ||| u == 0xa0
    ||| u == 0x1680
    ||| (0x2000 <= u && u <= 0x200a)
    ||| u == 0x2028
    ||| u == 0x2029
    ||| u == 0x202f
    ||| u == 0x205f
    ||| u == 0x3000
}

/// Whether `c` is Unicode whitespace.
pub fn is_white_char(c: char) -> (r: bool)
    ensures
        r == is_white(c),
{
    let u = c as u32;
    (0x9 <= u && u <= 0xd) || u == 0x20 || u == 0x85 || u == 0xa0 || u == 0x1680 || (0x2000
        <= u && u <= 0x200a) || u == 0x2028 || u == 0x2029 || u == 0x202f || u == 0x205f || u
        == 0x3000
}

/// First index `j` in `[i, hi)` with `s[j] == c`, or `hi` when there is none.
pub open spec fn find_char(s: Seq<char>, c: char, i: int, hi: int) -> int
    decreases hi - i,
{
    if i >= hi {
        hi
    } else if s[i] == c {
        i
    } else {
        find_char(s, c, i + 1, hi)
    }
}

/// First index `j` in `[i, hi)` with `s[j]` not whitespace, or `hi`.
pub open spec fn skip_white(s: Seq<char>, i: int, hi: int) -> int
    decreases hi - i,
{
    if i >= hi {
        hi
    } else if is_white(s[i]) {
        skip_white(s, i + 1, hi)
    } else {
        i
    }
}

/// First index `j` in `[i, hi)` with `s[j]` whitespace, or `hi`.
pub open spec fn find_white(s: Seq<char>, i: int, hi: int) -> int
    decreases hi - i,
{
    if i >= hi {
        hi
    } else if is_white(s[i]) {
        i
    } else {
        find_white(s, i + 1, hi)
    }
}

/// One past the last non-whitespace index in `[lo, j)`, or `lo`.
pub open spec fn back_white(s: Seq<char>, lo: int, j: int) -> int
    decreases j - lo,
{
    if j <= lo {
        lo
    } else if is_white(s[j - 1]) {
        back_white(s, lo, j - 1)
    } else {
        j
    }
}

/// Start of `s[lo..hi]` with surrounding whitespace removed (as `str::trim`).
pub open spec fn trim_lo(s: Seq<char>, lo: int, hi: int) -> int {
    skip_white(s, lo, hi)
}

/// End of `s[lo..hi]` with surrounding whitespace removed (as `str::trim`).
pub open spec fn trim_hi(s: Seq<char>, lo: int, hi: int) -> int {
    back_white(s, skip_white(s, lo, hi), hi)
}

/// `s[lo..hi]` with leading and trailing whitespace removed.
pub open spec fn trimmed(s: Seq<char>, lo: int, hi: int) -> Seq<char> {
    s.subrange(trim_lo(s, lo, hi), trim_hi(s, lo, hi))
}

/// `s` without leading and trailing whitespace (as `str::trim`).
pub open spec fn trim(s: Seq<char>) -> Seq<char> {
    trimmed(s, 0, s.len() as int)
}

/// Searching a slice `s[lo..hi]` is searching `s` within `[lo, hi)`.
pub proof fn lemma_find_char_shift(s: Seq<char>, c: char, lo: int, i: int, hi: int)
    requires
        0 <= lo <= i <= hi <= s.len(),
    ensures
        find_char(s.subrange(lo, hi), c, i - lo, hi - lo) == find_char(s, c, i, hi) - lo,
        i <= find_char(s, c, i, hi) <= hi,
    decreases hi - i,
{
    let sub = s.subrange(lo, hi);
    if i < hi {
        assert(sub[i - lo] == s[i]);
        lemma_find_char_shift(s, c, lo, i + 1, hi);
    }
}

/// Skipping whitespace in a slice `s[lo..hi]` is skipping it in `s` within
/// `[lo, hi)`.
pub proof fn lemma_skip_white_shift(s: Seq<char>, lo: int, i: int, hi: int)
    requires
        0 <= lo <= i <= hi <= s.len(),
    ensures
        skip_white(s.subrange(lo, hi), i - lo, hi - lo) == skip_white(s, i, hi) - lo,
        i <= skip_white(s, i, hi) <= hi,
    decreases hi - i,
{
    let sub = s.subrange(lo, hi);
    if i < hi {
        assert(sub[i - lo] == s[i]);
        lemma_skip_white_shift(s, lo, i + 1, hi);
    }
}

/// Finding whitespace in a slice `s[lo..hi]` is finding it in `s` within
/// `[lo, hi)`.
pub proof fn lemma_find_white_shift(s: Seq<char>, lo: int, i: int, hi: int)
    requires
        0 <= lo <= i <= hi <= s.len(),
    ensures
        find_white(s.subrange(lo, hi), i - lo, hi - lo) == find_white(s, i, hi) - lo,
        i <= find_white(s, i, hi) <= hi,
    decreases hi - i,
{
    let sub = s.subrange(lo, hi);
    if i < hi {
        assert(sub[i - lo] == s[i]);
        lemma_find_white_shift(s, lo, i + 1, hi);
    }
}

/// Dropping trailing whitespace in a slice `s[lo0..hi0]` is dropping it in `s`.
pub proof fn lemma_back_white_shift(s: Seq<char>, lo0: int, hi0: int, lo: int, j: int)
    requires
        0 <= lo0 <= lo <= j <= hi0 <= s.len(),
    ensures
        back_white(s.subrange(lo0, hi0), lo - lo0, j - lo0) == back_white(s, lo, j) - lo0,
        lo <= back_white(s, lo, j) <= j,
    decreases j - lo,
{
    let sub = s.subrange(lo0, hi0);
    if j > lo {
        assert(sub[j - 1 - lo0] == s[j - 1]);
        lemma_back_white_shift(s, lo0, hi0, lo, j - 1);
    }
}

/// Trimming the slice `s[lo..hi]` gives `trimmed(s, lo, hi)`, which lies
/// within `[lo, hi)`.
pub proof fn lemma_trim_slice(s: Seq<char>, lo: int, hi: int)
    requires
        0 <= lo <= hi <= s.len(),
    ensures
        trim(s.subrange(lo, hi)) == trimmed(s, lo, hi),
        lo <= trim_lo(s, lo, hi) <= trim_hi(s, lo, hi) <= hi,
{
    let sub = s.subrange(lo, hi);
    lemma_skip_white_shift(s, lo, lo, hi);
    let a = skip_white(s, lo, hi);
    lemma_back_white_shift(s, lo, hi, a, hi);
    let b = back_white(s, a, hi);
    assert(trim_lo(sub, 0, sub.len() as int) == a - lo);
    assert(trim_hi(sub, 0, sub.len() as int) == b - lo);
    assert(trim(sub) =~= s.subrange(a, b));
}

/// `find_char` stays within `[i, hi]`.
pub proof fn lemma_find_char_bounds(s: Seq<char>, c: char, i: int, hi: int)
    requires
        i <= hi,
    ensures
        i <= find_char(s, c, i, hi) <= hi,
    decreases hi - i,
{
    if i < hi && s[i] != c {
        lemma_find_char_bounds(s, c, i + 1, hi);
    }
}

/// Index of the first `c` in `s[i..hi]`, or `hi`.
pub fn find_char_exec(s: &Vec<char>, c: char, i: usize, hi: usize) -> (r: usize)
    requires
        i <= hi <= s.len(),
    ensures
        r == find_char(s@, c, i as int, hi as int),
        i <= r <= hi,
{
    let mut j = i;
    while j < hi
        invariant
            i <= j <= hi <= s.len(),
            find_char(s@, c, i as int, hi as int) == find_char(s@, c, j as int, hi as int),
        decreases hi - j,
    {
        if s[j] == c {
            return j;
        }
        j = j + 1;
    }
    j
}

/// Index of the first non-whitespace char in `s[i..hi]`, or `hi`.
pub fn skip_white_exec(s: &Vec<char>, i: usize, hi: usize) -> (r: usize)
    requires
        i <= hi <= s.len(),
    ensures
        r == skip_white(s@, i as int, hi as int),
        i <= r <= hi,
{
    let mut j = i;
    while j < hi
        invariant
            i <= j <= hi <= s.len(),
            skip_white(s@, i as int, hi as int) == skip_white(s@, j as int, hi as int),
        decreases hi - j,
    {
        if !is_white_char(s[j]) {
            return j;
        }
        j = j + 1;
    }
    j
}

/// Index of the first whitespace char in `s[i..hi]`, or `hi`.
pub fn find_white_exec(s: &Vec<char>, i: usize, hi: usize) -> (r: usize)
    requires
        i <= hi <= s.len(),
    ensures
        r == find_white(s@, i as int, hi as int),
        i <= r <= hi,
{
    let mut j = i;
    while j < hi
        invariant
            i <= j <= hi <= s.len(),
            find_white(s@, i as int, hi as int) == find_white(s@, j as int, hi as int),
        decreases hi - j,
    {
        if is_white_char(s[j]) {
            return j;
        }
        j = j + 1;
    }
    j
}

/// Bounds `(a, b)` of `s[lo..hi]` with surrounding whitespace removed.
pub fn trim_range(s: &Vec<char>, lo: usize, hi: usize) -> (r: (usize, usize))
    requires
        lo <= hi <= s.len(),
    ensures
        r.0 == trim_lo(s@, lo as int, hi as int),
        r.1 == trim_hi(s@, lo as int, hi as int),
        lo <= r.0 <= r.1 <= hi,
{
    let a = skip_white_exec(s, lo, hi);
    let mut b = hi;
    while b > a
        invariant
            lo <= a <= b <= hi <= s.len(),
            back_white(s@, a as int, hi as int) == back_white(s@, a as int, b as int),
        ensures
            back_white(s@, a as int, hi as int) == b,
        decreases b - a,
    {
        if !is_white_char(s[b - 1]) {
            break;
        }
        b = b - 1;
    }
    (a, b)
}

/// The characters of `s`, in order.
pub fn chars_of(s: &str) -> (v: Vec<char>)
    ensures
        v@ == s@,
{
    let n = s.unicode_len();
    let mut v: Vec<char> = Vec::new();
    let mut i: usize = 0;
    while i < n
        invariant
            n == s@.len(),
            i <= n,
            v@ == s@.take(i as int),
        decreases n - i,
    {
        let c = s.get_char(i);
        v.push(c);
        i = i + 1;
        assert(v@ =~= s@.take(i as int));
    }
    assert(s@.take(n as int) =~= s@);
    v
}

/// Whether two strings hold the same characters.
pub fn str_eq(a: &str, b: &str) -> (r: bool)
    ensures
        r == (a@ == b@),
{
    let x = a.as_bytes();
    let y = b.as_bytes();
    if x.len() != y.len() {
        return false;
    }
    let mut i: usize = 0;
    while i < x.len()
        invariant
            x@ == a.spec_bytes(),
            y@ == b.spec_bytes(),
            x.len() == y.len(),
            i <= x.len(),
            forall|k: int| 0 <= k < i ==> x@[k] == y@[k],
        decreases x.len() - i,
    {
        if x[i] != y[i] {
            return false;
        }
        i = i + 1;
    }
    assert(x@ =~= y@);
    assert(a@ == vstd::utf8::decode_utf8(a.spec_bytes()));
    assert(b@ == vstd::utf8::decode_utf8(b.spec_bytes()));
    true
}

/// Whether `c` is an ASCII decimal digit.
pub open spec fn is_digit(c: char) -> bool {
    '0' <= c && c <= '9'
}

/// The value of an ASCII decimal digit.
pub open spec fn digit_value(c: char) -> nat {
    (c as u32 - '0' as u32) as nat
}

/// Whether every char of `s` is an ASCII decimal digit.
pub open spec fn all_digits(s: Seq<char>) -> bool {
    forall|i: int| 0 <= i < s.len() ==> is_digit(#[trigger] s[i])
}

/// The value of a string of decimal digits, most significant first.
pub open spec fn digits_value(s: Seq<char>) -> nat
    decreases s.len(),
{
    if s.len() == 0 {
        0
    } else {
        digits_value(s.drop_last()) * 10 + digit_value(s.last())
    }
}

/// The digits that `str::parse` reads for an unsigned integer: one leading
/// `+` is allowed and skipped.
pub open spec fn unsigned_body(s: Seq<char>) -> Seq<char> {
    if s.len() > 0 && s[0] == '+' {
        s.drop_first()
    } else {
        s
    }
}

/// The number that `str::parse` reads for an unsigned integer type without
/// bound: `None` unless an optional `+` is followed by one or more decimal
/// digits and nothing else.
pub open spec fn parse_unsigned(s: Seq<char>) -> Option<nat> {
    let body = unsigned_body(s);
    if body.len() > 0 && all_digits(body) {
        Some(digits_value(body))
    } else {
        None
    }
}

/// `s.parse::<u64>().ok()`.
pub open spec fn parse_u64(s: Seq<char>) -> Option<u64> {
    match parse_unsigned(s) {
        Some(n) => if n <= u64::MAX {
            Some(n as u64)
        } else {
            None
        },
        None => None,
    }
}

/// `s.parse::<u32>().ok()`.
pub open spec fn parse_u32(s: Seq<char>) -> Option<u32> {
    match parse_unsigned(s) {
        Some(n) => if n <= u32::MAX {
            Some(n as u32)
        } else {
            None
        },
        None => None,
    }
}

proof fn lemma_digits_push(t: Seq<char>, c: char)
    ensures
        digits_value(t.push(c)) == digits_value(t) * 10 + digit_value(c),
{
    assert(t.push(c).drop_last() =~= t);
}

/// Reads the unsigned decimal number in `s[lo..hi]` as `str::parse::<u64>`.
pub fn parse_u64_range(s: &Vec<char>, lo: usize, hi: usize) -> (r: Option<u64>)
    requires
        lo <= hi <= s.len(),
    ensures
        r == parse_u64(s@.subrange(lo as int, hi as int)),
{
    let ghost whole = s@.subrange(lo as int, hi as int);
    let mut start = lo;
    if lo < hi && s[lo] == '+' {
        start = lo + 1;
    }
    assert(unsigned_body(whole) =~= s@.subrange(start as int, hi as int));
    if start >= hi {
        return None;
    }
    let mut acc: u64 = 0;
    let mut overflow = false;
    let mut k = start;
    while k < hi
        invariant
            lo <= start <= k <= hi <= s.len(),
            start < hi,
            unsigned_body(s@.subrange(lo as int, hi as int)) == s@.subrange(start as int, hi as int),
            all_digits(s@.subrange(start as int, k as int)),
            !overflow ==> acc == digits_value(s@.subrange(start as int, k as int)),
            overflow ==> digits_value(s@.subrange(start as int, k as int)) > u64::MAX,
        decreases hi - k,
    {
        let c = s[k];
        if !('0' <= c && c <= '9') {
            assert(!is_digit(s@.subrange(start as int, hi as int)[k - start]));
            return None;
        }
        let d = (c as u32 - '0' as u32) as u64;
        proof {
            lemma_digits_push(s@.subrange(start as int, k as int), c);
            assert(s@.subrange(start as int, k as int).push(c) =~= s@.subrange(
                start as int,
                k + 1,
            ));
        }
        if !overflow {
            match acc.checked_mul(10) {
                Some(m) => match m.checked_add(d) {
                    Some(v) => {
                        acc = v;
                    },
                    None => {
                        overflow = true;
                    },
                },
                None => {
                    overflow = true;
                },
            }
        }
        k = k + 1;
    }
    assert(s@.subrange(start as int, k as int) =~= s@.subrange(start as int, hi as int));
    if overflow {
        None
    } else {
        Some(acc)
    }
}

/// Reads the unsigned decimal number in `s[lo..hi]` as `str::parse::<u32>`.
pub fn parse_u32_range(s: &Vec<char>, lo: usize, hi: usize) -> (r: Option<u32>)
    requires
        lo <= hi <= s.len(),
    ensures
        r == parse_u32(s@.subrange(lo as int, hi as int)),
{
    match parse_u64_range(s, lo, hi) {
        Some(v) => if v <= 0xffff_ffffu64 {
            Some(v as u32)
        } else {
            None
        },
        None => None,
    }
}

/// The ASCII digit for `d < 10`.
pub open spec fn digit_char(d: nat) -> char {
    if d == 0 {
        '0'
    } else if d == 1 {
        '1'
    } else if d == 2 {
        '2'
    } else if d == 3 {
        '3'
    } else if d == 4 {
        '4'
    } else if d == 5 {
        '5'
    } else if d == 6 {
        '6'
    } else if d == 7 {
        '7'
    } else if d == 8 {
        '8'
    } else {
        '9'
    }
}

/// The decimal text of `n`, as `Display` writes an unsigned integer.
pub open spec fn decimal(n: nat) -> Seq<char>
    decreases n,
{
    if n < 10 {
        seq![digit_char(n)]
    } else {
        decimal(n / 10) + seq![digit_char(n % 10)]
    }
}

proof fn lemma_digit_char_value(m: nat)
    requires
        m < 10,
    ensures
        is_digit(digit_char(m)),
        digit_value(digit_char(m)) == m,
{
}

/// The decimal text of `n` is one or more digits whose value is `n`.
pub proof fn lemma_decimal_digits(n: nat)
    ensures
        decimal(n).len() > 0,
        all_digits(decimal(n)),
        digits_value(decimal(n)) == n,
    decreases n,
{
    let d = decimal(n);
    if n < 10 {
        lemma_digit_char_value(n);
        assert(d.drop_last() =~= Seq::<char>::empty());
        assert(digits_value(d.drop_last()) == 0);
    } else {
        lemma_digit_char_value(n % 10);
        lemma_decimal_digits(n / 10);
        let h = decimal(n / 10);
        assert(d.drop_last() =~= h);
        assert(d.last() == digit_char(n % 10));
        assert forall|i: int| 0 <= i < d.len() implies is_digit(#[trigger] d[i]) by {
            if i < h.len() {
                assert(d[i] == h[i]);
            }
        }
        assert(n == (n / 10) * 10 + n % 10);
    }
}

/// `str::parse::<u32>` reads back the decimal text of any `u32`.
pub proof fn lemma_parse_u32_decimal(n: u32)
    ensures
        parse_u32(decimal(n as nat)) == Some(n),
{
    lemma_decimal_digits(n as nat);
    assert(is_digit(decimal(n as nat)[0]));
}

fn digit_str(d: u64) -> (r: &'static str)
    requires
        d < 10,
    ensures
        r@ == seq![digit_char(d as nat)],
{
    if d == 0 {
        proof {
            reveal_strlit("0");
        }
        "0"
    } else if d == 1 {
        proof {
            reveal_strlit("1");
        }
        "1"
    } else if d == 2 {
        proof {
            reveal_strlit("2");
        }
        "2"
    } else if d == 3 {
        proof {
            reveal_strlit("3");
        }
        "3"
    } else if d == 4 {
        proof {
            reveal_strlit("4");
        }
        "4"
    } else if d == 5 {
        proof {
            reveal_strlit("5");
        }
        "5"
    } else if d == 6 {
        proof {
            reveal_strlit("6");
        }
        "6"
    } else if d == 7 {
        proof {
            reveal_strlit("7");
        }
        "7"
    } else if d == 8 {
        proof {
            reveal_strlit("8");
        }
        "8"
    } else {
        proof {
            reveal_strlit("9");
        }
        "9"
    }
}

/// The decimal text of `n`.
pub fn decimal_string(n: u64) -> (r: String)
    ensures
        r@ == decimal(n as nat),
    decreases n,
{
    if n < 10 {
        String::from_str(digit_str(n))
    } else {
        let mut s = decimal_string(n / 10);
        s.append(digit_str(n % 10));
        s
    }
}

/// What `String::from_utf8_lossy` makes of `bytes`: each maximal invalid
/// sequence replaced by U+FFFD.
pub uninterp spec fn lossy_utf8(bytes: Seq<u8>) -> Seq<char>;

/// `String::from_utf8_lossy(bytes)`, owned.
///
/// Claims that the text is a function of the bytes alone, and, as the
/// documentation of `from_utf8_lossy` states, that valid UTF-8 is decoded
/// unchanged.
#[verifier::external_body]
pub fn lossy_text(bytes: &[u8]) -> (r: String)
    ensures
        r@ == lossy_utf8(bytes@),
        vstd::utf8::valid_utf8(bytes@) ==> r@ == vstd::utf8::decode_utf8(bytes@),
{
    String::from_utf8_lossy(bytes).into_owned()
}

/// Whether `s[i..i + p.len()]` equals `p`.
pub fn has_prefix_at(s: &Vec<char>, i: usize, p: &Vec<char>) -> (r: bool)
    requires
        i + p.len() <= s.len(),
    ensures
        r == (s@.subrange(i as int, i + p.len()) == p@),
{
    let mut k: usize = 0;
    while k < p.len()
        invariant
            i + p.len() <= s.len(),
            k <= p.len(),
            forall|j: int| 0 <= j < k ==> s@[i + j] == p@[j],
        decreases p.len() - k,
    {
        if s[i + k] != p[k] {
            assert(s@.subrange(i as int, i + p.len())[k as int] != p@[k as int]);
            return false;
        }
        k = k + 1;
    }
    assert(s@.subrange(i as int, i + p.len()) =~= p@);
    true
}

/// The string holding `s[lo..hi]`.
pub fn substring(text: &str, s: &Vec<char>, lo: usize, hi: usize) -> (r: String)
    requires
        s@ == text@,
        lo <= hi <= s.len(),
    ensures
        r@ == s@.subrange(lo as int, hi as int),
{
    String::from_str(text.substring_char(lo, hi))
}

} // verus!
