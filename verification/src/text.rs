//! Character-level helpers on strings, stated over `Seq<char>` views.
use vstd::prelude::*;

verus! {

/// ASCII lower-casing of one character; every other character is kept.
pub open spec fn ascii_lower(c: char) -> char {
    if 'A' <= c && c <= 'Z' {
        ((c as u32) + 32) as char
    } else {
        c
    }
}

/// ASCII upper-casing of one character; every other character is kept.
pub open spec fn ascii_upper(c: char) -> char {
    if 'a' <= c && c <= 'z' {
        ((c as u32) - 32) as char
    } else {
        c
    }
}

/// The two strings are equal once ASCII letters are folded to one case.
pub open spec fn eq_ignore_ascii_case(a: Seq<char>, b: Seq<char>) -> bool {
    &&& a.len() == b.len()
    &&& forall|i: int| 0 <= i < a.len() ==> #[trigger] ascii_lower(a[i]) == ascii_lower(b[i])
}

/// The string with every ASCII letter lower-cased.
pub open spec fn ascii_lowercase(a: Seq<char>) -> Seq<char> {
    a.map_values(|c: char| ascii_lower(c))
}

pub fn ascii_lower_char(c: char) -> (r: char)
    ensures
        r == ascii_lower(c),
{
    if 'A' <= c && c <= 'Z' {
        let v: u32 = (c as u32) + 32;
        assert(v <= 0x7f);
        char_from_ascii(v)
    } else {
        c
    }
}

pub fn ascii_upper_char(c: char) -> (r: char)
    ensures
        r == ascii_upper(c),
{
    if 'a' <= c && c <= 'z' {
        let v: u32 = (c as u32) - 32;
        char_from_ascii(v)
    } else {
        c
    }
}

fn char_from_ascii(v: u32) -> (r: char)
    requires
        v <= 0x7f,
    ensures
        r == v as char,
{
    let b: u8 = v as u8;
    b as char
}

/// The characters of `s`, in order.
pub fn chars_of(s: &str) -> (r: Vec<char>)
    ensures
        r@ == s@,
{
    let n = s.unicode_len();
    let mut r: Vec<char> = Vec::new();
    let mut i: usize = 0;
    while i < n
        invariant
            n == s@.len(),
            i <= n,
            r@ == s@.subrange(0, i as int),
        decreases n - i,
    {
        let c = s.get_char(i);
        r.push(c);
        i = i + 1;
        assert(r@ =~= s@.subrange(0, i as int));
    }
    assert(r@ =~= s@);
    r
}

/// Appends one character to a string.
///
/// Trusted: calls `String::push`, whose documentation says it appends the
/// given char to the end of the string.
#[verifier::external_body]
pub(crate) fn push_char(s: &mut String, c: char)
    ensures
        final(s)@ == old(s)@.push(c),
{
    s.push(c)
}

/// The string made of the characters of `v`.
pub fn string_from_chars(v: &Vec<char>) -> (r: String)
    ensures
        r@ == v@,
{
    let mut r = String::new();
    let mut i: usize = 0;
    while i < v.len()
        invariant
            i <= v.len(),
            r@ == v@.subrange(0, i as int),
        decreases v.len() - i,
    {
        push_char(&mut r, v[i]);
        i = i + 1;
        assert(r@ =~= v@.subrange(0, i as int));
    }
    assert(r@ =~= v@);
    r
}

/// A new string holding the text of `s`.
pub fn string_of(s: &str) -> (r: String)
    ensures
        r@ == s@,
{
    String::from_str(s)
}

/// `a` followed by `b`, as a new string.
pub fn concat(a: &str, b: &str) -> (r: String)
    ensures
        r@ == a@ + b@,
{
    let mut r = String::from_str(a);
    r.append(b);
    r
}

/// Whether two strings hold the same characters.
pub fn str_eq(a: &str, b: &str) -> (r: bool)
    ensures
        r == (a@ == b@),
{
    let n = a.unicode_len();
    let m = b.unicode_len();
    if n != m {
        return false;
    }
    let mut i: usize = 0;
    while i < n
        invariant
            n == a@.len(),
            m == b@.len(),
            n == m,
            i <= n,
            forall|j: int| 0 <= j < i ==> a@[j] == b@[j],
        decreases n - i,
    {
        if a.get_char(i) != b.get_char(i) {
            return false;
        }
        i = i + 1;
    }
    assert(a@ =~= b@);
    true
}

/// Whether two strings are equal up to ASCII case.
pub fn str_eq_ignore_ascii_case(a: &str, b: &str) -> (r: bool)
    ensures
        r == eq_ignore_ascii_case(a@, b@),
{
    let n = a.unicode_len();
    let m = b.unicode_len();
    if n != m {
        return false;
    }
    let mut i: usize = 0;
    while i < n
        invariant
            n == a@.len(),
            m == b@.len(),
            n == m,
            i <= n,
            forall|j: int| 0 <= j < i ==> #[trigger] ascii_lower(a@[j]) == ascii_lower(b@[j]),
        decreases n - i,
    {
        if ascii_lower_char(a.get_char(i)) != ascii_lower_char(b.get_char(i)) {
            return false;
        }
        i = i + 1;
    }
    true
}

/// The string with every ASCII letter lower-cased.
pub fn to_ascii_lowercase(s: &str) -> (r: String)
    ensures
        r@ == ascii_lowercase(s@),
{
    let cs = chars_of(s);
    let mut out: Vec<char> = Vec::new();
    let mut i: usize = 0;
    while i < cs.len()
        invariant
            cs@ == s@,
            i <= cs.len(),
            out@ == ascii_lowercase(s@).subrange(0, i as int),
        decreases cs.len() - i,
    {
        out.push(ascii_lower_char(cs[i]));
        i = i + 1;
        assert(out@ =~= ascii_lowercase(s@).subrange(0, i as int));
    }
    assert(out@ =~= ascii_lowercase(s@));
    string_from_chars(&out)
}

/// Whether `s` has no characters.
pub fn is_empty_str(s: &str) -> (r: bool)
    ensures
        r == (s@ == Seq::<char>::empty()),
{
    let n = s.unicode_len();
    if n == 0 {
        assert(s@ =~= Seq::<char>::empty());
        true
    } else {
        false
    }
}

/// Whether `c` occurs in `s`.
pub fn contains_char(s: &str, c: char) -> (r: bool)
    ensures
        r == s@.contains(c),
{
    let n = s.unicode_len();
    let mut i: usize = 0;
    while i < n
        invariant
            n == s@.len(),
            i <= n,
            forall|j: int| 0 <= j < i ==> s@[j] != c,
        decreases n - i,
    {
        if s.get_char(i) == c {
            assert(s@[i as int] == c);
            return true;
        }
        i = i + 1;
    }
    false
}

/// Whether `s` starts with `p`.
pub fn starts_with(s: &str, p: &str) -> (r: bool)
    ensures
        r == (p@.len() <= s@.len() && s@.subrange(0, p@.len() as int) == p@),
{
    let n = s.unicode_len();
    let m = p.unicode_len();
    if m > n {
        return false;
    }
    let mut i: usize = 0;
    while i < m
        invariant
            n == s@.len(),
            m == p@.len(),
            m <= n,
            i <= m,
            forall|j: int| 0 <= j < i ==> s@[j] == p@[j],
        decreases m - i,
    {
        if s.get_char(i) != p.get_char(i) {
            assert(s@.subrange(0, m as int)[i as int] != p@[i as int]);
            return false;
        }
        i = i + 1;
    }
    assert(s@.subrange(0, m as int) =~= p@);
    true
}

/// The characters of `s` from position `from` on.
pub fn suffix_from(s: &str, from: usize) -> (r: String)
    requires
        from <= s@.len(),
    ensures
        r@ == s@.subrange(from as int, s@.len() as int),
{
    let n = s.unicode_len();
    let t = s.substring_char(from, n);
    String::from_str(t)
}

/// Whether `c` is an ASCII decimal digit.
pub open spec fn is_digit(c: char) -> bool {
    '0' <= c && c <= '9'
}

/// The value of a string of decimal digits.
pub open spec fn digits_value(s: Seq<char>) -> nat
    decreases s.len(),
{
    if s.len() == 0 {
        0
    } else {
        digits_value(s.drop_last()) * 10 + ((s.last() as u32) - ('0' as u32)) as nat
    }
}

/// Every character is a decimal digit.
pub open spec fn all_digits(d: Seq<char>) -> bool {
    forall|i: int| 0 <= i < d.len() ==> is_digit(#[trigger] d[i])
}

/// The value that `str::parse` gives an integer type whose range is
/// `lo..=hi`: an optional sign (`-` only where `lo` is negative), then at
/// least one decimal digit, the result inside the range.
pub open spec fn parse_int_spec(s: Seq<char>, lo: int, hi: int) -> Option<int> {
    let neg = s.len() > 0 && s[0] == '-' && lo < 0;
    let signed = s.len() > 0 && (s[0] == '+' || neg);
    let digits = if signed { s.drop_first() } else { s };
    if digits.len() == 0 || !all_digits(digits) {
        None
    } else {
        let v: int = if neg { -(digits_value(digits) as int) } else { digits_value(digits) as int };
        if lo <= v && v <= hi { Some(v) } else { None }
    }
}

proof fn lemma_digits_value_push(s: Seq<char>, c: char)
    ensures
        digits_value(s.push(c)) == digits_value(s) * 10 + ((c as u32) - ('0' as u32)) as nat,
{
    assert(s.push(c).drop_last() =~= s);
}

/// Parses a decimal integer into the range `lo..=hi`, as `str::parse` does
/// for the integer type of that range.
pub fn parse_int(s: &str, lo: i128, hi: i128) -> (r: Option<i128>)
    requires
        lo == 0 || -0x1_0000_0000_0000_0000 <= lo <= -128,
        127 <= hi <= 0xffff_ffff_ffff_ffff,
    ensures
        r matches Some(v) ==> parse_int_spec(s@, lo as int, hi as int) == Some(v as int),
        r is None ==> parse_int_spec(s@, lo as int, hi as int) is None,
{
    let cs = chars_of(s);
    let n = cs.len();
    let neg = n > 0 && cs[0] == '-' && lo < 0;
    let signed = n > 0 && (cs[0] == '+' || neg);
    let start: usize = if signed { 1 } else { 0 };
    let ghost digits = if signed { s@.drop_first() } else { s@ };
    if start >= n {
        assert(digits.len() == 0);
        assert(signed == (s@.len() > 0 && (s@[0] == '+' || (s@[0] == '-' && lo < 0))));
        assert(parse_int_spec(s@, lo as int, hi as int) is None);
        return None;
    }
    assert(digits =~= s@.subrange(start as int, n as int));
    let bound: i128 = if neg { -lo } else { hi };
    let mut v: i128 = 0;
    let mut i: usize = start;
    while i < n
        invariant
            cs@ == s@,
            n == cs@.len(),
            start <= i <= n,
            start == (if signed { 1usize } else { 0usize }),
            neg == (s@.len() > 0 && s@[0] == '-' && lo < 0),
            signed == (s@.len() > 0 && (s@[0] == '+' || neg)),
            digits == (if signed { s@.drop_first() } else { s@ }),
            digits == s@.subrange(start as int, n as int),
            bound as int == (if neg { -(lo as int) } else { hi as int }),
            lo == 0 || -0x1_0000_0000_0000_0000 <= lo <= -128,
            127 <= hi <= 0xffff_ffff_ffff_ffff,
            0 <= v <= bound,
            127 <= bound <= 0x1_0000_0000_0000_0000,
            forall|j: int| 0 <= j < i - start ==> is_digit(#[trigger] digits[j]),
            v == digits_value(digits.subrange(0, i - start)),
        decreases n - i,
    {
        let c = cs[i];
        if !('0' <= c && c <= '9') {
            assert(!is_digit(digits[i - start]));
            assert(!all_digits(digits));
            return None;
        }
        let d: i128 = ((c as u32) - ('0' as u32)) as i128;
        proof {
            lemma_digits_value_push(digits.subrange(0, i - start), c);
            assert(digits.subrange(0, i - start).push(c) =~= digits.subrange(0, i + 1 - start));
        }
        if v > (bound - d) / 10 {
            // Any further digit keeps the value above the bound.
            proof {
                assert(v * 10 + d > bound) by (nonlinear_arith)
                    requires
                        v > (bound - d) / 10,
                        0 <= d <= 9,
                        bound >= 127,
                ;
                if all_digits(digits) {
                    lemma_digits_grow(digits, (i + 1 - start) as int);
                }
            }
            return None;
        }
        v = v * 10 + d;
        i = i + 1;
    }
    assert(digits.subrange(0, n - start) =~= digits);
    if neg {
        Some(-v)
    } else {
        Some(v)
    }
}

/// A longer prefix of digits never has a smaller value.
proof fn lemma_digits_grow(digits: Seq<char>, k: int)
    requires
        0 <= k <= digits.len(),
        forall|j: int| 0 <= j < digits.len() ==> is_digit(#[trigger] digits[j]),
    ensures
        digits_value(digits) >= digits_value(digits.subrange(0, k)),
    decreases digits.len() - k,
{
    if k < digits.len() {
        lemma_digits_grow(digits, k + 1);
        let p = digits.subrange(0, k + 1);
        assert(p.drop_last() =~= digits.subrange(0, k));
        assert(is_digit(digits[k]));
    } else {
        assert(digits.subrange(0, k) =~= digits);
    }
}

} // verus!

verus! {

/// The decimal digits of a natural number (at least one digit).
pub open spec fn nat_digits(n: nat) -> Seq<char>
    decreases n,
{
    if n < 10 {
        seq![(('0' as u32) + n as u32) as char]
    } else {
        nat_digits(n / 10).push((('0' as u32) + (n % 10) as u32) as char)
    }
}

/// The decimal text of an integer, with a leading `-` when negative.
pub open spec fn int_text(n: int) -> Seq<char> {
    if n < 0 {
        seq!['-'] + nat_digits((-n) as nat)
    } else {
        nat_digits(n as nat)
    }
}

fn digit_char(d: u64) -> (r: char)
    requires
        d < 10,
    ensures
        r == (('0' as u32) + d as u32) as char,
{
    let b: u8 = (48 + d) as u8;
    b as char
}

/// The decimal text of a natural number.
pub fn nat_to_string(n: u64) -> (r: String)
    ensures
        r@ == nat_digits(n as nat),
{
    let mut digits: Vec<char> = Vec::new();
    let mut m: u64 = n;
    while m >= 10
        invariant
            nat_digits(n as nat) == nat_digits(m as nat) + digits@.reverse(),
        decreases m,
    {
        let d = m % 10;
        let c = digit_char(d);
        proof {
            assert(nat_digits(m as nat) == nat_digits((m / 10) as nat).push(c));
            assert(nat_digits((m / 10) as nat).push(c) + digits@.reverse() =~= nat_digits((m / 10) as nat) + digits@.push(c).reverse());
        }
        digits.push(c);
        m = m / 10;
    }
    let c = digit_char(m);
    digits.push(c);
    proof {
        assert(nat_digits(m as nat) == seq![c]);
        assert(seq![c] + digits@.drop_last().reverse() =~= digits@.reverse());
    }
    let mut out: Vec<char> = Vec::new();
    let mut i: usize = digits.len();
    while i > 0
        invariant
            i <= digits@.len(),
            out@ == digits@.subrange(i as int, digits@.len() as int).reverse(),
        decreases i,
    {
        i = i - 1;
        out.push(digits[i]);
        assert(out@ =~= digits@.subrange(i as int, digits@.len() as int).reverse());
    }
    assert(digits@.subrange(0, digits@.len() as int) =~= digits@);
    string_from_chars(&out)
}

/// The decimal text of an `i64`.
pub fn i64_to_string(n: i64) -> (r: String)
    ensures
        r@ == int_text(n as int),
{
    if n < 0 {
        let m: u64 = if n == i64::MIN {
            0x8000_0000_0000_0000u64
        } else {
            (-n) as u64
        };
        let digits = nat_to_string(m);
        let r = concat("-", digits.as_str());
        proof {
            reveal_strlit("-");
            assert("-"@ =~= seq!['-']);
        }
        r
    } else {
        nat_to_string(n as u64)
    }
}

} // verus!
