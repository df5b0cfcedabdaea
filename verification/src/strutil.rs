use vstd::prelude::*;

verus! {

// Character-level helpers shared by the binary dispatch (type-reader names)
// and the XML readers. Exec code works on `Vec<char>`; the two conversions to
// and from `String` are the only trusted pieces.

/// Relies on `str::chars` and `collect`: the characters of the string, in
/// order.
#[verifier::external_body]
pub fn chars_vec(s: &str) -> (r: Vec<char>)
    ensures
        r@ == s@,
{
    s.chars().collect()
}

/// Relies on `FromIterator<char> for String`: the string of exactly these
/// characters, in order.
#[verifier::external_body]
pub fn string_from_chars(v: &Vec<char>) -> (r: String)
    ensures
        r@ == v@,
{
    v.iter().collect()
}

/// Equality of two strings, decided character by character.
pub fn str_eq(a: &str, b: &str) -> (r: bool)
    ensures
        r == (a@ == b@),
{
    let av = chars_vec(a);
    let bv = chars_vec(b);
    if av.len() != bv.len() {
        return false;
    }
    let n: usize = av.len();
    let mut i: usize = 0;
    while i < n
        invariant
            i <= n,
            n == av@.len() == bv@.len(),
            av@ == a@,
            bv@ == b@,
            forall|j: int| 0 <= j < i ==> a@[j] == #[trigger] b@[j],
        decreases n - i,
    {
        if av[i] != bv[i] {
            return false;
        }
        i = i + 1;
    }
    proof {
        assert(a@ =~= b@);
    }
    true
}

/// Two characters match ignoring ASCII case: equal, or an ASCII letter pair
/// differing only in the case bit.
pub open spec fn sp_eq_ic_char(a: char, b: char) -> bool {
    ||| a == b
    ||| ('A' <= a && a <= 'Z' && b as u32 == a as u32 + 32)
    ||| ('A' <= b && b <= 'Z' && a as u32 == b as u32 + 32)
}

pub open spec fn sp_eq_ignore_case(a: Seq<char>, b: Seq<char>) -> bool {
    a.len() == b.len() && (forall|i: int| 0 <= i < a.len() ==> sp_eq_ic_char(a[i], #[trigger] b[i]))
}

pub fn chars_eq_ignore_case(a: &Vec<char>, b: &Vec<char>) -> (r: bool)
    ensures
        r == sp_eq_ignore_case(a@, b@),
{
    if a.len() != b.len() {
        return false;
    }
    let n: usize = a.len();
    let mut i: usize = 0;
    while i < n
        invariant
            n == a@.len() == b@.len(),
            i <= n,
            forall|j: int| 0 <= j < i ==> sp_eq_ic_char(a@[j], #[trigger] b@[j]),
        decreases n - i,
    {
        let ca = a[i];
        let cb = b[i];
        let ok = ca == cb || ('A' <= ca && ca <= 'Z' && cb as u32 == ca as u32 + 32) || ('A' <= cb
            && cb <= 'Z' && ca as u32 == cb as u32 + 32);
        if !ok {
            return false;
        }
        i = i + 1;
    }
    true
}

/// ASCII-case-insensitive comparison of two strings.
pub fn str_eq_ignore_case(a: &str, b: &str) -> (r: bool)
    ensures
        r == sp_eq_ignore_case(a@, b@),
{
    let av = chars_vec(a);
    let bv = chars_vec(b);
    chars_eq_ignore_case(&av, &bv)
}

pub open spec fn sp_is_digit(c: char) -> bool {
    '0' <= c && c <= '9'
}

pub open spec fn sp_all_digits(s: Seq<char>) -> bool {
    forall|i: int| 0 <= i < s.len() ==> sp_is_digit(#[trigger] s[i])
}

/// The integer denoted by a digit sequence, most significant digit first.
pub open spec fn sp_digits_val(s: Seq<char>) -> int
    decreases s.len(),
{
    if s.len() == 0 {
        0
    } else {
        sp_digits_val(s.drop_last()) * 10 + (s.last() as u32 - '0' as u32)
    }
}

pub proof fn lemma_digits_val_nonneg(s: Seq<char>)
    requires
        sp_all_digits(s),
    ensures
        sp_digits_val(s) >= 0,
    decreases s.len(),
{
    if s.len() > 0 {
        assert(sp_all_digits(s.drop_last()));
        lemma_digits_val_nonneg(s.drop_last());
    }
}

pub proof fn lemma_digits_val_mono(s: Seq<char>, i: int)
    requires
        sp_all_digits(s),
        0 <= i <= s.len(),
    ensures
        sp_digits_val(s) >= sp_digits_val(s.take(i)),
    decreases s.len() - i,
{
    if i < s.len() {
        lemma_digits_val_mono(s, i + 1);
        assert(s.take(i + 1).drop_last() =~= s.take(i));
        assert(sp_all_digits(s.take(i)));
        lemma_digits_val_nonneg(s.take(i));
        assert(sp_digits_val(s.take(i + 1)) == sp_digits_val(s.take(i)) * 10 + (s[i] as u32
            - '0' as u32));
    } else {
        assert(s.take(i) =~= s);
    }
}

/// The value of an unsigned decimal digit run: at least one digit, no sign,
/// no larger than the 32-bit maximum.
pub open spec fn sp_parse_u32_digits(t: Seq<char>) -> Option<u32> {
    if t.len() > 0 && sp_all_digits(t) && sp_digits_val(t) <= u32::MAX {
        Some(sp_digits_val(t) as u32)
    } else {
        None
    }
}

/// The decimal value of `s` as an unsigned 32-bit parse would give it: an
/// optional leading plus sign, then at least one digit, no larger than the
/// type's maximum.
pub open spec fn sp_parse_u32(s: Seq<char>) -> Option<u32> {
    if s.len() > 0 && s[0] == '+' {
        sp_parse_u32_digits(s.drop_first())
    } else {
        sp_parse_u32_digits(s)
    }
}

fn parse_u32_digits(t: &Vec<char>, start: usize) -> (r: Option<u32>)
    requires
        start <= t@.len(),
    ensures
        r == sp_parse_u32_digits(t@.skip(start as int)),
{
    let ghost s = t@.skip(start as int);
    let n: usize = t.len();
    if start == n {
        return None;
    }
    let mut acc: u64 = 0;
    let mut i: usize = start;
    while i < n
        invariant
            start <= i <= n,
            n == t@.len(),
            n > start,
            s == t@.skip(start as int),
            sp_all_digits(s.take(i - start)),
            acc == sp_digits_val(s.take(i - start)),
            acc <= u32::MAX,
        decreases n - i,
    {
        let c = t[i];
        if !('0' <= c && c <= '9') {
            proof {
                assert(s[i - start] == c);
                assert(!sp_all_digits(s));
            }
            return None;
        }
        let d: u64 = (c as u32 - '0' as u32) as u64;
        let acc1: u64 = acc * 10 + d;
        proof {
            assert(s.take(i - start + 1).drop_last() =~= s.take(i - start));
            assert(s.take(i - start + 1).last() == c);
        }
        if acc1 > 0xffff_ffff {
            proof {
                assert(sp_all_digits(s.take(i - start + 1)));
                if sp_all_digits(s) {
                    lemma_digits_val_mono(s, i - start + 1);
                }
            }
            return None;
        }
        acc = acc1;
        i = i + 1;
    }
    proof {
        assert(s.take(n - start) =~= s);
    }
    Some(acc as u32)
}

/// Decimal unsigned parse, as `str::parse::<u32>` behaves on the inputs this
/// library meets: an optional `+`, then decimal digits.
pub fn parse_u32_chars(t: &Vec<char>) -> (r: Option<u32>)
    ensures
        r == sp_parse_u32(t@),
{
    if t.len() > 0 && t[0] == '+' {
        proof {
            assert(t@.skip(1) =~= t@.drop_first());
        }
        parse_u32_digits(t, 1)
    } else {
        proof {
            assert(t@.skip(0) =~= t@);
        }
        parse_u32_digits(t, 0)
    }
}

pub fn parse_u32_str(s: &str) -> (r: Option<u32>)
    ensures
        r == sp_parse_u32(s@),
{
    let v = chars_vec(s);
    parse_u32_chars(&v)
}

/// The value of a signed 32-bit decimal parse: an optional sign, then at
/// least one digit, within the type's range.
pub open spec fn sp_parse_i32(s: Seq<char>) -> Option<i32> {
    if s.len() > 0 && s[0] == '-' {
        let t = s.drop_first();
        if t.len() > 0 && sp_all_digits(t) && sp_digits_val(t) <= 0x8000_0000 {
            Some((-sp_digits_val(t)) as i32)
        } else {
            None
        }
    } else {
        match sp_parse_u32(s) {
            Some(v) => if v <= i32::MAX as u32 {
                Some(v as i32)
            } else {
                None
            },
            None => None,
        }
    }
}

pub fn parse_i32_str(s: &str) -> (r: Option<i32>)
    ensures
        r == sp_parse_i32(s@),
{
    let t = chars_vec(s);
    if t.len() > 0 && t[0] == '-' {
        proof {
            assert(t@.skip(1) =~= t@.drop_first());
        }
        match parse_u32_digits(&t, 1) {
            Some(v) => {
                proof {
                    lemma_digits_val_nonneg(t@.drop_first());
                }
                if v <= 0x8000_0000 {
                    if v == 0x8000_0000 {
                        Some(i32::MIN)
                    } else {
                        Some(-(v as i32))
                    }
                } else {
                    None
                }
            },
            None => {
                proof {
                    let u = t@.drop_first();
                    if u.len() > 0 && sp_all_digits(u) && sp_digits_val(u) <= 0x8000_0000 {
                        assert(sp_digits_val(u) <= u32::MAX);
                        assert(sp_parse_u32_digits(u) is Some);
                    }
                }
                None
            },
        }
    } else {
        match parse_u32_chars(&t) {
            Some(v) => if v <= 0x7fff_ffff {
                Some(v as i32)
            } else {
                None
            },
            None => None,
        }
    }
}

/// The value of an unsigned 8-bit decimal parse.
pub open spec fn sp_parse_u8(s: Seq<char>) -> Option<u8> {
    match sp_parse_u32(s) {
        Some(v) => if v <= u8::MAX as u32 {
            Some(v as u8)
        } else {
            None
        },
        None => None,
    }
}

pub fn parse_u8_str(s: &str) -> (r: Option<u8>)
    ensures
        r == sp_parse_u8(s@),
{
    match parse_u32_str(s) {
        Some(v) => if v <= 255 {
            Some(v as u8)
        } else {
            None
        },
        None => None,
    }
}


// ------------------------------- numeric-text acceptance for singles --

// The effect dialect demands numeric attribute text where the consumer
// later reads an IEEE single. The single's value is out of this library's
// reach, but acceptance is pure text: the standard parser's documented
// grammar is an optional sign, then one of the special words or a decimal
// number with optional fraction and exponent. That grammar is decided
// here, exactly.

/// First position at or after `i` that does not hold a decimal digit, or
/// the text's end.
pub open spec fn sp_digits_end(s: Seq<char>, i: int) -> int
    decreases s.len() - i,
{
    if !(0 <= i < s.len()) {
        s.len() as int
    } else if sp_is_digit(s[i]) {
        sp_digits_end(s, i + 1)
    } else {
        i
    }
}

/// An exponent part starting at `j`, or the text's end at `j`.
pub open spec fn sp_exp_ok(t: Seq<char>, j: int) -> bool {
    if j == t.len() {
        true
    } else if 0 <= j < t.len() && (t[j] == 'e' || t[j] == 'E') {
        let k = if j + 1 < t.len() && (t[j + 1] == '+' || t[j + 1] == '-') {
            j + 2
        } else {
            j + 1
        };
        sp_digits_end(t, k) > k && sp_digits_end(t, k) == t.len()
    } else {
        false
    }
}

/// An unsigned decimal number: digits, an optional point with optional
/// fraction digits (at least one digit on some side of the point), then
/// an optional exponent, spanning the whole text.
pub open spec fn sp_dec_number(t: Seq<char>) -> bool {
    let d1 = sp_digits_end(t, 0);
    if 0 <= d1 < t.len() && t[d1] == '.' {
        let d2 = sp_digits_end(t, d1 + 1);
        (d1 > 0 || d2 > d1 + 1) && sp_exp_ok(t, d2)
    } else {
        d1 >= 1 && sp_exp_ok(t, d1)
    }
}

/// Whether the text denotes an IEEE single to the standard parser: an
/// optional sign, then one of the special words (ignoring case) or a
/// decimal number.
pub open spec fn sp_is_numeric(s: Seq<char>) -> bool {
    if s.len() == 0 {
        false
    } else {
        let t = if s[0] == '+' || s[0] == '-' {
            s.drop_first()
        } else {
            s
        };
        ||| sp_eq_ignore_case(t, "inf"@)
        ||| sp_eq_ignore_case(t, "infinity"@)
        ||| sp_eq_ignore_case(t, "nan"@)
        ||| sp_dec_number(t)
    }
}

/// Scan to the end of a digit run.
fn digits_end(t: &Vec<char>, from: usize) -> (r: usize)
    requires
        from <= t@.len(),
    ensures
        r as int == sp_digits_end(t@, from as int),
        from <= r <= t@.len(),
{
    let n: usize = t.len();
    let mut i: usize = from;
    while i < n && '0' <= t[i] && t[i] <= '9'
        invariant
            from <= i <= n,
            n == t@.len(),
            sp_digits_end(t@, from as int) == sp_digits_end(t@, i as int),
        decreases n - i,
    {
        i = i + 1;
    }
    i
}

/// Decide the unsigned-decimal-number grammar on the whole text.
fn dec_number_chars(t: &Vec<char>) -> (r: bool)
    ensures
        r == sp_dec_number(t@),
{
    let n: usize = t.len();
    let d1 = digits_end(t, 0);
    let frac_end: usize;
    let ok_mantissa: bool;
    if d1 < n && t[d1] == '.' {
        let d2 = digits_end(t, d1 + 1);
        frac_end = d2;
        ok_mantissa = d1 > 0 || d2 > d1 + 1;
    } else {
        frac_end = d1;
        ok_mantissa = d1 >= 1;
    }
    if !ok_mantissa {
        return false;
    }
    let j = frac_end;
    if j == n {
        return true;
    }
    if !(t[j] == 'e' || t[j] == 'E') {
        return false;
    }
    let k: usize = if j + 1 < n && (t[j + 1] == '+' || t[j + 1] == '-') {
        j + 2
    } else {
        j + 1
    };
    if k > n {
        return false;
    }
    let de = digits_end(t, k);
    de > k && de == n
}

/// Decide the numeric-text grammar.
pub fn is_numeric_chars(t: &Vec<char>) -> (r: bool)
    ensures
        r == sp_is_numeric(t@),
{
    if t.len() == 0 {
        return false;
    }
    let signed = t[0] == '+' || t[0] == '-';
    let start: usize = if signed {
        1
    } else {
        0
    };
    let mut rest: Vec<char> = Vec::new();
    let n: usize = t.len();
    let mut i: usize = start;
    while i < n
        invariant
            start <= i <= n,
            n == t@.len(),
            rest@ =~= t@.subrange(start as int, i as int),
        decreases n - i,
    {
        rest.push(t[i]);
        i = i + 1;
    }
    proof {
        assert(rest@ =~= t@.skip(start as int));
        if signed {
            assert(t@.skip(1) =~= t@.drop_first());
        } else {
            assert(t@.skip(0) =~= t@);
        }
    }
    let inf = chars_vec("inf");
    let infinity = chars_vec("infinity");
    let nan = chars_vec("nan");
    if chars_eq_ignore_case(&rest, &inf) {
        return true;
    }
    if chars_eq_ignore_case(&rest, &infinity) {
        return true;
    }
    if chars_eq_ignore_case(&rest, &nan) {
        return true;
    }
    dec_number_chars(&rest)
}

pub fn is_numeric_str(s: &str) -> (r: bool)
    ensures
        r == sp_is_numeric(s@),
{
    let t = chars_vec(s);
    is_numeric_chars(&t)
}

/// Index of the first comma, or the length when there is none.
pub open spec fn sp_comma_idx(s: Seq<char>) -> int
    decreases s.len(),
{
    if s.len() == 0 {
        0
    } else if s[0] == ',' {
        0
    } else {
        1 + sp_comma_idx(s.drop_first())
    }
}

fn comma_index(t: &Vec<char>) -> (r: usize)
    ensures
        r as int == sp_comma_idx(t@),
        r <= t@.len(),
{
    let n: usize = t.len();
    let mut i: usize = 0;
    proof {
        assert(t@.skip(0) =~= t@);
    }
    while i < n
        invariant
            i <= n,
            n == t@.len(),
            sp_comma_idx(t@) == i + sp_comma_idx(t@.skip(i as int)),
        decreases n - i,
    {
        if t[i] == ',' {
            proof {
                assert(t@.skip(i as int)[0] == ',');
            }
            return i;
        }
        proof {
            assert(t@.skip(i as int)[0] == t@[i as int]);
            assert(t@.skip(i as int).drop_first() =~= t@.skip(i + 1));
        }
        i = i + 1;
    }
    proof {
        assert(t@.skip(n as int) =~= Seq::<char>::empty());
    }
    n
}

/// The part of a name before its first comma.
pub open spec fn sp_before_comma(s: Seq<char>) -> Seq<char> {
    s.take(sp_comma_idx(s))
}

/// The manifest stores each decoder name as a fully-qualified name plus
/// assembly, separated by commas; dispatch looks only at the part before the
/// first comma.
pub fn before_comma(s: &str) -> (r: String)
    ensures
        r@ == sp_before_comma(s@),
{
    let t = chars_vec(s);
    let i = comma_index(&t);
    let mut out: Vec<char> = Vec::new();
    let mut j: usize = 0;
    while j < i
        invariant
            j <= i <= t@.len(),
            t@ == s@,
            i as int == sp_comma_idx(s@),
            out@ =~= s@.take(j as int),
        decreases i - j,
    {
        out.push(t[j]);
        j = j + 1;
    }
    proof {
        assert(out@ =~= s@.take(i as int));
    }
    string_from_chars(&out)
}

/// Whether `s` begins with `prefix`.
pub open spec fn sp_starts_with(s: Seq<char>, prefix: Seq<char>) -> bool {
    s.len() >= prefix.len() && s.take(prefix.len() as int) == prefix
}

pub fn str_starts_with(s: &str, prefix: &str) -> (r: bool)
    ensures
        r == sp_starts_with(s@, prefix@),
{
    let sv = chars_vec(s);
    let pv = chars_vec(prefix);
    if sv.len() < pv.len() {
        return false;
    }
    let n: usize = pv.len();
    let mut i: usize = 0;
    while i < n
        invariant
            i <= n,
            n == pv@.len(),
            sv@.len() >= n,
            sv@ == s@,
            pv@ == prefix@,
            forall|j: int| 0 <= j < i ==> s@[j] == #[trigger] prefix@[j],
        decreases n - i,
    {
        if sv[i] != pv[i] {
            proof {
                assert(s@.take(n as int)[i as int] != prefix@[i as int]);
            }
            return false;
        }
        i = i + 1;
    }
    proof {
        assert(s@.take(n as int) =~= prefix@);
    }
    true
}

/// Asset paths inside containers use backslashes; the library hands callers
/// the same path with each backslash replaced by a forward slash.
pub open spec fn sp_fix_path(s: Seq<char>) -> Seq<char> {
    s.map_values(|c: char| if c == '\\' { '/' } else { c })
}

pub fn fix_xnb_path(path: &str) -> (r: String)
    ensures
        r@ == sp_fix_path(path@),
{
    let t = chars_vec(path);
    let mut out: Vec<char> = Vec::new();
    let n: usize = t.len();
    let mut i: usize = 0;
    while i < n
        invariant
            i <= n,
            n == t@.len(),
            t@ == path@,
            out@ =~= sp_fix_path(path@).take(i as int),
        decreases n - i,
    {
        let c = t[i];
        if c == '\\' {
            out.push('/');
        } else {
            out.push(c);
        }
        proof {
            assert(out@ =~= sp_fix_path(path@).take(i + 1));
        }
        i = i + 1;
    }
    proof {
        assert(out@ =~= sp_fix_path(path@));
    }
    string_from_chars(&out)
}

} // verus!
