//! Text routines on which the game and the bot build: comparison, search
//! and the reading of decimal integers, each proved against its statement.

use vstd::prelude::*;

verus! {

broadcast use vstd::string::group_string_axioms;

/// The characters of `s`, in order.
pub fn char_vec(s: &str) -> (v: Vec<char>)
    ensures
        v@ == s@,
{
    let mut v: Vec<char> = Vec::new();
    for c in iter: s.chars()
        invariant
            iter.seq() == s@,
            v@ == iter.seq().take(iter.index()),
    {
        v.push(c);
    }
    v
}

/// Whether `a` and `b` hold the same characters.
pub fn str_eq(a: &str, b: &str) -> (r: bool)
    ensures
        r == (a@ == b@),
{
    let x = char_vec(a);
    let y = char_vec(b);
    if x.len() != y.len() {
        return false;
    }
    let mut i: usize = 0;
    while i < x.len()
        invariant
            x@ == a@,
            y@ == b@,
            x.len() == y.len(),
            i <= x.len(),
            forall|j: int| 0 <= j < i ==> x@[j] == y@[j],
        decreases x.len() - i,
    {
        if x[i] != y[i] {
            return false;
        }
        i = i + 1;
    }
    assert(x@ =~= y@);
    true
}

/// `needle` occurs in `hay` starting at position `at`.
pub open spec fn occurs_at(hay: Seq<char>, needle: Seq<char>, at: int) -> bool {
    &&& 0 <= at
    &&& at + needle.len() <= hay.len()
    &&& hay.subrange(at, at + needle.len()) == needle
}

/// `needle` occurs somewhere in `hay`.
pub open spec fn occurs_in(hay: Seq<char>, needle: Seq<char>) -> bool {
    exists|at: int| occurs_at(hay, needle, at)
}

/// Whether `needle` occurs at position `at` of the character vector `hay`.
fn matches_at(hay: &Vec<char>, needle: &Vec<char>, at: usize) -> (r: bool)
    requires
        at + needle.len() <= hay.len(),
    ensures
        r == occurs_at(hay@, needle@, at as int),
{
    let mut j: usize = 0;
    while j < needle.len()
        invariant
            at + needle.len() <= hay.len(),
            j <= needle.len(),
            forall|k: int| 0 <= k < j ==> hay@[at + k] == needle@[k],
        decreases needle.len() - j,
    {
        if hay[at + j] != needle[j] {
            assert(hay@.subrange(at as int, at + needle.len())[j as int] != needle@[j as int]);
            return false;
        }
        j = j + 1;
    }
    assert(hay@.subrange(at as int, at + needle.len()) =~= needle@);
    true
}

/// Whether `needle` occurs in `hay` (as `str::contains` with a `&str` pattern).
pub fn contains(hay: &str, needle: &str) -> (r: bool)
    ensures
        r == occurs_in(hay@, needle@),
{
    let h = char_vec(hay);
    let n = char_vec(needle);
    if n.len() > h.len() {
        assert forall|at: int| !occurs_at(hay@, needle@, at) by {}
        return false;
    }
    let last = h.len() - n.len();
    let mut at: usize = 0;
    loop
        invariant
            h@ == hay@,
            n@ == needle@,
            last + n.len() == h.len(),
            at <= last,
            forall|k: int| 0 <= k < at ==> !occurs_at(hay@, needle@, k),
        decreases last - at,
    {
        if matches_at(&h, &n, at) {
            return true;
        }
        if at == last {
            assert forall|k: int| !occurs_at(hay@, needle@, k) by {
                if at < k {
                    assert(k + needle@.len() > hay@.len());
                }
            }
            return false;
        }
        at = at + 1;
    }
}

/// `prefix` is a prefix of `s`.
pub open spec fn has_prefix(s: Seq<char>, prefix: Seq<char>) -> bool {
    occurs_at(s, prefix, 0)
}

/// Whether `s` begins with `prefix` (as `str::starts_with` with a `&str` pattern).
pub fn starts_with(s: &str, prefix: &str) -> (r: bool)
    ensures
        r == has_prefix(s@, prefix@),
{
    let h = char_vec(s);
    let p = char_vec(prefix);
    if p.len() > h.len() {
        return false;
    }
    matches_at(&h, &p, 0)
}

/// `c` is one of the ASCII digits `0` to `9`.
pub open spec fn is_digit(c: char) -> bool {
    '0' <= c && c <= '9'
}

/// Every character of `s` is an ASCII digit.
pub open spec fn all_digits(s: Seq<char>) -> bool {
    forall|i: int| 0 <= i < s.len() ==> is_digit(#[trigger] s[i])
}

/// The number that the digits `s` denote in base ten.
pub open spec fn digits_value(s: Seq<char>) -> nat
    decreases s.len(),
{
    if s.len() == 0 {
        0
    } else {
        (digits_value(s.drop_last()) * 10 + (s.last() as int - '0' as int)) as nat
    }
}

/// The value of a decimal text as Rust reads an integer: an optional sign
/// (`-` only where `signed`), then one or more ASCII digits; `None` if the
/// text has any other shape. No bound on the size is applied here.
pub open spec fn decimal_value(s: Seq<char>, signed: bool) -> Option<int> {
    let negative = s.len() > 0 && s[0] == '-' && signed;
    let has_sign = s.len() > 0 && (s[0] == '+' || negative);
    let body = if has_sign { s.drop_first() } else { s };
    if body.len() == 0 || !all_digits(body) {
        None
    } else if negative {
        Some(-(digits_value(body) as int))
    } else {
        Some(digits_value(body) as int)
    }
}

/// What `i32::from_str` gives for `s`: the value when the text is well
/// formed and the value fits, `None` otherwise.
pub open spec fn spec_parse_i32(s: Seq<char>) -> Option<i32> {
    match decimal_value(s, true) {
        Some(v) => if i32::MIN <= v <= i32::MAX { Some(v as i32) } else { None },
        None => None,
    }
}

/// What `u16::from_str` gives for `s`.
pub open spec fn spec_parse_u16(s: Seq<char>) -> Option<u16> {
    match decimal_value(s, false) {
        Some(v) => if 0 <= v <= u16::MAX { Some(v as u16) } else { None },
        None => None,
    }
}

proof fn lemma_digits_value_push(s: Seq<char>, c: char)
    requires
        is_digit(c),
    ensures
        digits_value(s.push(c)) == digits_value(s) * 10 + (c as int - '0' as int),
{
    assert(s.push(c).drop_last() =~= s);
}

proof fn lemma_digits_value_grows(s: Seq<char>, k: int)
    requires
        0 <= k <= s.len(),
        all_digits(s),
    ensures
        digits_value(s.take(k)) <= digits_value(s),
    decreases s.len() - k,
{
    if k < s.len() {
        lemma_digits_value_grows(s, k + 1);
        assert(s.take(k + 1) =~= s.take(k).push(s[k]));
        lemma_digits_value_push(s.take(k), s[k]);
    } else {
        assert(s.take(k) =~= s);
    }
}

/// The value of the digits `v[start..]`, or `None` when it exceeds `limit`
/// or some character there is not a digit or there is none.
fn read_digits(v: &Vec<char>, start: usize, limit: u64) -> (r: Option<u64>)
    requires
        start <= v.len(),
        limit <= u32::MAX,
    ensures
        ({
            let body = v@.skip(start as int);
            match r {
                Some(n) => body.len() > 0 && all_digits(body) && n == digits_value(body)
                    && n <= limit,
                None => body.len() == 0 || !all_digits(body) || digits_value(body) > limit,
            }
        }),
{
    let ghost body = v@.skip(start as int);
    if start == v.len() {
        return None;
    }
    let mut n: u64 = 0;
    let mut i: usize = start;
    while i < v.len()
        invariant
            start <= i <= v.len(),
            body == v@.skip(start as int),
            limit <= u32::MAX,
            all_digits(body.take(i - start)),
            n == digits_value(body.take(i - start)),
            n <= limit,
        decreases v.len() - i,
    {
        let c = v[i];
        if !('0' <= c && c <= '9') {
            assert(body[i - start] == c);
            return None;
        }
        let d = (c as u32 - '0' as u32) as u64;
        proof {
            assert(body.take(i + 1 - start) =~= body.take(i - start).push(c));
            lemma_digits_value_push(body.take(i - start), c);
        }
        n = n * 10 + d;
        if n > limit {
            proof {
                assert(all_digits(body.take(i + 1 - start)));
                if all_digits(body) {
                    lemma_digits_value_grows(body, i + 1 - start);
                }
            }
            return None;
        }
        i = i + 1;
    }
    assert(body.take(i - start) =~= body);
    Some(n)
}

/// Reads a decimal `i32` as `str::parse::<i32>` does.
pub fn parse_i32(s: &str) -> (r: Option<i32>)
    ensures
        r == spec_parse_i32(s@),
{
    let v = char_vec(s);
    let negative = v.len() > 0 && v[0] == '-';
    let has_sign = v.len() > 0 && (v[0] == '+' || v[0] == '-');
    let start: usize = if has_sign { 1 } else { 0 };
    proof {
        assert(v@.skip(start as int) =~= if has_sign { s@.drop_first() } else { s@ });
    }
    match read_digits(&v, start, 2147483648) {
        None => None,
        Some(n) => {
            if negative {
                Some((0 - (n as i64)) as i32)
            } else if n <= 2147483647 {
                Some(n as i32)
            } else {
                None
            }
        },
    }
}

/// Reads a decimal `u16` as `str::parse::<u16>` does.
pub fn parse_u16(s: &str) -> (r: Option<u16>)
    ensures
        r == spec_parse_u16(s@),
{
    let v = char_vec(s);
    let has_sign = v.len() > 0 && v[0] == '+';
    let start: usize = if has_sign { 1 } else { 0 };
    proof {
        assert(v@.skip(start as int) =~= if has_sign { s@.drop_first() } else { s@ });
    }
    match read_digits(&v, start, 65535) {
        None => None,
        Some(n) => Some(n as u16),
    }
}

/// The ASCII digit for `d`, which is below ten.
pub open spec fn digit_char(d: nat) -> char {
    (48 + d) as char
}

/// The decimal digits of `n`, most significant first, with no leading
/// zero (and `0` for zero).
pub open spec fn digits_text(n: nat) -> Seq<char>
    decreases n,
{
    if n < 10 {
        seq![digit_char(n)]
    } else {
        digits_text(n / 10).push(digit_char(n % 10))
    }
}

/// The decimal text of `n` as Rust's `Display` writes an integer: a `-`
/// for a negative number, then the digits of its magnitude.
pub open spec fn decimal_text(n: int) -> Seq<char> {
    if n < 0 {
        seq!['-'] + digits_text((-n) as nat)
    } else {
        digits_text(n as nat)
    }
}

fn digit_str(d: u32) -> (r: &'static str)
    requires
        d < 10,
    ensures
        r@ == seq![digit_char(d as nat)],
{
    proof {
        reveal_strlit("0");
        reveal_strlit("1");
        reveal_strlit("2");
        reveal_strlit("3");
        reveal_strlit("4");
        reveal_strlit("5");
        reveal_strlit("6");
        reveal_strlit("7");
        reveal_strlit("8");
        reveal_strlit("9");
    }
    let r = match d {
        0 => "0",
        1 => "1",
        2 => "2",
        3 => "3",
        4 => "4",
        5 => "5",
        6 => "6",
        7 => "7",
        8 => "8",
        _ => "9",
    };
    assert(r@ =~= seq![digit_char(d as nat)]);
    r
}

fn push_digits(s: &mut String, n: u32)
    ensures
        final(s)@ == old(s)@ + digits_text(n as nat),
    decreases n,
{
    if n >= 10 {
        push_digits(s, n / 10);
    }
    s.append(digit_str(n % 10));
    proof {
        if n >= 10 {
            assert(old(s)@ + digits_text((n / 10) as nat) + seq![digit_char((n % 10) as nat)]
                =~= old(s)@ + digits_text(n as nat));
        } else {
            assert(old(s)@ + seq![digit_char((n % 10) as nat)] =~= old(s)@ + digits_text(n as nat));
        }
    }
}

/// The decimal text of `n`, as `n.to_string()` gives it.
pub fn i32_text(n: i32) -> (r: String)
    ensures
        r@ == decimal_text(n as int),
{
    let mut s = String::new();
    if n < 0 {
        s.append("-");
        proof {
            reveal_strlit("-");
        }
        let m = (0 - (n as i64)) as u32;
        push_digits(&mut s, m);
        assert(s@ =~= decimal_text(n as int));
    } else {
        push_digits(&mut s, n as u32);
        assert(s@ =~= decimal_text(n as int));
    }
    s
}

proof fn lemma_digits_text(n: nat)
    ensures
        digits_text(n).len() > 0,
        all_digits(digits_text(n)),
        digits_value(digits_text(n)) == n,
        is_digit(digits_text(n)[0]),
    decreases n,
{
    let d: nat = n % 10;
    let s = digits_text(n);
    assert(digit_char(d) as int == 48 + d);
    assert('0' as int == 48);
    assert(s.last() == digit_char(d));
    assert(digits_value(s) == digits_value(s.drop_last()) * 10 + (s.last() as int - '0' as int));
    if n < 10 {
        assert(digits_text(n).drop_last() =~= Seq::<char>::empty());
        assert(d == n);
    } else {
        lemma_digits_text(n / 10);
        let t = digits_text(n / 10);
        assert(digits_text(n).drop_last() =~= t);
        assert(digits_text(n)[0] == t[0]);
        assert(n == (n / 10) * 10 + d) by (nonlinear_arith)
            requires
                d == n % 10,
        ;
    }
}

/// Reading back the decimal text of any `i32` gives the number again.
pub proof fn law_i32_text_reads_back(n: i32)
    ensures
        spec_parse_i32(decimal_text(n as int)) == Some(n),
{
    let m: nat = if n < 0 { (-n) as nat } else { n as nat };
    lemma_digits_text(m);
    let t = decimal_text(n as int);
    if n < 0 {
        assert(t.drop_first() =~= digits_text(m));
    } else {
        assert(t[0] != '-' && t[0] != '+');
    }
}

/// `c` with an ASCII capital letter made small.
pub open spec fn ascii_lower(c: char) -> char {
    if 'A' <= c && c <= 'Z' {
        ((c as int) + 32) as char
    } else {
        c
    }
}

/// `s` spells `word` (given in small letters) in any mix of cases.
pub open spec fn spells_ignoring_case(s: Seq<char>, word: Seq<char>) -> bool {
    s.len() == word.len() && forall|i: int| 0 <= i < s.len() ==> ascii_lower(#[trigger] s[i]) == word[i]
}

/// `s` without a leading `+` or `-`.
pub open spec fn unsigned_part(s: Seq<char>) -> Seq<char> {
    if s.len() > 0 && (s[0] == '+' || s[0] == '-') {
        s.drop_first()
    } else {
        s
    }
}

/// The digits of a number with at most one decimal point: digits and
/// points only, at least one digit, at most one point.
pub open spec fn is_mantissa(m: Seq<char>) -> bool {
    &&& forall|i: int| 0 <= i < m.len() ==> is_digit(#[trigger] m[i]) || m[i] == '.'
    &&& exists|i: int| 0 <= i < m.len() && is_digit(#[trigger] m[i])
    &&& forall|i: int, j: int|
        0 <= i < j < m.len() ==> !(#[trigger] m[i] == '.' && #[trigger] m[j] == '.')
}

/// An exponent after its `e`: an optional sign, then one or more digits.
pub open spec fn is_exponent(x: Seq<char>) -> bool {
    unsigned_part(x).len() > 0 && all_digits(unsigned_part(x))
}

/// A decimal number: a mantissa, optionally followed by `e` or `E` and an
/// exponent.
pub open spec fn is_decimal_number(s: Seq<char>) -> bool {
    ||| is_mantissa(s)
    ||| exists|i: int|
        0 <= i < s.len() && (#[trigger] s[i] == 'e' || s[i] == 'E') && is_mantissa(s.take(i))
            && is_exponent(s.skip(i + 1))
}

/// The texts that Rust's `f32::from_str` reads: an optional sign, then
/// `inf`, `infinity` or `nan` in any case, or a decimal number.
pub open spec fn is_float_text(s: Seq<char>) -> bool {
    let u = unsigned_part(s);
    ||| spells_ignoring_case(u, seq!['i', 'n', 'f'])
    ||| spells_ignoring_case(u, seq!['i', 'n', 'f', 'i', 'n', 'i', 't', 'y'])
    ||| spells_ignoring_case(u, seq!['n', 'a', 'n'])
    ||| is_decimal_number(u)
}

fn spells_at(v: &Vec<char>, start: usize, word: &Vec<char>) -> (r: bool)
    requires
        start <= v.len(),
        forall|i: int| 0 <= i < word.len() ==> !('A' <= #[trigger] word@[i] && word@[i] <= 'Z'),
    ensures
        r == spells_ignoring_case(v@.skip(start as int), word@),
{
    let ghost u = v@.skip(start as int);
    if v.len() - start != word.len() {
        return false;
    }
    let mut i: usize = 0;
    while i < word.len()
        invariant
            start + word.len() == v.len(),
            u == v@.skip(start as int),
            i <= word.len(),
            forall|k: int| 0 <= k < i ==> ascii_lower(#[trigger] u[k]) == word@[k],
        decreases word.len() - i,
    {
        let c = v[start + i];
        let l = if 'A' <= c && c <= 'Z' { ((c as u32) + 32) as u8 as char } else { c };
        assert(u[i as int] == c);
        assert(l == ascii_lower(c)) by {
            if 'A' <= c && c <= 'Z' {
                assert((((c as u32) + 32) as u8 as char) == (((c as int) + 32) as char));
            }
        }
        if l != word[i] {
            return false;
        }
        i = i + 1;
    }
    true
}

/// Whether `v[from..to]` is a mantissa.
fn mantissa_in(v: &Vec<char>, from: usize, to: usize) -> (r: bool)
    requires
        from <= to <= v.len(),
    ensures
        r == is_mantissa(v@.subrange(from as int, to as int)),
{
    let ghost m = v@.subrange(from as int, to as int);
    let mut i: usize = from;
    let mut seen_digit = false;
    let mut point: Option<usize> = None;
    while i < to
        invariant
            from <= i <= to <= v.len(),
            m == v@.subrange(from as int, to as int),
            forall|k: int| 0 <= k < i - from ==> is_digit(#[trigger] m[k]) || m[k] == '.',
            seen_digit <==> exists|k: int| 0 <= k < i - from && is_digit(#[trigger] m[k]),
            match point {
                None => forall|k: int| 0 <= k < i - from ==> #[trigger] m[k] != '.',
                Some(p) => from <= p < i && m[p - from] == '.' && forall|k: int|
                    0 <= k < i - from && k != p - from ==> #[trigger] m[k] != '.',
            },
        decreases to - i,
    {
        let c = v[i];
        assert(m[i - from] == c);
        if '0' <= c && c <= '9' {
            seen_digit = true;
        } else if c == '.' {
            match point {
                Some(p) => {
                    assert(m[p - from] == '.' && m[i - from] == '.');
                    return false;
                },
                None => {
                    point = Some(i);
                },
            }
        } else {
            return false;
        }
        i = i + 1;
    }
    seen_digit
}

/// Whether `v[from..]` is an exponent.
fn exponent_in(v: &Vec<char>, from: usize) -> (r: bool)
    requires
        from <= v.len(),
    ensures
        r == is_exponent(v@.skip(from as int)),
{
    let ghost x = v@.skip(from as int);
    let start = if from < v.len() && (v[from] == '+' || v[from] == '-') {
        from + 1
    } else {
        from
    };
    assert(unsigned_part(x) =~= v@.skip(start as int));
    if start == v.len() {
        return false;
    }
    let mut i: usize = start;
    while i < v.len()
        invariant
            start <= i <= v.len(),
            x == v@.skip(from as int),
            unsigned_part(x) == v@.skip(start as int),
            forall|k: int| start <= k < i ==> is_digit(#[trigger] v@[k]),
        decreases v.len() - i,
    {
        if !('0' <= v[i] && v[i] <= '9') {
            assert(v@.skip(start as int)[i - start] == v@[i as int]);
            assert(!is_digit(unsigned_part(x)[i - start]));
            assert(0 <= i - start < unsigned_part(x).len());
            assert(!all_digits(unsigned_part(x)));
            return false;
        }
        i = i + 1;
    }
    assert forall|k: int| 0 <= k < v@.skip(start as int).len() implies is_digit(
        #[trigger] v@.skip(start as int)[k],
    ) by {
        assert(v@.skip(start as int)[k] == v@[start + k]);
    }
    true
}

/// Whether `f32::from_str` reads `s`, decided from its syntax alone.
pub fn is_float(s: &str) -> (r: bool)
    ensures
        r == is_float_text(s@),
{
    let v = char_vec(s);
    let start: usize = if v.len() > 0 && (v[0] == '+' || v[0] == '-') { 1 } else { 0 };
    let ghost u = unsigned_part(s@);
    assert(u =~= v@.skip(start as int));
    let inf = vec!['i', 'n', 'f'];
    let infinity = vec!['i', 'n', 'f', 'i', 'n', 'i', 't', 'y'];
    let nan = vec!['n', 'a', 'n'];
    assert(inf@ =~= seq!['i', 'n', 'f']);
    assert(infinity@ =~= seq!['i', 'n', 'f', 'i', 'n', 'i', 't', 'y']);
    assert(nan@ =~= seq!['n', 'a', 'n']);
    if spells_at(&v, start, &inf) || spells_at(&v, start, &infinity) || spells_at(&v, start, &nan) {
        return true;
    }
    // The first `e` or `E` after the sign, if any.
    let mut e: usize = start;
    while e < v.len() && v[e] != 'e' && v[e] != 'E'
        invariant
            start <= e <= v.len(),
            forall|k: int| start <= k < e ==> #[trigger] v@[k] != 'e' && v@[k] != 'E',
        decreases v.len() - e,
    {
        e = e + 1;
    }
    if e == v.len() {
        let r = mantissa_in(&v, start, e);
        assert(v@.subrange(start as int, e as int) =~= u);
        proof {
            assert forall|i: int| !(0 <= i < u.len() && (#[trigger] u[i] == 'e' || u[i] == 'E')) by {
                if 0 <= i < u.len() {
                    assert(u[i] == v@[start + i]);
                }
            }
        }
        return r;
    }
    let m = mantissa_in(&v, start, e);
    let x = exponent_in(&v, e + 1);
    let ghost i = e - start;
    proof {
        assert(u[i] == v@[e as int]);
        assert(u.take(i) =~= v@.subrange(start as int, e as int));
        assert(u.skip(i + 1) =~= v@.skip(e + 1));
        // the mantissa cannot hold the `e`, so this position is the only one
        assert forall|j: int|
            0 <= j < u.len() && (#[trigger] u[j] == 'e' || u[j] == 'E') && is_mantissa(u.take(j))
                && is_exponent(u.skip(j + 1)) implies j == i by {
            if j < i {
                assert(u[j] == v@[start + j]);
            } else if j > i {
                assert(u.take(j)[i] == u[i]);
                assert(!is_digit(u.take(j)[i]) && u.take(j)[i] != '.');
            }
        }
        assert(!is_mantissa(u)) by {
            assert(!is_digit(u[i]) && u[i] != '.');
        }
    }
    m && x
}

} // verus!
