//! Text: comparison, searching, quoting and number formatting.

use vstd::prelude::*;

verus! {

/// `String::push` appends one character.
pub assume_specification[ String::push ](s: &mut String, c: char)
    ensures
        final(s)@ == old(s)@.push(c),
;

/// What `str::to_lowercase` returns.
pub uninterp spec fn lowercase(s: Seq<char>) -> Seq<char>;

/// Calls `str::to_lowercase`; the result is named [`lowercase`] and nothing more is said of it.
#[verifier::external_body]
pub(crate) fn to_lowercase(s: &str) -> (r: String)
    ensures
        r@ == lowercase(s@),
{
    s.to_lowercase()
}

/// `c` is white space: it has the Unicode property `White_Space`.
pub open spec fn is_blank(c: char) -> bool {
    let n: int = c as int;
    ||| 0x9 <= n <= 0xD
    ||| n == 0x20
    ||| n == 0x85
    ||| n == 0xA0
    ||| n == 0x1680
    ||| 0x2000 <= n <= 0x200A
    ||| n == 0x2028
    ||| n == 0x2029
    ||| n == 0x202F
    ||| n == 0x205F
    ||| n == 0x3000
}

/// `s` without the white space at its two ends.
pub open spec fn trimmed(s: Seq<char>) -> Seq<char>
    decreases s.len(),
{
    if s.len() == 0 {
        s
    } else if is_blank(s[0]) {
        trimmed(s.drop_first())
    } else if is_blank(s.last()) {
        trimmed(s.drop_last())
    } else {
        s
    }
}

/// `s` holds something else than white space.
pub open spec fn holds_text(s: Seq<char>) -> bool {
    exists|i: int| 0 <= i < s.len() && !is_blank(#[trigger] s[i])
}

/// Something is left of a text between its blanks exactly where it holds more than blanks.
pub proof fn lemma_trimmed(s: Seq<char>)
    ensures
        trimmed(s).len() > 0 <==> holds_text(s),
    decreases s.len(),
{
    if s.len() > 0 {
        if is_blank(s[0]) {
            let rest = s.drop_first();
            lemma_trimmed(rest);
            if holds_text(rest) {
                let i = choose|i: int| 0 <= i < rest.len() && !is_blank(#[trigger] rest[i]);
                assert(!is_blank(s[i + 1]));
            }
            if holds_text(s) {
                let i = choose|i: int| 0 <= i < s.len() && !is_blank(#[trigger] s[i]);
                assert(!is_blank(rest[i - 1]));
            }
        } else {
            assert(!is_blank(s[0]));
            if is_blank(s.last()) {
                let rest = s.drop_last();
                lemma_trimmed(rest);
                assert(!is_blank(rest[0]));
            }
        }
    }
}

/// Calls `str::trim`, which takes the white space off both ends: the characters with the Unicode
/// property `White_Space`.
#[verifier::external_body]
pub(crate) fn trim(s: &str) -> (r: &str)
    ensures
        r@ == trimmed(s@),
{
    s.trim()
}

/// What the `Debug` formatting of a `str` returns.
pub uninterp spec fn debug_quoted(s: Seq<char>) -> Seq<char>;

/// Formats a string with `{:?}`, that is with the `Debug` impl of `str`; the result is named
/// [`debug_quoted`] and nothing more is said of it.
#[verifier::external_body]
pub(crate) fn debug_quote(s: &str) -> (r: String)
    ensures
        r@ == debug_quoted(s@),
{
    format!("{:?}", s)
}

/// Whether two strings hold the same characters.
pub fn same_text(a: &str, b: &str) -> (r: bool)
    ensures
        r == (a@ == b@),
{
    let x: &[u8] = a.as_bytes();
    let y: &[u8] = b.as_bytes();
    let same: bool = same_bytes(x, y);
    proof {
        vstd::utf8::encode_utf8_decode_utf8(a@);
        vstd::utf8::encode_utf8_decode_utf8(b@);
    }
    same
}

fn same_bytes(x: &[u8], y: &[u8]) -> (r: bool)
    ensures
        r == (x@ == y@),
{
    if x.len() != y.len() {
        return false;
    }
    let mut i: usize = 0;
    while i < x.len()
        invariant
            i <= x@.len(),
            x@.len() == y@.len(),
            forall|k: int| 0 <= k < i ==> x@[k] == y@[k],
        decreases x@.len() - i,
    {
        if x[i] != y[i] {
            return false;
        }
        i = i + 1;
    }
    assert(x@ =~= y@);
    true
}

/// The characters of a string.
pub fn chars_of(s: &str) -> (r: Vec<char>)
    ensures
        r@ == s@,
{
    let mut v: Vec<char> = Vec::new();
    for c in it: s.chars()
        invariant
            v@ == it.seq().take(it.index()),
            it.seq() == s@,
    {
        v.push(c);
    }
    v
}

/// A string of one character.
pub fn char_text(c: char) -> (r: String)
    ensures
        r@ == seq![c],
{
    let mut s: String = String::new();
    s.push(c);
    s
}

/// `s` starts with `prefix`.
pub open spec fn begins(s: Seq<char>, prefix: Seq<char>) -> bool {
    prefix.len() <= s.len() && s.subrange(0, prefix.len() as int) == prefix
}

/// `needle` occurs in `s`, as consecutive characters.
pub open spec fn occurs(s: Seq<char>, needle: Seq<char>) -> bool {
    exists|i: int| #[trigger] occurs_at(s, needle, i)
}

/// `needle` stands in `s` from position `i` on.
pub open spec fn occurs_at(s: Seq<char>, needle: Seq<char>, i: int) -> bool {
    0 <= i && i + needle.len() <= s.len() && s.subrange(i, i + needle.len()) == needle
}

fn stands_at(s: &Vec<char>, needle: &Vec<char>, at: usize) -> (r: bool)
    requires
        at + needle@.len() <= s@.len(),
    ensures
        r == occurs_at(s@, needle@, at as int),
{
    let total: usize = s.len();
    let mut k: usize = 0;
    while k < needle.len()
        invariant
            k <= needle@.len(),
            total == s@.len(),
            at + needle@.len() <= total,
            forall|j: int| 0 <= j < k ==> s@[at + j] == needle@[j],
        decreases needle@.len() - k,
    {
        if s[at + k] != needle[k] {
            assert(s@.subrange(at as int, at + needle@.len())[k as int] == s@[at + k]);
            return false;
        }
        k = k + 1;
    }
    assert(s@.subrange(at as int, at + needle@.len()) =~= needle@);
    true
}

/// Whether `s` starts with `prefix`.
pub fn starts_with(s: &str, prefix: &str) -> (r: bool)
    ensures
        r == begins(s@, prefix@),
{
    let v: Vec<char> = chars_of(s);
    let p: Vec<char> = chars_of(prefix);
    if p.len() > v.len() {
        return false;
    }
    stands_at(&v, &p, 0)
}

/// Whether `needle` occurs in `s`.
pub fn contains(s: &str, needle: &str) -> (r: bool)
    ensures
        r == occurs(s@, needle@),
{
    let v: Vec<char> = chars_of(s);
    let n: Vec<char> = chars_of(needle);
    if n.len() > v.len() {
        return false;
    }
    let last: usize = v.len() - n.len();
    let mut i: usize = 0;
    while i <= last
        invariant
            v@ == s@,
            n@ == needle@,
            last == v@.len() - n@.len(),
            i <= last + 1,
            forall|k: int| 0 <= k < i ==> !#[trigger] occurs_at(s@, needle@, k),
        decreases last + 1 - i,
    {
        if stands_at(&v, &n, i) {
            assert(occurs_at(s@, needle@, i as int));
            return true;
        }
        if i == last {
            assert forall|k: int| !#[trigger] occurs_at(s@, needle@, k) by {}
            return false;
        }
        i = i + 1;
    }
    false
}

/// `s` with a backslash put in front of every `quote`; every other character, a backslash
/// among them, stays as it is.
pub open spec fn escaped(s: Seq<char>, quote: char) -> Seq<char>
    decreases s.len(),
{
    if s.len() == 0 {
        seq![]
    } else if s.last() == quote {
        escaped(s.drop_last(), quote) + seq!['\\', quote]
    } else {
        escaped(s.drop_last(), quote).push(s.last())
    }
}

/// Puts a backslash in front of every `quote` of `s`.
pub fn escape(s: &str, quote: char) -> (r: String)
    ensures
        r@ == escaped(s@, quote),
{
    let v: Vec<char> = chars_of(s);
    let mut out: String = String::new();
    let mut i: usize = 0;
    while i < v.len()
        invariant
            v@ == s@,
            i <= v@.len(),
            out@ == escaped(s@.take(i as int), quote),
        decreases v@.len() - i,
    {
        let c: char = v[i];
        let ghost before: Seq<char> = out@;
        proof {
            assert(s@.take(i + 1).drop_last() =~= s@.take(i as int));
            assert(s@.take(i + 1).last() == c);
        }
        if c == quote {
            out.push('\\');
            out.push(c);
            assert(out@ =~= before + seq!['\\', quote]);
        } else {
            out.push(c);
        }
        i = i + 1;
    }
    assert(s@.take(s@.len() as int) =~= s@);
    out
}

/// No quote is left bare: every one in an escaped text has a backslash before it.
pub proof fn lemma_escaped_quotes(s: Seq<char>, quote: char)
    requires
        quote != '\\',
    ensures
        forall|i: int|
            0 <= i < escaped(s, quote).len() && #[trigger] escaped(s, quote)[i] == quote ==> i > 0
                && escaped(s, quote)[i - 1] == '\\',
    decreases s.len(),
{
    if s.len() > 0 {
        let before = escaped(s.drop_last(), quote);
        lemma_escaped_quotes(s.drop_last(), quote);
        assert forall|i: int|
            0 <= i < escaped(s, quote).len() && #[trigger] escaped(s, quote)[i] == quote implies i
            > 0 && escaped(s, quote)[i - 1] == '\\' by {
            if i < before.len() {
                assert(before[i] == quote);
                assert(before[i - 1] == escaped(s, quote)[i - 1]);
            }
        }
    }
}

/// Nothing is lost: different texts are different when escaped.
pub proof fn lemma_escaped_injective(a: Seq<char>, b: Seq<char>, quote: char)
    requires
        quote != '\\',
        escaped(a, quote) == escaped(b, quote),
    ensures
        a == b,
    decreases a.len(),
{
    if a.len() == 0 {
        assert(b.len() == 0) by {
            if b.len() > 0 {
                assert(escaped(b, quote).len() > 0);
            }
        }
        assert(a =~= b);
    } else {
        let whole = escaped(a, quote);
        assert(whole.len() > 0);
        assert(b.len() > 0);
        assert(whole.last() == a.last() && whole.last() == b.last());
        if a.last() == quote {
            assert(whole.take(whole.len() - 2) =~= escaped(a.drop_last(), quote));
            assert(whole.take(whole.len() - 2) =~= escaped(b.drop_last(), quote));
        } else {
            assert(whole.drop_last() =~= escaped(a.drop_last(), quote));
            assert(whole.drop_last() =~= escaped(b.drop_last(), quote));
        }
        lemma_escaped_injective(a.drop_last(), b.drop_last(), quote);
        assert(a =~= a.drop_last().push(a.last()));
        assert(b =~= b.drop_last().push(b.last()));
    }
}

/// Two texts agree from a place on, character by character.
pub open spec fn agree_from(a: Seq<char>, b: Seq<char>, k: int) -> bool
    decreases a.len() - k,
{
    k >= a.len() || (a[k] == b[k] && agree_from(a, b, k + 1))
}

/// Texts of one length that agree are the same.
pub proof fn lemma_agreeing(a: Seq<char>, b: Seq<char>)
    requires
        a.len() == b.len(),
        agree_from(a, b, 0),
    ensures
        a == b,
{
    lemma_agreeing_from(a, b, 0);
    assert(a =~= b);
}

proof fn lemma_agreeing_from(a: Seq<char>, b: Seq<char>, k: int)
    requires
        a.len() == b.len(),
        0 <= k,
        agree_from(a, b, k),
    ensures
        forall|j: int| k <= j < a.len() ==> a[j] == b[j],
    decreases a.len() - k,
{
    if k < a.len() {
        lemma_agreeing_from(a, b, k + 1);
    }
}

/// A text stands in another from a place on, character by character from the one at `k`.
pub open spec fn stands_from(s: Seq<char>, needle: Seq<char>, at: int, k: int) -> bool
    decreases needle.len() - k,
{
    k >= needle.len() || (s[at + k] == needle[k] && stands_from(s, needle, at, k + 1))
}

/// A text that stands in another occurs in it.
pub proof fn lemma_stands(s: Seq<char>, needle: Seq<char>, at: int)
    requires
        0 <= at,
        at + needle.len() <= s.len(),
        stands_from(s, needle, at, 0),
    ensures
        occurs(s, needle),
{
    lemma_standing(s, needle, at, 0);
    assert(s.subrange(at, at + needle.len()) =~= needle);
    assert(occurs_at(s, needle, at));
}

proof fn lemma_standing(s: Seq<char>, needle: Seq<char>, at: int, k: int)
    requires
        0 <= k,
        stands_from(s, needle, at, k),
    ensures
        forall|j: int| k <= j < needle.len() ==> s[at + j] == needle[j],
    decreases needle.len() - k,
{
    if k < needle.len() {
        lemma_standing(s, needle, at, k + 1);
    }
}

/// Escaping goes character by character: a quote gets a backslash, any other character stays.
pub proof fn lemma_escaped_parts(a: Seq<char>, b: Seq<char>, c: char, quote: char)
    ensures
        escaped(a + b, quote) == escaped(a, quote) + escaped(b, quote),
        escaped(seq![], quote) == Seq::<char>::empty(),
        c != quote ==> escaped(seq![c], quote) == seq![c],
        escaped(seq![quote], quote) =~= seq!['\\', quote],
    decreases b.len(),
{
    reveal_with_fuel(escaped, 2);
    assert(seq![c].drop_last() =~= Seq::<char>::empty());
    assert(seq![quote].drop_last() =~= Seq::<char>::empty());
    assert(Seq::<char>::empty().push(c) =~= seq![c]);
    if b.len() == 0 {
        assert(a + b =~= a);
        assert(escaped(a, quote) + escaped(b, quote) =~= escaped(a, quote));
    } else {
        lemma_escaped_parts(a, b.drop_last(), c, quote);
        assert((a + b).drop_last() =~= a + b.drop_last());
        assert((a + b).last() == b.last());
        assert(escaped(a + b, quote) =~= escaped(a, quote) + escaped(b, quote));
    }
}

/// A text begins with another where something follows it, and only there; it occurs in a text
/// where something stands before and after it, and only there.
pub proof fn lemma_found_in(s: Seq<char>, part: Seq<char>, before: Seq<char>, after: Seq<char>)
    ensures
        begins(part + after, part),
        begins(s, part) ==> s == part + s.skip(part.len() as int),
        occurs(before + part + after, part),
        occurs(s, part) ==> exists|i: int|
            0 <= i <= s.len() - part.len() && s == #[trigger] s.take(i) + part + s.skip(
                i + part.len(),
            ),
{
    assert((part + after).subrange(0, part.len() as int) =~= part);
    if begins(s, part) {
        assert(s =~= s.subrange(0, part.len() as int) + s.skip(part.len() as int));
    }
    let whole = before + part + after;
    assert(whole.subrange(before.len() as int, (before.len() + part.len()) as int) =~= part);
    assert(occurs_at(whole, part, before.len() as int));
    if occurs(s, part) {
        let i = choose|i: int| occurs_at(s, part, i);
        assert(s =~= s.take(i) + s.subrange(i, i + part.len()) + s.skip(i + part.len()));
    }
}

/// The character for a decimal digit.
pub open spec fn digit(d: int) -> char {
    ('0' as int + d) as char
}

/// `n` in decimal, without leading zeros.
pub open spec fn decimal(n: nat) -> Seq<char>
    decreases n,
{
    if n < 10 {
        seq![digit(n as int)]
    } else {
        decimal(n / 10).push(digit((n % 10) as int))
    }
}

/// `n` in decimal, with a minus sign where it is negative.
pub open spec fn integer(n: int) -> Seq<char> {
    if n < 0 {
        seq!['-'] + decimal((-n) as nat)
    } else {
        decimal(n as nat)
    }
}

/// Appends `n` in decimal.
pub fn push_decimal(out: &mut String, n: u128)
    ensures
        final(out)@ == old(out)@ + decimal(n as nat),
    decreases n,
{
    if n >= 10 {
        push_decimal(out, n / 10);
    }
    let d: u8 = (n % 10) as u8;
    out.push((48u8 + d) as char);
    proof {
        if n < 10 {
            assert(out@ =~= old(out)@ + decimal(n as nat));
        } else {
            assert(out@ =~= old(out)@ + decimal((n / 10) as nat).push(digit((n % 10) as int)));
        }
    }
}

/// Appends `n` in decimal, with its sign.
pub fn push_integer(out: &mut String, n: i64)
    ensures
        final(out)@ == old(out)@ + integer(n as int),
{
    if n < 0 {
        let magnitude: i128 = -(n as i128);
        out.push('-');
        push_decimal(out, magnitude as u128);
        assert(out@ =~= old(out)@ + integer(n as int));
    } else {
        push_decimal(out, n as u128);
    }
}

/// `n` in decimal.
pub fn decimal_text(n: u128) -> (r: String)
    ensures
        r@ == decimal(n as nat),
{
    let mut s: String = String::new();
    push_decimal(&mut s, n);
    assert(s@ =~= decimal(n as nat));
    s
}

/// Decimal notation, digit by digit: a number below ten is its digit, and a digit behind a number
/// stands for ten times the number and the digit. A negative number has a minus sign before it.
pub proof fn lemma_decimal_digits(n: nat, d: nat)
    requires
        d < 10,
    ensures
        decimal(d) == seq![('0' as int + d) as char],
        n > 0 ==> decimal(10 * n + d) == decimal(n).push(('0' as int + d) as char),
        n > 0 ==> integer(-(n as int)) == seq!['-'] + decimal(n),
        integer(n as int) == decimal(n),
{
    if n > 0 {
        assert((10 * n + d) / 10 == n && (10 * n + d) % 10 == d);
    }
}

/// The number that a sequence of decimal digits stands for.
pub open spec fn digits_value(s: Seq<char>) -> nat
    decreases s.len(),
{
    if s.len() == 0 {
        0
    } else {
        (digits_value(s.drop_last()) * 10 + digit_value(s.last())) as nat
    }
}

/// The number that a decimal digit stands for.
pub open spec fn digit_value(c: char) -> nat {
    (c as int - '0' as int) as nat
}

/// `c` is a decimal digit.
pub open spec fn is_digit(c: char) -> bool {
    '0' <= c <= '9'
}

/// Decimal notation is read back: the digits of `n` are digits, and stand for `n`.
pub proof fn lemma_decimal_value(n: nat)
    ensures
        digits_value(decimal(n)) == n,
        decimal(n).len() > 0,
        forall|i: int| 0 <= i < decimal(n).len() ==> is_digit(#[trigger] decimal(n)[i]),
    decreases n,
{
    reveal_with_fuel(digits_value, 2);
    if n < 10 {
        assert(decimal(n).drop_last() =~= Seq::<char>::empty());
        assert(decimal(n).last() == digit(n as int));
    } else {
        lemma_decimal_value(n / 10);
        assert(decimal(n).drop_last() =~= decimal(n / 10));
        assert(decimal(n).last() == digit((n % 10) as int));
    }
}

/// Different integers are written differently.
pub proof fn lemma_integer_injective(a: int, b: int)
    requires
        integer(a) == integer(b),
    ensures
        a == b,
{
    lemma_integer_sign(a);
    lemma_integer_sign(b);
    if a < 0 {
        assert(integer(a).drop_first() =~= decimal((-a) as nat));
        assert(integer(b).drop_first() =~= decimal((-b) as nat));
        lemma_decimal_value((-a) as nat);
        lemma_decimal_value((-b) as nat);
    } else {
        lemma_decimal_value(a as nat);
        lemma_decimal_value(b as nat);
    }
}

proof fn lemma_integer_sign(n: int)
    ensures
        integer(n).len() > 0,
        (integer(n)[0] == '-') == (n < 0),
{
    if n >= 0 {
        lemma_decimal_value(n as nat);
        assert(is_digit(decimal(n as nat)[0]));
    }
}

proof fn lemma_prefix_value(s: Seq<char>, k: int)
    requires
        0 <= k <= s.len(),
    ensures
        digits_value(s.take(k)) <= digits_value(s),
    decreases s.len() - k,
{
    if k == s.len() {
        assert(s.take(k) =~= s);
    } else {
        lemma_prefix_value(s, k + 1);
        assert(s.take(k + 1).drop_last() =~= s.take(k));
    }
}

/// Reads characters `from` and on of `v` as the decimal notation of a number up to `limit`.
fn read_decimal(v: &Vec<char>, from: usize, limit: u64) -> (r: Option<u64>)
    requires
        from <= v@.len(),
    ensures
        match r {
            Some(n) => n <= limit && v@.skip(from as int) == decimal(n as nat),
            None => forall|n: u64| n <= limit ==> v@.skip(from as int) != #[trigger] decimal(n as nat),
        },
{
    let ghost s: Seq<char> = v@.skip(from as int);
    let mut value: u64 = 0;
    let mut i: usize = from;
    while i < v.len()
        invariant
            from <= i <= v@.len(),
            s == v@.skip(from as int),
            value <= limit,
            value == digits_value(s.take(i - from)),
        decreases v@.len() - i,
    {
        let c: char = v[i];
        if c < '0' || c > '9' {
            proof {
                assert forall|n: u64| n <= limit implies s != #[trigger] decimal(n as nat) by {
                    lemma_decimal_value(n as nat);
                    assert(s[i - from] == c);
                    if s == decimal(n as nat) {
                        assert(is_digit(decimal(n as nat)[i - from]));
                    }
                }
            }
            return None;
        }
        let next: u128 = value as u128 * 10 + (c as u128 - '0' as u128);
        proof {
            assert(s.take(i - from + 1).drop_last() =~= s.take(i - from));
            assert(s.take(i - from + 1).last() == c);
            assert(next == digits_value(s.take(i - from + 1)));
        }
        if next > limit as u128 {
            proof {
                assert forall|n: u64| n <= limit implies s != #[trigger] decimal(n as nat) by {
                    lemma_decimal_value(n as nat);
                    lemma_prefix_value(s, i - from + 1);
                }
            }
            return None;
        }
        value = next as u64;
        i = i + 1;
    }
    assert(s.take(s.len() as int) =~= s);
    let mut back: String = String::new();
    push_decimal(&mut back, value as u128);
    assert(back@ =~= decimal(value as nat));
    let w: Vec<char> = chars_of(back.as_str());
    if w.len() == v.len() - from && stands_at(v, &w, from) {
        assert(v@.subrange(from as int, from + w@.len()) =~= s);
        Some(value)
    } else {
        proof {
            assert forall|n: u64| n <= limit implies s != #[trigger] decimal(n as nat) by {
                lemma_decimal_value(n as nat);
                if s == decimal(n as nat) {
                    assert(n == value);
                    assert(v@.subrange(from as int, from + w@.len()) =~= s);
                }
            }
        }
        None
    }
}

/// Reads the decimal notation of a `u64`.
pub fn parse_u64(s: &str) -> (r: Option<u64>)
    ensures
        match r {
            Some(n) => s@ == integer(n as int),
            None => forall|n: u64| s@ != #[trigger] integer(n as int),
        },
{
    let v: Vec<char> = chars_of(s);
    assert(v@.skip(0) =~= s@);
    let r: Option<u64> = read_decimal(&v, 0, u64::MAX);
    proof {
        if r is None {
            assert forall|n: u64| s@ != #[trigger] integer(n as int) by {
                assert(v@.skip(0) != decimal(n as nat));
            }
        }
    }
    r
}

/// Reads the decimal notation of an `i64`.
pub fn parse_i64(s: &str) -> (r: Option<i64>)
    ensures
        match r {
            Some(n) => s@ == integer(n as int),
            None => forall|n: i64| s@ != #[trigger] integer(n as int),
        },
{
    let v: Vec<char> = chars_of(s);
    if v.len() > 0 && v[0] == '-' {
        let magnitude: Option<u64> = read_decimal(&v, 1, 0x8000_0000_0000_0000);
        match magnitude {
            Some(m) => {
                if m == 0 {
                    proof {
                        assert forall|n: i64| s@ != #[trigger] integer(n as int) by {
                            lemma_integer_sign(n as int);
                            lemma_decimal_value((-n) as nat);
                            lemma_decimal_value(0);
                            if s@ == integer(n as int) {
                                assert(integer(n as int).skip(1) =~= decimal((-n) as nat));
                            }
                        }
                    }
                    return None;
                }
                let n: i64 = (-(m as i128)) as i64;
                assert(s@ =~= seq!['-'] + v@.skip(1));
                Some(n)
            },
            None => {
                proof {
                    assert forall|n: i64| s@ != #[trigger] integer(n as int) by {
                        lemma_integer_sign(n as int);
                        if s@ == integer(n as int) {
                            let m: u64 = (-n) as u64;
                            assert(integer(n as int).skip(1) =~= decimal(m as nat));
                        }
                    }
                }
                None
            },
        }
    } else {
        assert(v@.skip(0) =~= s@);
        let magnitude: Option<u64> = read_decimal(&v, 0, 0x7fff_ffff_ffff_ffff);
        match magnitude {
            Some(m) => Some(m as i64),
            None => {
                proof {
                    assert forall|n: i64| s@ != #[trigger] integer(n as int) by {
                        lemma_integer_sign(n as int);
                        if n >= 0 {
                            let m: u64 = n as u64;
                            assert(v@.skip(0) != decimal(m as nat));
                        }
                    }
                }
                None
            },
        }
    }
}

} // verus!
