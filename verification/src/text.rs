//! Equality and order of texts.
//!
//! Texts are ordered as Rust orders strings: byte by byte over their UTF-8
//! encoding, a proper prefix coming first.

use vstd::prelude::*;
use vstd::string::*;
use vstd::utf8::*;

verus! {

/// `a` comes before `b` in byte-wise lexicographic order, given that the two
/// agree on every index below `i`.
pub open spec fn bytes_lt_from(a: Seq<u8>, b: Seq<u8>, i: int) -> bool
    decreases a.len() - i,
{
    if i < 0 || i >= b.len() {
        false
    } else if i >= a.len() {
        true
    } else if a[i] != b[i] {
        a[i] < b[i]
    } else {
        bytes_lt_from(a, b, i + 1)
    }
}

/// `a` comes strictly before `b`.
pub open spec fn text_lt(a: Seq<char>, b: Seq<char>) -> bool {
    bytes_lt_from(encode_utf8(a), encode_utf8(b), 0)
}

/// The two byte strings agree on every index below `i`.
pub open spec fn agree_below(a: Seq<u8>, b: Seq<u8>, i: int) -> bool {
    &&& 0 <= i <= a.len()
    &&& i <= b.len()
    &&& forall|j: int| 0 <= j < i ==> a[j] == b[j]
}

proof fn lemma_bytes_total(a: Seq<u8>, b: Seq<u8>, i: int)
    requires
        agree_below(a, b, i),
    ensures
        bytes_lt_from(a, b, i) || bytes_lt_from(b, a, i) || a == b,
        !(bytes_lt_from(a, b, i) && bytes_lt_from(b, a, i)),
        a == b ==> !bytes_lt_from(a, b, i),
    decreases a.len() - i,
{
    if i >= b.len() {
        if i >= a.len() {
            assert(a =~= b);
        }
    } else if i >= a.len() {
    } else if a[i] != b[i] {
    } else {
        lemma_bytes_total(a, b, i + 1);
    }
}

proof fn lemma_bytes_transitive(a: Seq<u8>, b: Seq<u8>, c: Seq<u8>, i: int)
    requires
        agree_below(a, b, i),
        agree_below(b, c, i),
        bytes_lt_from(a, b, i),
        bytes_lt_from(b, c, i),
    ensures
        bytes_lt_from(a, c, i),
    decreases a.len() - i,
{
    if i < a.len() && a[i] == b[i] && b[i] == c[i] {
        lemma_bytes_transitive(a, b, c, i + 1);
    }
}

/// Two texts with the same UTF-8 bytes are the same text.
pub proof fn lemma_utf8_injective(a: Seq<char>, b: Seq<char>)
    requires
        encode_utf8(a) == encode_utf8(b),
    ensures
        a == b,
{
    encode_utf8_decode_utf8(a);
    encode_utf8_decode_utf8(b);
}

/// Of two texts exactly one holds: the first comes before the second, the
/// second before the first, or they are equal.
pub proof fn lemma_text_lt_total(a: Seq<char>, b: Seq<char>)
    ensures
        text_lt(a, b) || text_lt(b, a) || a == b,
        !(text_lt(a, b) && text_lt(b, a)),
        a == b ==> !text_lt(a, b),
{
    lemma_bytes_total(encode_utf8(a), encode_utf8(b), 0);
    if encode_utf8(a) == encode_utf8(b) {
        lemma_utf8_injective(a, b);
    }
}

/// The order of texts is transitive.
pub proof fn lemma_text_lt_transitive(a: Seq<char>, b: Seq<char>, c: Seq<char>)
    requires
        text_lt(a, b),
        text_lt(b, c),
    ensures
        text_lt(a, c),
{
    lemma_bytes_transitive(encode_utf8(a), encode_utf8(b), encode_utf8(c), 0);
}

/// Whether two texts are equal.
pub fn str_eq(a: &str, b: &str) -> (r: bool)
    ensures
        r == (a@ == b@),
{
    let x = a.as_bytes();
    let y = b.as_bytes();
    if x.len() != y.len() {
        return false;
    }
    let mut i: usize = 0;
    while i < x.len()
        invariant
            x@ == encode_utf8(a@),
            y@ == encode_utf8(b@),
            x@.len() == y@.len(),
            agree_below(x@, y@, i as int),
        decreases x.len() - i,
    {
        if x[i] != y[i] {
            return false;
        }
        i = i + 1;
    }
    proof {
        assert(x@ =~= y@);
        lemma_utf8_injective(a@, b@);
    }
    true
}

/// Whether `a` comes strictly before `b`.
pub fn str_lt(a: &str, b: &str) -> (r: bool)
    ensures
        r == text_lt(a@, b@),
{
    let x = a.as_bytes();
    let y = b.as_bytes();
    let mut i: usize = 0;
    while i < x.len() && i < y.len()
        invariant
            x@ == encode_utf8(a@),
            y@ == encode_utf8(b@),
            agree_below(x@, y@, i as int),
            text_lt(a@, b@) == bytes_lt_from(x@, y@, i as int),
        decreases x.len() - i,
    {
        if x[i] != y[i] {
            return x[i] < y[i];
        }
        i = i + 1;
    }
    i < y.len()
}

/// What `str::to_lowercase` makes of a text.
pub uninterp spec fn lowercased(text: Seq<char>) -> Seq<char>;

/// Calls `str::to_lowercase`. The contract names the result and claims no
/// more.
#[verifier::external_body]
fn outside_to_lowercase(text: &str) -> (r: String)
    ensures
        r@ == lowercased(text@),
{
    text.to_lowercase()
}

/// The text in lower case.
pub fn to_lowercase(text: &str) -> (r: String)
    ensures
        r@ == lowercased(text@),
{
    outside_to_lowercase(text)
}

/// The character of a decimal digit.
pub open spec fn digit_char(d: int) -> char {
    if d == 0 {
        '0'
    } else if d == 1 {
        '1'
    } else if d == 2 {
        '2'
    } else if d == 3 {
        '3'
    } else if d == 4 {
        '4'
    } else if d == 5 {
        '5'
    } else if d == 6 {
        '6'
    } else if d == 7 {
        '7'
    } else if d == 8 {
        '8'
    } else {
        '9'
    }
}

/// The decimal digits of a number, without leading zeros; zero is `0`.
pub open spec fn decimal_text(n: nat) -> Seq<char>
    decreases n,
{
    if n < 10 {
        seq![digit_char(n as int)]
    } else {
        decimal_text(n / 10).push(digit_char((n % 10) as int))
    }
}

/// The text of one decimal digit.
fn digit_text(d: u64) -> (r: &'static str)
    requires
        d < 10,
    ensures
        r@ == seq![digit_char(d as int)],
{
    let r = if d == 0 {
        "0"
    } else if d == 1 {
        "1"
    } else if d == 2 {
        "2"
    } else if d == 3 {
        "3"
    } else if d == 4 {
        "4"
    } else if d == 5 {
        "5"
    } else if d == 6 {
        "6"
    } else if d == 7 {
        "7"
    } else if d == 8 {
        "8"
    } else {
        "9"
    };
    proof {
        reveal_strlit("0");
        reveal_strlit("1");
        reveal_strlit("2");
        reveal_strlit("3");
        reveal_strlit("4");
        reveal_strlit("5");
        reveal_strlit("6");
        reveal_strlit("7");
        reveal_strlit("8");
        reveal_strlit("9");
        assert(r@ =~= seq![digit_char(d as int)]);
    }
    r
}

/// The number in decimal digits.
pub fn u64_text(n: u64) -> (r: String)
    ensures
        r@ == decimal_text(n as nat),
    decreases n,
{
    if n < 10 {
        String::from_str(digit_text(n))
    } else {
        let mut r = u64_text(n / 10);
        r.append(digit_text(n % 10));
        assert(r@ =~= decimal_text((n / 10) as nat).push(digit_char((n % 10) as int)));
        r
    }
}

/// The decimal digits of a whole number, with a minus sign in front of a
/// negative one.
pub open spec fn signed_decimal_text(n: int) -> Seq<char> {
    if n < 0 {
        seq!['-'] + decimal_text((-n) as nat)
    } else {
        decimal_text(n as nat)
    }
}

/// The number in decimal digits, with its sign if it is negative.
pub fn i64_text(n: i64) -> (r: String)
    ensures
        r@ == signed_decimal_text(n as int),
{
    if n < 0 {
        let magnitude: u64 = (-(n + 1)) as u64 + 1;
        proof {
            reveal_strlit("-");
            assert("-"@ =~= seq!['-']);
        }
        join("-", u64_text(magnitude).as_str())
    } else {
        u64_text(n as u64)
    }
}

/// `prefix` followed by `tail`.
pub fn join(prefix: &str, tail: &str) -> (r: String)
    ensures
        r@ == prefix@ + tail@,
{
    let mut r = String::from_str(prefix);
    r.append(tail);
    r
}

} // verus!
