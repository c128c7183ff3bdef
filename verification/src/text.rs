//! String operations with contracts over character sequences.

use vstd::prelude::*;
use vstd::string::{StringExecFns, StringSliceAdditionalSpecFns};
use vstd::utf8::{
    decode_utf8,
    decode_utf8_split,
    encode_utf8,
    encode_utf8_decode_utf8,
    encode_utf8_valid_utf8,
    is_char_boundary,
    is_char_boundary_iff_not_is_continuation_byte,
    is_char_boundary_start_end_of_seq,
    length_of_first_scalar,
    pop_first_scalar,
    valid_utf8,
};

verus! {

/// The view of an optional string slice.
pub open spec fn opt_view(s: Option<&str>) -> Option<Seq<char>> {
    match s {
        Some(t) => Some(t@),
        None => None,
    }
}

/// `s` begins with `prefix`.
pub open spec fn starts_with(s: Seq<char>, prefix: Seq<char>) -> bool {
    prefix.len() <= s.len() && s.subrange(0, prefix.len() as int) == prefix
}

/// `s` ends with `suffix`.
pub open spec fn ends_with(s: Seq<char>, suffix: Seq<char>) -> bool {
    suffix.len() <= s.len() && s.subrange(s.len() - suffix.len(), s.len() as int) == suffix
}

/// `s` without its leading `prefix`, or `None` if `s` does not begin with it.
pub open spec fn without_prefix(s: Seq<char>, prefix: Seq<char>) -> Option<Seq<char>> {
    if starts_with(s, prefix) {
        Some(s.subrange(prefix.len() as int, s.len() as int))
    } else {
        None
    }
}

/// `s` without its trailing `suffix`, or `None` if `s` does not end with it.
pub open spec fn without_suffix(s: Seq<char>, suffix: Seq<char>) -> Option<Seq<char>> {
    if ends_with(s, suffix) {
        Some(s.subrange(0, s.len() - suffix.len()))
    } else {
        None
    }
}

/// Two UTF-8 encodings are equal only if the encoded texts are.
pub proof fn lemma_encoding_is_injective(a: Seq<char>, b: Seq<char>)
    requires
        encode_utf8(a) == encode_utf8(b),
    ensures
        a == b,
{
    encode_utf8_decode_utf8(a);
    encode_utf8_decode_utf8(b);
    assert(decode_utf8(encode_utf8(a)) == decode_utf8(encode_utf8(b)));
}

/// Whether two string slices hold the same text.
pub fn str_eq(a: &str, b: &str) -> (r: bool)
    ensures
        r == (a@ == b@),
{
    let x = a.as_bytes();
    let y = b.as_bytes();
    if x.len() != y.len() {
        return false;
    }
    let mut i: usize = 0;
    while i < x.len()
        invariant
            i <= x.len(),
            x.len() == y.len(),
            x@ == a.spec_bytes(),
            y@ == b.spec_bytes(),
            forall|j: int| 0 <= j < i ==> x@[j] == y@[j],
        decreases x.len() - i,
    {
        if x[i] != y[i] {
            return false;
        }
        i = i + 1;
    }
    proof {
        assert(x@ =~= y@);
        lemma_encoding_is_injective(a@, b@);
    }
    true
}

/// The character of a decimal digit.
pub open spec fn digit_char(d: nat) -> char {
    if d == 0 {
        '0'
    } else if d == 1 {
        '1'
    } else if d == 2 {
        '2'
    } else if d == 3 {
        '3'
    } else if d == 4 {
        '4'
    } else if d == 5 {
        '5'
    } else if d == 6 {
        '6'
    } else if d == 7 {
        '7'
    } else if d == 8 {
        '8'
    } else {
        '9'
    }
}

/// The decimal notation of a natural number, without leading zeros.
pub open spec fn decimal_text(n: nat) -> Seq<char>
    decreases n,
{
    if n < 10 {
        seq![digit_char(n)]
    } else {
        decimal_text(n / 10).push(digit_char(n % 10))
    }
}

/// The decimal notation of an integer: that of its magnitude, after a minus
/// sign where it is negative.
pub open spec fn signed_decimal_text(n: int) -> Seq<char> {
    if n < 0 {
        seq!['-'] + decimal_text((-n) as nat)
    } else {
        decimal_text(n as nat)
    }
}

fn digit_str(d: u64) -> (r: &'static str)
    requires
        d < 10,
    ensures
        r@ == seq![digit_char(d as nat)],
{
    let r = if d == 0 {
        "0"
    } else if d == 1 {
        "1"
    } else if d == 2 {
        "2"
    } else if d == 3 {
        "3"
    } else if d == 4 {
        "4"
    } else if d == 5 {
        "5"
    } else if d == 6 {
        "6"
    } else if d == 7 {
        "7"
    } else if d == 8 {
        "8"
    } else {
        "9"
    };
    proof {
        reveal_strlit("0");
        reveal_strlit("1");
        reveal_strlit("2");
        reveal_strlit("3");
        reveal_strlit("4");
        reveal_strlit("5");
        reveal_strlit("6");
        reveal_strlit("7");
        reveal_strlit("8");
        reveal_strlit("9");
        assert(r@ =~= seq![digit_char(d as nat)]);
    }
    r
}

/// Writes a number in decimal notation.
pub fn decimal(n: u64) -> (r: String)
    ensures
        r@ == decimal_text(n as nat),
    decreases n,
{
    if n < 10 {
        digit_str(n).to_owned()
    } else {
        let mut r = decimal(n / 10);
        r.append(digit_str(n % 10));
        r
    }
}

/// Writes an integer in decimal notation.
pub fn signed_decimal(n: i64) -> (r: String)
    ensures
        r@ == signed_decimal_text(n as int),
{
    if n < 0 {
        let magnitude: u64 = ((-(n + 1)) as u64) + 1;
        let mut r = "-".to_owned();
        proof {
            reveal_strlit("-");
            assert("-"@ =~= seq!['-']);
        }
        r.append(decimal(magnitude).as_str());
        r
    } else {
        decimal(n as u64)
    }
}

/// The encoding of a concatenation is the concatenation of the encodings.
pub proof fn lemma_encoding_of_concat(a: Seq<char>, b: Seq<char>)
    ensures
        encode_utf8(a + b) == encode_utf8(a) + encode_utf8(b),
    decreases a.len(),
{
    if a.len() == 0 {
        assert(a + b =~= b);
        assert(encode_utf8(a) + encode_utf8(b) =~= encode_utf8(b));
    } else {
        assert((a + b).drop_first() =~= a.drop_first() + b);
        lemma_encoding_of_concat(a.drop_first(), b);
        assert(encode_utf8(a + b) =~= encode_utf8(a) + encode_utf8(b));
    }
}

/// Where an encoded text begins with another encoded text, the other ends on
/// a character boundary of the first.
proof fn lemma_boundary_after_prefix(x: Seq<u8>, p: Seq<u8>)
    requires
        valid_utf8(x),
        valid_utf8(p),
        p.len() <= x.len(),
        x.subrange(0, p.len() as int) == p,
    ensures
        is_char_boundary(x, p.len() as int),
    decreases p.len(),
{
    if p.len() != 0 {
        assert forall|k: int| 0 <= k < p.len() implies x[k] == p[k] by {
            assert(x.subrange(0, p.len() as int)[k] == x[k]);
        }
        let x_rest = pop_first_scalar(x);
        let p_rest = pop_first_scalar(p);
        assert(length_of_first_scalar(x) == length_of_first_scalar(p));
        assert(x_rest.subrange(0, p_rest.len() as int) =~= p_rest);
        lemma_boundary_after_prefix(x_rest, p_rest);
    }
}

/// Where the encoding of a text is cut at a character boundary, the text is
/// the two decoded parts, one after the other.
proof fn lemma_split_text(s: Seq<char>, head: Seq<char>, tail: Seq<char>, mid: int)
    requires
        is_char_boundary(encode_utf8(s), mid),
        encode_utf8(head) == encode_utf8(s).subrange(0, mid),
        encode_utf8(tail) == encode_utf8(s).subrange(mid, encode_utf8(s).len() as int),
    ensures
        s == head + tail,
{
    let x = encode_utf8(s);
    encode_utf8_valid_utf8(s);
    decode_utf8_split(x, mid);
    encode_utf8_decode_utf8(s);
    encode_utf8_decode_utf8(head);
    encode_utf8_decode_utf8(tail);
}

/// The rest of `s` after `prefix` where `s` begins with `prefix`, and `None`
/// where it does not.
pub fn strip_prefix<'a>(s: &'a str, prefix: &str) -> (r: Option<&'a str>)
    ensures
        opt_view(r) == without_prefix(s@, prefix@),
{
    let x = s.as_bytes();
    let p = prefix.as_bytes();
    let n = p.len();
    proof {
        if starts_with(s@, prefix@) {
            let rest = s@.subrange(prefix@.len() as int, s@.len() as int);
            assert(s@ =~= prefix@ + rest);
            lemma_encoding_of_concat(prefix@, rest);
            assert(x@.subrange(0, n as int) =~= p@);
        }
    }
    if n > x.len() {
        return None;
    }
    let mut i: usize = 0;
    while i < n
        invariant
            i <= n <= x@.len(),
            n == p@.len(),
            starts_with(s@, prefix@) ==> x@.subrange(0, n as int) == p@,
            forall|j: int| 0 <= j < i ==> x@[j] == p@[j],
        decreases n - i,
    {
        if x[i] != p[i] {
            assert(x@.subrange(0, n as int)[i as int] == x@[i as int]);
            return None;
        }
        i = i + 1;
    }
    proof {
        assert(x@.subrange(0, n as int) =~= p@);
        encode_utf8_valid_utf8(s@);
        encode_utf8_valid_utf8(prefix@);
        lemma_boundary_after_prefix(x@, p@);
    }
    let (head, rest) = s.split_at(n);
    proof {
        lemma_encoding_is_injective(head@, prefix@);
        lemma_split_text(s@, head@, rest@, n as int);
        assert(s@.subrange(0, prefix@.len() as int) =~= prefix@);
        assert(s@.subrange(prefix@.len() as int, s@.len() as int) =~= rest@);
    }
    Some(rest)
}

/// The part of `s` before `suffix` where `s` ends with `suffix`, and `None`
/// where it does not.
pub fn strip_suffix<'a>(s: &'a str, suffix: &str) -> (r: Option<&'a str>)
    ensures
        opt_view(r) == without_suffix(s@, suffix@),
{
    let x = s.as_bytes();
    let q = suffix.as_bytes();
    let m = q.len();
    proof {
        if ends_with(s@, suffix@) {
            let head = s@.subrange(0, s@.len() - suffix@.len());
            assert(s@ =~= head + suffix@);
            lemma_encoding_of_concat(head, suffix@);
            assert(x@.subrange(x@.len() - m, x@.len() as int) =~= q@);
        }
    }
    if m > x.len() {
        return None;
    }
    let start = x.len() - m;
    let mut i: usize = 0;
    while i < m
        invariant
            i <= m <= x@.len() <= usize::MAX,
            m == q@.len(),
            start == x@.len() - m,
            ends_with(s@, suffix@) ==> x@.subrange(start as int, x@.len() as int) == q@,
            forall|j: int| 0 <= j < i ==> x@[start + j] == q@[j],
        decreases m - i,
    {
        if x[start + i] != q[i] {
            assert(x@.subrange(start as int, x@.len() as int)[i as int] == x@[start + i]);
            return None;
        }
        i = i + 1;
    }
    proof {
        assert(x@.subrange(start as int, x@.len() as int) =~= q@);
        encode_utf8_valid_utf8(s@);
        encode_utf8_valid_utf8(suffix@);
        if m == 0 {
            is_char_boundary_start_end_of_seq(x@);
        } else {
            is_char_boundary_start_end_of_seq(q@);
            is_char_boundary_iff_not_is_continuation_byte(q@, 0);
            assert(x@[start + 0] == q@[0]);
            is_char_boundary_iff_not_is_continuation_byte(x@, start as int);
        }
    }
    let (head, tail) = s.split_at(start);
    proof {
        lemma_encoding_is_injective(tail@, suffix@);
        lemma_split_text(s@, head@, tail@, start as int);
        assert(s@.subrange(s@.len() - suffix@.len(), s@.len() as int) =~= suffix@);
        assert(s@.subrange(0, s@.len() - suffix@.len()) =~= head@);
    }
    Some(head)
}

} // verus!
