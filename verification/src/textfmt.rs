//! Decimal rendering of counters and seeds for identifier synthesis.
//!
//! Variation and approval identifiers embed decimal numbers between
//! underscore separators. The spec-level renderer `dec_str` is injective
//! (shown through `digits_val`, its inverse), and rendered digit runs are
//! underscore-free; those two facts make the synthesized identifiers
//! pairwise distinct.

use vstd::prelude::*;

verus! {

/// The digit character for one decimal digit.
pub open spec fn digit_char(d: nat) -> char {
    if d == 0 {
        '0'
    } else if d == 1 {
        '1'
    } else if d == 2 {
        '2'
    } else if d == 3 {
        '3'
    } else if d == 4 {
        '4'
    } else if d == 5 {
        '5'
    } else if d == 6 {
        '6'
    } else if d == 7 {
        '7'
    } else if d == 8 {
        '8'
    } else {
        '9'
    }
}

/// Whether a character is a decimal digit.
pub open spec fn is_digit(c: char) -> bool {
    c == '0' || c == '1' || c == '2' || c == '3' || c == '4' || c == '5' || c == '6' || c == '7'
        || c == '8' || c == '9'
}

/// The numeric value of a digit character (zero on anything else).
pub open spec fn digit_val(c: char) -> nat {
    if c == '1' {
        1
    } else if c == '2' {
        2
    } else if c == '3' {
        3
    } else if c == '4' {
        4
    } else if c == '5' {
        5
    } else if c == '6' {
        6
    } else if c == '7' {
        7
    } else if c == '8' {
        8
    } else if c == '9' {
        9
    } else {
        0
    }
}

/// The decimal rendering of a natural number, most significant digit first,
/// without leading zeros (a single `'0'` for zero).
pub open spec fn dec_str(n: nat) -> Seq<char>
    decreases n,
{
    if n < 10 {
        seq![digit_char(n)]
    } else {
        dec_str(n / 10).push(digit_char(n % 10))
    }
}

/// The number a run of digit characters denotes.
pub open spec fn digits_val(s: Seq<char>) -> nat
    decreases s.len(),
{
    if s.len() == 0 {
        0
    } else {
        digits_val(s.drop_last()) * 10 + digit_val(s.last())
    }
}

/// A run of `k` zero characters.
pub open spec fn zeros(k: nat) -> Seq<char> {
    Seq::new(k, |i: int| '0')
}

/// `s` left-padded with zeros to at least `width` characters.
pub open spec fn pad_left(s: Seq<char>, width: nat) -> Seq<char> {
    if s.len() >= width {
        s
    } else {
        zeros((width - s.len()) as nat) + s
    }
}

/// No character of `s` is an underscore.
pub open spec fn underscore_free(s: Seq<char>) -> bool {
    forall|i: int| 0 <= i < s.len() ==> s[i] != '_'
}

/// `dec_str` renders only digits and `digits_val` reads the value back,
/// so distinct numbers render distinctly.
pub proof fn lemma_dec_str_props(n: nat)
    ensures
        dec_str(n).len() >= 1,
        forall|i: int| 0 <= i < dec_str(n).len() ==> is_digit(#[trigger] dec_str(n)[i]),
        digits_val(dec_str(n)) == n,
    decreases n,
{
    if n < 10 {
        let s = dec_str(n);
        assert(s.drop_last() =~= Seq::<char>::empty());
        assert(s.last() == digit_char(n));
        assert(digits_val(Seq::<char>::empty()) == 0);
        assert(digits_val(s) == digit_val(digit_char(n)));
    } else {
        lemma_dec_str_props(n / 10);
        let prev = dec_str(n / 10);
        let s = dec_str(n);
        assert(s == prev.push(digit_char(n % 10)));
        assert(s.drop_last() =~= prev);
        assert(s.last() == digit_char(n % 10));
        assert(digits_val(s) == (n / 10) * 10 + n % 10);
        assert((n / 10) * 10 + n % 10 == n) by (nonlinear_arith);
        assert(forall|i: int|
            0 <= i < s.len() ==> is_digit(#[trigger] s[i])) by {
            assert(forall|i: int| 0 <= i < prev.len() ==> s[i] == prev[i]);
        }
    }
}

/// A run of zero characters denotes zero.
pub proof fn lemma_digits_val_zeros(k: nat)
    ensures
        digits_val(zeros(k)) == 0,
    decreases k,
{
    if k > 0 {
        lemma_digits_val_zeros((k - 1) as nat);
        assert(zeros(k).drop_last() =~= zeros((k - 1) as nat));
        assert(zeros(k).last() == '0');
    }
}

/// Leading zeros do not change the value a digit run denotes.
pub proof fn lemma_digits_val_leading_zeros(k: nat, s: Seq<char>)
    ensures
        digits_val(zeros(k) + s) == digits_val(s),
    decreases s.len(),
{
    if s.len() == 0 {
        assert(zeros(k) + s =~= zeros(k));
        lemma_digits_val_zeros(k);
    } else {
        lemma_digits_val_leading_zeros(k, s.drop_last());
        let w = zeros(k) + s;
        assert(w.drop_last() =~= zeros(k) + s.drop_last());
        assert(w.last() == s.last());
    }
}

/// The zero-padded decimal rendering of `n`: underscore-free, and still
/// denoting `n`, so distinct numbers pad distinctly.
pub proof fn lemma_pad_dec_props(n: nat, width: nat)
    ensures
        digits_val(pad_left(dec_str(n), width)) == n,
        underscore_free(pad_left(dec_str(n), width)),
        pad_left(dec_str(n), width).len() >= width,
{
    lemma_dec_str_props(n);
    let d = dec_str(n);
    if d.len() >= width {
        assert(underscore_free(d));
    } else {
        let k = (width - d.len()) as nat;
        lemma_digits_val_leading_zeros(k, d);
        assert forall|i: int| 0 <= i < (zeros(k) + d).len() implies (zeros(k) + d)[i] != '_' by {
            if i < k {
                assert((zeros(k) + d)[i] == '0');
            } else {
                assert((zeros(k) + d)[i] == d[i - k]);
            }
        }
    }
}

/// Two equal strings of the shape `head + '_' + tail`, with underscore-free
/// heads, have equal heads and equal tails.
pub proof fn lemma_sep_split_unique(a1: Seq<char>, b1: Seq<char>, a2: Seq<char>, b2: Seq<char>)
    requires
        underscore_free(a1),
        underscore_free(a2),
        a1 + seq!['_'] + b1 == a2 + seq!['_'] + b2,
    ensures
        a1 == a2,
        b1 == b2,
{
    let s = a1 + seq!['_'] + b1;
    let t = a2 + seq!['_'] + b2;
    assert(s[a1.len() as int] == '_');
    assert(t[a2.len() as int] == '_');
    if a1.len() < a2.len() {
        assert(t[a1.len() as int] == a2[a1.len() as int]);
        assert(false);
    }
    if a2.len() < a1.len() {
        assert(s[a2.len() as int] == a1[a2.len() as int]);
        assert(false);
    }
    assert forall|i: int| 0 <= i < a1.len() implies a1[i] == a2[i] by {
        assert(s[i] == a1[i]);
        assert(t[i] == a2[i]);
    }
    assert(a1 =~= a2);
    assert(s.len() == t.len());
    assert(b1.len() == b2.len());
    assert forall|i: int| 0 <= i < b1.len() implies b1[i] == b2[i] by {
        assert(s[a1.len() + 1 + i] == b1[i]);
        assert(t[a2.len() + 1 + i] == b2[i]);
    }
    assert(b1 =~= b2);
}

/// A one-character string slice for each decimal digit.
pub fn digit_str(d: u64) -> (r: &'static str)
    requires
        d < 10,
    ensures
        r@ == seq![digit_char(d as nat)],
{
    proof {
        reveal_strlit("0");
        reveal_strlit("1");
        reveal_strlit("2");
        reveal_strlit("3");
        reveal_strlit("4");
        reveal_strlit("5");
        reveal_strlit("6");
        reveal_strlit("7");
        reveal_strlit("8");
        reveal_strlit("9");
    }
    let r = if d == 0 {
        "0"
    } else if d == 1 {
        "1"
    } else if d == 2 {
        "2"
    } else if d == 3 {
        "3"
    } else if d == 4 {
        "4"
    } else if d == 5 {
        "5"
    } else if d == 6 {
        "6"
    } else if d == 7 {
        "7"
    } else if d == 8 {
        "8"
    } else {
        "9"
    };
    proof {
        assert(r@ =~= seq![digit_char(d as nat)]);
    }
    r
}

/// Render a number in decimal, most significant digit first.
pub fn u64_to_dec_string(n: u64) -> (r: String)
    ensures
        r@ == dec_str(n as nat),
    decreases n,
{
    if n < 10 {
        String::from_str(digit_str(n))
    } else {
        let mut s = u64_to_dec_string(n / 10);
        s.append(digit_str(n % 10));
        proof {
            assert(s@ =~= dec_str((n / 10) as nat).push(digit_char((n % 10) as nat)));
        }
        s
    }
}

/// Render a number in decimal, left-padded with zeros to at least
/// `width` characters.
pub fn u64_to_padded_string(n: u64, width: usize) -> (r: String)
    ensures
        r@ == pad_left(dec_str(n as nat), width as nat),
{
    let digits = u64_to_dec_string(n);
    let len = digits.as_str().unicode_len();
    let mut s = String::new();
    let mut j: usize = len;
    proof {
        reveal_strlit("0");
        assert(s@ =~= zeros((j - len) as nat));
    }
    while j < width
        invariant
            len <= j,
            len < width ==> j <= width,
            len >= width ==> j == len,
            s@ == zeros((j - len) as nat),
        decreases width - j,
    {
        s.append("0");
        j = j + 1;
        proof {
            reveal_strlit("0");
            assert(s@ =~= zeros((j - len) as nat));
        }
    }
    s.append(digits.as_str());
    proof {
        if len >= width {
            assert(zeros(0) + digits@ =~= digits@);
        }
        assert(s@ =~= pad_left(dec_str(n as nat), width as nat));
    }
    s
}

/// Character-for-character string comparison.
pub fn str_eq(a: &str, b: &str) -> (r: bool)
    ensures
        r == (a@ == b@),
{
    let alen = a.unicode_len();
    let blen = b.unicode_len();
    if alen != blen {
        proof {
            assert(a@.len() != b@.len());
        }
        return false;
    }
    let mut i: usize = 0;
    while i < alen
        invariant
            i <= alen,
            alen == a@.len(),
            alen == b@.len(),
            forall|k: int| 0 <= k < i ==> a@[k] == b@[k],
        decreases alen - i,
    {
        if a.get_char(i) != b.get_char(i) {
            return false;
        }
        i = i + 1;
    }
    proof {
        assert(a@ =~= b@);
    }
    true
}

/// Whether the string contains the character.
pub fn str_contains_char(s: &str, c: char) -> (r: bool)
    ensures
        r == s@.contains(c),
{
    let len = s.unicode_len();
    let mut i: usize = 0;
    while i < len
        invariant
            i <= len,
            len == s@.len(),
            forall|k: int| 0 <= k < i ==> s@[k] != c,
        decreases len - i,
    {
        if s.get_char(i) == c {
            return true;
        }
        i = i + 1;
    }
    false
}

} // verus!
