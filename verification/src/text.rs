//! Character-level text helpers shared by the library.
use vstd::prelude::*;

verus! {

/// Whether two string slices hold the same characters.
pub fn text_eq(a: &str, b: &str) -> (r: bool)
    ensures
        r == (a@ == b@),
{
    let x: String = a.to_owned();
    let y: String = b.to_owned();
    x == y
}

/// Appends one character to a `String` (`String::push`).
#[verifier::external_body]
pub(crate) fn push_char(s: &mut String, c: char)
    ensures
        final(s)@ == old(s)@.push(c),
{
    s.push(c);
}


/// The character of a decimal digit `0 <= d < 10`.
pub open spec fn digit_char(d: int) -> char {
    (d + 48) as char
}

/// The decimal notation of a natural number, as `u64::to_string` writes it.
pub open spec fn decimal(n: nat) -> Seq<char>
    decreases n,
{
    if n < 10 {
        seq![digit_char(n as int)]
    } else {
        decimal(n / 10).push(digit_char((n % 10) as int))
    }
}

/// Whether a character is an ASCII decimal digit.
pub open spec fn is_digit(c: char) -> bool {
    48 <= c as int <= 57
}

/// The number that a string of decimal digits denotes.
pub open spec fn digits_value(s: Seq<char>) -> int
    decreases s.len(),
{
    if s.len() == 0 {
        0
    } else {
        digits_value(s.drop_last()) * 10 + (s.last() as int - 48)
    }
}

/// The decimal notation of `n` is a non-empty string of digits, without a
/// leading zero unless it is `0` itself, that denotes `n`.
pub proof fn lemma_decimal_denotes(n: nat)
    ensures
        decimal(n).len() > 0,
        forall|i: int| 0 <= i < decimal(n).len() ==> is_digit(#[trigger] decimal(n)[i]),
        decimal(n).len() > 1 ==> decimal(n)[0] != '0',
        digits_value(decimal(n)) == n,
    decreases n,
{
    if n < 10 {
        let c = digit_char(n as int);
        assert(c as int == n + 48);
        assert(decimal(n).drop_last() =~= Seq::<char>::empty());
        assert(digits_value(decimal(n).drop_last()) == 0);
        assert(decimal(n).last() == c);
    } else {
        let q = n / 10;
        lemma_decimal_denotes(q);
        let d = digit_char((n % 10) as int);
        assert(d as int == n % 10 + 48);
        assert(decimal(n).drop_last() =~= decimal(q));
        assert(decimal(n)[0] == decimal(q)[0]);
        assert(decimal(n).last() == d);
        assert(digits_value(decimal(n)) == digits_value(decimal(q)) * 10 + (n % 10));
        assert(q * 10 + n % 10 == n);
        if decimal(q).len() == 1 {
            assert(q < 10) by {
                if q >= 10 {
                    assert(decimal(q) == decimal(q / 10).push(digit_char((q % 10) as int)));
                    lemma_decimal_denotes(q / 10);
                }
            }
            assert(decimal(q)[0] as int == q + 48);
        }
    }
}

fn digit_to_char(d: u64) -> (c: char)
    requires
        d < 10,
    ensures
        c == digit_char(d as int),
{
    match d {
        0 => '0',
        1 => '1',
        2 => '2',
        3 => '3',
        4 => '4',
        5 => '5',
        6 => '6',
        7 => '7',
        8 => '8',
        _ => '9',
    }
}

/// Writes `n` in decimal notation.
pub fn decimal_string(n: u64) -> (s: String)
    ensures
        s@ == decimal(n as nat),
{
    let mut m: u64 = n;
    let mut digits: Vec<char> = Vec::new();
    while m >= 10
        invariant
            decimal(n as nat) == decimal(m as nat) + digits@,
        decreases m,
    {
        let d = digit_to_char(m % 10);
        assert(decimal(m as nat) == decimal((m / 10) as nat).push(d));
        digits.insert(0, d);
        m = m / 10;
    }
    let mut s = String::new();
    push_char(&mut s, digit_to_char(m));
    assert(s@ == decimal(m as nat));
    let mut i: usize = 0;
    while i < digits.len()
        invariant
            0 <= i <= digits@.len(),
            decimal(n as nat) == decimal(m as nat) + digits@,
            s@ == decimal(m as nat) + digits@.take(i as int),
        decreases digits@.len() - i,
    {
        push_char(&mut s, digits[i]);
        assert(digits@.take(i + 1) == digits@.take(i as int).push(digits@[i as int]));
        i = i + 1;
    }
    assert(digits@.take(digits@.len() as int) == digits@);
    s
}


/// The characters of a string slice, in order.
pub fn chars_of(s: &str) -> (r: Vec<char>)
    ensures
        r@ == s@,
{
    broadcast use vstd::string::group_string_axioms;
    let mut v: Vec<char> = Vec::new();
    for c in it: s.chars()
        invariant
            v@ == it.seq().take(it.index() as int),
    {
        v.push(c);
    }
    v
}


/// Unicode `White_Space`, the property that `char::is_whitespace` tests:
/// U+0009..U+000D, U+0020, U+0085, U+00A0, U+1680, U+2000..U+200A, U+2028,
/// U+2029, U+202F, U+205F and U+3000.
pub open spec fn is_white_space(c: char) -> bool {
    let x = c as int;
    ||| 9 <= x <= 13
    ||| x == 32
    ||| x == 0x85
    ||| x == 0xA0
    ||| x == 0x1680
    ||| 0x2000 <= x <= 0x200A
    ||| x == 0x2028
    ||| x == 0x2029
    ||| x == 0x202F
    ||| x == 0x205F
    ||| x == 0x3000
}

/// Whether a character is Unicode white space.
pub fn is_white_space_char(c: char) -> (r: bool)
    ensures
        r == is_white_space(c),
{
    let x = c as u32;
    (9 <= x && x <= 13) || x == 32 || x == 0x85 || x == 0xA0 || x == 0x1680 || (0x2000 <= x
        && x <= 0x200A) || x == 0x2028 || x == 0x2029 || x == 0x202F || x == 0x205F || x == 0x3000
}

/// `s` with its leading white space removed (`str::trim_start`).
pub open spec fn trim_start(s: Seq<char>) -> Seq<char>
    decreases s.len(),
{
    if s.len() > 0 && is_white_space(s[0]) {
        trim_start(s.drop_first())
    } else {
        s
    }
}

/// Whether every character of `s` is white space, so that `str::trim`
/// leaves nothing of it.
pub open spec fn is_blank(s: Seq<char>) -> bool {
    forall|i: int| 0 <= i < s.len() ==> is_white_space(#[trigger] s[i])
}

proof fn lemma_trim_start_skip(s: Seq<char>, k: int)
    requires
        0 <= k <= s.len(),
        forall|i: int| 0 <= i < k ==> is_white_space(#[trigger] s[i]),
    ensures
        trim_start(s) == trim_start(s.skip(k)),
    decreases k,
{
    if k > 0 {
        assert(s.skip(1) == s.drop_first());
        lemma_trim_start_skip(s.drop_first(), k - 1);
        assert(s.drop_first().skip(k - 1) == s.skip(k));
    } else {
        assert(s.skip(0) == s);
    }
}

/// The first character of `s` after its leading white space, if any.
pub fn first_non_white_space(s: &str) -> (r: Option<char>)
    ensures
        r == (if trim_start(s@).len() > 0 {
            Some(trim_start(s@)[0])
        } else {
            None::<char>
        }),
{
    let cs = chars_of(s);
    let mut i: usize = 0;
    while i < cs.len()
        invariant
            cs@ == s@,
            0 <= i <= cs@.len(),
            forall|j: int| 0 <= j < i ==> is_white_space(#[trigger] cs@[j]),
        decreases cs@.len() - i,
    {
        if !is_white_space_char(cs[i]) {
            proof {
                lemma_trim_start_skip(s@, i as int);
                assert(s@.skip(i as int)[0] == cs@[i as int]);
            }
            return Some(cs[i]);
        }
        i = i + 1;
    }
    proof {
        lemma_trim_start_skip(s@, i as int);
        assert(s@.skip(i as int).len() == 0);
    }
    None
}

/// Whether `s` holds only white space (`s.trim().is_empty()`).
pub fn is_blank_text(s: &str) -> (r: bool)
    ensures
        r == is_blank(s@),
{
    let cs = chars_of(s);
    let mut i: usize = 0;
    while i < cs.len()
        invariant
            cs@ == s@,
            0 <= i <= cs@.len(),
            forall|j: int| 0 <= j < i ==> is_white_space(#[trigger] cs@[j]),
        decreases cs@.len() - i,
    {
        if !is_white_space_char(cs[i]) {
            return false;
        }
        i = i + 1;
    }
    true
}


/// `s` with every occurrence of `c` removed (`str::replace(c, "")`).
pub open spec fn without_char(s: Seq<char>, c: char) -> Seq<char>
    decreases s.len(),
{
    if s.len() == 0 {
        s
    } else if s.last() == c {
        without_char(s.drop_last(), c)
    } else {
        without_char(s.drop_last(), c).push(s.last())
    }
}

/// Removes every occurrence of `c` from `s`.
pub fn remove_char(s: &str, c: char) -> (r: String)
    ensures
        r@ == without_char(s@, c),
{
    let cs = chars_of(s);
    let mut out = String::new();
    let mut i: usize = 0;
    while i < cs.len()
        invariant
            cs@ == s@,
            0 <= i <= cs@.len(),
            out@ == without_char(cs@.take(i as int), c),
        decreases cs@.len() - i,
    {
        let ghost before = cs@.take(i as int);
        assert(cs@.take(i + 1).drop_last() == before);
        if cs[i] != c {
            push_char(&mut out, cs[i]);
        }
        i = i + 1;
    }
    assert(cs@.take(cs@.len() as int) == cs@);
    out
}


proof fn lemma_push_contains(s: Seq<char>, x: char, d: char)
    ensures
        s.push(x).contains(d) <==> (s.contains(d) || x == d),
{
    if s.contains(d) {
        let i = choose|i: int| 0 <= i < s.len() && s[i] == d;
        assert(s.push(x)[i] == d);
    }
    if x == d {
        assert(s.push(x)[s.len() as int] == d);
    }
    if s.push(x).contains(d) {
        let i = choose|i: int| 0 <= i < s.push(x).len() && s.push(x)[i] == d;
        if i < s.len() {
            assert(s[i] == d);
        }
    }
}

/// Removing a character leaves no occurrence of it and keeps every other
/// character.
pub proof fn lemma_without_char(s: Seq<char>, c: char)
    ensures
        !without_char(s, c).contains(c),
        forall|d: char| d != c ==> (s.contains(d) <==> #[trigger] without_char(s, c).contains(d)),
    decreases s.len(),
{
    if s.len() > 0 {
        let p = s.drop_last();
        let l = s.last();
        lemma_without_char(p, c);
        assert(s == p.push(l));
        assert forall|d: char| d != c implies (s.contains(d) <==> #[trigger] without_char(
            s,
            c,
        ).contains(d)) by {
            lemma_push_contains(p, l, d);
            lemma_push_contains(without_char(p, c), l, d);
        }
        lemma_push_contains(without_char(p, c), l, c);
    }
}


/// Removing a character works piece by piece: on a single character it
/// drops that character and keeps any other, and on a concatenation it is
/// the concatenation of the two results, so order and multiplicity of the
/// kept characters are preserved.
pub proof fn lemma_without_char_pieces(a: Seq<char>, b: Seq<char>, c: char, x: char)
    ensures
        without_char(a + b, c) == without_char(a, c) + without_char(b, c),
        without_char(seq![x], c) == (if x == c {
            Seq::<char>::empty()
        } else {
            seq![x]
        }),
    decreases b.len(),
{
    let one = seq![x];
    assert(one.drop_last() =~= Seq::<char>::empty());
    assert(one.last() == x);
    assert(without_char(one.drop_last(), c) == one.drop_last());
    assert(Seq::<char>::empty().push(x) =~= one);
    if b.len() == 0 {
        assert(a + b =~= a);
        assert(without_char(a, c) + without_char(b, c) =~= without_char(a, c));
    } else {
        let bp = b.drop_last();
        lemma_without_char_pieces(a, bp, c, x);
        assert((a + b).drop_last() =~= a + bp);
        assert((a + b).last() == b.last());
        if b.last() != c {
            assert(without_char(a, c) + without_char(bp, c).push(b.last()) =~= (without_char(a, c)
                + without_char(bp, c)).push(b.last()));
        }
    }
}

/// Trimming the start drops exactly the leading run of white space: the
/// result is a suffix of the text, everything before it is white space, and
/// it does not itself start with white space.
pub proof fn lemma_trim_start_shape(s: Seq<char>)
    ensures
        exists|k: int|
            0 <= k <= s.len() && trim_start(s) == s.skip(k) && (forall|i: int|
                0 <= i < k ==> is_white_space(#[trigger] s[i])),
        trim_start(s).len() > 0 ==> !is_white_space(trim_start(s)[0]),
    decreases s.len(),
{
    if s.len() > 0 && is_white_space(s[0]) {
        let t = s.drop_first();
        lemma_trim_start_shape(t);
        let k = choose|k: int|
            0 <= k <= t.len() && trim_start(t) == t.skip(k) && (forall|i: int|
                0 <= i < k ==> is_white_space(#[trigger] t[i]));
        assert(t.skip(k) =~= s.skip(k + 1));
        assert forall|i: int| 0 <= i < k + 1 implies is_white_space(#[trigger] s[i]) by {
            if i > 0 {
                assert(s[i] == t[i - 1]);
            }
        }
    } else {
        assert(s.skip(0) =~= s);
    }
}

} // verus!
