//! Decimal rendering of integers and comma splitting, the two pieces of text
//! handling that token ids, token URIs and reward lists are built from.
use vstd::prelude::*;
use vstd::string::*;

verus! {

/// The ASCII character of a decimal digit.
pub open spec fn digit_char(d: int) -> char {
    (48 + d) as char
}

/// The decimal rendering of a natural number, without leading zeros.
pub open spec fn decimal(n: nat) -> Seq<char>
    decreases n,
{
    if n < 10 {
        seq![digit_char(n as int)]
    } else {
        decimal(n / 10) + seq![digit_char((n % 10) as int)]
    }
}

/// The decimal rendering of an integer: a minus sign before the digits of a
/// negative number.
pub open spec fn signed_decimal(n: int) -> Seq<char> {
    if n < 0 {
        seq!['-'] + decimal((-n) as nat)
    } else {
        decimal(n as nat)
    }
}

/// `String::push`: appends one character at the end of the string.
#[verifier::external_body]
pub(crate) fn push_char(s: &mut String, c: char)
    ensures
        final(s)@ == old(s)@.push(c),
{
    s.push(c);
}

fn digit(d: u64) -> (c: char)
    requires
        d < 10,
    ensures
        c == digit_char(d as int),
{
    let b: u8 = 48u8 + (d as u8);
    b as char
}

/// Appends the decimal rendering of `n` to `s`.
pub fn push_decimal(s: &mut String, n: u64)
    ensures
        final(s)@ == old(s)@ + decimal(n as nat),
    decreases n,
{
    if n >= 10 {
        push_decimal(s, n / 10);
        let c = digit(n % 10);
        push_char(s, c);
        assert(s@ == old(s)@ + decimal(n as nat));
    } else {
        let c = digit(n);
        push_char(s, c);
        assert(s@ == old(s)@ + decimal(n as nat));
    }
}

/// Appends the decimal rendering of a signed `n` to `s`.
pub fn push_signed_decimal(s: &mut String, n: i64)
    ensures
        final(s)@ == old(s)@ + signed_decimal(n as int),
{
    if n < 0 {
        push_char(s, '-');
        let magnitude: u64 = if n == i64::MIN {
            9223372036854775808u64
        } else {
            (-n) as u64
        };
        push_decimal(s, magnitude);
        assert(s@ == old(s)@ + signed_decimal(n as int));
    } else {
        push_decimal(s, n as u64);
    }
}

/// The decimal rendering of an unsigned number, as `u64::to_string` gives it.
pub fn u64_to_string(n: u64) -> (s: String)
    ensures
        s@ == decimal(n as nat),
{
    let mut s = String::new();
    push_decimal(&mut s, n);
    assert(s@ =~= decimal(n as nat));
    s
}

/// The decimal rendering of a signed number, as `i32::to_string` gives it.
pub fn i32_to_string(n: i32) -> (s: String)
    ensures
        s@ == signed_decimal(n as int),
{
    let mut s = String::new();
    push_signed_decimal(&mut s, n as i64);
    assert(s@ =~= signed_decimal(n as int));
    s
}

/// The pieces that `str::split(',')` yields: the maximal runs of characters
/// between commas, one more piece than there are commas.
pub open spec fn split_commas(s: Seq<char>) -> Seq<Seq<char>>
    decreases s.len(),
{
    if s.len() == 0 {
        seq![Seq::empty()]
    } else {
        let prev = split_commas(s.drop_last());
        if s.last() == ',' {
            prev.push(Seq::empty())
        } else {
            prev.update(prev.len() - 1, prev.last().push(s.last()))
        }
    }
}

/// Joins pieces with a comma between each two of them.
pub open spec fn join_commas(pieces: Seq<Seq<char>>) -> Seq<char>
    decreases pieces.len(),
{
    if pieces.len() <= 1 {
        if pieces.len() == 1 { pieces[0] } else { Seq::empty() }
    } else {
        join_commas(pieces.drop_last()) + seq![','] + pieces.last()
    }
}

/// The number of commas in a text.
pub open spec fn comma_count(s: Seq<char>) -> nat
    decreases s.len(),
{
    if s.len() == 0 {
        0
    } else {
        comma_count(s.drop_last()) + if s.last() == ',' { 1nat } else { 0nat }
    }
}

/// Splitting at commas: there is one piece more than there are commas, no
/// piece holds a comma, and joining the pieces with commas gives back the text.
pub proof fn lemma_split_commas(s: Seq<char>)
    ensures
        split_commas(s).len() == comma_count(s) + 1,
        forall|i: int| 0 <= i < split_commas(s).len() ==> !(#[trigger] split_commas(s)[i]).contains(','),
        join_commas(split_commas(s)) == s,
    decreases s.len(),
{
    if s.len() > 0 {
        let prev = split_commas(s.drop_last());
        lemma_split_commas(s.drop_last());
        let pieces = split_commas(s);
        if s.last() == ',' {
            assert(pieces.drop_last() =~= prev);
            assert(join_commas(pieces) =~= s);
        } else {
            let last = prev.last().push(s.last());
            assert forall|i: int| 0 <= i < pieces.len() implies !(#[trigger] pieces[i]).contains(',') by {
                if i == pieces.len() - 1 {
                    if last.contains(',') {
                        let j = choose|j: int| 0 <= j < last.len() && last[j] == ',';
                        if j < last.len() - 1 {
                            assert(prev.last()[j] == ',');
                            assert(prev[prev.len() - 1].contains(','));
                        }
                    }
                } else {
                    assert(pieces[i] == prev[i]);
                }
            }
            if prev.len() == 1 {
                assert(join_commas(pieces) =~= s);
            } else {
                assert(pieces.drop_last() =~= prev.drop_last());
                assert(join_commas(prev) == join_commas(prev.drop_last()) + seq![','] + prev.last());
                assert(pieces.last() == last);
                assert(join_commas(pieces) == join_commas(pieces.drop_last()) + seq![','] + pieces.last());
                assert(join_commas(pieces) =~= join_commas(prev).push(s.last()));
                assert(s.drop_last().push(s.last()) =~= s);
            }
        }
    } else {
        assert(join_commas(split_commas(s)) =~= s);
    }
}

/// Splits a text at every comma, as `str::split(',')` does.
pub fn split_commas_exec(s: &str) -> (pieces: Vec<String>)
    ensures
        pieces@.len() == split_commas(s@).len(),
        forall|i: int| 0 <= i < pieces@.len() ==> (#[trigger] pieces@[i])@ == split_commas(s@)[i],
{
    let n = s.unicode_len();
    let mut pieces: Vec<String> = Vec::new();
    let mut cur = String::new();
    let mut i: usize = 0;
    proof {
        assert(s@.take(0) =~= Seq::<char>::empty());
    }
    while i < n
        invariant
            n == s@.len(),
            i <= n,
            pieces@.len() + 1 == split_commas(s@.take(i as int)).len(),
            forall|j: int| 0 <= j < pieces@.len() ==> (#[trigger] pieces@[j])@ == split_commas(s@.take(i as int))[j],
            cur@ == split_commas(s@.take(i as int)).last(),
        decreases n - i,
    {
        let c = s.get_char(i);
        proof {
            assert(s@.take(i + 1).drop_last() =~= s@.take(i as int));
            assert(s@.take(i + 1).last() == c);
        }
        if c == ',' {
            pieces.push(cur);
            cur = String::new();
            proof {
                assert(cur@ =~= Seq::<char>::empty());
            }
        } else {
            push_char(&mut cur, c);
        }
        i = i + 1;
    }
    proof {
        assert(s@.take(n as int) =~= s@);
    }
    pieces.push(cur);
    pieces
}

/// Whether a character is an ASCII decimal digit.
pub open spec fn is_digit(c: char) -> bool {
    48 <= (c as int) <= 57
}

/// The number that a text of decimal digits denotes.
pub open spec fn digits_value(s: Seq<char>) -> int
    decreases s.len(),
{
    if s.len() == 0 {
        0
    } else {
        digits_value(s.drop_last()) * 10 + ((s.last() as int) - 48)
    }
}

/// Whether a text is a decimal rendering: digits only, at least one, and no
/// leading zero unless the text is "0".
pub open spec fn canonical_decimal(s: Seq<char>) -> bool {
    &&& s.len() > 0
    &&& forall|i: int| 0 <= i < s.len() ==> is_digit(#[trigger] s[i])
    &&& s.len() > 1 ==> s[0] != '0'
}

proof fn lemma_digit_char(d: int)
    requires
        0 <= d < 10,
    ensures
        (digit_char(d) as int) == 48 + d,
        is_digit(digit_char(d)),
        digit_char(d) != ',',
        d != 0 ==> digit_char(d) != '0',
{
}

/// The decimal rendering of a number is canonical, denotes the number, and
/// starts with a non-zero digit when the number is not zero.
pub proof fn lemma_decimal_canonical(n: nat)
    ensures
        canonical_decimal(decimal(n)),
        digits_value(decimal(n)) == n,
        n >= 1 ==> decimal(n)[0] != '0',
        !decimal(n).contains(','),
    decreases n,
{
    if n < 10 {
        lemma_digit_char(n as int);
        let d = decimal(n);
        assert(d.drop_last() =~= Seq::<char>::empty());
        assert(digits_value(d.drop_last()) == 0);
        assert(d.last() == digit_char(n as int));
        assert(digits_value(d) == digits_value(d.drop_last()) * 10 + ((d.last() as int) - 48));
    } else {
        lemma_decimal_canonical(n / 10);
        lemma_digit_char((n % 10) as int);
        let d = decimal(n);
        assert(d.drop_last() =~= decimal(n / 10));
        assert(d[0] == decimal(n / 10)[0]);
        assert forall|i: int| 0 <= i < d.len() implies is_digit(#[trigger] d[i]) by {
            if i < d.len() - 1 {
                assert(d[i] == decimal(n / 10)[i]);
            }
        }
        if d.contains(',') {
            let j = choose|j: int| 0 <= j < d.len() && d[j] == ',';
            if j < d.len() - 1 {
                assert(decimal(n / 10)[j] == ',');
                assert(decimal(n / 10).contains(','));
            }
        }
    }
}

proof fn lemma_digits_value_positive(s: Seq<char>)
    requires
        s.len() > 0,
        forall|i: int| 0 <= i < s.len() ==> is_digit(#[trigger] s[i]),
        s[0] != '0',
    ensures
        digits_value(s) >= 1,
    decreases s.len(),
{
    if s.len() > 1 {
        let t = s.drop_last();
        assert(t[0] == s[0]);
        assert forall|i: int| 0 <= i < t.len() implies is_digit(#[trigger] t[i]) by {
            assert(t[i] == s[i]);
        }
        lemma_digits_value_positive(t);
        assert(is_digit(s[s.len() - 1]));
    } else {
        assert(is_digit(s[0]));
        assert(s.drop_last() =~= Seq::<char>::empty());
        assert(digits_value(s.drop_last()) == 0);
        assert(s.last() == s[0]);
        assert(digits_value(s) == digits_value(s.drop_last()) * 10 + ((s.last() as int) - 48));
    }
}

proof fn lemma_digits_value_nonneg(s: Seq<char>)
    requires
        forall|i: int| 0 <= i < s.len() ==> is_digit(#[trigger] s[i]),
    ensures
        digits_value(s) >= 0,
    decreases s.len(),
{
    if s.len() > 0 {
        let t = s.drop_last();
        assert forall|i: int| 0 <= i < t.len() implies is_digit(#[trigger] t[i]) by {
            assert(t[i] == s[i]);
        }
        lemma_digits_value_nonneg(t);
        assert(is_digit(s[s.len() - 1]));
    }
}

/// A canonical decimal text is the rendering of the number it denotes.
pub proof fn lemma_canonical_decimal_unique(s: Seq<char>)
    requires
        canonical_decimal(s),
    ensures
        digits_value(s) >= 0,
        decimal(digits_value(s) as nat) == s,
    decreases s.len(),
{
    lemma_digits_value_nonneg(s);
    if s.len() == 1 {
        assert(s.drop_last() =~= Seq::<char>::empty());
        assert(is_digit(s[0]));
        let d = (s[0] as int) - 48;
        assert(digits_value(s.drop_last()) == 0);
        assert(s.last() == s[0]);
        assert(digits_value(s) == digits_value(s.drop_last()) * 10 + ((s.last() as int) - 48));
        assert(digits_value(s) == d);
        lemma_digit_char(d);
        assert(decimal(d as nat) =~= seq![digit_char(d)]);
        assert(digit_char(d) == s[0]);
        assert(decimal(d as nat) =~= s);
    } else {
        let t = s.drop_last();
        assert(t[0] == s[0]);
        assert forall|i: int| 0 <= i < t.len() implies is_digit(#[trigger] t[i]) by {
            assert(t[i] == s[i]);
        }
        lemma_canonical_decimal_unique(t);
        lemma_digits_value_positive(t);
        let v = digits_value(t);
        assert(is_digit(s[s.len() - 1]));
        let d = (s.last() as int) - 48;
        let n = digits_value(s);
        assert(n == v * 10 + d);
        assert(n / 10 == v && n % 10 == d) by (nonlinear_arith)
            requires
                n == v * 10 + d,
                0 <= d < 10,
                v >= 1,
        ;
        lemma_digit_char(d);
        assert(digit_char(d) == s.last());
        assert(decimal(n as nat) == decimal((n / 10) as nat) + seq![digit_char(n % 10)]);
        assert(decimal(n as nat) =~= s);
    }
}

proof fn lemma_digits_value_prefix(s: Seq<char>, j: int)
    requires
        0 <= j <= s.len(),
        forall|i: int| 0 <= i < s.len() ==> is_digit(#[trigger] s[i]),
    ensures
        digits_value(s.take(j)) <= digits_value(s),
    decreases s.len() - j,
{
    if j < s.len() {
        lemma_digits_value_prefix(s, j + 1);
        let t = s.take(j + 1);
        assert(t.drop_last() =~= s.take(j));
        assert(is_digit(s[j]));
        assert forall|i: int| 0 <= i < s.take(j).len() implies is_digit(#[trigger] s.take(j)[i]) by {
            assert(s.take(j)[i] == s[i]);
        }
        lemma_digits_value_nonneg(s.take(j));
    } else {
        assert(s.take(j) =~= s);
    }
}

/// Reads a decimal rendering of a `u64`: only the text that `u64_to_string`
/// gives for some number is accepted.
pub fn parse_decimal(s: &str) -> (r: Option<u64>)
    ensures
        match r {
            Some(n) => decimal(n as nat) == s@,
            None => forall|n: u64| decimal(n as nat) != s@,
        },
{
    let len = s.unicode_len();
    if len == 0 {
        proof {
            assert forall|n: u64| decimal(n as nat) != s@ by {
                lemma_decimal_canonical(n as nat);
            }
        }
        return None;
    }
    let first = s.get_char(0);
    if len > 1 && first == '0' {
        proof {
            assert forall|n: u64| decimal(n as nat) != s@ by {
                lemma_decimal_canonical(n as nat);
                if decimal(n as nat) == s@ {
                    lemma_digit_char(0);
                    if n == 0 {
                        assert(decimal(0) =~= seq![digit_char(0)]);
                    }
                }
            }
        }
        return None;
    }
    let mut v: u64 = 0;
    let mut i: usize = 0;
    proof {
        assert(s@.take(0) =~= Seq::<char>::empty());
    }
    while i < len
        invariant
            len == s@.len(),
            len > 0,
            len > 1 ==> s@[0] != '0',
            i <= len,
            forall|j: int| 0 <= j < i ==> is_digit(#[trigger] s@[j]),
            v == digits_value(s@.take(i as int)),
        decreases len - i,
    {
        let c = s.get_char(i);
        if !(c >= '0' && c <= '9') {
            proof {
                assert forall|n: u64| decimal(n as nat) != s@ by {
                    lemma_decimal_canonical(n as nat);
                }
            }
            return None;
        }
        let d: u64 = (c as u32 - 48u32) as u64;
        proof {
            assert(s@.take(i + 1).drop_last() =~= s@.take(i as int));
            assert(s@.take(i + 1).last() == c);
        }
        let m = match v.checked_mul(10) {
            Some(m) => m,
            None => {
                proof {
                    assert forall|n: u64| decimal(n as nat) != s@ by {
                        if decimal(n as nat) == s@ {
                            lemma_decimal_canonical(n as nat);
                            lemma_digits_value_prefix(s@, i + 1);
                        }
                    }
                }
                return None;
            },
        };
        v = match m.checked_add(d) {
            Some(w) => w,
            None => {
                proof {
                    assert forall|n: u64| decimal(n as nat) != s@ by {
                        if decimal(n as nat) == s@ {
                            lemma_decimal_canonical(n as nat);
                            lemma_digits_value_prefix(s@, i + 1);
                        }
                    }
                }
                return None;
            },
        };
        i = i + 1;
    }
    proof {
        assert(s@.take(len as int) =~= s@);
        lemma_canonical_decimal_unique(s@);
    }
    Some(v)
}

} // verus!
