use vstd::prelude::*;
use vstd::string::{StrSliceExecFns, StringExecFns};

verus! {

/// Index of the first occurrence of `c` in `s`, or `s.len()` when there is
/// none.
pub closed spec fn find_char(s: Seq<char>, c: char) -> int
    decreases s.len(),
{
    if s.len() == 0 {
        0
    } else if s[0] == c {
        0
    } else {
        1 + find_char(s.drop_first(), c)
    }
}

pub proof fn lemma_find_char(s: Seq<char>, c: char)
    ensures
        0 <= find_char(s, c) <= s.len(),
        forall|i: int| 0 <= i < find_char(s, c) ==> s[i] != c,
        find_char(s, c) < s.len() ==> s[find_char(s, c)] == c,
    decreases s.len(),
{
    if s.len() == 0 {
    } else if s[0] == c {
    } else {
        lemma_find_char(s.drop_first(), c);
        assert forall|i: int| 0 <= i < find_char(s, c) implies s[i] != c by {
            if i > 0 {
                assert(s.drop_first()[i - 1] != c);
            }
        }
    }
}

pub proof fn lemma_find_char_at(s: Seq<char>, c: char, k: int)
    requires
        0 <= k <= s.len(),
        forall|i: int| 0 <= i < k ==> s[i] != c,
        k < s.len() ==> s[k] == c,
    ensures
        find_char(s, c) == k,
    decreases s.len(),
{
    if s.len() == 0 {
    } else if s[0] == c {
        if k > 0 {
            assert(s[0] != c);
        }
    } else {
        if k == 0 {
            assert(s[0] == c);
        }
        assert forall|i: int| 0 <= i < k - 1 implies s.drop_first()[i] != c by {
            assert(s[i + 1] != c);
        }
        lemma_find_char_at(s.drop_first(), c, k - 1);
    }
}

/// The separator-split of `s`: the (possibly empty) stretches between
/// occurrences of `c`, in order. An `s` without any `c` splits into the one
/// stretch `s` itself.
pub open spec fn split_on(s: Seq<char>, c: char) -> Seq<Seq<char>>
    decreases s.len(),
    via split_on_decreases
{
    let i = find_char(s, c);
    if i == s.len() {
        seq![s]
    } else {
        seq![s.take(i)] + split_on(s.skip(i + 1), c)
    }
}

#[via_fn]
proof fn split_on_decreases(s: Seq<char>, c: char) {
    lemma_find_char(s, c);
}

pub open spec fn is_digit(c: char) -> bool {
    48 <= c as int && c as int <= 57
}

pub open spec fn digit_val(c: char) -> int {
    c as int - 48
}

/// The value of a run of decimal digits, most significant first.
pub open spec fn digits_val(t: Seq<char>) -> int
    decreases t.len(),
{
    if t.len() == 0 {
        0
    } else {
        digits_val(t.drop_last()) * 10 + digit_val(t.last())
    }
}

/// The token with an optional leading '+' sign removed.
pub open spec fn numeric_body(t: Seq<char>) -> Seq<char> {
    if t.len() > 0 && t[0] == '+' {
        t.drop_first()
    } else {
        t
    }
}

/// What an unsigned decimal token parses to: an optional '+', then one or
/// more digits, whose value fits the machine word.
pub open spec fn token_value(t: Seq<char>) -> Option<int> {
    let b = numeric_body(t);
    if b.len() > 0 && (forall|i: int| 0 <= i < b.len() ==> is_digit(b[i])) && digits_val(b)
        <= usize::MAX {
        Some(digits_val(b))
    } else {
        None
    }
}

pub proof fn lemma_digits_val_nonneg(t: Seq<char>)
    requires
        forall|i: int| 0 <= i < t.len() ==> is_digit(t[i]),
    ensures
        digits_val(t) >= 0,
    decreases t.len(),
{
    if t.len() > 0 {
        lemma_digits_val_nonneg(t.drop_last());
    }
}

/// A longer digit run never has a smaller value: extending by a digit
/// multiplies by ten and adds a non-negative amount.
pub proof fn lemma_digits_val_mono(t: Seq<char>, k: int)
    requires
        0 <= k <= t.len(),
        forall|i: int| 0 <= i < t.len() ==> is_digit(t[i]),
    ensures
        digits_val(t) >= digits_val(t.take(k)),
    decreases t.len() - k,
{
    if k < t.len() {
        lemma_digits_val_mono(t, k + 1);
        assert(t.take(k + 1).drop_last() =~= t.take(k));
        assert(t.take(k + 1).last() == t[k]);
        lemma_digits_val_nonneg(t.take(k));
    } else {
        assert(t.take(k) =~= t);
    }
}

/// Parses one unsigned decimal token, as the standard library's integer
/// parser accepts it: an optional leading '+', then one or more digits,
/// rejecting overflow.
pub fn parse_usize_token(t: &str) -> (r: Option<usize>)
    ensures
        r is Some <==> token_value(t@) is Some,
        r is Some ==> r.unwrap() as int == token_value(t@).unwrap(),
{
    let n = t.unicode_len();
    let start: usize = if n > 0 && t.get_char(0) == '+' {
        1
    } else {
        0
    };
    let ghost b = numeric_body(t@);
    proof {
        assert(b =~= t@.subrange(start as int, n as int));
    }
    if n == start {
        return None;
    }
    let mut acc: usize = 0;
    let mut i: usize = start;
    while i < n
        invariant
            start <= i <= n,
            n == t@.len(),
            start == 1 ==> n > 0 && t@[0] == '+',
            start == 0 || start == 1,
            b == t@.subrange(start as int, n as int),
            b == numeric_body(t@),
            n > start,
            forall|k: int| 0 <= k < i - start ==> is_digit(b[k]),
            acc as int == digits_val(b.take(i - start)),
        decreases n - i,
    {
        let c = t.get_char(i);
        let cu = c as u32;
        if cu < 48 || cu > 57 {
            assert(!is_digit(b[i - start]));
            return None;
        }
        let d: usize = (cu - 48) as usize;
        assert(d == digit_val(b[i - start]));
        let next = match acc.checked_mul(10) {
            Some(m) => match m.checked_add(d) {
                Some(s) => Some(s),
                None => None,
            },
            None => None,
        };
        match next {
            Some(v) => {
                proof {
                    assert(b.take(i - start + 1).drop_last() =~= b.take(i - start));
                    assert(b.take(i - start + 1).last() == b[i - start]);
                }
                acc = v;
            },
            None => {
                // The prefix up to and including this digit already exceeds the
                // machine word, and further digits cannot shrink the value.
                proof {
                    assert(b.take(i - start + 1).drop_last() =~= b.take(i - start));
                    assert(b.take(i - start + 1).last() == b[i - start]);
                    if forall|k: int| 0 <= k < b.len() ==> is_digit(b[k]) {
                        lemma_digits_val_mono(b, i - start + 1);
                    }
                }
                return None;
            },
        }
        i = i + 1;
    }
    proof {
        assert(b.take(n - start) =~= b);
    }
    Some(acc)
}

/// The decimal digit character for a value below ten.
pub open spec fn dec_digit(d: int) -> char {
    if d == 0 {
        '0'
    } else if d == 1 {
        '1'
    } else if d == 2 {
        '2'
    } else if d == 3 {
        '3'
    } else if d == 4 {
        '4'
    } else if d == 5 {
        '5'
    } else if d == 6 {
        '6'
    } else if d == 7 {
        '7'
    } else if d == 8 {
        '8'
    } else {
        '9'
    }
}

/// The decimal rendering of a non-negative number, without leading zeros
/// (a single zero for zero itself).
pub open spec fn dec_str(n: int) -> Seq<char>
    decreases n,
{
    if n < 10 {
        seq![dec_digit(n)]
    } else {
        dec_str(n / 10) + seq![dec_digit(n % 10)]
    }
}

/// The characters of a digit stack, least significant digit first, read back
/// into printing order.
pub closed spec fn rev_digits(s: Seq<usize>) -> Seq<char>
    decreases s.len(),
{
    if s.len() == 0 {
        Seq::empty()
    } else {
        seq![dec_digit(s.last() as int)] + rev_digits(s.drop_last())
    }
}

pub proof fn lemma_rev_digits_first(s: Seq<usize>)
    requires
        s.len() > 0,
    ensures
        rev_digits(s) == rev_digits(s.drop_first()) + seq![dec_digit(s[0] as int)],
    decreases s.len(),
{
    if s.len() == 1 {
        assert(s.drop_first() =~= Seq::<usize>::empty());
        assert(s.drop_last() =~= Seq::<usize>::empty());
        assert(rev_digits(s) =~= rev_digits(s.drop_first()) + seq![dec_digit(s[0] as int)]);
    } else {
        lemma_rev_digits_first(s.drop_last());
        let a = seq![dec_digit(s.last() as int)];
        let b = rev_digits(s.drop_first().drop_last());
        let c = seq![dec_digit(s[0] as int)];
        assert(s.drop_last().drop_first() =~= s.drop_first().drop_last());
        assert(s.drop_last()[0] == s[0]);
        assert(rev_digits(s) == a + rev_digits(s.drop_last()));
        assert(rev_digits(s.drop_last()) == b + c);
        assert(s.drop_first().last() == s.last());
        assert(rev_digits(s.drop_first()) == a + b);
        assert((a + b) + c =~= a + (b + c));
        assert(rev_digits(s) =~= rev_digits(s.drop_first()) + c);
    }
}

fn append_digit(r: &mut String, d: usize)
    requires
        d < 10,
    ensures
        final(r)@ == old(r)@ + seq![dec_digit(d as int)],
{
    let ds: &str = match d {
        0 => "0",
        1 => "1",
        2 => "2",
        3 => "3",
        4 => "4",
        5 => "5",
        6 => "6",
        7 => "7",
        8 => "8",
        _ => "9",
    };
    proof {
        reveal_strlit("0");
        reveal_strlit("1");
        reveal_strlit("2");
        reveal_strlit("3");
        reveal_strlit("4");
        reveal_strlit("5");
        reveal_strlit("6");
        reveal_strlit("7");
        reveal_strlit("8");
        reveal_strlit("9");
        assert(ds@ =~= seq![dec_digit(d as int)]);
    }
    r.append(ds);
}

/// Renders a number in decimal, as the running catalog index is printed.
pub fn usize_to_string(n: usize) -> (r: String)
    ensures
        r@ == dec_str(n as int),
{
    let mut m: usize = n;
    let mut rev: Vec<usize> = Vec::new();
    proof {
        assert(dec_str(n as int) =~= dec_str(n as int) + rev_digits(rev@));
    }
    loop
        invariant_except_break
            dec_str(n as int) == dec_str(m as int) + rev_digits(rev@),
        invariant
            forall|k: int| 0 <= k < rev@.len() ==> (#[trigger] rev@[k]) < 10,
        ensures
            forall|k: int| 0 <= k < rev@.len() ==> (#[trigger] rev@[k]) < 10,
            dec_str(n as int) == rev_digits(rev@),
        decreases m,
    {
        let ghost rev_old = rev@;
        let ghost m_old = m as int;
        let d = m % 10;
        rev.push(d);
        proof {
            assert(rev@.drop_last() =~= rev_old);
            assert(rev_digits(rev@) == seq![dec_digit(d as int)] + rev_digits(rev_old));
        }
        m = m / 10;
        if m == 0 {
            proof {
                assert(m_old < 10 && d == m_old);
                assert(dec_str(m_old) == seq![dec_digit(d as int)]);
                assert(dec_str(n as int) == seq![dec_digit(d as int)] + rev_digits(rev_old));
                assert(dec_str(n as int) == rev_digits(rev@));
            }
            break;
        }
        proof {
            assert(m_old >= 10);
            assert(dec_str(m_old) == dec_str(m as int) + seq![dec_digit(d as int)]);
            assert((dec_str(m as int) + seq![dec_digit(d as int)]) + rev_digits(rev_old) =~= dec_str(
                m as int,
            ) + (seq![dec_digit(d as int)] + rev_digits(rev_old)));
            assert(dec_str(n as int) == dec_str(m as int) + rev_digits(rev@));
        }
    }
    let mut r = String::new();
    let mut i = rev.len();
    proof {
        assert(rev@.skip(i as int) =~= Seq::<usize>::empty());
        assert(r@ =~= rev_digits(rev@.skip(i as int)));
    }
    while i > 0
        invariant
            0 <= i <= rev@.len(),
            forall|k: int| 0 <= k < rev@.len() ==> (#[trigger] rev@[k]) < 10,
            dec_str(n as int) == rev_digits(rev@),
            r@ == rev_digits(rev@.skip(i as int)),
        decreases i,
    {
        i = i - 1;
        let d = rev[i];
        proof {
            lemma_rev_digits_first(rev@.skip(i as int));
            assert(rev@.skip(i as int).drop_first() =~= rev@.skip(i as int + 1));
            assert(rev@.skip(i as int)[0] == rev@[i as int]);
        }
        append_digit(&mut r, d);
    }
    proof {
        assert(rev@.skip(0) =~= rev@);
    }
    r
}

} // verus!
