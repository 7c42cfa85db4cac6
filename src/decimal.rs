use vstd::prelude::*;

verus! {

pub open spec fn is_digit(c: char) -> bool {
    '0' <= c && c <= '9'
}

pub open spec fn digit_value(c: char) -> nat {
    (c as u32 - '0' as u32) as nat
}

pub open spec fn digit_char(d: nat) -> char {
    if d == 0 {
        '0'
    } else if d == 1 {
        '1'
    } else if d == 2 {
        '2'
    } else if d == 3 {
        '3'
    } else if d == 4 {
        '4'
    } else if d == 5 {
        '5'
    } else if d == 6 {
        '6'
    } else if d == 7 {
        '7'
    } else if d == 8 {
        '8'
    } else {
        '9'
    }
}

/// Shortest decimal text of `n`: no sign, no leading zero.
pub open spec fn decimal(n: nat) -> Seq<char>
    decreases n,
{
    if n < 10 {
        seq![digit_char(n)]
    } else {
        decimal(n / 10).push(digit_char(n % 10))
    }
}

/// The number that a text of digits spells.
pub open spec fn digits_value(s: Seq<char>) -> nat
    decreases s.len(),
{
    if s.len() == 0 {
        0
    } else {
        digits_value(s.drop_last()) * 10 + digit_value(s.last())
    }
}

pub open spec fn all_digits(s: Seq<char>) -> bool {
    forall|i: int| 0 <= i < s.len() ==> is_digit(#[trigger] s[i])
}

/// A digit text as `decimal` writes it: not empty, no leading zero.
pub open spec fn canonical_digits(s: Seq<char>) -> bool {
    s.len() >= 1 && all_digits(s) && (s[0] != '0' || s.len() == 1)
}

proof fn lemma_digit_round_trip(d: nat)
    requires
        d < 10,
    ensures
        is_digit(digit_char(d)),
        digit_value(digit_char(d)) == d,
        d > 0 ==> digit_char(d) != '0',
{
}

proof fn lemma_char_round_trip(c: char)
    requires
        is_digit(c),
    ensures
        digit_value(c) < 10,
        digit_char(digit_value(c)) == c,
{
}

/// `decimal` writes canonical digit texts.
pub proof fn lemma_decimal_canonical(n: nat)
    ensures
        canonical_digits(decimal(n)),
        n > 0 ==> decimal(n)[0] != '0',
    decreases n,
{
    if n < 10 {
        lemma_digit_round_trip(n);
    } else {
        lemma_decimal_canonical(n / 10);
        lemma_digit_round_trip(n % 10);
        let s = decimal(n / 10);
        assert(decimal(n) == s.push(digit_char(n % 10)));
        assert(decimal(n)[0] == s[0]);
    }
}

/// Reading back what `decimal` wrote gives the number.
pub proof fn lemma_value_of_decimal(n: nat)
    ensures
        digits_value(decimal(n)) == n,
    decreases n,
{
    if n < 10 {
        lemma_digit_round_trip(n);
        let s = decimal(n);
        assert(s.drop_last() =~= Seq::<char>::empty());
        assert(digits_value(s.drop_last()) == 0);
        assert(s.last() == digit_char(n));
    } else {
        lemma_value_of_decimal(n / 10);
        lemma_digit_round_trip(n % 10);
        let s = decimal(n);
        assert(s.drop_last() =~= decimal(n / 10));
        assert(s.last() == digit_char(n % 10));
        assert((n / 10) * 10 + n % 10 == n);
    }
}

proof fn lemma_leading_nonzero_positive(s: Seq<char>)
    requires
        s.len() >= 1,
        all_digits(s),
        s[0] != '0',
    ensures
        digits_value(s) >= 1,
    decreases s.len(),
{
    if s.len() == 1 {
        assert(s.drop_last() =~= Seq::<char>::empty());
        lemma_char_round_trip(s[0]);
    } else {
        let p = s.drop_last();
        assert(p[0] == s[0]);
        lemma_leading_nonzero_positive(p);
    }
}

/// A canonical digit text is the decimal text of its value.
pub proof fn lemma_decimal_of_value(s: Seq<char>)
    requires
        canonical_digits(s),
    ensures
        decimal(digits_value(s)) == s,
    decreases s.len(),
{
    if s.len() == 1 {
        assert(s.drop_last() =~= Seq::<char>::empty());
        assert(digits_value(s.drop_last()) == 0);
        lemma_char_round_trip(s[0]);
        assert(digits_value(s) == digit_value(s[0]));
        assert(decimal(digits_value(s)) =~= s);
    } else {
        let p = s.drop_last();
        assert(p[0] == s[0]);
        assert(s[0] != '0');
        lemma_leading_nonzero_positive(p);
        lemma_decimal_of_value(p);
        lemma_char_round_trip(s.last());
        let a = digits_value(p);
        let d = digit_value(s.last());
        let v = digits_value(s);
        assert(v == a * 10 + d);
        assert(v / 10 == a && v % 10 == d && v >= 10) by (nonlinear_arith)
            requires
                v == a * 10 + d,
                d < 10,
                a >= 1,
        ;
        assert(decimal(v) == decimal(a).push(digit_char(d)));
        assert(decimal(v) =~= s);
    }
}

/// A longer prefix of a digit text never spells a smaller number.
pub proof fn lemma_prefix_value_monotone(s: Seq<char>, k: int, j: int)
    requires
        0 <= k <= j <= s.len(),
    ensures
        digits_value(s.take(k)) <= digits_value(s.take(j)),
    decreases j - k,
{
    if k < j {
        lemma_prefix_value_monotone(s, k, j - 1);
        assert(s.take(j).drop_last() =~= s.take(j - 1));
    }
}

fn digit_text(d: u64) -> (r: &'static str)
    requires
        d < 10,
    ensures
        r@ == seq![digit_char(d as nat)],
{
    if d == 0 {
        proof { reveal_strlit("0"); }
        "0"
    } else if d == 1 {
        proof { reveal_strlit("1"); }
        "1"
    } else if d == 2 {
        proof { reveal_strlit("2"); }
        "2"
    } else if d == 3 {
        proof { reveal_strlit("3"); }
        "3"
    } else if d == 4 {
        proof { reveal_strlit("4"); }
        "4"
    } else if d == 5 {
        proof { reveal_strlit("5"); }
        "5"
    } else if d == 6 {
        proof { reveal_strlit("6"); }
        "6"
    } else if d == 7 {
        proof { reveal_strlit("7"); }
        "7"
    } else if d == 8 {
        proof { reveal_strlit("8"); }
        "8"
    } else {
        proof { reveal_strlit("9"); }
        "9"
    }
}

/// Appends the decimal text of `n`.
pub fn append_decimal(out: &mut String, n: u64)
    ensures
        final(out)@ == old(out)@ + decimal(n as nat),
    decreases n,
{
    if n >= 10 {
        append_decimal(out, n / 10);
    }
    out.append(digit_text(n % 10));
    proof {
        if n >= 10 {
            assert(decimal(n as nat) == decimal((n / 10) as nat).push(digit_char((n % 10) as nat)));
        }
    }
    assert(final(out)@ =~= old(out)@ + decimal(n as nat));
}

/// At `pos` stands the decimal text of `v`, and no digit follows it.
pub open spec fn number_at(t: Seq<char>, pos: int, v: nat) -> bool {
    let m = pos + decimal(v).len();
    m <= t.len() && t.subrange(pos, m) == decimal(v) && (m == t.len() || !is_digit(t[m]))
}

/// Only one number stands at a position.
pub proof fn lemma_number_at_unique(t: Seq<char>, pos: int, x: nat, y: nat)
    requires
        0 <= pos,
        number_at(t, pos, x),
        number_at(t, pos, y),
    ensures
        x == y,
{
    let dx = decimal(x);
    let dy = decimal(y);
    lemma_decimal_canonical(x);
    lemma_decimal_canonical(y);
    if dx.len() < dy.len() {
        assert(t[pos + dx.len()] == dy[dx.len() as int]);
    } else if dy.len() < dx.len() {
        assert(t[pos + dy.len()] == dx[dy.len() as int]);
    }
    assert(dx == dy);
    lemma_value_of_decimal(x);
    lemma_value_of_decimal(y);
}

/// Reads the run of digits that starts at `pos` as a `u64`: `None` when the
/// run is empty, has a leading zero, or does not fit.
pub fn read_number(t: &str, n: usize, pos: usize) -> (r: Option<(u64, usize)>)
    requires
        n == t@.len(),
        pos <= n,
    ensures
        r matches Some((v, e)) ==> pos < e <= n && t@.subrange(pos as int, e as int) == decimal(
            v as nat,
        ) && (e == n || !is_digit(t@[e as int])),
        forall|v: u64|
            number_at(t@, pos as int, v as nat) ==> r == Some(
                (v, (pos + decimal(v as nat).len()) as usize),
            ),
{
    let mut e: usize = pos;
    while e < n && is_digit_char(t.get_char(e))
        invariant
            n == t@.len(),
            pos <= e <= n,
            forall|i: int| pos <= i < e ==> is_digit(#[trigger] t@[i]),
        decreases n - e,
    {
        e = e + 1;
    }
    let ghost s = t@.subrange(pos as int, e as int);
    assert(all_digits(s));
    proof {
        assert forall|v: u64| number_at(t@, pos as int, v as nat) implies s == decimal(
            v as nat,
        ) by {
            let d = decimal(v as nat);
            lemma_decimal_canonical(v as nat);
            let m = pos + d.len();
            assert forall|i: int| pos <= i < m implies is_digit(#[trigger] t@[i]) by {
                assert(t@[i] == d[i - pos]);
            }
            if e < m {
                assert(!is_digit(t@[e as int]));
            }
            if e > m {
                assert(is_digit(t@[m]));
            }
            assert(e == m);
        }
    }
    if e == pos {
        proof {
            assert forall|v: u64| #![trigger decimal(v as nat)] s == decimal(v as nat) implies false by {
                lemma_decimal_canonical(v as nat);
            }
        }
        return None;
    }
    if e - pos > 1 && t.get_char(pos) == '0' {
        proof {
            assert(s[0] == '0');
            assert forall|v: u64| #![trigger decimal(v as nat)] s == decimal(v as nat) implies false by {
                lemma_decimal_canonical(v as nat);
            }
        }
        return None;
    }
    let mut val: u64 = 0;
    let mut k: usize = pos;
    while k < e
        invariant
            n == t@.len(),
            pos <= k <= e <= n,
            s == t@.subrange(pos as int, e as int),
            all_digits(s),
            val == digits_value(s.take(k - pos)),
            forall|v: u64| #![trigger decimal(v as nat)] s == decimal(v as nat) ==> val <= v,
            forall|v: u64| number_at(t@, pos as int, v as nat) ==> s == decimal(v as nat),
        decreases e - k,
    {
        let c = t.get_char(k);
        assert(c == s[k - pos]);
        let d = (c as u32 - '0' as u32) as u64;
        if val > (u64::MAX - d) / 10 {
            proof {
                assert forall|v: u64| #![trigger decimal(v as nat)] s == decimal(v as nat) implies false by {
                    lemma_value_of_decimal(v as nat);
                    lemma_prefix_value_monotone(s, k + 1 - pos, s.len() as int);
                    assert(s.take(s.len() as int) =~= s);
                    assert(s.take(k + 1 - pos).drop_last() =~= s.take(k - pos));
                    assert(val * 10 + d > u64::MAX) by (nonlinear_arith)
                        requires
                            val > (u64::MAX - d) / 10,
                            d <= 9,
                    ;
                }
            }
            return None;
        }
        assert(val * 10 + d <= u64::MAX) by (nonlinear_arith)
            requires
                val <= (u64::MAX - d) / 10,
                d <= 9,
        ;
        proof {
            assert(s.take(k + 1 - pos).drop_last() =~= s.take(k - pos));
            assert(s.take(k + 1 - pos).last() == c);
            assert forall|v: u64| #![trigger decimal(v as nat)] s == decimal(v as nat) implies val * 10
                + d <= v by {
                lemma_value_of_decimal(v as nat);
                lemma_prefix_value_monotone(s, k + 1 - pos, s.len() as int);
                assert(s.take(s.len() as int) =~= s);
            }
        }
        val = val * 10 + d;
        k = k + 1;
    }
    proof {
        assert(s.take(e - pos) =~= s);
        lemma_decimal_of_value(s);
        assert forall|v: u64| #![trigger decimal(v as nat)] s == decimal(v as nat) implies val == v by {
            lemma_value_of_decimal(v as nat);
        }
    }
    Some((val, e))
}

pub fn is_digit_char(c: char) -> (r: bool)
    ensures
        r == is_digit(c),
{
    '0' <= c && c <= '9'
}

} // verus!
