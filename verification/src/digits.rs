//! Canonical decimal text for the numeric ids the tracker and the chat
//! platform hand out. The store keys and the stored values both carry ids in
//! this form, so rendering has an exact specification (`dec_seq`) and the
//! value of a digit string (`dec_val`) inverts it.

use vstd::prelude::*;

verus! {

/// The character for one decimal digit.
pub open spec fn digit_char(d: nat) -> char
    recommends
        d < 10,
{
    if d == 0 {
        '0'
    } else if d == 1 {
        '1'
    } else if d == 2 {
        '2'
    } else if d == 3 {
        '3'
    } else if d == 4 {
        '4'
    } else if d == 5 {
        '5'
    } else if d == 6 {
        '6'
    } else if d == 7 {
        '7'
    } else if d == 8 {
        '8'
    } else {
        '9'
    }
}

/// Whether `c` is a decimal digit.
pub open spec fn is_digit(c: char) -> bool {
    c == '0' || c == '1' || c == '2' || c == '3' || c == '4' || c == '5' || c == '6' || c == '7'
        || c == '8' || c == '9'
}

/// The numeric value of one digit character.
pub open spec fn digit_val(c: char) -> nat
    recommends
        is_digit(c),
{
    if c == '0' {
        0
    } else if c == '1' {
        1
    } else if c == '2' {
        2
    } else if c == '3' {
        3
    } else if c == '4' {
        4
    } else if c == '5' {
        5
    } else if c == '6' {
        6
    } else if c == '7' {
        7
    } else if c == '8' {
        8
    } else {
        9
    }
}

/// The canonical decimal rendering of `n`: most significant digit first,
/// no sign, no leading zeros, and `0` itself rendered as `"0"`.
pub open spec fn dec_seq(n: nat) -> Seq<char>
    decreases n,
{
    if n < 10 {
        seq![digit_char(n)]
    } else {
        dec_seq(n / 10).push(digit_char(n % 10))
    }
}

/// The numeric value of a digit string, most significant digit first.
pub open spec fn dec_val(s: Seq<char>) -> nat
    decreases s.len(),
{
    if s.len() == 0 {
        0
    } else {
        dec_val(s.drop_last()) * 10 + digit_val(s.last())
    }
}

fn digit_str(d: u64) -> (s: &'static str)
    requires
        d < 10,
    ensures
        s@ == seq![digit_char(d as nat)],
{
    let s: &'static str = if d == 0 {
        "0"
    } else if d == 1 {
        "1"
    } else if d == 2 {
        "2"
    } else if d == 3 {
        "3"
    } else if d == 4 {
        "4"
    } else if d == 5 {
        "5"
    } else if d == 6 {
        "6"
    } else if d == 7 {
        "7"
    } else if d == 8 {
        "8"
    } else {
        "9"
    };
    proof {
        reveal_strlit("0");
        reveal_strlit("1");
        reveal_strlit("2");
        reveal_strlit("3");
        reveal_strlit("4");
        reveal_strlit("5");
        reveal_strlit("6");
        reveal_strlit("7");
        reveal_strlit("8");
        reveal_strlit("9");
        assert(s@ =~= seq![digit_char(d as nat)]);
    }
    s
}

/// Renders `n` in its canonical decimal form.
pub fn u64_to_dec(n: u64) -> (s: String)
    ensures
        s@ == dec_seq(n as nat),
    decreases n,
{
    if n < 10 {
        String::from_str(digit_str(n))
    } else {
        let s = u64_to_dec(n / 10);
        let out = s.concat(digit_str(n % 10));
        proof {
            assert(out@ =~= dec_seq(n as nat));
        }
        out
    }
}

/// `dec_val` inverts `dec_seq`: reading the rendering of `n` back gives `n`.
pub proof fn lemma_dec_val_of_dec_seq(n: nat)
    ensures
        dec_val(dec_seq(n)) == n,
    decreases n,
{
    if n < 10 {
        let s = seq![digit_char(n)];
        assert(s.drop_last() =~= Seq::<char>::empty());
        assert(dec_val(s) == dec_val(Seq::<char>::empty()) * 10 + digit_val(digit_char(n)));
        assert(digit_val(digit_char(n)) == n);
    } else {
        lemma_dec_val_of_dec_seq(n / 10);
        let s = dec_seq(n);
        assert(s.drop_last() =~= dec_seq(n / 10));
        assert(digit_val(digit_char(n % 10)) == n % 10);
        assert(dec_val(s) == (n / 10) * 10 + n % 10);
    }
}

/// Two distinct numbers never render to the same digit string.
pub proof fn lemma_dec_seq_injective(a: nat, b: nat)
    requires
        dec_seq(a) == dec_seq(b),
    ensures
        a == b,
{
    lemma_dec_val_of_dec_seq(a);
    lemma_dec_val_of_dec_seq(b);
}

/// A rendering longer than one character never starts with `'0'`.
proof fn lemma_dec_seq_leading(n: nat)
    ensures
        dec_seq(n).len() > 1 ==> dec_seq(n)[0] != '0',
    decreases n,
{
    if n < 10 {
    } else {
        lemma_dec_seq_leading(n / 10);
        lemma_dec_seq_digits(n / 10);
        assert(dec_seq(n)[0] == dec_seq(n / 10)[0]);
        if dec_seq(n / 10).len() == 1 {
            if n / 10 >= 10 {
                lemma_dec_seq_digits(n / 100);
                assert(dec_seq(n / 10).len() >= 2);
            }
            assert(dec_seq(n / 10) == seq![digit_char(n / 10)]);
            assert(n / 10 >= 1);
        }
    }
}

/// The value of a proper prefix never exceeds the value of the whole
/// string: appending characters only grows `dec_val`.
proof fn lemma_prefix_val_le(s: Seq<char>, i: int)
    requires
        0 <= i <= s.len(),
    ensures
        dec_val(s.subrange(0, i)) <= dec_val(s),
    decreases s.len() - i,
{
    if i == s.len() {
        assert(s.subrange(0, i) =~= s);
    } else {
        lemma_prefix_val_le(s, i + 1);
        assert(s.subrange(0, i + 1).drop_last() =~= s.subrange(0, i));
        assert(dec_val(s.subrange(0, i + 1)) == dec_val(s.subrange(0, i)) * 10 + digit_val(
            s.subrange(0, i + 1).last(),
        ));
    }
}

/// A non-empty digit string without a leading zero has value at least one.
proof fn lemma_dec_val_pos(s: Seq<char>)
    requires
        s.len() >= 1,
        forall|i: int| 0 <= i < s.len() ==> is_digit(#[trigger] s[i]),
        s[0] != '0',
    ensures
        dec_val(s) >= 1,
    decreases s.len(),
{
    if s.len() == 1 {
        assert(s.drop_last() =~= Seq::<char>::empty());
        assert(dec_val(Seq::<char>::empty()) == 0);
        assert(dec_val(s) == digit_val(s[0]));
    } else {
        let t = s.drop_last();
        assert(forall|i: int| 0 <= i < t.len() ==> is_digit(#[trigger] t[i]));
        lemma_dec_val_pos(t);
    }
}

/// A non-empty digit string without a leading zero is the canonical
/// rendering of its own value.
proof fn lemma_canonical(s: Seq<char>)
    requires
        s.len() >= 1,
        forall|i: int| 0 <= i < s.len() ==> is_digit(#[trigger] s[i]),
        s.len() > 1 ==> s[0] != '0',
    ensures
        s == dec_seq(dec_val(s)),
    decreases s.len(),
{
    let v = dec_val(s);
    if s.len() == 1 {
        assert(s.drop_last() =~= Seq::<char>::empty());
        assert(dec_val(Seq::<char>::empty()) == 0);
        assert(v == digit_val(s[0]));
        assert(digit_char(digit_val(s[0])) == s[0]);
        assert(s =~= seq![digit_char(v)]);
    } else {
        let t = s.drop_last();
        let d = digit_val(s.last());
        assert(forall|i: int| 0 <= i < t.len() ==> is_digit(#[trigger] t[i]));
        lemma_canonical(t);
        lemma_dec_val_pos(t);
        assert(v == dec_val(t) * 10 + d);
        vstd::arithmetic::div_mod::lemma_fundamental_div_mod_converse(
            v as int,
            10,
            dec_val(t) as int,
            d as int,
        );
        assert(v / 10 == dec_val(t) && v % 10 == d);
        assert(dec_seq(v) == dec_seq(dec_val(t)).push(digit_char(d)));
        assert(digit_char(digit_val(s.last())) == s.last());
        assert(s =~= dec_seq(v));
    }
}

fn digit_of(c: char) -> (r: Option<u64>)
    ensures
        match r {
            Some(d) => is_digit(c) && d == digit_val(c) && d < 10,
            None => !is_digit(c),
        },
{
    if c == '0' {
        Some(0)
    } else if c == '1' {
        Some(1)
    } else if c == '2' {
        Some(2)
    } else if c == '3' {
        Some(3)
    } else if c == '4' {
        Some(4)
    } else if c == '5' {
        Some(5)
    } else if c == '6' {
        Some(6)
    } else if c == '7' {
        Some(7)
    } else if c == '8' {
        Some(8)
    } else if c == '9' {
        Some(9)
    } else {
        None
    }
}

/// Reads a decimal id back: `Some(n)` exactly when `s` is the canonical
/// rendering of `n` — no empty string, no sign, no leading zero, no
/// overflow past `u64::MAX`.
pub fn parse_dec(s: &str) -> (r: Option<u64>)
    ensures
        match r {
            Some(n) => s@ == dec_seq(n as nat),
            None => forall|n: u64| s@ != dec_seq(n as nat),
        },
{
    let len = s.unicode_len();
    if len == 0 {
        proof {
            assert forall|n: u64| s@ != dec_seq(n as nat) by {
                lemma_dec_seq_digits(n as nat);
            }
        }
        return None;
    }
    if len > 1 && s.get_char(0) == '0' {
        proof {
            assert forall|n: u64| s@ != dec_seq(n as nat) by {
                lemma_dec_seq_leading(n as nat);
            }
        }
        return None;
    }
    let mut val: u64 = 0;
    let mut i: usize = 0;
    while i < len
        invariant
            0 <= i <= len,
            len == s@.len(),
            val == dec_val(s@.subrange(0, i as int)),
            forall|j: int| 0 <= j < i ==> is_digit(#[trigger] s@[j]),
        decreases len - i,
    {
        let c = s.get_char(i);
        proof {
            assert(s@.subrange(0, i + 1).drop_last() =~= s@.subrange(0, i as int));
            assert(s@.subrange(0, i + 1).last() == c);
        }
        match digit_of(c) {
            None => {
                proof {
                    assert forall|n: u64| s@ != dec_seq(n as nat) by {
                        lemma_dec_seq_digits(n as nat);
                    }
                }
                return None;
            },
            Some(d) => {
                if val > (u64::MAX - d) / 10 {
                    proof {
                        assert(val * 10 + d > u64::MAX);
                        assert forall|n: u64| s@ != dec_seq(n as nat) by {
                            if s@ == dec_seq(n as nat) {
                                lemma_dec_val_of_dec_seq(n as nat);
                                lemma_prefix_val_le(s@, i + 1);
                                assert(dec_val(s@.subrange(0, i + 1)) == val * 10 + d);
                            }
                        }
                    }
                    return None;
                }
                val = val * 10 + d;
            },
        }
        i += 1;
    }
    proof {
        assert(s@.subrange(0, len as int) =~= s@);
        lemma_canonical(s@);
    }
    Some(val)
}

/// A rendering is never empty and holds digit characters alone.
proof fn lemma_dec_seq_digits(n: nat)
    ensures
        dec_seq(n).len() >= 1,
        forall|i: int| 0 <= i < dec_seq(n).len() ==> is_digit(#[trigger] dec_seq(n)[i]),
    decreases n,
{
    if n < 10 {
    } else {
        lemma_dec_seq_digits(n / 10);
        assert forall|i: int| 0 <= i < dec_seq(n).len() implies is_digit(#[trigger] dec_seq(n)[i]) by {
            if i < dec_seq(n / 10).len() {
                assert(dec_seq(n)[i] == dec_seq(n / 10)[i]);
            }
        }
    }
}

} // verus!
