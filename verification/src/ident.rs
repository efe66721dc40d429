//! The textual shape of generated identifiers: decimal seconds, the
//! destination's name and the decimal counter, joined by underscores.
//!
//! Neither number is padded, so the width of an identifier varies, and
//! identifiers sort by their text as they sort by time only while the seconds
//! have the same number of digits. The seconds have a resolution of one
//! second: within a second, and for one destination, two identifiers are
//! told apart by the counter alone. What keeps the parts apart is the pair of
//! underscores: a numeral holds none, so the first underscore ends the
//! seconds and the last one begins the counter, whatever the name between
//! them holds.

use vstd::prelude::*;

verus! {

/// The character that stands for the digit `d`.
pub open spec fn digit_char(d: nat) -> char
    recommends
        d < 10,
{
    if d == 0 {
        '0'
    } else if d == 1 {
        '1'
    } else if d == 2 {
        '2'
    } else if d == 3 {
        '3'
    } else if d == 4 {
        '4'
    } else if d == 5 {
        '5'
    } else if d == 6 {
        '6'
    } else if d == 7 {
        '7'
    } else if d == 8 {
        '8'
    } else {
        '9'
    }
}

/// The decimal numeral of `n`: no sign, no padding, no leading zero but for
/// zero itself.
pub open spec fn decimal_text(n: nat) -> Seq<char>
    decreases n,
{
    if n < 10 {
        seq![digit_char(n)]
    } else {
        decimal_text(n / 10).push(digit_char(n % 10))
    }
}

/// The identifier made at `secs` seconds for `dest` by a node whose counter
/// stands at `counter`.
pub open spec fn unique_id_text(secs: nat, dest: Seq<char>, counter: nat) -> Seq<char> {
    decimal_text(secs) + seq!['_'] + dest + seq!['_'] + decimal_text(counter)
}

fn digit_str(d: u64) -> (s: &'static str)
    requires
        d < 10,
    ensures
        s@ == seq![digit_char(d as nat)],
{
    proof {
        reveal_strlit("0");
        reveal_strlit("1");
        reveal_strlit("2");
        reveal_strlit("3");
        reveal_strlit("4");
        reveal_strlit("5");
        reveal_strlit("6");
        reveal_strlit("7");
        reveal_strlit("8");
        reveal_strlit("9");
    }
    let s = if d == 0 {
        "0"
    } else if d == 1 {
        "1"
    } else if d == 2 {
        "2"
    } else if d == 3 {
        "3"
    } else if d == 4 {
        "4"
    } else if d == 5 {
        "5"
    } else if d == 6 {
        "6"
    } else if d == 7 {
        "7"
    } else if d == 8 {
        "8"
    } else {
        "9"
    };
    assert(s@ =~= seq![digit_char(d as nat)]);
    s
}

/// Writes `n` in decimal.
pub fn decimal(n: u64) -> (s: String)
    ensures
        s@ == decimal_text(n as nat),
    decreases n,
{
    if n < 10 {
        String::from_str(digit_str(n))
    } else {
        let mut s = decimal(n / 10);
        s.append(digit_str(n % 10));
        assert(s@ =~= decimal_text(n as nat));
        s
    }
}

/// Joins the three parts of an identifier.
pub fn format_unique_id(secs: u64, dest: &str, counter: u64) -> (id: String)
    ensures
        id@ == unique_id_text(secs as nat, dest@, counter as nat),
{
    proof {
        reveal_strlit("_");
    }
    let mut id = decimal(secs);
    id.append("_");
    id.append(dest);
    id.append("_");
    let tail = decimal(counter);
    id.append(tail.as_str());
    assert(id@ =~= unique_id_text(secs as nat, dest@, counter as nat));
    id
}

/// A numeral has at least one character, and exactly one only below ten.
pub proof fn lemma_decimal_len(n: nat)
    ensures
        decimal_text(n).len() >= 1,
        decimal_text(n).len() == 1 <==> n < 10,
    decreases n,
{
    if n >= 10 {
        lemma_decimal_len(n / 10);
    }
}

/// Different numbers have different numerals.
pub proof fn lemma_decimal_injective(a: nat, b: nat)
    requires
        decimal_text(a) == decimal_text(b),
    ensures
        a == b,
    decreases a,
{
    lemma_decimal_len(a);
    lemma_decimal_len(b);
    if a < 10 {
        assert(decimal_text(a)[0] == digit_char(a));
        assert(decimal_text(b)[0] == digit_char(b));
    } else {
        let x = decimal_text(a / 10);
        let y = decimal_text(b / 10);
        assert(x.push(digit_char(a % 10)) == y.push(digit_char(b % 10)));
        assert(x =~= x.push(digit_char(a % 10)).drop_last());
        assert(y =~= y.push(digit_char(b % 10)).drop_last());
        assert(x.push(digit_char(a % 10)).last() == digit_char(a % 10));
        assert(y.push(digit_char(b % 10)).last() == digit_char(b % 10));
        lemma_decimal_injective(a / 10, b / 10);
    }
}

/// Within one second and for one destination, two identifiers are equal
/// exactly when the counters they were made from are equal.
pub proof fn lemma_same_second_same_dest(secs: nat, dest: Seq<char>, c1: nat, c2: nat)
    ensures
        unique_id_text(secs, dest, c1) == unique_id_text(secs, dest, c2) <==> c1 == c2,
{
    let head = decimal_text(secs) + seq!['_'] + dest + seq!['_'];
    let a = unique_id_text(secs, dest, c1);
    let b = unique_id_text(secs, dest, c2);
    if a == b {
        assert(a.subrange(head.len() as int, a.len() as int) =~= decimal_text(c1));
        assert(b.subrange(head.len() as int, b.len() as int) =~= decimal_text(c2));
        lemma_decimal_injective(c1, c2);
    }
}

/// A numeral holds no underscore.
pub proof fn lemma_decimal_no_underscore(n: nat)
    ensures
        forall|i: int| 0 <= i < decimal_text(n).len() ==> #[trigger] decimal_text(n)[i] != '_',
    decreases n,
{
    if n >= 10 {
        lemma_decimal_no_underscore(n / 10);
    }
    let text = decimal_text(n);
    assert forall|i: int| 0 <= i < text.len() implies #[trigger] text[i] != '_' by {
        if n >= 10 {
            let head = decimal_text(n / 10);
            if i < head.len() {
                assert(text[i] == head[i]);
            } else {
                assert(text[i] == digit_char(n % 10));
            }
        } else {
            assert(text[i] == digit_char(n));
        }
    }
}

/// An identifier determines the second, the destination and the counter that
/// it was made from: identifiers made from different parts differ.
pub proof fn lemma_unique_id_determines_parts(
    s1: nat,
    d1: Seq<char>,
    c1: nat,
    s2: nat,
    d2: Seq<char>,
    c2: nat,
)
    requires
        unique_id_text(s1, d1, c1) == unique_id_text(s2, d2, c2),
    ensures
        s1 == s2,
        d1 == d2,
        c1 == c2,
{
    let a = unique_id_text(s1, d1, c1);
    let b = unique_id_text(s2, d2, c2);
    let head1 = decimal_text(s1);
    let head2 = decimal_text(s2);
    let tail1 = decimal_text(c1);
    let tail2 = decimal_text(c2);
    lemma_decimal_no_underscore(s1);
    lemma_decimal_no_underscore(s2);
    lemma_decimal_no_underscore(c1);
    lemma_decimal_no_underscore(c2);
    let n: int = a.len() as int;
    let k1: int = head1.len() as int;
    let k2: int = head2.len() as int;
    let m1: int = tail1.len() as int;
    let m2: int = tail2.len() as int;
    assert(n == k1 + 1 + d1.len() + 1 + m1);
    assert(n == k2 + 1 + d2.len() + 1 + m2);
    assert(a[k1] == '_');
    assert(b[k2] == '_');
    assert(a[n - m1 - 1] == '_');
    assert(b[n - m2 - 1] == '_');
    if k1 < k2 {
        assert(b[k1] == head2[k1]);
    }
    if k2 < k1 {
        assert(a[k2] == head1[k2]);
    }
    assert(k1 == k2);
    assert(head1 =~= head2) by {
        assert forall|i: int| 0 <= i < k1 implies head1[i] == head2[i] by {
            assert(a[i] == head1[i]);
            assert(b[i] == head2[i]);
        }
    }
    lemma_decimal_injective(s1, s2);
    if m1 < m2 {
        assert(b[n - m1 - 1] == tail2[m2 - m1 - 1]);
    }
    if m2 < m1 {
        assert(a[n - m2 - 1] == tail1[m1 - m2 - 1]);
    }
    assert(m1 == m2);
    assert(tail1 =~= tail2) by {
        assert forall|i: int| 0 <= i < m1 implies tail1[i] == tail2[i] by {
            assert(a[n - m1 + i] == tail1[i]);
            assert(b[n - m1 + i] == tail2[i]);
        }
    }
    lemma_decimal_injective(c1, c2);
    assert(d1 =~= d2) by {
        assert forall|i: int| 0 <= i < d1.len() implies d1[i] == d2[i] by {
            assert(a[k1 + 1 + i] == d1[i]);
            assert(b[k1 + 1 + i] == d2[i]);
        }
    }
}

} // verus!
