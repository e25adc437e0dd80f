//! Verified text helpers: lexicographic comparison and sorting of strings,
//! used when a group of user names is rendered in a stable order.

use vstd::prelude::*;

verus! {

/// Lexicographic order on character sequences by code point. This is the
/// order in which `String` values compare: UTF-8 encoding preserves the
/// code-point order, so byte-wise and character-wise comparison agree.
pub open spec fn lex_le(a: Seq<char>, b: Seq<char>) -> bool
    decreases a.len(),
{
    if a.len() == 0 {
        true
    } else if b.len() == 0 {
        false
    } else if (a[0] as u32) < (b[0] as u32) {
        true
    } else if (a[0] as u32) > (b[0] as u32) {
        false
    } else {
        lex_le(a.drop_first(), b.drop_first())
    }
}

/// `x` placed directly before the first element that is not below it.
pub open spec fn lex_insert(s: Seq<Seq<char>>, x: Seq<char>) -> Seq<Seq<char>>
    decreases s.len(),
{
    if s.len() == 0 {
        seq![x]
    } else if lex_le(x, s[0]) {
        seq![x] + s
    } else {
        seq![s[0]] + lex_insert(s.drop_first(), x)
    }
}

/// The sequence reordered into nondecreasing lexicographic order, by
/// inserting the elements one after another, first element first.
pub open spec fn lex_sorted(s: Seq<Seq<char>>) -> Seq<Seq<char>>
    decreases s.len(),
{
    if s.len() == 0 {
        Seq::empty()
    } else {
        lex_insert(lex_sorted(s.drop_last()), s.last())
    }
}

/// Compares two strings in lexicographic code-point order.
pub fn str_lex_le(a: &String, b: &String) -> (r: bool)
    ensures
        r == lex_le(a@, b@),
{
    let an = a.as_str().unicode_len();
    let bn = b.as_str().unicode_len();
    let mut i: usize = 0;
    proof {
        assert(a@.skip(0) =~= a@);
        assert(b@.skip(0) =~= b@);
    }
    loop
        invariant
            i <= an,
            i <= bn,
            an == a@.len(),
            bn == b@.len(),
            lex_le(a@, b@) == lex_le(a@.skip(i as int), b@.skip(i as int)),
        decreases an - i,
    {
        proof {
            assert(a@.skip(i as int).len() == an - i);
            assert(b@.skip(i as int).len() == bn - i);
        }
        if i == an {
            return true;
        }
        if i == bn {
            return false;
        }
        let ca = a.as_str().get_char(i);
        let cb = b.as_str().get_char(i);
        proof {
            assert(a@.skip(i as int)[0] == a@[i as int]);
            assert(b@.skip(i as int)[0] == b@[i as int]);
        }
        if (ca as u32) < (cb as u32) {
            return true;
        }
        if (ca as u32) > (cb as u32) {
            return false;
        }
        proof {
            assert(a@.skip(i as int).drop_first() =~= a@.skip(i + 1));
            assert(b@.skip(i as int).drop_first() =~= b@.skip(i + 1));
        }
        i = i + 1;
    }
}

proof fn lemma_lex_insert_at(s: Seq<Seq<char>>, x: Seq<char>, k: int)
    requires
        0 <= k <= s.len(),
        forall|j: int| 0 <= j < k ==> !lex_le(x, s[j]),
        k < s.len() ==> lex_le(x, s[k]),
    ensures
        lex_insert(s, x) =~= s.subrange(0, k) + seq![x] + s.subrange(k, s.len() as int),
    decreases k,
{
    if k == 0 {
        if s.len() == 0 {
            assert(lex_insert(s, x) =~= s.subrange(0, 0) + seq![x] + s.subrange(0, 0));
        } else {
            assert(lex_insert(s, x) =~= s.subrange(0, 0) + seq![x] + s.subrange(0, s.len() as int));
        }
    } else {
        assert(!lex_le(x, s[0]));
        let t = s.drop_first();
        assert(forall|j: int| 0 <= j < k - 1 ==> !lex_le(x, t[j]));
        lemma_lex_insert_at(t, x, k - 1);
        assert(lex_insert(s, x) == seq![s[0]] + lex_insert(t, x));
        assert(seq![s[0]] + (t.subrange(0, k - 1) + seq![x] + t.subrange(k - 1, t.len() as int))
            =~= s.subrange(0, k) + seq![x] + s.subrange(k, s.len() as int));
    }
}

/// Inserts `x` before the first element it is not above.
fn insert_string(r: &mut Vec<String>, x: String)
    ensures
        final(r).deep_view() == lex_insert(old(r).deep_view(), x@),
{
    let mut k: usize = 0;
    while k < r.len() && !str_lex_le(&x, &r[k])
        invariant
            k <= r@.len(),
            forall|j: int| 0 <= j < k ==> !lex_le(x@, #[trigger] r.deep_view()[j]),
        ensures
            k <= r@.len(),
            forall|j: int| 0 <= j < k ==> !lex_le(x@, #[trigger] r.deep_view()[j]),
            k < r@.len() ==> lex_le(x@, r.deep_view()[k as int]),
        decreases r@.len() - k,
    {
        k = k + 1;
    }
    proof {
        lemma_lex_insert_at(r.deep_view(), x@, k as int);
    }
    let ghost pre = r.deep_view();
    r.insert(k, x);
    proof {
        assert(r.deep_view() =~= pre.subrange(0, k as int) + seq![x@] + pre.subrange(
            k as int,
            pre.len() as int,
        ));
    }
}

/// Returns the strings in nondecreasing lexicographic order.
pub fn sort_strings(v: &Vec<String>) -> (r: Vec<String>)
    ensures
        r.deep_view() == lex_sorted(v.deep_view()),
{
    let mut r: Vec<String> = Vec::new();
    let mut i: usize = 0;
    proof {
        assert(r.deep_view() =~= lex_sorted(v.deep_view().take(0)));
    }
    while i < v.len()
        invariant
            i <= v@.len(),
            r.deep_view() == lex_sorted(v.deep_view().take(i as int)),
        decreases v@.len() - i,
    {
        let x = v[i].clone();
        proof {
            assert(x@ == v.deep_view()[i as int]);
            assert(v.deep_view().take(i + 1).drop_last() =~= v.deep_view().take(i as int));
            assert(v.deep_view().take(i + 1).last() == v.deep_view()[i as int]);
        }
        insert_string(&mut r, x);
        i = i + 1;
    }
    proof {
        assert(v.deep_view().take(v@.len() as int) =~= v.deep_view());
    }
    r
}

/// Relies on `String::push`: appends exactly the one character.
#[verifier::external_body]
pub(crate) fn push_char(s: &mut String, c: char)
    ensures
        final(s)@ == old(s)@.push(c),
{
    s.push(c);
}

/// Whether a character counts as whitespace, as `char::is_whitespace`
/// classifies it (the Unicode `White_Space` property).
pub uninterp spec fn is_ws(c: char) -> bool;

/// Relies on `char::is_whitespace`: a pure classification of the character.
pub assume_specification[ char::is_whitespace ](c: char) -> (r: bool)
    ensures
        r == is_ws(c),
;

/// The decimal digit `d` as a character.
pub open spec fn digit_char(d: nat) -> char {
    if d == 0 {
        '0'
    } else if d == 1 {
        '1'
    } else if d == 2 {
        '2'
    } else if d == 3 {
        '3'
    } else if d == 4 {
        '4'
    } else if d == 5 {
        '5'
    } else if d == 6 {
        '6'
    } else if d == 7 {
        '7'
    } else if d == 8 {
        '8'
    } else {
        '9'
    }
}

/// The decimal rendering of a number, most significant digit first, no sign
/// and no leading zero (except for the number zero itself).
pub open spec fn dec_str(n: nat) -> Seq<char>
    decreases n,
{
    if n < 10 {
        seq![digit_char(n)]
    } else {
        dec_str(n / 10).push(digit_char(n % 10))
    }
}

fn digit_str(d: u64) -> (r: &'static str)
    requires
        d < 10,
    ensures
        r@ == seq![digit_char(d as nat)],
{
    proof {
        reveal_strlit("0");
        reveal_strlit("1");
        reveal_strlit("2");
        reveal_strlit("3");
        reveal_strlit("4");
        reveal_strlit("5");
        reveal_strlit("6");
        reveal_strlit("7");
        reveal_strlit("8");
        reveal_strlit("9");
    }
    let r = if d == 0 {
        "0"
    } else if d == 1 {
        "1"
    } else if d == 2 {
        "2"
    } else if d == 3 {
        "3"
    } else if d == 4 {
        "4"
    } else if d == 5 {
        "5"
    } else if d == 6 {
        "6"
    } else if d == 7 {
        "7"
    } else if d == 8 {
        "8"
    } else {
        "9"
    };
    proof {
        assert(r@ =~= seq![digit_char(d as nat)]);
    }
    r
}

/// Renders a number in decimal.
pub fn u64_to_string(n: u64) -> (r: String)
    ensures
        r@ == dec_str(n as nat),
    decreases n,
{
    if n < 10 {
        digit_str(n).to_owned()
    } else {
        let mut r = u64_to_string(n / 10);
        r.append(digit_str(n % 10));
        proof {
            assert(dec_str((n / 10) as nat).push(digit_char((n % 10) as nat)) =~= dec_str(
                (n / 10) as nat,
            ) + seq![digit_char((n % 10) as nat)]);
        }
        r
    }
}

/// The longest prefix in which `c` does not occur.
pub open spec fn until_char(s: Seq<char>, c: char) -> Seq<char>
    decreases s.len(),
{
    if s.len() == 0 {
        s
    } else if s[0] == c {
        Seq::empty()
    } else {
        seq![s[0]] + until_char(s.drop_first(), c)
    }
}

proof fn lemma_until_char_at(s: Seq<char>, c: char, i: int)
    requires
        0 <= i <= s.len(),
        forall|k: int| 0 <= k < i ==> s[k] != c,
        i < s.len() ==> s[i] == c,
    ensures
        until_char(s, c) =~= s.take(i),
    decreases i,
{
    if i == 0 {
    } else {
        lemma_until_char_at(s.drop_first(), c, i - 1);
        assert(seq![s[0]] + s.drop_first().take(i - 1) =~= s.take(i));
    }
}

/// The prefix of `s` up to, and not including, the first occurrence of `c`.
pub fn take_until_char(s: &str, c: char) -> (r: String)
    ensures
        r@ == until_char(s@, c),
{
    let n = s.unicode_len();
    let mut r = String::new();
    let mut i: usize = 0;
    proof {
        assert(r@ =~= s@.take(0));
    }
    while i < n
        invariant
            i <= n,
            n == s@.len(),
            forall|k: int| 0 <= k < i ==> s@[k] != c,
            r@ == s@.take(i as int),
        decreases n - i,
    {
        let ch = s.get_char(i);
        if ch == c {
            proof {
                lemma_until_char_at(s@, c, i as int);
            }
            return r;
        }
        push_char(&mut r, ch);
        proof {
            assert(s@.take(i as int).push(s@[i as int]) =~= s@.take(i + 1));
        }
        i = i + 1;
    }
    proof {
        lemma_until_char_at(s@, c, n as int);
        assert(s@.take(n as int) =~= s@);
    }
    r
}

/// The longest prefix that holds no whitespace.
pub open spec fn until_ws(s: Seq<char>) -> Seq<char>
    decreases s.len(),
{
    if s.len() == 0 {
        s
    } else if is_ws(s[0]) {
        Seq::empty()
    } else {
        seq![s[0]] + until_ws(s.drop_first())
    }
}

proof fn lemma_until_ws_at(s: Seq<char>, i: int)
    requires
        0 <= i <= s.len(),
        forall|k: int| 0 <= k < i ==> !is_ws(s[k]),
        i < s.len() ==> is_ws(s[i]),
    ensures
        until_ws(s) =~= s.take(i),
    decreases i,
{
    if i == 0 {
    } else {
        lemma_until_ws_at(s.drop_first(), i - 1);
        assert(seq![s[0]] + s.drop_first().take(i - 1) =~= s.take(i));
    }
}

/// The whitespace-separated words of `s`, in order, without empties — the
/// splitting `str::split_whitespace` performs.
pub open spec fn split_ws(s: Seq<char>) -> Seq<Seq<char>>
    decreases s.len(),
    via split_ws_decreases
{
    if s.len() == 0 {
        Seq::empty()
    } else if is_ws(s[0]) {
        split_ws(s.drop_first())
    } else {
        seq![until_ws(s)] + split_ws(s.skip(until_ws(s).len() as int))
    }
}

proof fn lemma_until_ws_len(s: Seq<char>)
    ensures
        until_ws(s).len() <= s.len(),
    decreases s.len(),
{
    if s.len() == 0 {
    } else if is_ws(s[0]) {
    } else {
        lemma_until_ws_len(s.drop_first());
    }
}

#[via_fn]
proof fn split_ws_decreases(s: Seq<char>) {
    if s.len() != 0 && !is_ws(s[0]) {
        assert(until_ws(s) == seq![s[0]] + until_ws(s.drop_first()));
        assert(until_ws(s).len() >= 1);
        lemma_until_ws_len(s);
    }
}

/// Splits `s` into its whitespace-separated words.
pub fn split_whitespace_strings(s: &String) -> (r: Vec<String>)
    ensures
        r.deep_view() == split_ws(s@),
{
    let n = s.as_str().unicode_len();
    let mut r: Vec<String> = Vec::new();
    let mut i: usize = 0;
    proof {
        assert(s@.skip(0) =~= s@);
        assert(r.deep_view() + split_ws(s@) =~= split_ws(s@));
    }
    while i < n
        invariant
            i <= n,
            n == s@.len(),
            split_ws(s@) == r.deep_view() + split_ws(s@.skip(i as int)),
        decreases n - i,
    {
        let ch = s.as_str().get_char(i);
        if ch.is_whitespace() {
            proof {
                assert(s@.skip(i as int).drop_first() =~= s@.skip(i + 1));
            }
            i = i + 1;
        } else {
            let mut tok = String::new();
            let mut j: usize = i;
            proof {
                assert(tok@ =~= s@.subrange(i as int, i as int));
            }
            while j < n
                invariant
                    i <= j <= n,
                    n == s@.len(),
                    forall|k: int| i <= k < j ==> !is_ws(s@[k]),
                    tok@ == s@.subrange(i as int, j as int),
                ensures
                    i <= j <= n,
                    forall|k: int| i <= k < j ==> !is_ws(s@[k]),
                    j < n ==> is_ws(s@[j as int]),
                    tok@ == s@.subrange(i as int, j as int),
                decreases n - j,
            {
                let ch2 = s.as_str().get_char(j);
                if ch2.is_whitespace() {
                    break ;
                }
                push_char(&mut tok, ch2);
                proof {
                    assert(s@.subrange(i as int, j as int).push(s@[j as int]) =~= s@.subrange(
                        i as int,
                        j + 1,
                    ));
                }
                j = j + 1;
            }
            proof {
                let tail = s@.skip(i as int);
                assert forall|k: int| 0 <= k < j - i implies !is_ws(tail[k]) by {
                    assert(tail[k] == s@[i + k]);
                }
                if j < n {
                    assert(tail[j - i] == s@[j as int]);
                }
                lemma_until_ws_at(tail, j - i);
                assert(tail.take(j - i) =~= s@.subrange(i as int, j as int));
                assert(until_ws(tail) == tok@);
                assert(tail.skip(j - i) =~= s@.skip(j as int));
                assert(split_ws(tail) == seq![tok@] + split_ws(s@.skip(j as int)));
            }
            let ghost pre = r.deep_view();
            r.push(tok);
            proof {
                assert(r.deep_view() =~= pre.push(tok@));
                assert(pre + (seq![tok@] + split_ws(s@.skip(j as int))) =~= r.deep_view()
                    + split_ws(s@.skip(j as int)));
            }
            i = j;
        }
    }
    proof {
        assert(s@.skip(n as int) =~= Seq::<char>::empty());
        assert(r.deep_view() + split_ws(s@.skip(n as int)) =~= r.deep_view());
    }
    r
}

/// `s` with every occurrence of `from` replaced by `to`: the leftmost
/// occurrence first, scanning resuming after the replacement, as
/// `str::replace` does. Defined as the identity for an empty pattern.
pub open spec fn replaced(s: Seq<char>, from: Seq<char>, to: Seq<char>) -> Seq<char>
    decreases s.len(),
{
    if from.len() == 0 || s.len() < from.len() {
        s
    } else if s.take(from.len() as int) == from {
        to + replaced(s.skip(from.len() as int), from, to)
    } else {
        seq![s[0]] + replaced(s.drop_first(), from, to)
    }
}

fn window_eq(s: &String, i: usize, from: &String) -> (r: bool)
    requires
        i + from@.len() <= s@.len(),
    ensures
        r == (s@.subrange(i as int, i + from@.len()) == from@),
{
    let n = s.as_str().unicode_len();
    let fl = from.as_str().unicode_len();
    let mut j: usize = 0;
    while j < fl
        invariant
            j <= fl,
            n == s@.len(),
            fl == from@.len(),
            i + fl <= s@.len(),
            forall|k: int| 0 <= k < j ==> s@[i + k] == from@[k],
        decreases fl - j,
    {
        let a = s.as_str().get_char(i + j);
        let b = from.as_str().get_char(j);
        if a != b {
            proof {
                assert(s@.subrange(i as int, i + from@.len())[j as int] != from@[j as int]);
            }
            return false;
        }
        j = j + 1;
    }
    proof {
        assert(s@.subrange(i as int, i + from@.len()) =~= from@);
    }
    true
}

/// `s` with every occurrence of `from` replaced by `to`, leftmost first.
pub fn replace_str(s: &String, from: &String, to: &String) -> (r: String)
    ensures
        r@ == replaced(s@, from@, to@),
{
    let n = s.as_str().unicode_len();
    let fl = from.as_str().unicode_len();
    if fl == 0 {
        return s.clone();
    }
    let mut r = String::new();
    let mut i: usize = 0;
    proof {
        assert(s@.skip(0) =~= s@);
        assert(r@ + replaced(s@, from@, to@) =~= replaced(s@, from@, to@));
    }
    while i < n
        invariant
            i <= n,
            n == s@.len(),
            fl == from@.len(),
            fl >= 1,
            replaced(s@, from@, to@) == r@ + replaced(s@.skip(i as int), from@, to@),
        decreases n - i,
    {
        let is_match = if fl <= n - i {
            window_eq(s, i, from)
        } else {
            false
        };
        if is_match {
            r.append(to.as_str());
            proof {
                let tail = s@.skip(i as int);
                assert(tail.take(fl as int) =~= s@.subrange(i as int, i + fl));
                assert(tail.skip(fl as int) =~= s@.skip(i + fl));
                assert(replaced(tail, from@, to@) == to@ + replaced(
                    s@.skip(i + fl),
                    from@,
                    to@,
                ));
            }
            i = i + fl;
        } else {
            let ch = s.as_str().get_char(i);
            push_char(&mut r, ch);
            proof {
                let tail = s@.skip(i as int);
                assert(tail[0] == s@[i as int]);
                assert(tail.drop_first() =~= s@.skip(i + 1));
                if i + fl <= n {
                    assert(tail.take(fl as int) =~= s@.subrange(i as int, i + fl));
                    assert(tail.take(fl as int) != from@);
                }
                assert(replaced(tail, from@, to@) == seq![s@[i as int]] + replaced(
                    s@.skip(i + 1),
                    from@,
                    to@,
                ));
            }
            i = i + 1;
        }
    }
    proof {
        assert(s@.skip(n as int) =~= Seq::<char>::empty());
    }
    r
}

} // verus!
