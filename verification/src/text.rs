//! Character-sequence helpers shared by the target resolver and the
//! diagnostic renderer: splitting on a separator, decimal rendering of
//! line and column numbers, and building `String`s from characters.
use vstd::prelude::*;

verus! {

/// True when no character of `s` equals `sep`.
pub open spec fn has_no(s: Seq<char>, sep: char) -> bool {
    forall|i: int| 0 <= i < s.len() ==> s[i] != sep
}

/// The pieces of `s` between occurrences of `sep`, in order.
/// An empty input yields one empty piece, as `str::split` does.
pub open spec fn split_on(s: Seq<char>, sep: char) -> Seq<Seq<char>>
    decreases s.len(),
{
    if s.len() == 0 {
        seq![Seq::<char>::empty()]
    } else if s[0] == sep {
        seq![Seq::<char>::empty()] + split_on(s.skip(1), sep)
    } else {
        let rest = split_on(s.skip(1), sep);
        seq![seq![s[0]] + rest[0]] + rest.skip(1)
    }
}

pub proof fn lemma_split_on_len(s: Seq<char>, sep: char)
    ensures
        split_on(s, sep).len() >= 1,
    decreases s.len(),
{
    if s.len() == 0 {
    } else if s[0] == sep {
    } else {
        lemma_split_on_len(s.skip(1), sep);
    }
}

/// A sequence without the separator is a single piece.
pub proof fn lemma_split_on_no_sep(s: Seq<char>, sep: char)
    requires
        has_no(s, sep),
    ensures
        split_on(s, sep) == seq![s],
    decreases s.len(),
{
    if s.len() == 0 {
        assert(s =~= Seq::<char>::empty());
        assert(split_on(s, sep) =~~= seq![s]);
    } else {
        assert(s[0] != sep);
        lemma_split_on_no_sep(s.skip(1), sep);
        assert(seq![s[0]] + s.skip(1) =~= s);
        assert(split_on(s, sep) =~~= seq![s]);
    }
}

/// Splitting at the first separator peels off the leading piece.
pub proof fn lemma_split_on_sep(a: Seq<char>, sep: char, b: Seq<char>)
    requires
        has_no(a, sep),
    ensures
        split_on(a + seq![sep] + b, sep) == seq![a] + split_on(b, sep),
    decreases a.len(),
{
    let s = a + seq![sep] + b;
    if a.len() == 0 {
        assert(s =~= seq![sep] + b);
        assert(s[0] == sep);
        assert(s.skip(1) =~= b);
        assert(a =~= Seq::<char>::empty());
        assert(split_on(s, sep) =~~= seq![a] + split_on(b, sep));
    } else {
        assert(s[0] == a[0]);
        assert(s[0] != sep);
        assert(s.skip(1) =~= a.skip(1) + seq![sep] + b);
        lemma_split_on_sep(a.skip(1), sep, b);
        let rest = split_on(s.skip(1), sep);
        lemma_split_on_len(b, sep);
        assert(rest[0] == a.skip(1));
        assert(rest.skip(1) =~~= split_on(b, sep));
        assert(seq![s[0]] + rest[0] =~= a);
        assert(split_on(s, sep) =~~= seq![a] + split_on(b, sep));
    }
}

/// `l` without a trailing carriage return, if it carries one.
pub open spec fn strip_cr(l: Seq<char>) -> Seq<char> {
    if l.len() > 0 && l.last() == '\r' {
        l.drop_last()
    } else {
        l
    }
}

/// The characters of `s`, in order, as a vector.
pub fn chars_of(s: &str) -> (v: Vec<char>)
    ensures
        v@ == s@,
{
    let n = s.unicode_len();
    let mut v: Vec<char> = Vec::new();
    let mut i: usize = 0;
    while i < n
        invariant
            n == s@.len(),
            i <= n,
            v@ == s@.take(i as int),
        decreases n - i,
    {
        let c = s.get_char(i);
        v.push(c);
        i = i + 1;
        proof {
            assert(v@ =~= s@.take(i as int));
        }
    }
    proof {
        assert(s@.take(n as int) =~= s@);
    }
    v
}

/// Whether the characters in `v` spell exactly the string `s`.
pub fn chars_eq(v: &Vec<char>, s: &str) -> (b: bool)
    ensures
        b == (v@ == s@),
{
    let n = s.unicode_len();
    if v.len() != n {
        return false;
    }
    let mut i: usize = 0;
    while i < n
        invariant
            n == s@.len(),
            v@.len() == n,
            i <= n,
            forall|j: int| 0 <= j < i ==> v@[j] == s@[j],
        decreases n - i,
    {
        let c = s.get_char(i);
        if v[i] != c {
            return false;
        }
        i = i + 1;
    }
    proof {
        assert(v@ =~= s@);
    }
    true
}

/// The pieces of `v` between occurrences of `sep`, as `str::split` yields them.
pub fn split_chars(v: &Vec<char>, sep: char) -> (parts: Vec<Vec<char>>)
    ensures
        parts.deep_view() == split_on(v@, sep),
{
    let mut parts: Vec<Vec<char>> = Vec::new();
    let mut cur: Vec<char> = Vec::new();
    let mut i: usize = 0;
    proof {
        assert(parts.deep_view() =~~= Seq::<Seq<char>>::empty());
        assert(cur@ + v@.skip(0) =~= v@);
        assert(parts.deep_view() + split_on(v@, sep) =~~= split_on(v@, sep));
    }
    while i < v.len()
        invariant
            i <= v.len(),
            has_no(cur@, sep),
            split_on(v@, sep) == parts.deep_view() + split_on(cur@ + v@.skip(i as int), sep),
        decreases v.len() - i,
    {
        let c = v[i];
        if c == sep {
            proof {
                lemma_split_on_sep(cur@, sep, v@.skip(i as int + 1));
                assert(cur@ + v@.skip(i as int) =~= cur@ + seq![sep] + v@.skip(i as int + 1));
            }
            let ghost old_dv = parts.deep_view();
            parts.push(cur);
            proof {
                assert(parts.deep_view() =~~= old_dv.push(cur@));
            }
            cur = Vec::new();
        } else {
            let ghost old_cur = cur@;
            cur.push(c);
            proof {
                assert(old_cur + v@.skip(i as int) =~= cur@ + v@.skip(i as int + 1));
            }
        }
        i = i + 1;
    }
    proof {
        assert(cur@ + v@.skip(v.len() as int) =~= cur@);
        lemma_split_on_no_sep(cur@, sep);
    }
    let ghost old_dv = parts.deep_view();
    parts.push(cur);
    proof {
        assert(parts.deep_view() =~~= old_dv.push(cur@));
    }
    parts
}

/// Relies on `String::push` of std: appends one character at the end.
#[verifier::external_body]
fn push_char(s: &mut String, c: char)
    ensures
        final(s)@ == old(s)@.push(c),
{
    s.push(c);
}

/// A `String` spelling exactly the characters of `v`.
pub fn string_of_chars(v: &Vec<char>) -> (s: String)
    ensures
        s@ == v@,
{
    let mut s = String::new();
    let mut i: usize = 0;
    while i < v.len()
        invariant
            i <= v.len(),
            s@ == v@.take(i as int),
        decreases v.len() - i,
    {
        push_char(&mut s, v[i]);
        i = i + 1;
        proof {
            assert(s@ =~= v@.take(i as int));
        }
    }
    proof {
        assert(v@.take(v.len() as int) =~= v@);
    }
    s
}

/// The decimal digit character for `n` in 0..10.
pub open spec fn digit_char(n: nat) -> char {
    if n == 0 {
        '0'
    } else if n == 1 {
        '1'
    } else if n == 2 {
        '2'
    } else if n == 3 {
        '3'
    } else if n == 4 {
        '4'
    } else if n == 5 {
        '5'
    } else if n == 6 {
        '6'
    } else if n == 7 {
        '7'
    } else if n == 8 {
        '8'
    } else {
        '9'
    }
}

/// The decimal writing of `n`, most significant digit first.
pub open spec fn dec_rep(n: nat) -> Seq<char>
    decreases n,
{
    if n < 10 {
        seq![digit_char(n)]
    } else {
        dec_rep(n / 10) + seq![digit_char(n % 10)]
    }
}

fn digit_string(d: usize) -> (s: String)
    requires
        d < 10,
    ensures
        s@ == seq![digit_char(d as nat)],
{
    if d == 0 {
        proof { reveal_strlit("0"); }
        let s = String::from_str("0");
        proof { assert(s@ =~= seq![digit_char(d as nat)]); }
        s
    } else if d == 1 {
        proof { reveal_strlit("1"); }
        let s = String::from_str("1");
        proof { assert(s@ =~= seq![digit_char(d as nat)]); }
        s
    } else if d == 2 {
        proof { reveal_strlit("2"); }
        let s = String::from_str("2");
        proof { assert(s@ =~= seq![digit_char(d as nat)]); }
        s
    } else if d == 3 {
        proof { reveal_strlit("3"); }
        let s = String::from_str("3");
        proof { assert(s@ =~= seq![digit_char(d as nat)]); }
        s
    } else if d == 4 {
        proof { reveal_strlit("4"); }
        let s = String::from_str("4");
        proof { assert(s@ =~= seq![digit_char(d as nat)]); }
        s
    } else if d == 5 {
        proof { reveal_strlit("5"); }
        let s = String::from_str("5");
        proof { assert(s@ =~= seq![digit_char(d as nat)]); }
        s
    } else if d == 6 {
        proof { reveal_strlit("6"); }
        let s = String::from_str("6");
        proof { assert(s@ =~= seq![digit_char(d as nat)]); }
        s
    } else if d == 7 {
        proof { reveal_strlit("7"); }
        let s = String::from_str("7");
        proof { assert(s@ =~= seq![digit_char(d as nat)]); }
        s
    } else if d == 8 {
        proof { reveal_strlit("8"); }
        let s = String::from_str("8");
        proof { assert(s@ =~= seq![digit_char(d as nat)]); }
        s
    } else {
        proof { reveal_strlit("9"); }
        let s = String::from_str("9");
        proof { assert(s@ =~= seq![digit_char(d as nat)]); }
        s
    }
}

/// `n` written in decimal.
pub fn dec_string(n: usize) -> (s: String)
    ensures
        s@ == dec_rep(n as nat),
    decreases n,
{
    if n < 10 {
        digit_string(n)
    } else {
        let mut s = dec_string(n / 10);
        let d = digit_string(n % 10);
        s.append(d.as_str());
        s
    }
}

/// `k` space characters.
pub open spec fn spaces(k: nat) -> Seq<char> {
    Seq::new(k, |i| ' ')
}

/// `k` caret characters.
pub open spec fn carets(k: nat) -> Seq<char> {
    Seq::new(k, |i| '^')
}

pub fn spaces_string(k: usize) -> (s: String)
    ensures
        s@ == spaces(k as nat),
{
    proof { reveal_strlit(" "); }
    let mut s = String::new();
    let mut i: usize = 0;
    while i < k
        invariant
            i <= k,
            s@ == spaces(i as nat),
        decreases k - i,
    {
        s.append(" ");
        i = i + 1;
        proof {
            reveal_strlit(" ");
            assert(s@ =~= spaces(i as nat));
        }
    }
    s
}

pub fn carets_string(k: usize) -> (s: String)
    ensures
        s@ == carets(k as nat),
{
    proof { reveal_strlit("^"); }
    let mut s = String::new();
    let mut i: usize = 0;
    while i < k
        invariant
            i <= k,
            s@ == carets(i as nat),
        decreases k - i,
    {
        s.append("^");
        i = i + 1;
        proof {
            reveal_strlit("^");
            assert(s@ =~= carets(i as nat));
        }
    }
    s
}

/// `n` in decimal, padded on the left with spaces to at least four columns.
pub open spec fn pad4(n: nat) -> Seq<char> {
    if dec_rep(n).len() >= 4 {
        dec_rep(n)
    } else {
        spaces((4 - dec_rep(n).len()) as nat) + dec_rep(n)
    }
}

pub fn pad4_string(n: usize) -> (s: String)
    ensures
        s@ == pad4(n as nat),
{
    let d = dec_string(n);
    let len = d.as_str().unicode_len();
    if len >= 4 {
        d
    } else {
        let mut s = spaces_string(4 - len);
        s.append(d.as_str());
        s
    }
}

/// Addition on `usize` that stops at the largest value instead of wrapping.
pub open spec fn sat_add(a: nat, b: nat) -> nat {
    if a + b > usize::MAX as nat {
        usize::MAX as nat
    } else {
        a + b
    }
}

pub fn sat_add_usize(a: usize, b: usize) -> (r: usize)
    ensures
        r as nat == sat_add(a as nat, b as nat),
{
    if a <= usize::MAX - b {
        a + b
    } else {
        usize::MAX
    }
}

} // verus!
