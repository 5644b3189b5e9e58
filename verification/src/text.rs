use vstd::prelude::*;

verus! {

/// The ASCII character of the decimal digit `d` (for `0 <= d < 10`).
pub open spec fn digit_char(d: int) -> char {
    (48 + d) as char
}

/// The decimal representation of `n`, most significant digit first,
/// without leading zeros (`0` is written as a single `'0'`).
pub open spec fn decimal(n: nat) -> Seq<char>
    decreases n,
{
    if n < 10 {
        seq![digit_char(n as int)]
    } else {
        decimal(n / 10).push(digit_char((n % 10) as int))
    }
}

/// The number that a string of decimal digits stands for.
pub open spec fn digits_value(s: Seq<char>) -> int
    decreases s.len(),
{
    if s.len() == 0 {
        0
    } else {
        digits_value(s.drop_last()) * 10 + (s.last() as int - 48)
    }
}

/// The decimal representation of `n` is made of digits only, reads back as
/// `n`, and starts with a zero only when it is "0".
pub proof fn law_decimal_reads_back(n: nat)
    ensures
        decimal(n).len() >= 1,
        forall|i: int| 0 <= i < decimal(n).len() ==> '0' <= #[trigger] decimal(n)[i] <= '9',
        digits_value(decimal(n)) == n,
        decimal(n)[0] == '0' <==> n == 0,
    decreases n,
{
    let k = (n % 10) as int;
    assert(digit_char(k) as int == 48 + k);
    if n >= 10 {
        law_decimal_reads_back(n / 10);
        let d = decimal(n);
        assert(d == decimal(n / 10).push(digit_char((n % 10) as int)));
        assert(d.drop_last() == decimal(n / 10));
        assert(d.last() == digit_char(k));
        assert(d[0] == decimal(n / 10)[0]);
        assert(digits_value(d) == digits_value(d.drop_last()) * 10 + (d.last() as int - 48));
        assert((n / 10) * 10 + k == n);
    } else {
        let d = decimal(n);
        assert(d == seq![digit_char(n as int)]);
        assert(d.drop_last() =~= Seq::<char>::empty());
        assert(digits_value(d) == digits_value(d.drop_last()) * 10 + (d.last() as int - 48));
    }
}

/// Appends one character to a string (`String::push`).
#[verifier::external_body]
pub(crate) fn push_char(s: &mut String, c: char)
    ensures
        final(s)@ == old(s)@.push(c),
{
    s.push(c);
}

/// Appends the decimal representation of `n` to `s`.
pub fn push_decimal(s: &mut String, n: u64)
    ensures
        final(s)@ == old(s)@ + decimal(n as nat),
    decreases n,
{
    if n >= 10 {
        push_decimal(s, n / 10);
    }
    let d: u8 = (n % 10) as u8;
    push_char(s, (48u8 + d) as char);
    assert(final(s)@ =~= old(s)@ + decimal(n as nat)) by {
        if n >= 10 {
            assert(decimal(n as nat) == decimal((n / 10) as nat).push(digit_char((n % 10) as int)));
        }
    }
}

/// The decimal representation of `n` as a new string.
pub fn u64_to_string(n: u64) -> (s: String)
    ensures
        s@ == decimal(n as nat),
{
    let mut s = String::new();
    push_decimal(&mut s, n);
    assert(s@ =~= decimal(n as nat));
    s
}

} // verus!

verus! {

/// The characters of `s`.
pub fn chars_of(s: &str) -> (v: Vec<char>)
    ensures
        v@ == s@,
{
    let mut v: Vec<char> = Vec::new();
    for c in it: s.chars()
        invariant
            v@ == it.seq().take(it.index() as int),
    {
        v.push(c);
    }
    v
}

} // verus!

verus! {

/// `s` with every occurrence of the non-empty pattern `p` replaced by `t`,
/// the occurrences found from left to right without overlapping.
pub open spec fn replaced(s: Seq<char>, p: Seq<char>, t: Seq<char>) -> Seq<char>
    decreases s.len(),
{
    if s.len() == 0 || p.len() == 0 {
        s
    } else if p.is_prefix_of(s) {
        t + replaced(s.skip(p.len() as int), p, t)
    } else {
        seq![s[0]] + replaced(s.skip(1), p, t)
    }
}

fn matches_at(s: &Vec<char>, i: usize, p: &Vec<char>) -> (r: bool)
    requires
        i <= s@.len(),
    ensures
        r == p@.is_prefix_of(s@.skip(i as int)),
{
    if p.len() > s.len() - i {
        return false;
    }
    let mut k: usize = 0;
    while k < p.len()
        invariant
            i + p@.len() <= s@.len(),
            s@.len() <= usize::MAX,
            k <= p@.len(),
            forall|j: int| 0 <= j < k ==> p@[j] == s@[i + j],
        decreases p@.len() - k,
    {
        if p[k] != s[i + k] {
            return false;
        }
        k = k + 1;
    }
    true
}

/// `text` with every occurrence of `from` replaced by `to` (`str::replace`
/// for a non-empty pattern).
pub fn replace_all(text: &str, from: &str, to: &str) -> (r: String)
    requires
        from@.len() > 0,
    ensures
        r@ == replaced(text@, from@, to@),
{
    let s = chars_of(text);
    let p = chars_of(from);
    let mut r = String::new();
    let mut i: usize = 0;
    assert(s@.skip(0) =~= s@);
    assert(r@ + replaced(s@.skip(0), p@, to@) =~= replaced(text@, from@, to@));
    while i < s.len()
        invariant
            s@ == text@,
            p@ == from@,
            p@.len() > 0,
            i <= s@.len(),
            r@ + replaced(s@.skip(i as int), p@, to@) == replaced(text@, from@, to@),
        decreases s@.len() - i,
    {
        let ghost rest = s@.skip(i as int);
        if matches_at(&s, i, &p) {
            r.append(to);
            assert(rest.skip(p@.len() as int) =~= s@.skip(i + p@.len()));
            i = i + p.len();
            assert(r@ + replaced(s@.skip(i as int), p@, to@) =~= replaced(text@, from@, to@));
        } else {
            push_char(&mut r, s[i]);
            assert(rest.skip(1) =~= s@.skip(i + 1));
            assert(seq![rest[0]] =~= seq![s@[i as int]]);
            i = i + 1;
            assert(r@ + replaced(s@.skip(i as int), p@, to@) =~= replaced(text@, from@, to@));
        }
    }
    assert(s@.skip(i as int) =~= Seq::<char>::empty());
    assert(r@ =~= replaced(text@, from@, to@));
    r
}

} // verus!

verus! {

/// Whether the characters of `c` from position `start` on are exactly `lit`.
pub fn chars_equal_from(c: &Vec<char>, start: usize, lit: &str) -> (r: bool)
    requires
        start <= c@.len(),
    ensures
        r == (c@.skip(start as int) == lit@),
{
    let l = chars_of(lit);
    if c.len() - start != l.len() {
        assert(c@.skip(start as int).len() != lit@.len());
        return false;
    }
    let mut k: usize = 0;
    while k < l.len()
        invariant
            start + l@.len() == c@.len(),
            c@.len() <= usize::MAX,
            l@ == lit@,
            k <= l@.len(),
            forall|j: int| 0 <= j < k ==> l@[j] == c@[start + j],
        decreases l@.len() - k,
    {
        if l[k] != c[start + k] {
            assert(c@.skip(start as int)[k as int] != lit@[k as int]);
            return false;
        }
        k = k + 1;
    }
    assert(c@.skip(start as int) =~= lit@);
    true
}

/// Whether two strings are equal.
pub fn str_equals(a: &str, b: &str) -> (r: bool)
    ensures
        r == (a@ == b@),
{
    let c = chars_of(a);
    assert(c@.skip(0) =~= c@);
    chars_equal_from(&c, 0, b)
}

/// The views of a sequence of strings.
pub open spec fn string_views(v: Seq<String>) -> Seq<Seq<char>> {
    v.map_values(|s: String| s@)
}

/// The strings of `list` with `sep` between each two of them.
pub open spec fn joined(list: Seq<Seq<char>>, sep: Seq<char>) -> Seq<char>
    decreases list.len(),
{
    if list.len() == 0 {
        Seq::empty()
    } else if list.len() == 1 {
        list[0]
    } else {
        joined(list.drop_last(), sep) + sep + list.last()
    }
}

/// The strings of `list` with `sep` between each two of them (`join`).
pub fn join_strings(list: &Vec<String>, sep: &str) -> (r: String)
    ensures
        r@ == joined(string_views(list@), sep@),
{
    let mut r = String::new();
    let ghost views = string_views(list@);
    let mut i: usize = 0;
    while i < list.len()
        invariant
            i <= list@.len(),
            views == string_views(list@),
            r@ == joined(views.take(i as int), sep@),
        decreases list@.len() - i,
    {
        if i != 0 {
            r.append(sep);
        }
        r.append(list[i].as_str());
        assert(views.take(i + 1).drop_last() =~= views.take(i as int));
        i = i + 1;
    }
    assert(views.take(i as int) =~= views);
    r
}

} // verus!
