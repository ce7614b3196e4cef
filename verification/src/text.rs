//! Character-level text operations with their mathematical models:
//! whitespace trimming, prefix and suffix stripping, the first line of a
//! text, and the decimal rendering of integers.

use vstd::prelude::*;

verus! {

/// The Unicode `White_Space` code points (the set `char::is_whitespace` accepts).
pub open spec fn is_white(c: char) -> bool {
    let n = c as u32;
    ||| 0x09 <= n <= 0x0d
    ||| n == 0x20 || n == 0x85 || n == 0xa0 || n == 0x1680
    ||| 0x2000 <= n <= 0x200a
    ||| n == 0x2028 || n == 0x2029 || n == 0x202f || n == 0x205f || n == 0x3000
}

/// Tests whether `c` is a Unicode whitespace character.
pub fn is_white_char(c: char) -> (r: bool)
    ensures
        r == is_white(c),
{
    let n: u32 = c as u32;
    (0x09 <= n && n <= 0x0d) || n == 0x20 || n == 0x85 || n == 0xa0 || n == 0x1680 || (0x2000
        <= n && n <= 0x200a) || n == 0x2028 || n == 0x2029 || n == 0x202f || n == 0x205f || n
        == 0x3000
}

/// `s` without its leading whitespace.
pub open spec fn trim_start(s: Seq<char>) -> Seq<char>
    decreases s.len(),
{
    if s.len() > 0 && is_white(s[0]) {
        trim_start(s.drop_first())
    } else {
        s
    }
}

/// `s` without its trailing whitespace.
pub open spec fn trim_end(s: Seq<char>) -> Seq<char>
    decreases s.len(),
{
    if s.len() > 0 && is_white(s.last()) {
        trim_end(s.drop_last())
    } else {
        s
    }
}

/// `s` without leading and trailing whitespace.
pub open spec fn trim(s: Seq<char>) -> Seq<char> {
    trim_end(trim_start(s))
}

/// `s` neither begins nor ends with whitespace.
pub open spec fn is_trimmed(s: Seq<char>) -> bool {
    s.len() == 0 || (!is_white(s[0]) && !is_white(s.last()))
}

proof fn lemma_trim_start_shape(s: Seq<char>)
    ensures
        trim_start(s).len() == 0 || !is_white(trim_start(s)[0]),
    decreases s.len(),
{
    if s.len() > 0 && is_white(s[0]) {
        lemma_trim_start_shape(s.drop_first());
    }
}

proof fn lemma_trim_end_shape(s: Seq<char>)
    ensures
        trim_end(s).len() <= s.len(),
        trim_end(s) == s.subrange(0, trim_end(s).len() as int),
        trim_end(s).len() == 0 || !is_white(trim_end(s).last()),
    decreases s.len(),
{
    if s.len() > 0 && is_white(s.last()) {
        lemma_trim_end_shape(s.drop_last());
        assert(s.drop_last().subrange(0, trim_end(s).len() as int) =~= s.subrange(
            0,
            trim_end(s).len() as int,
        ));
    } else {
        assert(s.subrange(0, s.len() as int) =~= s);
    }
}

/// Trimming leaves a text that neither begins nor ends with whitespace.
pub proof fn lemma_trim_is_trimmed(s: Seq<char>)
    ensures
        is_trimmed(trim(s)),
{
    let t = trim_start(s);
    lemma_trim_start_shape(s);
    lemma_trim_end_shape(t);
    if trim_end(t).len() > 0 {
        assert(trim_end(t)[0] == t[0]);
    }
}

/// Removes leading and trailing whitespace, as `str::trim` does.
pub fn trim_str(s: &str) -> (r: String)
    ensures
        r@ == trim(s@),
{
    let n: usize = s.unicode_len();
    let mut i: usize = 0;
    assert(s@.subrange(0, n as int) =~= s@);
    while i < n && is_white_char(s.get_char(i))
        invariant
            n == s@.len(),
            i <= n,
            trim_start(s@) == trim_start(s@.subrange(i as int, n as int)),
        decreases n - i,
    {
        assert(s@.subrange(i as int, n as int).drop_first() =~= s@.subrange(i + 1, n as int));
        i = i + 1;
    }
    assert(trim_start(s@) == s@.subrange(i as int, n as int));
    let mut j: usize = n;
    while j > i && is_white_char(s.get_char(j - 1))
        invariant
            n == s@.len(),
            i <= j <= n,
            trim_start(s@) == s@.subrange(i as int, n as int),
            trim_end(s@.subrange(i as int, n as int)) == trim_end(s@.subrange(i as int, j as int)),
        decreases j,
    {
        assert(s@.subrange(i as int, j as int).drop_last() =~= s@.subrange(i as int, j - 1));
        j = j - 1;
    }
    assert(trim_end(s@.subrange(i as int, j as int)) == s@.subrange(i as int, j as int));
    String::from_str(s.substring_char(i, j))
}

/// Tests whether two texts hold the same characters.
pub fn same_text(a: &str, b: &str) -> (r: bool)
    ensures
        r == (a@ == b@),
{
    let an: usize = a.unicode_len();
    let bn: usize = b.unicode_len();
    if an != bn {
        return false;
    }
    let r: bool = matches_at(a, 0, b);
    assert(a@.subrange(0, b@.len() as int) =~= a@);
    r
}

/// `t` occurs in `s` as a contiguous piece.
pub open spec fn contains_text(s: Seq<char>, t: Seq<char>) -> bool {
    exists|i: int| 0 <= i && i + t.len() <= s.len() && #[trigger] s.subrange(i, i + t.len()) == t
}

/// `p` is a prefix of `s`.
pub open spec fn has_prefix(s: Seq<char>, p: Seq<char>) -> bool {
    p.len() <= s.len() && s.subrange(0, p.len() as int) == p
}

/// `p` is a suffix of `s`.
pub open spec fn has_suffix(s: Seq<char>, p: Seq<char>) -> bool {
    p.len() <= s.len() && s.subrange(s.len() - p.len(), s.len() as int) == p
}

/// What `str::strip_prefix` gives: the rest of `s` after the prefix `p`, if `p` is one.
pub open spec fn after_prefix(s: Seq<char>, p: Seq<char>) -> Option<Seq<char>> {
    if has_prefix(s, p) {
        Some(s.subrange(p.len() as int, s.len() as int))
    } else {
        None
    }
}

/// What `str::strip_suffix` gives: `s` before the suffix `p`, if `p` is one.
pub open spec fn before_suffix(s: Seq<char>, p: Seq<char>) -> Option<Seq<char>> {
    if has_suffix(s, p) {
        Some(s.subrange(0, s.len() - p.len()))
    } else {
        None
    }
}

/// Tests whether the characters of `s` from `start` on begin with `p`.
fn matches_at(s: &str, start: usize, p: &str) -> (r: bool)
    requires
        start as int + p@.len() <= s@.len(),
    ensures
        r == (s@.subrange(start as int, start + p@.len()) == p@),
{
    let pn: usize = p.unicode_len();
    let sn: usize = s.unicode_len();
    let mut k: usize = 0;
    while k < pn
        invariant
            pn == p@.len(),
            sn == s@.len(),
            start as int + pn <= s@.len(),
            k <= pn,
            forall|t: int| 0 <= t < k ==> s@[start + t] == p@[t],
        decreases pn - k,
    {
        if s.get_char(start + k) != p.get_char(k) {
            assert(s@.subrange(start as int, start + p@.len())[k as int] != p@[k as int]);
            return false;
        }
        k = k + 1;
    }
    assert(s@.subrange(start as int, start + p@.len()) =~= p@);
    true
}

/// Removes the prefix `p` from `s`, as `str::strip_prefix` does.
pub fn strip_prefix_str(s: &str, p: &str) -> (r: Option<String>)
    ensures
        r.deep_view() == after_prefix(s@, p@),
{
    let n: usize = s.unicode_len();
    let pn: usize = p.unicode_len();
    if pn <= n && matches_at(s, 0, p) {
        Some(String::from_str(s.substring_char(pn, n)))
    } else {
        None
    }
}

/// Removes the suffix `p` from `s`, as `str::strip_suffix` does.
pub fn strip_suffix_str(s: &str, p: &str) -> (r: Option<String>)
    ensures
        r.deep_view() == before_suffix(s@, p@),
{
    let n: usize = s.unicode_len();
    let pn: usize = p.unicode_len();
    if pn <= n && matches_at(s, n - pn, p) {
        Some(String::from_str(s.substring_char(0, n - pn)))
    } else {
        None
    }
}

/// `k` is the position of the first line feed in `s`.
pub open spec fn first_break_at(s: Seq<char>, k: int) -> bool {
    &&& 0 <= k < s.len()
    &&& s[k] == '\n'
    &&& forall|j: int| 0 <= j < k ==> s[j] != '\n'
}

/// Where the first line of `s` ends: its first line feed, or the end of `s`.
pub open spec fn line_end(s: Seq<char>) -> int {
    if exists|k: int| first_break_at(s, k) {
        choose|k: int| first_break_at(s, k)
    } else {
        s.len() as int
    }
}

/// The first line of `s` as `str::lines` yields it (the empty text when `s` is
/// empty): the text before the first line feed, without a carriage return
/// that stands directly before that line feed.
pub open spec fn first_line(s: Seq<char>) -> Seq<char> {
    let e = line_end(s);
    if e < s.len() && e > 0 && s[e - 1] == '\r' {
        s.subrange(0, e - 1)
    } else {
        s.subrange(0, e)
    }
}

/// The first line of `source`, or the empty text when it has none.
pub fn first_line_of(source: &str) -> (r: String)
    ensures
        r@ == first_line(source@),
{
    let n: usize = source.unicode_len();
    let mut k: usize = 0;
    while k < n && source.get_char(k) != '\n'
        invariant
            n == source@.len(),
            k <= n,
            forall|j: int| 0 <= j < k ==> source@[j] != '\n',
        decreases n - k,
    {
        k = k + 1;
    }
    proof {
        if k < n {
            assert(first_break_at(source@, k as int));
            let c = choose|c: int| first_break_at(source@, c);
            assert(c == k) by {
                if c < k {
                    assert(source@[c] != '\n');
                } else if c > k {
                    assert(source@[k as int] != '\n');
                }
            }
        } else {
            assert(!exists|c: int| first_break_at(source@, c));
        }
        assert(line_end(source@) == k);
    }
    if k < n && k > 0 && source.get_char(k - 1) == '\r' {
        String::from_str(source.substring_char(0, k - 1))
    } else {
        String::from_str(source.substring_char(0, k))
    }
}

/// The decimal digit for `d < 10`.
pub open spec fn digit(d: nat) -> char {
    if d == 0 {
        '0'
    } else if d == 1 {
        '1'
    } else if d == 2 {
        '2'
    } else if d == 3 {
        '3'
    } else if d == 4 {
        '4'
    } else if d == 5 {
        '5'
    } else if d == 6 {
        '6'
    } else if d == 7 {
        '7'
    } else if d == 8 {
        '8'
    } else {
        '9'
    }
}

/// The decimal rendering of `n`, without sign or leading zeros.
pub open spec fn decimal(n: nat) -> Seq<char>
    decreases n,
{
    if n < 10 {
        seq![digit(n)]
    } else {
        decimal(n / 10).push(digit(n % 10))
    }
}

/// The value of a decimal digit character.
pub open spec fn digit_value(c: char) -> nat {
    if c == '1' {
        1
    } else if c == '2' {
        2
    } else if c == '3' {
        3
    } else if c == '4' {
        4
    } else if c == '5' {
        5
    } else if c == '6' {
        6
    } else if c == '7' {
        7
    } else if c == '8' {
        8
    } else if c == '9' {
        9
    } else {
        0
    }
}

/// The number that a text of decimal digits denotes.
pub open spec fn decimal_value(s: Seq<char>) -> nat
    decreases s.len(),
{
    if s.len() == 0 {
        0
    } else {
        decimal_value(s.drop_last()) * 10 + digit_value(s.last())
    }
}

proof fn lemma_digit_value(d: nat)
    requires
        d < 10,
    ensures
        digit_value(digit(d)) == d,
{
    if d == 0 {
    } else if d == 1 {
    } else if d == 2 {
    } else if d == 3 {
    } else if d == 4 {
    } else if d == 5 {
    } else if d == 6 {
    } else if d == 7 {
    } else if d == 8 {
    } else {
    }
}

/// The decimal rendering of a number reads back as that number.
pub proof fn lemma_decimal_round_trip(n: nat)
    ensures
        decimal_value(decimal(n)) == n,
    decreases n,
{
    if n >= 10 {
        lemma_decimal_round_trip(n / 10);
        lemma_digit_value(n % 10);
        assert(decimal(n).drop_last() =~= decimal(n / 10));
        assert(decimal(n).last() == digit(n % 10));
        assert(decimal(n).len() > 0);
        assert(decimal_value(decimal(n)) == decimal_value(decimal(n / 10)) * 10 + digit_value(
            digit(n % 10),
        ));
        assert(n == (n / 10) * 10 + n % 10) by (nonlinear_arith);
    } else {
        lemma_digit_value(n);
        assert(decimal(n).drop_last() =~= Seq::<char>::empty());
        assert(decimal(n).len() == 1);
        assert(decimal_value(decimal(n)) == decimal_value(Seq::<char>::empty()) * 10 + digit_value(
            digit(n),
        ));
    }
}

/// The one-character text of the digit `d`.
fn digit_text(d: u64) -> (r: &'static str)
    requires
        d < 10,
    ensures
        r@ == seq![digit(d as nat)],
{
    let digits: &'static str = "0123456789";
    proof {
        reveal_strlit("0123456789");
    }
    let r: &'static str = digits.substring_ascii(d as usize, d as usize + 1);
    assert(r@ =~= seq![digit(d as nat)]);
    r
}

/// Renders `n` in decimal, as `n.to_string()` does.
pub fn decimal_string(n: u64) -> (r: String)
    ensures
        r@ == decimal(n as nat),
    decreases n,
{
    if n < 10 {
        String::from_str(digit_text(n))
    } else {
        let mut s: String = decimal_string(n / 10);
        s.append(digit_text(n % 10));
        s
    }
}

} // verus!
