//! Small verified string utilities shared by the other modules.

use vstd::prelude::*;
use crate::external::push_char;
use vstd::string::StrSliceExecFns;
use vstd::string::StringExecFns;

verus! {

/// The decimal digit character for `d` (0 to 9).
pub open spec fn digit_char(d: nat) -> char {
    if d == 0 { '0' }
    else if d == 1 { '1' }
    else if d == 2 { '2' }
    else if d == 3 { '3' }
    else if d == 4 { '4' }
    else if d == 5 { '5' }
    else if d == 6 { '6' }
    else if d == 7 { '7' }
    else if d == 8 { '8' }
    else { '9' }
}

/// The decimal rendering of `n`, without sign or leading zeros (as `format!("{n}")`).
pub open spec fn decimal(n: nat) -> Seq<char>
    decreases n,
{
    if n < 10 {
        seq![digit_char(n)]
    } else {
        decimal(n / 10).push(digit_char(n % 10))
    }
}

fn digit_to_char(d: u64) -> (c: char)
    requires
        d < 10,
    ensures
        c == digit_char(d as nat),
{
    if d == 0 { '0' }
    else if d == 1 { '1' }
    else if d == 2 { '2' }
    else if d == 3 { '3' }
    else if d == 4 { '4' }
    else if d == 5 { '5' }
    else if d == 6 { '6' }
    else if d == 7 { '7' }
    else if d == 8 { '8' }
    else { '9' }
}

/// Appends the decimal rendering of `n` to `out`.
pub fn push_decimal(out: &mut String, n: u64)
    ensures
        final(out)@ == old(out)@ + decimal(n as nat),
    decreases n,
{
    if n >= 10 {
        push_decimal(out, n / 10);
    }
    let d = digit_to_char(n % 10);
    push_char(out, d);
    proof {
        if n >= 10 {
            assert(old(out)@ + decimal(n as nat) =~= old(out)@ + decimal((n / 10) as nat) + seq![d]);
        } else {
            assert(old(out)@ + decimal(n as nat) =~= old(out)@.push(d));
        }
    }
}

/// The decimal rendering of `n` as a new string.
pub fn decimal_string(n: u64) -> (s: String)
    ensures
        s@ == decimal(n as nat),
{
    let mut s = String::new();
    push_decimal(&mut s, n);
    assert(s@ =~= decimal(n as nat));
    s
}

} // verus!

verus! {

/// `c` with an ASCII upper-case letter mapped to its lower-case form
/// (as `char::to_ascii_lowercase`).
pub open spec fn ascii_lower(c: char) -> char {
    if 'A' <= c && c <= 'Z' {
        ((c as u32) + 32) as char
    } else {
        c
    }
}

pub fn ascii_lower_char(c: char) -> (r: char)
    ensures
        r == ascii_lower(c),
{
    if 'A' <= c && c <= 'Z' {
        let b: u8 = ((c as u32) + 32) as u8;
        let r = b as char;
        assert(r == ((c as u32) + 32) as char);
        r
    } else {
        c
    }
}

} // verus!

verus! {

/// `p` is a prefix of `s` (as `str::starts_with` with a string pattern).
pub open spec fn is_prefix(p: Seq<char>, s: Seq<char>) -> bool {
    p.len() <= s.len() && s.subrange(0, p.len() as int) == p
}

pub fn starts_with(s: &str, p: &str) -> (r: bool)
    ensures
        r == is_prefix(p@, s@),
{
    let n = s.unicode_len();
    let m = p.unicode_len();
    if m > n {
        return false;
    }
    let mut i: usize = 0;
    while i < m
        invariant
            n == s@.len(),
            m == p@.len(),
            m <= n,
            i <= m,
            forall|j: int| 0 <= j < i ==> s@[j] == p@[j],
        decreases m - i,
    {
        if s.get_char(i) != p.get_char(i) {
            assert(s@.subrange(0, m as int)[i as int] != p@[i as int]);
            return false;
        }
        i = i + 1;
    }
    assert(s@.subrange(0, m as int) =~= p@);
    true
}

/// Equality of two strings after ASCII lower-casing both
/// (as `str::eq_ignore_ascii_case`).
pub open spec fn eq_ignore_ascii_case(a: Seq<char>, b: Seq<char>) -> bool {
    a.len() == b.len() && forall|i: int| 0 <= i < a.len() ==> ascii_lower(#[trigger] a[i]) == ascii_lower(b[i])
}

pub fn str_eq_ignore_ascii_case(a: &str, b: &str) -> (r: bool)
    ensures
        r == eq_ignore_ascii_case(a@, b@),
{
    let n = a.unicode_len();
    if n != b.unicode_len() {
        return false;
    }
    let mut i: usize = 0;
    while i < n
        invariant
            n == a@.len(),
            n == b@.len(),
            i <= n,
            forall|j: int| 0 <= j < i ==> ascii_lower(#[trigger] a@[j]) == ascii_lower(b@[j]),
        decreases n - i,
    {
        let x = ascii_lower_char(a.get_char(i));
        let y = ascii_lower_char(b.get_char(i));
        if x != y {
            return false;
        }
        i = i + 1;
    }
    true
}

/// `s` with every leading `c` removed.
pub open spec fn strip_leading(s: Seq<char>, c: char) -> Seq<char>
    decreases s.len(),
{
    if s.len() > 0 && s[0] == c {
        strip_leading(s.drop_first(), c)
    } else {
        s
    }
}

/// `s` with every trailing `c` removed.
pub open spec fn strip_trailing(s: Seq<char>, c: char) -> Seq<char>
    decreases s.len(),
{
    if s.len() > 0 && s.last() == c {
        strip_trailing(s.drop_last(), c)
    } else {
        s
    }
}

/// `s` with every leading and trailing `c` removed (as `str::trim_matches(c)`).
pub open spec fn trim_matches(s: Seq<char>, c: char) -> Seq<char> {
    strip_trailing(strip_leading(s, c), c)
}

pub fn trim_matches_char(s: &str, c: char) -> (r: String)
    ensures
        r@ == trim_matches(s@, c),
{
    let n = s.unicode_len();
    let mut a: usize = 0;
    assert(s@.subrange(0, n as int) =~= s@);
    while a < n && s.get_char(a) == c
        invariant
            n == s@.len(),
            a <= n,
            strip_leading(s@, c) == strip_leading(s@.subrange(a as int, n as int), c),
        decreases n - a,
    {
        assert(s@.subrange(a as int, n as int).drop_first() =~= s@.subrange(a + 1, n as int));
        a = a + 1;
    }
    assert(strip_leading(s@, c) == s@.subrange(a as int, n as int));
    let mut b: usize = n;
    while b > a && s.get_char(b - 1) == c
        invariant
            n == s@.len(),
            a <= b <= n,
            strip_trailing(s@.subrange(a as int, n as int), c) == strip_trailing(s@.subrange(a as int, b as int), c),
        decreases b - a,
    {
        assert(s@.subrange(a as int, b as int).drop_last() =~= s@.subrange(a as int, b - 1));
        b = b - 1;
    }
    let t = s.substring_char(a, b);
    String::from_str(t)
}

} // verus!

verus! {

pub fn str_equal(a: &str, b: &str) -> (r: bool)
    ensures
        r == (a@ == b@),
{
    let n = a.unicode_len();
    if n != b.unicode_len() {
        return false;
    }
    let mut i: usize = 0;
    while i < n
        invariant
            n == a@.len(),
            n == b@.len(),
            i <= n,
            forall|j: int| 0 <= j < i ==> a@[j] == b@[j],
        decreases n - i,
    {
        if a.get_char(i) != b.get_char(i) {
            return false;
        }
        i = i + 1;
    }
    assert(a@ =~= b@);
    true
}

/// The index of the first `.` in `s` at or after `i`, or `s.len()` if there is none.
pub open spec fn find_dot_from(s: Seq<char>, i: int) -> int
    decreases s.len() - i,
{
    if i >= s.len() {
        s.len() as int
    } else if s[i] == '.' {
        i
    } else {
        find_dot_from(s, i + 1)
    }
}

/// The index of the last `.` in `s` before `end`, or `-1` if there is none.
pub open spec fn last_dot_before(s: Seq<char>, end: int) -> int
    decreases end,
{
    if end <= 0 {
        -1
    } else if s[end - 1] == '.' {
        end - 1
    } else {
        last_dot_before(s, end - 1)
    }
}

/// The file prefix of a file name (as `Path::file_prefix`): the part before
/// the first `.` that is not the first character.
pub open spec fn file_prefix(name: Seq<char>) -> Seq<char> {
    if name.len() == 0 {
        name
    } else {
        name.subrange(0, find_dot_from(name, 1))
    }
}

/// The extension of a file name (as `Path::extension`): the part after the
/// last `.`, unless there is none or it is the first character.
pub open spec fn file_extension(name: Seq<char>) -> Option<Seq<char>> {
    let j = last_dot_before(name, name.len() as int);
    if j <= 0 {
        None
    } else {
        Some(name.subrange(j + 1, name.len() as int))
    }
}

/// Where the file prefix of `name` ends.
pub fn file_prefix_end(name: &str) -> (e: usize)
    ensures
        name@.len() == 0 ==> e == 0,
        name@.len() > 0 ==> e == find_dot_from(name@, 1),
        e <= name@.len(),
{
    let n = name.unicode_len();
    if n == 0 {
        return 0;
    }
    let mut i: usize = 1;
    while i < n && name.get_char(i) != '.'
        invariant
            n == name@.len(),
            n > 0,
            1 <= i <= n,
            find_dot_from(name@, 1) == find_dot_from(name@, i as int),
        decreases n - i,
    {
        i = i + 1;
    }
    i
}

/// Where the extension of `name` starts, if it has one.
pub fn file_extension_start(name: &str) -> (r: Option<usize>)
    ensures
        match r {
            Some(k) => last_dot_before(name@, name@.len() as int) > 0
                && k == last_dot_before(name@, name@.len() as int) + 1 && k <= name@.len(),
            None => last_dot_before(name@, name@.len() as int) <= 0,
        },
{
    let n = name.unicode_len();
    let mut end: usize = n;
    while end > 0 && name.get_char(end - 1) != '.'
        invariant
            n == name@.len(),
            end <= n,
            last_dot_before(name@, n as int) == last_dot_before(name@, end as int),
        decreases end,
    {
        end = end - 1;
    }
    if end <= 1 {
        None
    } else {
        Some(end)
    }
}

/// A file name that `find_target_icons` accepts for `target`: its prefix
/// starts with `target` and its extension is `ico` or `png` in any ASCII case.
pub open spec fn icon_name_matches(name: Seq<char>, target: Seq<char>) -> bool {
    &&& is_prefix(target, file_prefix(name))
    &&& file_extension(name) matches Some(ext)
    &&& (eq_ignore_ascii_case(ext, "ico"@) || eq_ignore_ascii_case(ext, "png"@))
}

pub fn icon_file_matches(name: &str, target: &str) -> (r: bool)
    ensures
        r == icon_name_matches(name@, target@),
{
    let e = file_prefix_end(name);
    let prefix = name.substring_char(0, e);
    if !starts_with(prefix, target) {
        return false;
    }
    match file_extension_start(name) {
        None => false,
        Some(k) => {
            let ext = name.substring_char(k, name.unicode_len());
            str_eq_ignore_ascii_case(ext, "ico") || str_eq_ignore_ascii_case(ext, "png")
        },
    }
}

} // verus!

verus! {

proof fn lemma_strip_leading_clean(s: Seq<char>, c: char)
    ensures
        strip_leading(s, c).len() > 0 ==> strip_leading(s, c)[0] != c,
    decreases s.len(),
{
    if s.len() > 0 && s[0] == c {
        lemma_strip_leading_clean(s.drop_first(), c);
    }
}

proof fn lemma_strip_trailing_prefix(s: Seq<char>, c: char)
    ensures
        strip_trailing(s, c).len() <= s.len(),
        strip_trailing(s, c) == s.subrange(0, strip_trailing(s, c).len() as int),
        strip_trailing(s, c).len() > 0 ==> strip_trailing(s, c).last() != c,
    decreases s.len(),
{
    if s.len() > 0 && s.last() == c {
        lemma_strip_trailing_prefix(s.drop_last(), c);
        let t = strip_trailing(s.drop_last(), c);
        assert(s.drop_last().subrange(0, t.len() as int) =~= s.subrange(0, t.len() as int));
    } else {
        assert(s.subrange(0, s.len() as int) =~= s);
    }
}

/// Trimming leaves no `c` at either end of the string, and trimming again
/// changes nothing.
pub proof fn lemma_trim_matches_clean(s: Seq<char>, c: char)
    ensures
        trim_matches(s, c).len() > 0 ==> trim_matches(s, c)[0] != c && trim_matches(s, c).last() != c,
        trim_matches(trim_matches(s, c), c) == trim_matches(s, c),
{
    let l = strip_leading(s, c);
    lemma_strip_leading_clean(s, c);
    lemma_strip_trailing_prefix(l, c);
    let t = strip_trailing(l, c);
    if t.len() > 0 {
        assert(t[0] == l[0]);
    }
    assert(strip_leading(t, c) == t);
    lemma_strip_trailing_prefix(t, c);
    assert(strip_trailing(t, c) == t);
}

} // verus!

verus! {

/// The value of a decimal digit character.
pub open spec fn digit_value(c: char) -> nat {
    if c == '1' { 1 }
    else if c == '2' { 2 }
    else if c == '3' { 3 }
    else if c == '4' { 4 }
    else if c == '5' { 5 }
    else if c == '6' { 6 }
    else if c == '7' { 7 }
    else if c == '8' { 8 }
    else if c == '9' { 9 }
    else { 0 }
}

/// The number a string of decimal digits denotes.
pub open spec fn digits_value(s: Seq<char>) -> nat
    decreases s.len(),
{
    if s.len() == 0 {
        0
    } else {
        digits_value(s.drop_last()) * 10 + digit_value(s.last())
    }
}

/// The decimal rendering is non-empty, starts with `0` only for zero, and
/// reads back as the number it renders.
pub proof fn lemma_decimal_reads_back(n: nat)
    ensures
        decimal(n).len() > 0,
        decimal(n)[0] == '0' ==> n == 0,
        digits_value(decimal(n)) == n,
    decreases n,
{
    if n >= 10 {
        lemma_decimal_reads_back(n / 10);
        let d = decimal(n);
        assert(d.drop_last() == decimal(n / 10));
        assert(d[0] == decimal(n / 10)[0]);
        vstd::arithmetic::div_mod::lemma_fundamental_div_mod(n as int, 10);
        assert(digits_value(d) == digits_value(decimal(n / 10)) * 10 + digit_value(digit_char(n % 10)));
        assert(digit_value(digit_char(n % 10)) == n % 10);
    } else {
        let d = decimal(n);
        assert(d.drop_last() =~= Seq::<char>::empty());
        assert(d.last() == digit_char(n));
        assert(digits_value(d.drop_last()) == 0);
        assert(digits_value(d) == digit_value(digit_char(n)));
    }
}

} // verus!
