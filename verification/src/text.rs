//! Helpers on character sequences: trimming, splitting and affix tests.

use vstd::prelude::*;

verus! {

/// Whether `c` is white space: one of the code points that have Unicode's
/// `White_Space` property.
pub open spec fn white_space(c: char) -> bool {
    let n = c as u32;
    ||| 0x09 <= n <= 0x0d
    ||| n == 0x20
    ||| n == 0x85
    ||| n == 0xa0
    ||| n == 0x1680
    ||| 0x2000 <= n <= 0x200a
    ||| n == 0x2028
    ||| n == 0x2029
    ||| n == 0x202f
    ||| n == 0x205f
    ||| n == 0x3000
}

/// `s` without its leading white space.
pub open spec fn trim_start(s: Seq<char>) -> Seq<char>
    decreases s.len(),
{
    if s.len() > 0 && white_space(s[0]) {
        trim_start(s.drop_first())
    } else {
        s
    }
}

/// `s` without its trailing white space.
pub open spec fn trim_end(s: Seq<char>) -> Seq<char>
    decreases s.len(),
{
    if s.len() > 0 && white_space(s.last()) {
        trim_end(s.drop_last())
    } else {
        s
    }
}

/// `s` without leading and trailing white space.
pub open spec fn trimmed(s: Seq<char>) -> Seq<char> {
    trim_end(trim_start(s))
}

/// The pieces of `s` between occurrences of `sep`, in order. There is always
/// at least one piece, and pieces may be empty.
pub open spec fn split(s: Seq<char>, sep: char) -> Seq<Seq<char>>
    decreases s.len(),
{
    if s.len() == 0 {
        seq![Seq::<char>::empty()]
    } else {
        let before = split(s.drop_last(), sep);
        if s.last() == sep {
            before.push(Seq::<char>::empty())
        } else {
            before.drop_last().push(before.last().push(s.last()))
        }
    }
}

/// The pieces joined, with `sep` between each two of them.
pub open spec fn join(pieces: Seq<Seq<char>>, sep: Seq<char>) -> Seq<char>
    decreases pieces.len(),
{
    if pieces.len() == 0 {
        Seq::empty()
    } else if pieces.len() == 1 {
        pieces[0]
    } else {
        join(pieces.drop_last(), sep) + sep + pieces.last()
    }
}

/// The decimal digit `d`, as text.
pub open spec fn digit(d: nat) -> Seq<char> {
    if d == 0 {
        "0"@
    } else if d == 1 {
        "1"@
    } else if d == 2 {
        "2"@
    } else if d == 3 {
        "3"@
    } else if d == 4 {
        "4"@
    } else if d == 5 {
        "5"@
    } else if d == 6 {
        "6"@
    } else if d == 7 {
        "7"@
    } else if d == 8 {
        "8"@
    } else {
        "9"@
    }
}

/// The number `n` in decimal, without leading zeros.
pub open spec fn decimal_of(n: nat) -> Seq<char>
    decreases n,
{
    if n < 10 {
        digit(n)
    } else {
        decimal_of(n / 10) + digit(n % 10)
    }
}

/// The views of a vector of strings.
pub open spec fn views(v: Seq<String>) -> Seq<Seq<char>> {
    v.map_values(|s: String| s@)
}

/// The view of an optional string.
pub open spec fn opt_view(o: Option<String>) -> Option<Seq<char>> {
    match o {
        Some(s) => Some(s@),
        None => None,
    }
}

/// Calls `char::is_whitespace`, which tells whether a character has Unicode's
/// `White_Space` property. The contract lists the code points that have it.
#[verifier::external_body]
fn is_white_space(c: char) -> (r: bool)
    ensures
        r == white_space(c),
{
    c.is_whitespace()
}

/// The characters of `s`, in order.
pub fn chars_of(s: &str) -> (v: Vec<char>)
    ensures
        v@ == s@,
{
    let mut v: Vec<char> = Vec::new();
    for c in it: s.chars()
        invariant
            v@ == it.seq().take(it.index() as int),
            it.seq() == s@,
    {
        v.push(c);
    }
    v
}

/// Whether `s` begins with `prefix`.
pub fn starts_with(s: &str, prefix: &str) -> (r: bool)
    ensures
        r == prefix@.is_prefix_of(s@),
{
    let a = chars_of(s);
    let p = chars_of(prefix);
    if p.len() > a.len() {
        return false;
    }
    let mut i: usize = 0;
    while i < p.len()
        invariant
            i <= p.len() <= a.len(),
            a@ == s@,
            p@ == prefix@,
            forall|k: int| 0 <= k < i ==> a@[k] == p@[k],
        decreases p.len() - i,
    {
        if a[i] != p[i] {
            assert(a@.subrange(0, p@.len() as int)[i as int] == a@[i as int]);
            return false;
        }
        i += 1;
    }
    assert(p@ =~= a@.subrange(0, p@.len() as int));
    true
}

/// Whether `s` ends with `suffix`.
pub fn ends_with(s: &str, suffix: &str) -> (r: bool)
    ensures
        r == suffix@.is_suffix_of(s@),
{
    let a = chars_of(s);
    let p = chars_of(suffix);
    if p.len() > a.len() {
        return false;
    }
    let shift: usize = a.len() - p.len();
    let mut i: usize = 0;
    while i < p.len()
        invariant
            i <= p.len() <= a.len(),
            a@ == s@,
            p@ == suffix@,
            shift == a.len() - p.len(),
            forall|k: int| 0 <= k < i ==> a@[shift + k] == p@[k],
        decreases p.len() - i,
    {
        if a[shift + i] != p[i] {
            assert(a@.subrange(shift as int, a@.len() as int)[i as int] == a@[shift + i]);
            return false;
        }
        i += 1;
    }
    assert(p@ =~= a@.subrange(shift as int, a@.len() as int));
    true
}

/// `s` without leading and trailing white space.
pub fn trim(s: &str) -> (t: &str)
    ensures
        t@ == trimmed(s@),
{
    let chars = chars_of(s);
    let n: usize = chars.len();
    let mut i: usize = 0;
    assert(chars@.skip(0) =~= chars@);
    while i < n && is_white_space(chars[i])
        invariant
            i <= n == chars@.len(),
            trim_start(chars@) == trim_start(chars@.skip(i as int)),
        decreases n - i,
    {
        assert(chars@.skip(i as int).drop_first() =~= chars@.skip(i + 1));
        i += 1;
    }
    let ghost rest = chars@.skip(i as int);
    assert(trim_start(chars@) == rest);
    let mut j: usize = n;
    assert(rest =~= chars@.subrange(i as int, j as int));
    while j > i && is_white_space(chars[j - 1])
        invariant
            i <= j <= n == chars@.len(),
            trim_end(rest) == trim_end(chars@.subrange(i as int, j as int)),
        decreases j,
    {
        assert(chars@.subrange(i as int, j as int).drop_last() =~= chars@.subrange(
            i as int,
            j - 1,
        ));
        j -= 1;
    }
    s.substring_char(i, j)
}

/// The pieces of `s` between occurrences of `sep`.
pub fn split_on(s: &str, sep: char) -> (parts: Vec<String>)
    ensures
        views(parts@) == split(s@, sep),
{
    let chars = chars_of(s);
    let n: usize = chars.len();
    let mut parts: Vec<String> = Vec::new();
    let mut start: usize = 0;
    let mut i: usize = 0;
    assert(chars@.take(0) =~= Seq::<char>::empty());
    assert(views(parts@).push(chars@.subrange(0, 0)) =~= split(chars@.take(0), sep));
    while i < n
        invariant
            start <= i <= n == chars@.len(),
            chars@ == s@,
            split(chars@.take(i as int), sep) == views(parts@).push(
                chars@.subrange(start as int, i as int),
            ),
        decreases n - i,
    {
        let ghost before = split(chars@.take(i as int), sep);
        assert(chars@.take(i + 1).drop_last() =~= chars@.take(i as int));
        if chars[i] == sep {
            let piece = s.substring_char(start, i).to_owned();
            let ghost old_parts = parts@;
            parts.push(piece);
            assert(views(parts@) =~= views(old_parts).push(piece@));
            start = i + 1;
            assert(chars@.subrange(start as int, i + 1) =~= Seq::<char>::empty());
        } else {
            assert(before.drop_last() =~= views(parts@));
            assert(before.last().push(chars@[i as int]) =~= chars@.subrange(
                start as int,
                i + 1,
            ));
        }
        i += 1;
    }
    assert(chars@.take(n as int) =~= chars@);
    let piece = s.substring_char(start, n).to_owned();
    let ghost old_parts = parts@;
    parts.push(piece);
    assert(views(parts@) =~= views(old_parts).push(piece@));
    parts
}

/// The pieces joined, with `sep` between each two of them.
pub fn join_with(pieces: &Vec<String>, sep: &str) -> (joined: String)
    ensures
        joined@ == join(views(pieces@), sep@),
{
    let mut joined = String::new();
    let n: usize = pieces.len();
    let mut i: usize = 0;
    while i < n
        invariant
            i <= n == pieces.len(),
            joined@ == join(views(pieces@).take(i as int), sep@),
        decreases n - i,
    {
        let ghost all = views(pieces@);
        assert(all.take(i + 1).drop_last() =~= all.take(i as int));
        assert(all.take(i + 1).last() == pieces@[i as int]@);
        if i > 0 {
            joined.append(sep);
        }
        joined.append(pieces[i].as_str());
        assert(joined@ =~= join(all.take(i + 1), sep@));
        i += 1;
    }
    assert(views(pieces@).take(n as int) =~= views(pieces@));
    joined
}

/// Whether two texts are the same.
pub fn same(a: &str, b: &str) -> (r: bool)
    ensures
        r == (a@ == b@),
{
    let x = a.to_owned();
    let y = b.to_owned();
    x == y
}

/// The decimal digit `d`, as text.
fn digit_text(d: u64) -> (r: &'static str)
    requires
        d < 10,
    ensures
        r@ == digit(d as nat),
{
    match d {
        0 => "0",
        1 => "1",
        2 => "2",
        3 => "3",
        4 => "4",
        5 => "5",
        6 => "6",
        7 => "7",
        8 => "8",
        _ => "9",
    }
}

/// The number `n` in decimal, without leading zeros.
pub fn decimal(n: u64) -> (r: String)
    ensures
        r@ == decimal_of(n as nat),
    decreases n,
{
    if n < 10 {
        digit_text(n).to_owned()
    } else {
        let mut r = decimal(n / 10);
        r.append(digit_text(n % 10));
        r
    }
}

/// Splitting yields at least one piece.
pub proof fn split_is_not_empty(s: Seq<char>, sep: char)
    ensures
        split(s, sep).len() >= 1,
    decreases s.len(),
{
    if s.len() > 0 {
        split_is_not_empty(s.drop_last(), sep);
    }
}

} // verus!
