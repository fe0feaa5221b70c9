//! Text helpers shared by the query builders and the filters: decimal
//! rendering of integers, joining, substring search and case mapping.
use vstd::prelude::*;
use vstd::string::*;

verus! {

/// The decimal digit character of `d` (0 <= d < 10).
pub open spec fn digit_char(d: int) -> char {
    if d == 0 { '0' }
    else if d == 1 { '1' }
    else if d == 2 { '2' }
    else if d == 3 { '3' }
    else if d == 4 { '4' }
    else if d == 5 { '5' }
    else if d == 6 { '6' }
    else if d == 7 { '7' }
    else if d == 8 { '8' }
    else { '9' }
}

/// The decimal digits of a natural number, most significant first, no leading zeros.
pub open spec fn nat_digits(n: nat) -> Seq<char>
    decreases n,
{
    if n < 10 {
        seq![digit_char(n as int)]
    } else {
        nat_digits((n / 10) as nat).push(digit_char((n % 10) as int))
    }
}

/// The decimal rendering of an integer, with a leading `-` for negative values.
pub open spec fn decimal(v: int) -> Seq<char> {
    if v < 0 {
        seq!['-'].add(nat_digits((-v) as nat))
    } else {
        nat_digits(v as nat)
    }
}

/// The text of one decimal digit.
fn digit_text(d: u64) -> (r: &'static str)
    requires
        d < 10,
    ensures
        r@ == seq![digit_char(d as int)],
{
    match d {
        0 => {
            proof {
                reveal_strlit("0");
            }
            "0"
        },
        1 => {
            proof {
                reveal_strlit("1");
            }
            "1"
        },
        2 => {
            proof {
                reveal_strlit("2");
            }
            "2"
        },
        3 => {
            proof {
                reveal_strlit("3");
            }
            "3"
        },
        4 => {
            proof {
                reveal_strlit("4");
            }
            "4"
        },
        5 => {
            proof {
                reveal_strlit("5");
            }
            "5"
        },
        6 => {
            proof {
                reveal_strlit("6");
            }
            "6"
        },
        7 => {
            proof {
                reveal_strlit("7");
            }
            "7"
        },
        8 => {
            proof {
                reveal_strlit("8");
            }
            "8"
        },
        _ => {
            proof {
                reveal_strlit("9");
            }
            "9"
        },
    }
}

/// The decimal digits of `n`, most significant first.
fn nat_to_string(n: u64) -> (r: String)
    ensures
        r@ == nat_digits(n as nat),
    decreases n,
{
    if n < 10 {
        String::from_str(digit_text(n))
    } else {
        let mut s = nat_to_string(n / 10);
        let last = digit_text(n % 10);
        s.append(last);
        assert(s@ =~= nat_digits((n / 10) as nat).push(digit_char((n % 10) as int)));
        s
    }
}

/// Renders `v` in decimal, as `ToString` does for `i64`: the digits, with a leading
/// minus sign for negative numbers.
pub fn i64_to_string(v: i64) -> (r: String)
    ensures
        r@ == decimal(v as int),
{
    if v < 0 {
        let magnitude: u64 = (-(v as i128)) as u64;
        let digits = nat_to_string(magnitude);
        let mut s = String::from_str("-");
        proof {
            reveal_strlit("-");
        }
        s.append(digits.as_str());
        assert(s@ =~= seq!['-'].add(nat_digits((-v) as nat)));
        s
    } else {
        nat_to_string(v as u64)
    }
}

/// `"true"` or `"false"`, as `bool`'s `Display` writes it.
pub open spec fn bool_text(b: bool) -> Seq<char> {
    if b { "true"@ } else { "false"@ }
}

pub fn bool_to_string(b: bool) -> (r: String)
    ensures
        r@ == bool_text(b),
{
    if b {
        String::from_str("true")
    } else {
        String::from_str("false")
    }
}

/// True when every character is in the ASCII range.
pub open spec fn all_ascii(s: Seq<char>) -> bool {
    forall|i: int| 0 <= i < s.len() ==> (#[trigger] s[i]) as u32 <= 127
}

pub open spec fn ascii_upper_char(c: char) -> char {
    if 'a' <= c && c <= 'z' { ((c as u32) - 32) as char } else { c }
}

pub open spec fn ascii_lower_char(c: char) -> char {
    if 'A' <= c && c <= 'Z' { ((c as u32) + 32) as char } else { c }
}

pub open spec fn ascii_upper(s: Seq<char>) -> Seq<char> {
    s.map_values(|c: char| ascii_upper_char(c))
}

pub open spec fn ascii_lower(s: Seq<char>) -> Seq<char> {
    s.map_values(|c: char| ascii_lower_char(c))
}

/// What std's `str::to_uppercase` returns (Unicode case mapping).
pub uninterp spec fn unicode_upper(s: Seq<char>) -> Seq<char>;

/// What std's `str::to_lowercase` returns (Unicode case mapping).
pub uninterp spec fn unicode_lower(s: Seq<char>) -> Seq<char>;

/// Calls std's `str::to_uppercase`. Its result is named by `unicode_upper`; for
/// text made of ASCII characters only, the Unicode mapping is the ASCII one, which
/// the contract states too. Nothing more is claimed of non-ASCII text.
#[verifier::external_body]
pub(crate) fn to_uppercase(s: &str) -> (r: String)
    ensures
        r@ == unicode_upper(s@),
        all_ascii(s@) ==> r@ == ascii_upper(s@),
{
    s.to_uppercase()
}

/// Calls std's `str::to_lowercase`. Its result is named by `unicode_lower`; for
/// ASCII-only text the contract states the ASCII mapping. Nothing more is claimed
/// of non-ASCII text.
#[verifier::external_body]
pub(crate) fn to_lowercase(s: &str) -> (r: String)
    ensures
        r@ == unicode_lower(s@),
        all_ascii(s@) ==> r@ == ascii_lower(s@),
{
    s.to_lowercase()
}

pub open spec fn ascii_digit(c: char) -> bool {
    '0' <= c && c <= '9'
}

/// The number written by a run of ASCII digits.
pub open spec fn digits_value(s: Seq<char>) -> int
    decreases s.len(),
{
    if s.len() == 0 {
        0
    } else {
        digits_value(s.drop_last()) * 10 + ((s.last() as int) - ('0' as int))
    }
}

/// The digits after an optional sign.
pub open spec fn unsigned_part(s: Seq<char>) -> Seq<char> {
    if s.len() > 0 && (s[0] == '-' || s[0] == '+') { s.drop_first() } else { s }
}

/// What `str::parse::<i64>` gives: an optional `+` or `-` followed by at least one
/// ASCII digit and nothing else, whose value fits in `i64`.
pub open spec fn spec_parse_i64(s: Seq<char>) -> Option<i64> {
    let body = unsigned_part(s);
    let v = if s.len() > 0 && s[0] == '-' { -digits_value(body) } else { digits_value(body) };
    if body.len() > 0 && (forall|i: int| 0 <= i < body.len() ==> ascii_digit(#[trigger] body[i]))
        && i64::MIN <= v <= i64::MAX {
        Some(v as i64)
    } else {
        None
    }
}

/// A run of digits is worth at least any of its prefixes, and never less than 0.
proof fn lemma_digits_value_grows(s: Seq<char>, j: int)
    requires
        0 <= j <= s.len(),
        forall|i: int| 0 <= i < s.len() ==> ascii_digit(#[trigger] s[i]),
    ensures
        0 <= digits_value(s.subrange(0, j)) <= digits_value(s),
    decreases s.len(),
{
    if s.len() > 0 {
        let rest = s.drop_last();
        assert forall|i: int| 0 <= i < rest.len() implies ascii_digit(#[trigger] rest[i]) by {
            assert(rest[i] == s[i]);
        }
        if j == s.len() {
            assert(s.subrange(0, j) =~= s);
            lemma_digits_value_grows(rest, rest.len() as int);
            assert(rest.subrange(0, rest.len() as int) =~= rest);
        } else {
            lemma_digits_value_grows(rest, j);
            assert(rest.subrange(0, j) =~= s.subrange(0, j));
            lemma_digits_value_grows(rest, rest.len() as int);
            assert(rest.subrange(0, rest.len() as int) =~= rest);
        }
    } else {
        assert(s.subrange(0, j) =~= s);
    }
}

/// Reads an `i64` as `str::parse::<i64>` does: an optional `+` or `-` followed by
/// ASCII digits only, whose value is in range; anything else gives none.
pub(crate) fn parse_i64(s: &str) -> (r: Option<i64>)
    ensures
        r == spec_parse_i64(s@),
{
    let n = s.unicode_len();
    if n == 0 {
        return None;
    }
    let first = s.get_char(0);
    let negative = first == '-';
    let start: usize = if first == '-' || first == '+' { 1 } else { 0 };
    let ghost body = unsigned_part(s@);
    assert(body =~= s@.subrange(start as int, n as int));
    if start == n {
        return None;
    }
    let mut acc: i128 = 0;
    let mut i: usize = start;
    while i < n
        invariant
            start <= i <= n,
            n == s@.len(),
            start < n,
            body == unsigned_part(s@),
            body == s@.subrange(start as int, n as int),
            forall|k: int| start <= k < i ==> ascii_digit(#[trigger] s@[k]),
            acc == digits_value(s@.subrange(start as int, i as int)),
            0 <= acc <= i64::MAX as i128 + 1,
        decreases n - i,
    {
        let c = s.get_char(i);
        if !('0' <= c && c <= '9') {
            assert(body[i - start] == c);
            return None;
        }
        let d: i128 = ((c as u32) - ('0' as u32)) as i128;
        let ghost prefix = s@.subrange(start as int, i + 1);
        assert(prefix.drop_last() =~= s@.subrange(start as int, i as int));
        assert(prefix.last() == c);
        acc = acc * 10 + d;
        if acc > i64::MAX as i128 + 1 {
            proof {
                if forall|k: int| 0 <= k < body.len() ==> ascii_digit(#[trigger] body[k]) {
                    lemma_digits_value_grows(body, i + 1 - start);
                    assert(body.subrange(0, i + 1 - start) =~= prefix);
                }
            }
            return None;
        }
        i = i + 1;
    }
    assert(s@.subrange(start as int, n as int) =~= body);
    assert forall|k: int| 0 <= k < body.len() implies ascii_digit(#[trigger] body[k]) by {
        assert(body[k] == s@[start + k]);
    }
    let v: i128 = if negative { -acc } else { acc };
    if v < i64::MIN as i128 || v > i64::MAX as i128 {
        None
    } else {
        Some(v as i64)
    }
}

/// `needle` occurs in `hay` as a contiguous run of characters.
pub open spec fn contains_at(hay: Seq<char>, needle: Seq<char>, i: int) -> bool {
    0 <= i && i + needle.len() <= hay.len() && hay.subrange(i, i + needle.len()) == needle
}

pub open spec fn spec_contains(hay: Seq<char>, needle: Seq<char>) -> bool {
    exists|i: int| contains_at(hay, needle, i)
}

fn matches_at(hay: &str, needle: &str, i: usize, hay_len: usize, needle_len: usize) -> (r: bool)
    requires
        hay_len == hay@.len(),
        needle_len == needle@.len(),
        i + needle_len <= hay_len,
    ensures
        r == contains_at(hay@, needle@, i as int),
{
    let mut j: usize = 0;
    while j < needle_len
        invariant
            hay_len == hay@.len(),
            needle_len == needle@.len(),
            i + needle_len <= hay_len,
            j <= needle_len,
            forall|k: int| 0 <= k < j ==> hay@[i + k] == needle@[k],
        decreases needle_len - j,
    {
        if hay.get_char(i + j) != needle.get_char(j) {
            assert(hay@.subrange(i as int, i + needle_len)[j as int] != needle@[j as int]);
            return false;
        }
        j = j + 1;
    }
    assert(hay@.subrange(i as int, i + needle_len) =~= needle@);
    true
}

/// Substring test, as std's `str::contains` with a `&str` pattern.
pub fn str_contains(hay: &str, needle: &str) -> (r: bool)
    ensures
        r == spec_contains(hay@, needle@),
{
    let hay_len = hay.unicode_len();
    let needle_len = needle.unicode_len();
    if needle_len > hay_len {
        assert forall|i: int| !contains_at(hay@, needle@, i) by {}
        return false;
    }
    let last = hay_len - needle_len;
    let mut i: usize = 0;
    loop
        invariant
            hay_len == hay@.len(),
            needle_len == needle@.len(),
            last == hay_len - needle_len,
            i <= last,
            forall|k: int| 0 <= k < i ==> !contains_at(hay@, needle@, k),
        decreases last - i,
    {
        if matches_at(hay, needle, i, hay_len, needle_len) {
            return true;
        }
        if i == last {
            assert forall|k: int| !contains_at(hay@, needle@, k) by {
                if 0 <= k && k + needle_len <= hay_len {
                    assert(k <= i);
                }
            }
            return false;
        }
        i = i + 1;
    }
}

/// The parts, separated by `sep`.
pub open spec fn seq_join(parts: Seq<Seq<char>>, sep: Seq<char>) -> Seq<char>
    decreases parts.len(),
{
    if parts.len() == 0 {
        Seq::empty()
    } else if parts.len() == 1 {
        parts[0]
    } else {
        seq_join(parts.drop_last(), sep) + sep + parts.last()
    }
}

/// The views of a vector of strings.
pub open spec fn views(v: Seq<String>) -> Seq<Seq<char>> {
    v.map_values(|s: String| s@)
}

/// Joins the strings with `sep`, as `[String]::join`.
pub fn join(parts: &Vec<String>, sep: &str) -> (r: String)
    ensures
        r@ == seq_join(views(parts@), sep@),
{
    let mut res = String::new();
    let n = parts.len();
    let ghost vs = views(parts@);
    let mut i: usize = 0;
    while i < n
        invariant
            n == parts@.len(),
            vs == views(parts@),
            i <= n,
            res@ == seq_join(vs.take(i as int), sep@),
        decreases n - i,
    {
        assert(vs.take(i + 1).drop_last() =~= vs.take(i as int));
        if i != 0 {
            res.append(sep);
        }
        res.append(parts[i].as_str());
        proof {
            if i == 0 {
                assert(res@ =~= seq_join(vs.take(1), sep@));
            }
        }
        i = i + 1;
    }
    assert(vs.take(n as int) =~= vs);
    res
}

/// Concatenates `a` and `b` into a new string.
pub fn concat2(a: &str, b: &str) -> (r: String)
    ensures
        r@ == a@ + b@,
{
    let mut s = String::from_str(a);
    s.append(b);
    s
}

/// Concatenates three pieces into a new string.
pub fn concat3(a: &str, b: &str, c: &str) -> (r: String)
    ensures
        r@ == a@ + b@ + c@,
{
    let mut s = String::from_str(a);
    s.append(b);
    s.append(c);
    s
}

// ----- Ordering of texts ---------------------------------------------------------------

/// `a` is at most `b` in the lexicographic order of characters, which for UTF-8 text is
/// the order of its bytes, the order `String` is sorted by.
pub open spec fn str_le(a: Seq<char>, b: Seq<char>) -> bool
    decreases a.len(),
{
    if a.len() == 0 {
        true
    } else if b.len() == 0 {
        false
    } else if a[0] != b[0] {
        (a[0] as int) < (b[0] as int)
    } else {
        str_le(a.drop_first(), b.drop_first())
    }
}

/// Any two texts are ordered one way or the other.
pub proof fn lemma_str_le_total(a: Seq<char>, b: Seq<char>)
    ensures
        str_le(a, b) || str_le(b, a),
    decreases a.len(),
{
    if a.len() > 0 && b.len() > 0 && a[0] == b[0] {
        lemma_str_le_total(a.drop_first(), b.drop_first());
    }
}

/// The order of texts is transitive.
pub proof fn lemma_str_le_transitive(a: Seq<char>, b: Seq<char>, c: Seq<char>)
    requires
        str_le(a, b),
        str_le(b, c),
    ensures
        str_le(a, c),
    decreases a.len(),
{
    if a.len() > 0 && b.len() > 0 && c.len() > 0 && a[0] == b[0] && b[0] == c[0] {
        lemma_str_le_transitive(a.drop_first(), b.drop_first(), c.drop_first());
    }
}

/// Every text is at most itself.
pub proof fn lemma_str_le_reflexive(a: Seq<char>)
    ensures
        str_le(a, a),
    decreases a.len(),
{
    if a.len() > 0 {
        lemma_str_le_reflexive(a.drop_first());
    }
}

/// Compares two texts in the order of their characters.
pub fn str_le_exec(a: &str, b: &str) -> (r: bool)
    ensures
        r == str_le(a@, b@),
{
    let n = a.unicode_len();
    let m = b.unicode_len();
    let mut i: usize = 0;
    assert(a@.skip(0) =~= a@);
    assert(b@.skip(0) =~= b@);
    while i < n && i < m
        invariant
            n == a@.len(),
            m == b@.len(),
            i <= n,
            i <= m,
            str_le(a@, b@) == str_le(a@.skip(i as int), b@.skip(i as int)),
        decreases n - i,
    {
        let x = a.get_char(i);
        let y = b.get_char(i);
        assert(a@.skip(i as int)[0] == x);
        assert(b@.skip(i as int)[0] == y);
        if x != y {
            return (x as u32) < (y as u32);
        }
        assert(a@.skip(i as int).drop_first() =~= a@.skip(i + 1));
        assert(b@.skip(i as int).drop_first() =~= b@.skip(i + 1));
        i = i + 1;
    }
    i == n
}

/// The texts are in order.
pub open spec fn strings_sorted(s: Seq<String>) -> bool {
    forall|i: int, j: int| 0 <= i < j < s.len() ==> str_le((#[trigger] s[i])@, (#[trigger] s[j])@)
}

/// The texts in order: the same texts, as many times each, sorted as `sort` sorts them.
pub fn sort_strings(v: &Vec<String>) -> (r: Vec<String>)
    ensures
        r@.to_multiset() == v@.to_multiset(),
        views(r@).to_multiset() == views(v@).to_multiset(),
        strings_sorted(r@),
{
    let mut out: Vec<String> = Vec::new();
    let n = v.len();
    let mut i: usize = 0;
    assert(v@.take(0) =~= Seq::<String>::empty());
    assert(views(v@.take(0)) =~= Seq::<Seq<char>>::empty());
    assert(views(out@) =~= Seq::<Seq<char>>::empty());
    while i < n
        invariant
            n == v@.len(),
            i <= n,
            out@.to_multiset() == v@.take(i as int).to_multiset(),
            views(out@).to_multiset() == views(v@.take(i as int)).to_multiset(),
            strings_sorted(out@),
        decreases n - i,
    {
        let x = v[i].clone();
        let mut p: usize = 0;
        let mut found = false;
        while p < out.len() && !found
            invariant
                p <= out@.len(),
                strings_sorted(out@),
                forall|k: int| 0 <= k < p ==> str_le((#[trigger] out@[k])@, x@),
                found ==> p < out@.len() && !str_le(out@[p as int]@, x@),
            decreases out@.len() - p, if found { 0int } else { 1int },
        {
            if str_le_exec(out[p].as_str(), x.as_str()) {
                p = p + 1;
            } else {
                found = true;
            }
        }
        proof {
            if p < out@.len() {
                lemma_str_le_total(out@[p as int]@, x@);
                assert forall|j: int| p <= j < out@.len() implies str_le(x@, (#[trigger] out@[j])@) by {
                    if j > p {
                        lemma_str_le_transitive(x@, out@[p as int]@, out@[j]@);
                    }
                }
            }
        }
        let ghost before = out@;
        out.insert(p, x);
        proof {
            assert(out@ == before.insert(p as int, v@[i as int]));
            assert forall|a: int, b: int| 0 <= a < b < out@.len() implies str_le((#[trigger] out@[a])@, (#[trigger] out@[b])@) by {
                if a < p && b == p {
                } else if a < p && b > p {
                    assert(out@[b] == before[b - 1]);
                } else if a == p {
                    assert(out@[b] == before[b - 1]);
                } else if a > p {
                    assert(out@[a] == before[a - 1]);
                    assert(out@[b] == before[b - 1]);
                } else {
                    assert(out@[a] == before[a]);
                    assert(out@[b] == before[b]);
                }
            }
            assert(v@.take(i + 1) =~= v@.take(i as int).push(v@[i as int]));
            vstd::seq_lib::to_multiset_insert(before, p as int, v@[i as int]);
            vstd::seq_lib::to_multiset_build(v@.take(i as int), v@[i as int]);
            assert(views(out@) =~= views(before).insert(p as int, v@[i as int]@));
            assert(views(v@.take(i + 1)) =~= views(v@.take(i as int)).push(v@[i as int]@));
            vstd::seq_lib::to_multiset_insert(views(before), p as int, v@[i as int]@);
            vstd::seq_lib::to_multiset_build(views(v@.take(i as int)), v@[i as int]@);
        }
        i = i + 1;
    }
    assert(v@.take(n as int) =~= v@);
    out
}

} // verus!
