//! Verified text operations on character sequences: the splitting, searching,
//! trimming and rendering that the portal's replies and forms need.
use vstd::prelude::*;

verus! {

// ---------------------------------------------------------------------------
// Specifications
// ---------------------------------------------------------------------------

/// Number of characters before the first `sep` in `s` (all of `s` when it has none).
pub open spec fn sep_len(s: Seq<char>, sep: char) -> nat
    decreases s.len(),
{
    if s.len() == 0 {
        0
    } else if s[0] == sep {
        0
    } else {
        1 + sep_len(s.drop_first(), sep)
    }
}

/// Field `n` (counting from 0) of `s` cut at every `sep`, the way `str::split`
/// with a character pattern yields its pieces; `None` when `s` has fewer fields.
pub open spec fn field(s: Seq<char>, sep: char, n: nat) -> Option<Seq<char>>
    decreases n,
{
    let k = sep_len(s, sep);
    if n == 0 {
        Some(s.take(k as int))
    } else if k < s.len() {
        field(s.skip(k + 1int), sep, (n - 1) as nat)
    } else {
        None
    }
}

/// `pat` occurs in `s` at position `i`.
pub open spec fn occurs_at(s: Seq<char>, pat: Seq<char>, i: int) -> bool {
    0 <= i && i + pat.len() <= s.len() && s.subrange(i, i + pat.len()) == pat
}

/// `pat` occurs somewhere in `s` (the empty pattern occurs in every text).
pub open spec fn has_substring(s: Seq<char>, pat: Seq<char>) -> bool {
    exists|i: int| occurs_at(s, pat, i)
}

/// `s` with every occurrence of `pat` taken out, scanning left to right and
/// never reusing a character of a removed occurrence (what `str::replace(pat, "")`
/// gives for a non-empty `pat`).
pub open spec fn remove_all(s: Seq<char>, pat: Seq<char>) -> Seq<char>
    decreases s.len(),
{
    if pat.len() == 0 || s.len() < pat.len() {
        s
    } else if s.take(pat.len() as int) == pat {
        remove_all(s.skip(pat.len() as int), pat)
    } else {
        seq![s[0]] + remove_all(s.drop_first(), pat)
    }
}

/// The characters that `char::is_whitespace` accepts (Unicode `White_Space`).
pub open spec fn is_white(c: char) -> bool {
    let u: u32 = c as u32;
    ||| 0x09 <= u <= 0x0d
    ||| u == 0x20
    ||| u == 0x85
    ||| u == 0xa0
    ||| u == 0x1680
    ||| 0x2000 <= u <= 0x200a
    ||| u == 0x2028
    ||| u == 0x2029
    ||| u == 0x202f
    ||| u == 0x205f
    ||| u == 0x3000
}

/// Number of leading white-space characters of `s`.
pub open spec fn lead_white(s: Seq<char>) -> nat
    decreases s.len(),
{
    if s.len() > 0 && is_white(s[0]) {
        1 + lead_white(s.drop_first())
    } else {
        0
    }
}

/// Number of trailing white-space characters of `s`.
pub open spec fn trail_white(s: Seq<char>) -> nat
    decreases s.len(),
{
    if s.len() > 0 && is_white(s.last()) {
        1 + trail_white(s.drop_last())
    } else {
        0
    }
}

/// `s` without leading and trailing white space (what `str::trim` gives).
pub open spec fn trimmed(s: Seq<char>) -> Seq<char> {
    let t = s.skip(lead_white(s) as int);
    t.take(t.len() - trail_white(t))
}

/// The digit character for `d` in `0..10`.
pub open spec fn digit_char(d: nat) -> char {
    if d == 0 { '0' }
    else if d == 1 { '1' }
    else if d == 2 { '2' }
    else if d == 3 { '3' }
    else if d == 4 { '4' }
    else if d == 5 { '5' }
    else if d == 6 { '6' }
    else if d == 7 { '7' }
    else if d == 8 { '8' }
    else { '9' }
}

/// The decimal rendering of `n` without leading zeros (what `{}` prints for an integer).
pub open spec fn decimal(n: nat) -> Seq<char>
    decreases n,
{
    if n < 10 {
        seq![digit_char(n)]
    } else {
        decimal(n / 10) + seq![digit_char(n % 10)]
    }
}

// ---------------------------------------------------------------------------
// Lemmas
// ---------------------------------------------------------------------------

pub proof fn lemma_sep_len(s: Seq<char>, sep: char, m: int)
    requires
        0 <= m <= s.len(),
        forall|j: int| 0 <= j < m ==> s[j] != sep,
        m == s.len() || s[m] == sep,
    ensures
        sep_len(s, sep) == m,
    decreases m,
{
    if m > 0 {
        assert forall|j: int| 0 <= j < m - 1 implies s.drop_first()[j] != sep by {
            assert(s.drop_first()[j] == s[j + 1]);
        }
        lemma_sep_len(s.drop_first(), sep, m - 1);
    }
}

proof fn lemma_lead_white(s: Seq<char>, m: int)
    requires
        0 <= m <= s.len(),
        forall|j: int| 0 <= j < m ==> is_white(s[j]),
        m == s.len() || !is_white(s[m]),
    ensures
        lead_white(s) == m,
    decreases m,
{
    if m > 0 {
        assert forall|j: int| 0 <= j < m - 1 implies is_white(s.drop_first()[j]) by {
            assert(s.drop_first()[j] == s[j + 1]);
        }
        lemma_lead_white(s.drop_first(), m - 1);
    }
}

proof fn lemma_trail_white(s: Seq<char>, m: int)
    requires
        0 <= m <= s.len(),
        forall|j: int| m <= j < s.len() ==> is_white(s[j]),
        m == 0 || !is_white(s[m - 1]),
    ensures
        trail_white(s) == s.len() - m,
    decreases s.len() - m,
{
    if m < s.len() {
        let t = s.drop_last();
        assert forall|j: int| m <= j < t.len() implies is_white(t[j]) by {
            assert(t[j] == s[j]);
        }
        if m > 0 {
            assert(t[m - 1] == s[m - 1]);
        }
        lemma_trail_white(t, m);
    }
}

// ---------------------------------------------------------------------------
// Executable operations
// ---------------------------------------------------------------------------

/// The characters of `s`, in order.
pub fn chars_of(s: &str) -> (v: Vec<char>)
    ensures
        v@ == s@,
{
    let mut v: Vec<char> = Vec::new();
    for c in it: s.chars()
        invariant
            v@ == it.seq().take(it.index()),
    {
        v.push(c);
    }
    v
}

/// Position of the first `sep` at or after `from` in `v`, or `v.len()`.
fn find_char_from(v: &Vec<char>, sep: char, from: usize) -> (r: usize)
    requires
        from <= v.len(),
    ensures
        from <= r <= v.len(),
        sep_len(v@.skip(from as int), sep) == r - from,
{
    let mut i: usize = from;
    while i < v.len() && v[i] != sep
        invariant
            from <= i <= v.len(),
            forall|j: int| from <= j < i ==> v@[j] != sep,
        decreases v.len() - i,
    {
        i += 1;
    }
    proof {
        let t = v@.skip(from as int);
        assert forall|j: int| 0 <= j < i - from implies t[j] != sep by {
            assert(t[j] == v@[from + j]);
        }
        if i < v.len() {
            assert(t[i - from] == v@[i as int]);
        }
        lemma_sep_len(t, sep, i - from);
    }
    i
}

/// Field `n` of `s` cut at every `sep`: `s.split(sep).nth(n)`.
pub fn split_field(s: &str, sep: char, n: usize) -> (r: Option<String>)
    ensures
        match r {
            Some(f) => field(s@, sep, n as nat) == Some(f@),
            None => field(s@, sep, n as nat) is None,
        },
{
    let v = chars_of(s);
    let mut start: usize = 0;
    let mut k: usize = 0;
    assert(s@.skip(0) =~= s@);
    while k < n
        invariant
            v@ == s@,
            start <= v.len(),
            k <= n,
            field(s@, sep, n as nat) == field(s@.skip(start as int), sep, (n - k) as nat),
        decreases n - k,
    {
        let e: usize = find_char_from(&v, sep, start);
        if e == v.len() {
            return None;
        }
        proof {
            let t = s@.skip(start as int);
            assert(t.skip(e - start + 1) =~= s@.skip(e + 1));
        }
        start = e + 1;
        k += 1;
    }
    let e: usize = find_char_from(&v, sep, start);
    proof {
        assert(s@.skip(start as int).take(e - start) =~= s@.subrange(start as int, e as int));
    }
    Some(s.substring_char(start, e).to_owned())
}

/// Whether `p` occurs in `v` at position `i`.
fn occurs_at_exec(v: &Vec<char>, p: &Vec<char>, i: usize) -> (b: bool)
    requires
        i <= v.len(),
    ensures
        b == occurs_at(v@, p@, i as int),
{
    if p.len() > v.len() - i {
        return false;
    }
    let mut j: usize = 0;
    while j < p.len()
        invariant
            i + p.len() <= v.len(),
            j <= p.len(),
            forall|k: int| 0 <= k < j ==> v@[i + k] == p@[k],
        decreases p.len() - j,
    {
        if v[i + j] != p[j] {
            proof {
                assert(v@.subrange(i as int, i + p.len())[j as int] == v@[i + j]);
            }
            return false;
        }
        j += 1;
    }
    assert(v@.subrange(i as int, i + p.len()) =~= p@);
    true
}

/// Whether `pat` occurs in `s`: `s.contains(pat)`.
pub fn contains(s: &str, pat: &str) -> (b: bool)
    ensures
        b == has_substring(s@, pat@),
{
    let v = chars_of(s);
    let p = chars_of(pat);
    if p.len() > v.len() {
        assert(!has_substring(s@, pat@));
        return false;
    }
    if p.len() == 0 {
        assert(s@.subrange(0, 0) =~= pat@);
        assert(occurs_at(s@, pat@, 0));
        return true;
    }
    let last: usize = v.len() - p.len();
    let mut i: usize = 0;
    while i <= last
        invariant
            v@ == s@,
            p@ == pat@,
            last == v.len() - p.len(),
            i <= last + 1,
            last < v.len(),
            forall|k: int| 0 <= k < i ==> !occurs_at(s@, pat@, k),
        decreases last + 1 - i,
    {
        if occurs_at_exec(&v, &p, i) {
            return true;
        }
        i += 1;
    }
    assert forall|k: int| !occurs_at(s@, pat@, k) by {
        if k >= i {
            assert(k + pat@.len() > s@.len());
        }
    }
    false
}

/// `s` with every occurrence of `pat` taken out: `s.replace(pat, "")`.
pub fn remove_all_of(s: &str, pat: &str) -> (r: String)
    ensures
        r@ == remove_all(s@, pat@),
{
    let v = chars_of(s);
    let p = chars_of(pat);
    if p.len() == 0 {
        return s.to_owned();
    }
    let mut out = String::new();
    let mut i: usize = 0;
    assert(s@.skip(0) =~= s@);
    while i < v.len()
        invariant
            v@ == s@,
            p@ == pat@,
            p.len() > 0,
            i <= v.len(),
            remove_all(s@, pat@) == out@ + remove_all(s@.skip(i as int), pat@),
        decreases v.len() - i,
    {
        let ghost t = s@.skip(i as int);
        if occurs_at_exec(&v, &p, i) {
            proof {
                assert(t.take(pat@.len() as int) =~= v@.subrange(i as int, i + p.len()));
                assert(t.skip(pat@.len() as int) =~= s@.skip(i + p.len()));
            }
            i = i + p.len();
        } else {
            proof {
                if t.len() >= pat@.len() {
                    assert(t.take(pat@.len() as int) =~= v@.subrange(i as int, i + p.len()));
                    assert(t.drop_first() =~= s@.skip(i + 1));
                } else {
                    assert(remove_all(t, pat@) == t);
                    assert(t.drop_first() =~= s@.skip(i + 1));
                    reveal_with_fuel(remove_all, 2);
                    assert(t =~= seq![t[0]] + t.drop_first());
                    assert(remove_all(t.drop_first(), pat@) == t.drop_first());
                }
            }
            let one = s.substring_char(i, i + 1);
            proof {
                assert(one@ =~= seq![t[0]]);
            }
            out.append(one);
            i = i + 1;
        }
    }
    proof {
        assert(s@.skip(i as int) =~= Seq::<char>::empty());
    }
    out
}

/// `s` without leading and trailing white space: `s.trim()`.
pub fn trim(s: &str) -> (r: String)
    ensures
        r@ == trimmed(s@),
{
    let v = chars_of(s);
    let mut a: usize = 0;
    while a < v.len() && is_white_exec(v[a])
        invariant
            v@ == s@,
            a <= v.len(),
            forall|j: int| 0 <= j < a ==> is_white(v@[j]),
        decreases v.len() - a,
    {
        a += 1;
    }
    proof {
        lemma_lead_white(s@, a as int);
    }
    let mut b: usize = v.len();
    while b > a && is_white_exec(v[b - 1])
        invariant
            v@ == s@,
            a <= b <= v.len(),
            forall|j: int| b <= j < v.len() ==> is_white(v@[j]),
        decreases b,
    {
        b -= 1;
    }
    proof {
        let t = s@.skip(a as int);
        assert forall|j: int| b - a <= j < t.len() implies is_white(t[j]) by {
            assert(t[j] == s@[a + j]);
        }
        if b > a {
            assert(t[b - a - 1] == s@[b - 1]);
        }
        lemma_trail_white(t, b - a);
        assert(t.take(t.len() - trail_white(t)) =~= s@.subrange(a as int, b as int));
    }
    s.substring_char(a, b).to_owned()
}

/// `char::is_whitespace`, over the `White_Space` set of `is_white`.
pub fn is_white_exec(c: char) -> (b: bool)
    ensures
        b == is_white(c),
{
    let u: u32 = c as u32;
    (0x09 <= u && u <= 0x0d) || u == 0x20 || u == 0x85 || u == 0xa0 || u == 0x1680 || (0x2000
        <= u && u <= 0x200a) || u == 0x2028 || u == 0x2029 || u == 0x202f || u == 0x205f || u
        == 0x3000
}

/// The decimal rendering of `n`: `n.to_string()`.
pub fn decimal_string(n: u128) -> (r: String)
    ensures
        r@ == decimal(n as nat),
    decreases n,
{
    let digits = "0123456789";
    proof {
        reveal_strlit("0123456789");
    }
    let d: usize = (n % 10) as usize;
    let one = digits.substring_char(d, d + 1);
    proof {
        assert(one@ =~= seq![digit_char(d as nat)]);
    }
    if n < 10 {
        one.to_owned()
    } else {
        let mut s = decimal_string(n / 10);
        s.append(one);
        s
    }
}

} // verus!

verus! {

/// Whether `a` and `b` are the same text: `a == b`.
pub fn same_text(a: &str, b: &str) -> (r: bool)
    ensures
        r == (a@ == b@),
{
    let x = chars_of(a);
    let y = chars_of(b);
    if x.len() != y.len() {
        return false;
    }
    let mut i: usize = 0;
    while i < x.len()
        invariant
            x@ == a@,
            y@ == b@,
            x.len() == y.len(),
            i <= x.len(),
            forall|j: int| 0 <= j < i ==> x@[j] == y@[j],
        decreases x.len() - i,
    {
        if x[i] != y[i] {
            return false;
        }
        i += 1;
    }
    assert(a@ =~= b@);
    true
}

} // verus!

verus! {

/// Number of occurrences of `pat` that a left-to-right scan finds in `s`,
/// never reusing a character of an occurrence it counted.
pub open spec fn match_count(s: Seq<char>, pat: Seq<char>) -> nat
    decreases s.len(),
{
    if pat.len() == 0 || s.len() < pat.len() {
        0
    } else if s.take(pat.len() as int) == pat {
        1 + match_count(s.skip(pat.len() as int), pat)
    } else {
        match_count(s.drop_first(), pat)
    }
}

/// The text of `s` before the first occurrence of `pat` (all of `s` when it has none).
pub open spec fn prefix_before(s: Seq<char>, pat: Seq<char>) -> Seq<char>
    decreases s.len(),
{
    if pat.len() == 0 || s.len() < pat.len() {
        s
    } else if s.take(pat.len() as int) == pat {
        Seq::empty()
    } else {
        seq![s[0]] + prefix_before(s.drop_first(), pat)
    }
}

/// The number of occurrences that `s.split(pat)` cuts at (one fewer than the pieces
/// it yields), and the first piece, for a non-empty `pat`.
pub fn split_count_and_head(s: &str, pat: &str) -> (r: (usize, String))
    requires
        pat@.len() > 0,
    ensures
        r.0 == match_count(s@, pat@),
        r.1@ == prefix_before(s@, pat@),
{
    let v = chars_of(s);
    let p = chars_of(pat);
    let mut count: usize = 0;
    let mut first: usize = 0;
    let mut i: usize = 0;
    assert(s@.skip(0) =~= s@);
    assert(s@.take(0) =~= Seq::<char>::empty());
    while i < v.len()
        invariant
            v@ == s@,
            p@ == pat@,
            p.len() > 0,
            i <= v.len(),
            count <= i,
            first <= i,
            match_count(s@, pat@) == count + match_count(s@.skip(i as int), pat@),
            count == 0 ==> prefix_before(s@, pat@) == s@.take(i as int) + prefix_before(
                s@.skip(i as int),
                pat@,
            ),
            count > 0 ==> prefix_before(s@, pat@) == s@.take(first as int),
        decreases v.len() - i,
    {
        let ghost t = s@.skip(i as int);
        if occurs_at_exec(&v, &p, i) {
            proof {
                assert(t.take(pat@.len() as int) =~= v@.subrange(i as int, i + p.len()));
                assert(t.skip(pat@.len() as int) =~= s@.skip(i + p.len()));
                if count == 0 {
                    assert(s@.take(i as int) + Seq::<char>::empty() =~= s@.take(i as int));
                }
            }
            if count == 0 {
                first = i;
            }
            count = count + 1;
            i = i + p.len();
        } else {
            proof {
                assert(t.drop_first() =~= s@.skip(i + 1));
                assert(s@.take(i as int) + seq![t[0]] =~= s@.take(i + 1));
                if t.len() >= pat@.len() {
                    assert(t.take(pat@.len() as int) =~= v@.subrange(i as int, i + p.len()));
                    assert(s@.take(i as int) + (seq![t[0]] + prefix_before(t.drop_first(), pat@))
                        =~= s@.take(i + 1) + prefix_before(t.drop_first(), pat@));
                } else {
                    reveal_with_fuel(match_count, 2);
                    reveal_with_fuel(prefix_before, 2);
                    assert(t =~= seq![t[0]] + t.drop_first());
                    assert(s@.take(i as int) + t =~= s@.take(i + 1) + t.drop_first());
                }
            }
            i = i + 1;
        }
    }
    proof {
        assert(s@.skip(i as int) =~= Seq::<char>::empty());
        assert(s@.take(i as int) =~= s@);
    }
    if count == 0 {
        (count, s.to_owned())
    } else {
        (count, s.substring_char(0, first).to_owned())
    }
}

} // verus!
