//! Text operations on character sequences: whitespace, trimming, splitting
//! into words, joining, prefixes and decimal numbers.
//!
//! Each operation has a spec function over `Seq<char>` that says what it is,
//! and an executable function proved to compute it.
use vstd::prelude::*;
use vstd::string::StringExecFns;

verus! {

// ------------------------------------------------------------------------
// Conversions between strings and character vectors
// ------------------------------------------------------------------------

/// The characters of `s`, in order.
pub(crate) fn chars_of(s: &str) -> (r: Vec<char>)
    ensures
        r@ == s@,
{
    let mut r: Vec<char> = Vec::new();
    for c in it: s.chars()
        invariant
            it.seq() == s@,
            r@ == it.seq().take(it.index() as int),
    {
        r.push(c);
        assert(r@ =~= it.seq().take(it.index() + 1));
    }
    assert(s@.take(s@.len() as int) =~= s@);
    r
}

/// The string made of the characters of `v`, in order (`FromIterator<&char>` for `String`).
#[verifier::external_body]
pub(crate) fn string_of(v: &Vec<char>) -> (r: String)
    ensures
        r@ == v@,
{
    v.iter().collect()
}

/// A string holding the characters of `s`.
pub(crate) fn owned(s: &str) -> (r: String)
    ensures
        r@ == s@,
{
    String::from_str(s)
}

/// `a` followed by `b`.
pub(crate) fn cat(a: &str, b: &str) -> (r: String)
    ensures
        r@ == a@ + b@,
{
    let mut r = String::from_str(a);
    r.append(b);
    r
}

/// Appends `b` to `a`.
pub(crate) fn push_str(a: &mut String, b: &str)
    ensures
        final(a)@ == old(a)@ + b@,
{
    a.append(b);
}

/// `a`, `b` and `c` one after the other.
pub(crate) fn cat3(a: &str, b: &str, c: &str) -> (r: String)
    ensures
        r@ == a@ + b@ + c@,
{
    let mut r = cat(a, b);
    push_str(&mut r, c);
    r
}

/// The characters `v[lo..hi]`.
pub fn chars_range(v: &Vec<char>, lo: usize, hi: usize) -> (r: Vec<char>)
    requires
        lo <= hi <= v.len(),
    ensures
        r@ == v@.subrange(lo as int, hi as int),
{
    let mut r: Vec<char> = Vec::new();
    let mut i: usize = lo;
    while i < hi
        invariant
            lo <= i <= hi <= v.len(),
            r@ == v@.subrange(lo as int, i as int),
        decreases hi - i,
    {
        r.push(v[i]);
        i = i + 1;
    }
    r
}

// ------------------------------------------------------------------------
// Whitespace
// ------------------------------------------------------------------------

/// `char::is_whitespace`: the characters with the Unicode `White_Space` property.
pub open spec fn is_ws(c: char) -> bool {
    let n = c as u32;
    ||| 0x9 <= n <= 0xd
    ||| n == 0x20
    ||| n == 0x85
    ||| n == 0xa0
    ||| n == 0x1680
    ||| 0x2000 <= n <= 0x200a
    ||| n == 0x2028
    ||| n == 0x2029
    ||| n == 0x202f
    ||| n == 0x205f
    ||| n == 0x3000
}

/// Whether `c` is a whitespace character.
pub fn is_whitespace(c: char) -> (b: bool)
    ensures
        b == is_ws(c),
{
    let n = c as u32;
    (0x9 <= n && n <= 0xd) || n == 0x20 || n == 0x85 || n == 0xa0 || n == 0x1680 || (0x2000
        <= n && n <= 0x200a) || n == 0x2028 || n == 0x2029 || n == 0x202f || n == 0x205f || n
        == 0x3000
}

/// `s` without its leading whitespace.
pub open spec fn trim_start(s: Seq<char>) -> Seq<char>
    decreases s.len(),
{
    if s.len() > 0 && is_ws(s[0]) {
        trim_start(s.drop_first())
    } else {
        s
    }
}

/// `s` without its trailing whitespace.
pub open spec fn trim_end(s: Seq<char>) -> Seq<char>
    decreases s.len(),
{
    if s.len() > 0 && is_ws(s.last()) {
        trim_end(s.drop_last())
    } else {
        s
    }
}

/// `str::trim`: `s` without leading and trailing whitespace.
pub open spec fn trim(s: Seq<char>) -> Seq<char> {
    trim_end(trim_start(s))
}

/// A sequence that neither starts nor ends with whitespace.
pub open spec fn is_trimmed(s: Seq<char>) -> bool {
    s.len() > 0 ==> !is_ws(s[0]) && !is_ws(s.last())
}

proof fn lemma_trim_end_keeps_start(s: Seq<char>)
    ensures
        trim_end(s).len() <= s.len(),
        trim_end(s) == s.subrange(0, trim_end(s).len() as int),
        trim_end(s).len() > 0 ==> !is_ws(trim_end(s).last()),
    decreases s.len(),
{
    if s.len() > 0 && is_ws(s.last()) {
        lemma_trim_end_keeps_start(s.drop_last());
        assert(trim_end(s.drop_last()) =~= s.subrange(0, trim_end(s).len() as int));
    } else {
        assert(s.subrange(0, s.len() as int) =~= s);
    }
}

proof fn lemma_trim_start_first(s: Seq<char>)
    ensures
        trim_start(s).len() > 0 ==> !is_ws(trim_start(s)[0]),
    decreases s.len(),
{
    if s.len() > 0 && is_ws(s[0]) {
        lemma_trim_start_first(s.drop_first());
    }
}

/// The result of `trim` never starts or ends with whitespace.
pub proof fn lemma_trim_is_trimmed(s: Seq<char>)
    ensures
        is_trimmed(trim(s)),
{
    lemma_trim_start_first(trim_start(s));
    lemma_trim_start_first(s);
    lemma_trim_end_keeps_start(trim_start(s));
}

/// Trimming twice is trimming once.
pub proof fn lemma_trim_idempotent(s: Seq<char>)
    ensures
        trim(trim(s)) == trim(s),
{
    lemma_trim_is_trimmed(s);
    let t = trim(s);
    if t.len() > 0 {
        assert(trim_start(t) == t);
        assert(trim_end(t) == t);
    } else {
        assert(trim_start(t) == t);
    }
}

proof fn lemma_trim_start_suffix(s: Seq<char>)
    ensures
        trim_start(s).len() <= s.len(),
        trim_start(s) == s.subrange(s.len() - trim_start(s).len(), s.len() as int),
        forall|i: int| 0 <= i < s.len() - trim_start(s).len() ==> is_ws(#[trigger] s[i]),
    decreases s.len(),
{
    if s.len() > 0 && is_ws(s[0]) {
        let d = s.drop_first();
        lemma_trim_start_suffix(d);
        assert(d.subrange(d.len() - trim_start(d).len(), d.len() as int) =~= s.subrange(
            s.len() - trim_start(s).len(),
            s.len() as int,
        ));
        assert forall|i: int| 0 <= i < s.len() - trim_start(s).len() implies is_ws(#[trigger] s[i]) by {
            if i > 0 {
                assert(s[i] == d[i - 1]);
            }
        }
    } else {
        assert(s.subrange(0, s.len() as int) =~= s);
    }
}

proof fn lemma_trim_end_trailing(s: Seq<char>)
    ensures
        forall|i: int| trim_end(s).len() <= i < s.len() ==> is_ws(#[trigger] s[i]),
    decreases s.len(),
{
    if s.len() > 0 && is_ws(s.last()) {
        lemma_trim_end_trailing(s.drop_last());
        assert forall|i: int| trim_end(s).len() <= i < s.len() implies is_ws(#[trigger] s[i]) by {
            if i < s.len() - 1 {
                assert(s[i] == s.drop_last()[i]);
            }
        }
    }
}

/// `trim` removes whitespace only, and only at the ends: its result is a run
/// of `s` with nothing but whitespace before and after it.
pub proof fn lemma_trim_removes_only_outer_whitespace(s: Seq<char>)
    ensures
        exists|lo: int, hi: int|
            {
                &&& 0 <= lo <= hi <= s.len()
                &&& trim(s) == s.subrange(lo, hi)
                &&& forall|i: int| 0 <= i < lo ==> is_ws(#[trigger] s[i])
                &&& forall|i: int| hi <= i < s.len() ==> is_ws(#[trigger] s[i])
            },
{
    let t = trim_start(s);
    lemma_trim_start_suffix(s);
    lemma_trim_end_keeps_start(t);
    lemma_trim_end_trailing(t);
    let lo = s.len() - t.len();
    let hi = lo + trim_end(t).len();
    assert(trim(s) =~= s.subrange(lo, hi));
    assert forall|i: int| hi <= i < s.len() implies is_ws(#[trigger] s[i]) by {
        assert(s[i] == t[i - lo]);
    }
}

/// `str::trim`.
pub fn trim_str(s: &str) -> (r: String)
    ensures
        r@ == trim(s@),
{
    let v = chars_of(s);
    let n = v.len();
    let mut lo: usize = 0;
    assert(v@.subrange(0, n as int) =~= v@);
    while lo < n && is_whitespace(v[lo])
        invariant
            lo <= n == v.len(),
            trim_start(v@) == trim_start(v@.subrange(lo as int, n as int)),
        decreases n - lo,
    {
        assert(v@.subrange(lo as int, n as int).drop_first() =~= v@.subrange(
            lo + 1,
            n as int,
        ));
        lo = lo + 1;
    }
    assert(v@.subrange(0, n as int) =~= v@);
    let mut hi: usize = n;
    while hi > lo && is_whitespace(v[hi - 1])
        invariant
            lo <= hi <= n == v.len(),
            trim_start(v@) == v@.subrange(lo as int, n as int),
            trim_end(v@.subrange(lo as int, n as int)) == trim_end(
                v@.subrange(lo as int, hi as int),
            ),
        decreases hi - lo,
    {
        assert(v@.subrange(lo as int, hi as int).drop_last() =~= v@.subrange(
            lo as int,
            hi - 1,
        ));
        hi = hi - 1;
    }
    let r = chars_range(&v, lo, hi);
    string_of(&r)
}

// ------------------------------------------------------------------------
// Words and joining
// ------------------------------------------------------------------------

/// `str::split_whitespace`: the maximal runs of non-whitespace characters of
/// `s`, in order, read from the left.
pub open spec fn words(s: Seq<char>) -> Seq<Seq<char>>
    decreases s.len(),
{
    if s.len() == 0 {
        seq![]
    } else {
        let w = words(s.drop_last());
        let c = s.last();
        if is_ws(c) {
            w
        } else if s.len() >= 2 && !is_ws(s[s.len() - 2]) {
            w.update(w.len() - 1, w.last().push(c))
        } else {
            w.push(seq![c])
        }
    }
}

/// `parts` joined with `sep` between consecutive parts (`[T]::join`).
pub open spec fn join(parts: Seq<Seq<char>>, sep: Seq<char>) -> Seq<char>
    decreases parts.len(),
{
    if parts.len() == 0 {
        seq![]
    } else if parts.len() == 1 {
        parts[0]
    } else {
        join(parts.drop_last(), sep) + sep + parts.last()
    }
}

/// Joined parts open with the first part and close with the last one, and
/// the text is as long as the parts plus one separator between each two.
pub proof fn lemma_join_ends(parts: Seq<Seq<char>>, sep: Seq<char>)
    requires
        parts.len() > 0,
    ensures
        starts_with(join(parts, sep), parts[0]),
        join(parts, sep).subrange(
            join(parts, sep).len() - parts.last().len(),
            join(parts, sep).len() as int,
        ) == parts.last(),
        join(parts, sep).len() >= parts[0].len() + (parts.len() - 1) * sep.len(),
    decreases parts.len(),
{
    let j = join(parts, sep);
    if parts.len() == 1 {
        assert(j.subrange(0, parts[0].len() as int) =~= parts[0]);
        assert(j.subrange(j.len() - parts.last().len(), j.len() as int) =~= parts.last());
    } else {
        let d = parts.drop_last();
        lemma_join_ends(d, sep);
        let jd = join(d, sep);
        assert(j == jd + sep + parts.last());
        assert(j.subrange(0, parts[0].len() as int) =~= jd.subrange(0, parts[0].len() as int));
        assert(j.subrange(j.len() - parts.last().len(), j.len() as int) =~= parts.last());
        assert(d[0] == parts[0]);
        assert((parts.len() - 1) * sep.len() == (d.len() - 1) * sep.len() + sep.len()) by (nonlinear_arith)
            requires
                d.len() == parts.len() - 1;
    }
}

/// The views of a vector of strings.
pub open spec fn views(v: Seq<String>) -> Seq<Seq<char>> {
    v.map_values(|s: String| s@)
}

proof fn lemma_words_nonempty(s: Seq<char>)
    requires
        s.len() > 0,
        !is_ws(s.last()),
    ensures
        words(s).len() > 0,
    decreases s.len(),
{
    if s.len() >= 2 && !is_ws(s[s.len() - 2]) {
        lemma_words_nonempty(s.drop_last());
    }
}

/// Every word is non-empty and free of whitespace.
pub proof fn lemma_words_no_ws(s: Seq<char>)
    ensures
        forall|i: int, j: int|
            0 <= i < words(s).len() && 0 <= j < words(s)[i].len() ==> !is_ws(
                #[trigger] words(s)[i][j],
            ),
        forall|i: int| 0 <= i < words(s).len() ==> #[trigger] words(s)[i].len() > 0,
    decreases s.len(),
{
    if s.len() > 0 {
        lemma_words_no_ws(s.drop_last());
        let w = words(s.drop_last());
        let c = s.last();
        if !is_ws(c) && s.len() >= 2 && !is_ws(s[s.len() - 2]) {
            assert(s.drop_last().last() == s[s.len() - 2]);
            lemma_words_nonempty(s.drop_last());
            let ws = words(s);
            assert forall|i: int, j: int|
                0 <= i < ws.len() && 0 <= j < ws[i].len() implies !is_ws(#[trigger] ws[i][j]) by {
                if i < w.len() - 1 {
                    assert(ws[i] == w[i]);
                } else {
                    assert(ws[i] == w.last().push(c));
                    if j < w.last().len() {
                        assert(ws[i][j] == w[w.len() - 1][j]);
                    }
                }
            }
        }
    }
}

/// Joining whitespace-free parts with a whitespace-free separator gives a
/// whitespace-free text.
pub proof fn lemma_join_no_ws(parts: Seq<Seq<char>>, sep: Seq<char>)
    requires
        forall|i: int, j: int|
            0 <= i < parts.len() && 0 <= j < parts[i].len() ==> !is_ws(#[trigger] parts[i][j]),
        forall|j: int| 0 <= j < sep.len() ==> !is_ws(#[trigger] sep[j]),
    ensures
        forall|k: int| 0 <= k < join(parts, sep).len() ==> !is_ws(#[trigger] join(parts, sep)[k]),
    decreases parts.len(),
{
    if parts.len() == 1 {
        assert forall|k: int| 0 <= k < join(parts, sep).len() implies !is_ws(
            #[trigger] join(parts, sep)[k],
        ) by {
            assert(join(parts, sep)[k] == parts[0][k]);
        }
    } else if parts.len() > 1 {
        let front = parts.drop_last();
        assert forall|i: int, j: int|
            0 <= i < front.len() && 0 <= j < front[i].len() implies !is_ws(#[trigger] front[i][j]) by {
            assert(front[i] == parts[i]);
        }
        lemma_join_no_ws(front, sep);
        let a = join(front, sep);
        let last = parts.last();
        assert forall|k: int| 0 <= k < join(parts, sep).len() implies !is_ws(
            #[trigger] join(parts, sep)[k],
        ) by {
            let whole = join(parts, sep);
            assert(whole == a + sep + last);
            if k < a.len() {
                assert(whole[k] == a[k]);
            } else if k < a.len() + sep.len() {
                assert(whole[k] == sep[k - a.len()]);
            } else {
                assert(whole[k] == parts[parts.len() - 1][k - a.len() - sep.len()]);
            }
        }
    }
}

/// `split_whitespace` collected into a vector of strings.
pub fn split_words(s: &str) -> (r: Vec<String>)
    ensures
        views(r@) == words(s@),
{
    let v = chars_of(s);
    let n = v.len();
    let mut out: Vec<Vec<char>> = Vec::new();
    let mut i: usize = 0;
    while i < n
        invariant
            i <= n == v.len(),
            out@.map_values(|w: Vec<char>| w@) == words(v@.subrange(0, i as int)),
        decreases n - i,
    {
        let c = v[i];
        let ghost prev = v@.subrange(0, i as int);
        let ghost cur = v@.subrange(0, i + 1);
        assert(cur.drop_last() =~= prev);
        if is_whitespace(c) {
        } else if i >= 1 && !is_whitespace(v[i - 1]) {
            assert(prev.last() == v@[i - 1]);
            proof {
                lemma_words_nonempty(prev);
            }
            let mut last = out.pop().unwrap();
            last.push(c);
            out.push(last);
            assert(out@.map_values(|w: Vec<char>| w@) =~= words(cur));
        } else {
            let mut w: Vec<char> = Vec::new();
            w.push(c);
            out.push(w);
            assert(out@.map_values(|w: Vec<char>| w@) =~= words(cur));
        }
        i = i + 1;
    }
    assert(v@.subrange(0, n as int) =~= v@);
    let mut r: Vec<String> = Vec::new();
    let mut k: usize = 0;
    while k < out.len()
        invariant
            k <= out.len(),
            r@.len() == k,
            forall|j: int| 0 <= j < k ==> #[trigger] r@[j]@ == out@[j]@,
        decreases out.len() - k,
    {
        let s = string_of(&out[k]);
        r.push(s);
        k = k + 1;
    }
    assert(views(r@) =~= out@.map_values(|w: Vec<char>| w@));
    r
}

/// `parts.join(sep)`.
pub fn join_strings(parts: &Vec<String>, sep: &str) -> (r: String)
    ensures
        r@ == join(views(parts@), sep@),
{
    let ghost all = views(parts@);
    let mut r = String::new();
    let mut i: usize = 0;
    while i < parts.len()
        invariant
            i <= parts.len(),
            all == views(parts@),
            r@ == join(all.subrange(0, i as int), sep@),
        decreases parts.len() - i,
    {
        assert(all.subrange(0, i + 1).drop_last() =~= all.subrange(0, i as int));
        assert(all.subrange(0, i + 1).last() == parts@[i as int]@);
        if i == 0 {
            r = owned(parts[i].as_str());
        } else {
            push_str(&mut r, sep);
            push_str(&mut r, parts[i].as_str());
        }
        i = i + 1;
    }
    assert(all.subrange(0, parts.len() as int) =~= all);
    r
}

// ------------------------------------------------------------------------
// Filtering, prefixes
// ------------------------------------------------------------------------

/// `s` with every occurrence of `c` removed (`str::replace(c, "")`).
pub open spec fn without_char(s: Seq<char>, c: char) -> Seq<char>
    decreases s.len(),
{
    if s.len() == 0 {
        seq![]
    } else {
        let r = without_char(s.drop_last(), c);
        if s.last() == c {
            r
        } else {
            r.push(s.last())
        }
    }
}

/// Removing a character leaves none of it behind, never lengthens the text,
/// and leaves a text without that character as it is.
pub proof fn lemma_without_char(s: Seq<char>, c: char)
    ensures
        !without_char(s, c).contains(c),
        without_char(s, c).len() <= s.len(),
        !s.contains(c) ==> without_char(s, c) == s,
    decreases s.len(),
{
    if s.len() > 0 {
        let d = s.drop_last();
        lemma_without_char(d, c);
        let r = without_char(d, c);
        if s.last() != c {
            assert forall|i: int| 0 <= i < r.push(s.last()).len() implies r.push(s.last())[i] != c by {
                if i < r.len() {
                    assert(r.push(s.last())[i] == r[i]);
                    assert(!r.contains(c));
                }
            }
        }
        if !s.contains(c) {
            assert forall|i: int| 0 <= i < d.len() implies d[i] != c by {
                assert(d[i] == s[i]);
            }
            assert(s.last() == s[s.len() - 1]);
            assert(d.push(s.last()) =~= s);
        }
    }
}

/// `s.replace(c, "")`.
pub fn remove_char(s: &str, c: char) -> (r: String)
    ensures
        r@ == without_char(s@, c),
{
    let v = chars_of(s);
    let mut out: Vec<char> = Vec::new();
    let mut i: usize = 0;
    while i < v.len()
        invariant
            i <= v.len(),
            out@ == without_char(v@.subrange(0, i as int), c),
        decreases v.len() - i,
    {
        assert(v@.subrange(0, i + 1).drop_last() =~= v@.subrange(0, i as int));
        if v[i] != c {
            out.push(v[i]);
        }
        i = i + 1;
    }
    assert(v@.subrange(0, v.len() as int) =~= v@);
    string_of(&out)
}

/// The first `n` characters of `s`, or all of them when there are fewer
/// (`s.chars().take(n)`).
pub open spec fn prefix(s: Seq<char>, n: nat) -> Seq<char> {
    if n < s.len() {
        s.take(n as int)
    } else {
        s
    }
}

/// A preview keeps at most `n` characters, and they are the first ones of `s`.
pub proof fn lemma_prefix_bounded(s: Seq<char>, n: nat)
    ensures
        prefix(s, n).len() <= n,
        prefix(s, n).len() <= s.len(),
        prefix(s, n) == s.subrange(0, prefix(s, n).len() as int),
{
    if n >= s.len() {
        assert(s.subrange(0, s.len() as int) =~= s);
    }
}

/// `s.chars().take(n).collect()`.
pub fn take_chars(s: &str, n: usize) -> (r: String)
    ensures
        r@ == prefix(s@, n as nat),
{
    let v = chars_of(s);
    let k = if n < v.len() {
        n
    } else {
        v.len()
    };
    let r = chars_range(&v, 0, k);
    assert(v@.subrange(0, v.len() as int) =~= v@);
    string_of(&r)
}

/// `s.starts_with(p)`.
pub open spec fn starts_with(s: Seq<char>, p: Seq<char>) -> bool {
    p.len() <= s.len() && s.subrange(0, p.len() as int) == p
}

/// `s.starts_with(p)`.
pub fn has_prefix(s: &str, p: &str) -> (b: bool)
    ensures
        b == starts_with(s@, p@),
{
    let v = chars_of(s);
    let w = chars_of(p);
    if w.len() > v.len() {
        return false;
    }
    let mut i: usize = 0;
    while i < w.len()
        invariant
            i <= w.len() <= v.len(),
            v@ == s@,
            w@ == p@,
            v@.subrange(0, i as int) == w@.subrange(0, i as int),
        decreases w.len() - i,
    {
        if v[i] != w[i] {
            assert(v@.subrange(0, w.len() as int)[i as int] == v@[i as int]);
            assert(v@.subrange(0, w.len() as int) != w@);
            return false;
        }
        assert(v@.subrange(0, i + 1) =~= v@.subrange(0, i as int).push(v@[i as int]));
        assert(w@.subrange(0, i + 1) =~= w@.subrange(0, i as int).push(w@[i as int]));
        i = i + 1;
    }
    assert(w@.subrange(0, w.len() as int) =~= w@);
    true
}

/// `a == b` on texts.
pub fn text_eq(a: &str, b: &str) -> (r: bool)
    ensures
        r == (a@ == b@),
{
    let v = chars_of(a);
    let w = chars_of(b);
    if v.len() != w.len() {
        return false;
    }
    let p = has_prefix(a, b);
    assert(a@.subrange(0, a@.len() as int) =~= a@);
    p
}

// ------------------------------------------------------------------------
// Decimal numbers
// ------------------------------------------------------------------------

/// The decimal digit for `d < 10`.
pub open spec fn digit(d: nat) -> char {
    if d == 0 {
        '0'
    } else if d == 1 {
        '1'
    } else if d == 2 {
        '2'
    } else if d == 3 {
        '3'
    } else if d == 4 {
        '4'
    } else if d == 5 {
        '5'
    } else if d == 6 {
        '6'
    } else if d == 7 {
        '7'
    } else if d == 8 {
        '8'
    } else {
        '9'
    }
}

/// The decimal representation of `n`, without leading zeros (`Display` for unsigned integers).
pub open spec fn decimal(n: nat) -> Seq<char>
    decreases n,
{
    if n < 10 {
        seq![digit(n)]
    } else {
        decimal(n / 10).push(digit(n % 10))
    }
}

/// The decimal representation of `i`, with a leading `-` when negative
/// (`Display` for signed integers).
pub open spec fn decimal_int(i: int) -> Seq<char> {
    if i < 0 {
        seq!['-'] + decimal((-i) as nat)
    } else {
        decimal(i as nat)
    }
}

/// Whether a character is one of `0` to `9`.
pub open spec fn is_digit(c: char) -> bool {
    '0' <= c <= '9'
}

/// The number that a run of decimal digits writes, most significant first.
pub open spec fn digits_value(s: Seq<char>) -> int
    decreases s.len(),
{
    if s.len() == 0 {
        0
    } else {
        digits_value(s.drop_last()) * 10 + (s.last() as int - '0' as int)
    }
}

proof fn lemma_digit_value(m: nat)
    requires
        m < 10,
    ensures
        digit(m) as int - '0' as int == m,
        is_digit(digit(m)),
        digit(m) == '0' <==> m == 0,
{
}

/// Reading back the decimal text of `n` gives `n`: it is made of digits
/// only, is never empty, and starts with `0` only for zero itself.
pub proof fn lemma_decimal_reads_back(n: nat)
    ensures
        decimal(n).len() > 0,
        forall|k: int| 0 <= k < decimal(n).len() ==> is_digit(#[trigger] decimal(n)[k]),
        digits_value(decimal(n)) == n,
        n > 0 ==> decimal(n)[0] != '0',
    decreases n,
{
    if n < 10 {
        lemma_digit_value(n);
        let d = decimal(n);
        assert(d.drop_last() =~= Seq::<char>::empty());
        assert(digits_value(d.drop_last()) == 0);
        assert(d.last() == digit(n));
        assert(digits_value(d) == digits_value(d.drop_last()) * 10 + (d.last() as int - '0' as int));
    } else {
        let q = n / 10;
        lemma_decimal_reads_back(q);
        lemma_digit_value(n % 10);
        let d = decimal(n);
        assert(d.drop_last() =~= decimal(q));
        assert(d[0] == decimal(q)[0]);
        assert forall|k: int| 0 <= k < d.len() implies is_digit(#[trigger] d[k]) by {
            if k < d.len() - 1 {
                assert(d[k] == decimal(q)[k]);
            }
        }
        assert(d.last() == digit(n % 10));
        assert(digits_value(d.drop_last()) == q);
        assert(digits_value(d) == digits_value(d.drop_last()) * 10 + (d.last() as int - '0' as int));
        assert(n == q * 10 + n % 10);
    }
}

/// The decimal text of a signed number starts with `-` exactly when it is
/// negative, and the digits after the sign read back as its magnitude.
pub proof fn lemma_decimal_int_reads_back(i: int)
    ensures
        decimal_int(i).len() > 0,
        decimal_int(i)[0] == '-' <==> i < 0,
        i < 0 ==> digits_value(decimal_int(i).drop_first()) == -i,
        i >= 0 ==> digits_value(decimal_int(i)) == i,
{
    if i < 0 {
        lemma_decimal_reads_back((-i) as nat);
        assert(decimal_int(i).drop_first() =~= decimal((-i) as nat));
    } else {
        lemma_decimal_reads_back(i as nat);
        assert(is_digit(decimal(i as nat)[0]));
    }
}

fn digit_char(d: u64) -> (c: char)
    requires
        d < 10,
    ensures
        c == digit(d as nat),
{
    if d == 0 {
        '0'
    } else if d == 1 {
        '1'
    } else if d == 2 {
        '2'
    } else if d == 3 {
        '3'
    } else if d == 4 {
        '4'
    } else if d == 5 {
        '5'
    } else if d == 6 {
        '6'
    } else if d == 7 {
        '7'
    } else if d == 8 {
        '8'
    } else {
        '9'
    }
}

fn decimal_chars(n: u64) -> (r: Vec<char>)
    ensures
        r@ == decimal(n as nat),
    decreases n,
{
    if n < 10 {
        let mut r: Vec<char> = Vec::new();
        r.push(digit_char(n));
        assert(r@ =~= seq![digit(n as nat)]);
        r
    } else {
        let mut r = decimal_chars(n / 10);
        r.push(digit_char(n % 10));
        r
    }
}

/// `n.to_string()` for a `u64`.
pub fn u64_text(n: u64) -> (r: String)
    ensures
        r@ == decimal(n as nat),
{
    let v = decimal_chars(n);
    string_of(&v)
}

/// `n.to_string()` for an `i64`.
pub fn i64_text(n: i64) -> (r: String)
    ensures
        r@ == decimal_int(n as int),
{
    if n < 0 {
        let m: u64 = ((-(n + 1)) as u64) + 1;
        let mut v: Vec<char> = Vec::new();
        v.push('-');
        let d = decimal_chars(m);
        let mut i: usize = 0;
        while i < d.len()
            invariant
                i <= d.len(),
                v@ == seq!['-'] + d@.subrange(0, i as int),
            decreases d.len() - i,
        {
            v.push(d[i]);
            assert(d@.subrange(0, i + 1) =~= d@.subrange(0, i as int).push(d@[i as int]));
            assert(v@ =~= seq!['-'] + d@.subrange(0, i + 1));
            i = i + 1;
        }
        assert(d@.subrange(0, d.len() as int) =~= d@);
        string_of(&v)
    } else {
        u64_text(n as u64)
    }
}

} // verus!
