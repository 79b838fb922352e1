use vstd::prelude::*;

verus! {

broadcast use vstd::string::group_string_axioms;

/// Calls `String::push`, which appends one character to the string.
#[verifier::external_body]
pub(crate) fn push_char(s: &mut String, c: char)
    ensures
        final(s)@ == old(s)@.push(c),
{
    s.push(c)
}

/// The characters of `s`, in order.
pub fn chars_of(s: &str) -> (v: Vec<char>)
    ensures
        v@ == s@,
{
    let mut v: Vec<char> = Vec::new();
    let mut chars_it = s.chars();
    for c in it: chars_it
        invariant
            it.seq() == s@,
            v@ == s@.take(it.index()),
    {
        let ghost before = v@;
        v.push(c);
        assert(s@.take(it.index() + 1) == before.push(c));
    }
    assert(s@.take(s@.len() as int) == s@);
    v
}

/// A `String` holding `v[start..end]`.
pub fn string_from_range(v: &Vec<char>, start: usize, end: usize) -> (s: String)
    requires
        start <= end <= v.len(),
    ensures
        s@ == v@.subrange(start as int, end as int),
{
    let mut s = String::new();
    let mut i = start;
    while i < end
        invariant
            start <= i <= end <= v.len(),
            s@ == v@.subrange(start as int, i as int),
        decreases end - i,
    {
        let ghost before = s@;
        push_char(&mut s, v[i]);
        assert(v@.subrange(start as int, i + 1) == before.push(v@[i as int]));
        i = i + 1;
    }
    s
}

/// Appends `v[start..end]` to `s`.
pub fn push_range(s: &mut String, v: &Vec<char>, start: usize, end: usize)
    requires
        start <= end <= v.len(),
    ensures
        final(s)@ == old(s)@ + v@.subrange(start as int, end as int),
{
    let ghost s0 = s@;
    let mut i = start;
    while i < end
        invariant
            start <= i <= end <= v.len(),
            s@ == s0 + v@.subrange(start as int, i as int),
        decreases end - i,
    {
        push_char(s, v[i]);
        assert(v@.subrange(start as int, i + 1) == v@.subrange(start as int, i as int).push(
            v@[i as int],
        ));
        i = i + 1;
    }
}

/// Appends the whole of `t` to `s`.
pub fn push_str(s: &mut String, t: &str)
    ensures
        final(s)@ == old(s)@ + t@,
{
    let v = chars_of(t);
    push_range(s, &v, 0, v.len());
    assert(v@.subrange(0, v@.len() as int) == v@);
}

/// An owned copy of `s`.
pub fn owned(s: &str) -> (r: String)
    ensures
        r@ == s@,
{
    let mut r = String::new();
    push_str(&mut r, s);
    r
}

/// Whether `a` and `b` are the same text.
pub fn eq_text(a: &str, b: &str) -> (r: bool)
    ensures
        r == (a@ == b@),
{
    let va = chars_of(a);
    let vb = chars_of(b);
    if va.len() != vb.len() {
        return false;
    }
    let mut i: usize = 0;
    while i < va.len()
        invariant
            va@ == a@,
            vb@ == b@,
            va.len() == vb.len(),
            i <= va.len(),
            forall|j: int| 0 <= j < i ==> va@[j] == vb@[j],
        decreases va.len() - i,
    {
        if va[i] != vb[i] {
            return false;
        }
        i = i + 1;
    }
    assert(a@ =~= b@);
    true
}

/// `a` followed by `b`.
pub fn concat2(a: &str, b: &str) -> (r: String)
    ensures
        r@ == a@ + b@,
{
    let mut r = String::new();
    push_str(&mut r, a);
    push_str(&mut r, b);
    r
}

// ---------------------------------------------------------------------------
// Character classes
// ---------------------------------------------------------------------------

/// What std's `char::is_alphanumeric` says of a character outside ASCII
/// (Unicode `Alphabetic` or `Numeric`, from std's tables).
pub uninterp spec fn unicode_alphanumeric(c: char) -> bool;

/// `char::is_alphanumeric`: the ASCII letters and digits, and outside ASCII what
/// the Unicode tables say.
pub open spec fn char_is_alphanumeric(c: char) -> bool {
    if (c as u32) < 128 {
        is_ascii_alphanumeric(c)
    } else {
        unicode_alphanumeric(c)
    }
}

/// `char::is_whitespace`: the characters with the Unicode property
/// `White_Space`. These are tab, line feed, vertical tab, form feed, carriage
/// return and space; next line (U+0085) and no-break space (U+00A0); the Ogham
/// space mark (U+1680); the spaces U+2000 to U+200A; the line and paragraph
/// separators (U+2028, U+2029); the narrow no-break space (U+202F); the medium
/// mathematical space (U+205F); and the ideographic space (U+3000).
pub open spec fn char_is_whitespace(c: char) -> bool {
    ||| is_ascii_whitespace_char(c)
    ||| c == '\u{85}'
    ||| c == '\u{a0}'
    ||| c == '\u{1680}'
    ||| ('\u{2000}' <= c <= '\u{200a}')
    ||| c == '\u{2028}'
    ||| c == '\u{2029}'
    ||| c == '\u{202f}'
    ||| c == '\u{205f}'
    ||| c == '\u{3000}'
}

pub open spec fn is_ascii_letter(c: char) -> bool {
    ('a' <= c <= 'z') || ('A' <= c <= 'Z')
}

pub open spec fn is_ascii_digit(c: char) -> bool {
    '0' <= c <= '9'
}

pub open spec fn is_ascii_alphanumeric(c: char) -> bool {
    is_ascii_letter(c) || is_ascii_digit(c)
}

/// The ASCII characters that `char::is_whitespace` accepts: tab, line feed,
/// vertical tab, form feed, carriage return and space.
pub open spec fn is_ascii_whitespace_char(c: char) -> bool {
    c == ' ' || ('\t' <= c <= '\r')
}

/// Calls `char::is_alphanumeric`. Of an ASCII character std's documentation
/// fixes the result: exactly the ASCII letters and digits are alphanumeric. Of
/// any other character the result is named `unicode_alphanumeric`, a function
/// of the character alone; nothing more is stated of it.
#[verifier::external_body]
pub(crate) fn is_alphanumeric(c: char) -> (r: bool)
    ensures
        r == char_is_alphanumeric(c),
        (c as u32) >= 128 ==> r == unicode_alphanumeric(c),
{
    c.is_alphanumeric()
}

/// Whether `c` is whitespace, as `char::is_whitespace` decides it.
pub(crate) fn is_whitespace(c: char) -> (r: bool)
    ensures
        r == char_is_whitespace(c),
{
    c == ' ' || ('\t' <= c && c <= '\r') || c == '\u{85}' || c == '\u{a0}' || c == '\u{1680}'
        || ('\u{2000}' <= c && c <= '\u{200a}') || c == '\u{2028}' || c == '\u{2029}'
        || c == '\u{202f}' || c == '\u{205f}' || c == '\u{3000}'
}

/// `c` with an ASCII capital letter made small.
pub open spec fn ascii_lower(c: char) -> char {
    if 'A' <= c <= 'Z' {
        ((c as u32) + 32) as char
    } else {
        c
    }
}

/// `s` is made of ASCII characters only.
pub open spec fn is_ascii_text(s: Seq<char>) -> bool {
    forall|i: int| 0 <= i < s.len() ==> (s[i] as u32) < 128
}

/// `s` with its ASCII capital letters made small.
pub open spec fn ascii_lowercase(s: Seq<char>) -> Seq<char> {
    s.map_values(|c: char| ascii_lower(c))
}

/// The lower-case form of `s` that std's `str::to_lowercase` gives, character
/// by character from the Unicode tables (a character may become several).
pub uninterp spec fn str_lowercase(s: Seq<char>) -> Seq<char>;

/// Calls `str::to_lowercase`. The result is named `str_lowercase`, a function of
/// the text alone. Of a text made of ASCII characters only, the Unicode
/// lower-case mapping is the ASCII one: capital letters become small letters,
/// every other character stays, which is stated.
#[verifier::external_body]
pub(crate) fn to_lowercase(s: &str) -> (r: String)
    ensures
        r@ == str_lowercase(s@),
        is_ascii_text(s@) ==> r@ == ascii_lowercase(s@),
{
    s.to_lowercase()
}

// ---------------------------------------------------------------------------
// Trimming
// ---------------------------------------------------------------------------

/// `s` without its leading whitespace.
pub open spec fn trim_start(s: Seq<char>) -> Seq<char>
    decreases s.len(),
{
    if s.len() > 0 && char_is_whitespace(s[0]) {
        trim_start(s.drop_first())
    } else {
        s
    }
}

/// `s` without its trailing whitespace.
pub open spec fn trim_end(s: Seq<char>) -> Seq<char>
    decreases s.len(),
{
    if s.len() > 0 && char_is_whitespace(s.last()) {
        trim_end(s.drop_last())
    } else {
        s
    }
}

/// `s` without leading and trailing whitespace, as `str::trim` gives it.
pub open spec fn trimmed(s: Seq<char>) -> Seq<char> {
    trim_end(trim_start(s))
}

/// `str::trim`: the text between the leading and the trailing whitespace.
pub fn trim(s: &str) -> (r: String)
    ensures
        r@ == trimmed(s@),
{
    let v = chars_of(s);
    let n = v.len();
    let mut i: usize = 0;
    assert(s@.skip(0) == s@);
    while i < n && is_whitespace(v[i])
        invariant
            n == v.len(),
            v@ == s@,
            i <= n,
            trim_start(s@) == trim_start(s@.skip(i as int)),
        decreases n - i,
    {
        assert(s@.skip(i as int).drop_first() == s@.skip(i + 1));
        i = i + 1;
    }
    let ghost t = s@.skip(i as int);
    assert(trim_start(s@) == t) by {
        if i == n {
            assert(t.len() == 0);
        }
    }
    let mut j: usize = n;
    assert(t.take(t.len() as int) == t);
    while j > i && is_whitespace(v[j - 1])
        invariant
            n == v.len(),
            v@ == s@,
            i <= j <= n,
            t == s@.skip(i as int),
            trim_end(t) == trim_end(s@.subrange(i as int, j as int)),
        decreases j,
    {
        assert(s@.subrange(i as int, j as int).drop_last() == s@.subrange(i as int, j - 1));
        j = j - 1;
    }
    string_from_range(&v, i, j)
}

proof fn lemma_trim_start_shape(s: Seq<char>)
    ensures
        trim_start(s).len() == 0 || !char_is_whitespace(trim_start(s)[0]),
    decreases s.len(),
{
    if s.len() > 0 && char_is_whitespace(s[0]) {
        lemma_trim_start_shape(s.drop_first());
    }
}

proof fn lemma_trim_end_shape(s: Seq<char>)
    ensures
        trim_end(s).len() <= s.len(),
        trim_end(s) == s.take(trim_end(s).len() as int),
        trim_end(s).len() == 0 || !char_is_whitespace(trim_end(s).last()),
    decreases s.len(),
{
    if s.len() > 0 && char_is_whitespace(s.last()) {
        lemma_trim_end_shape(s.drop_last());
        assert(s.drop_last().take(trim_end(s).len() as int) == s.take(trim_end(s).len() as int));
    } else {
        assert(s.take(s.len() as int) == s);
    }
}

/// Trimming twice is trimming once.
pub proof fn lemma_trim_idempotent(s: Seq<char>)
    ensures
        trimmed(trimmed(s)) == trimmed(s),
        trimmed(s).len() == 0 || (!char_is_whitespace(trimmed(s)[0]) && !char_is_whitespace(
            trimmed(s).last(),
        )),
{
    let u = trim_start(s);
    let t = trim_end(u);
    lemma_trim_start_shape(s);
    lemma_trim_end_shape(u);
    if t.len() > 0 {
        assert(t[0] == u[0]);
    }
    assert(trim_start(t) == t);
    assert(trim_end(t) == t);
}

/// `s` without its leading double quotes.
pub open spec fn strip_quotes_start(s: Seq<char>) -> Seq<char>
    decreases s.len(),
{
    if s.len() > 0 && s[0] == '"' {
        strip_quotes_start(s.drop_first())
    } else {
        s
    }
}

/// `s` without its trailing double quotes.
pub open spec fn strip_quotes_end(s: Seq<char>) -> Seq<char>
    decreases s.len(),
{
    if s.len() > 0 && s.last() == '"' {
        strip_quotes_end(s.drop_last())
    } else {
        s
    }
}

/// `s` without the double quotes at either end, as `str::trim_matches('"')` gives it.
pub open spec fn without_quotes(s: Seq<char>) -> Seq<char> {
    strip_quotes_end(strip_quotes_start(s))
}

/// `str::trim_matches('"')`.
pub fn trim_quotes(s: &str) -> (r: String)
    ensures
        r@ == without_quotes(s@),
{
    let v = chars_of(s);
    let n = v.len();
    let mut i: usize = 0;
    assert(s@.skip(0) == s@);
    while i < n && v[i] == '"'
        invariant
            n == v.len(),
            v@ == s@,
            i <= n,
            strip_quotes_start(s@) == strip_quotes_start(s@.skip(i as int)),
        decreases n - i,
    {
        assert(s@.skip(i as int).drop_first() == s@.skip(i + 1));
        i = i + 1;
    }
    let ghost t = s@.skip(i as int);
    assert(strip_quotes_start(s@) == t) by {
        if i == n {
            assert(t.len() == 0);
        }
    }
    let mut j: usize = n;
    assert(t.take(t.len() as int) == t);
    while j > i && v[j - 1] == '"'
        invariant
            n == v.len(),
            v@ == s@,
            i <= j <= n,
            t == s@.skip(i as int),
            strip_quotes_end(t) == strip_quotes_end(s@.subrange(i as int, j as int)),
        decreases j,
    {
        assert(s@.subrange(i as int, j as int).drop_last() == s@.subrange(i as int, j - 1));
        j = j - 1;
    }
    string_from_range(&v, i, j)
}

// ---------------------------------------------------------------------------
// Searching and replacing
// ---------------------------------------------------------------------------

/// `pat` occurs in `s` at position `k`.
pub open spec fn matches_at(s: Seq<char>, pat: Seq<char>, k: int) -> bool {
    0 <= k && k + pat.len() <= s.len() && s.subrange(k, k + pat.len()) == pat
}

/// The first position at or after `k` where `pat` occurs in `s`.
pub open spec fn find_from(s: Seq<char>, pat: Seq<char>, k: int) -> Option<int>
    decreases s.len() + 1 - k,
{
    if k < 0 || k + pat.len() > s.len() {
        None
    } else if matches_at(s, pat, k) {
        Some(k)
    } else {
        find_from(s, pat, k + 1)
    }
}

/// `find_from` gives the first occurrence at or after `k`, or none.
pub proof fn lemma_find_from(s: Seq<char>, pat: Seq<char>, k: int)
    requires
        0 <= k,
    ensures
        find_from(s, pat, k) matches Some(i) ==> {
            &&& k <= i
            &&& matches_at(s, pat, i)
            &&& forall|j: int| k <= j < i ==> !matches_at(s, pat, j)
        },
        find_from(s, pat, k) is None ==> forall|j: int| k <= j ==> !matches_at(s, pat, j),
    decreases s.len() + 1 - k,
{
    if k + pat.len() > s.len() {
    } else if matches_at(s, pat, k) {
    } else {
        lemma_find_from(s, pat, k + 1);
    }
}

/// Whether `pat` occurs in `s` at position `k` (checked character by character).
pub fn occurs_at(s: &Vec<char>, pat: &Vec<char>, k: usize) -> (r: bool)
    ensures
        r == matches_at(s@, pat@, k as int),
{
    if pat.len() > s.len() || k > s.len() - pat.len() {
        return false;
    }
    let mut j: usize = 0;
    while j < pat.len()
        invariant
            k + pat.len() <= s.len(),
            j <= pat.len(),
            forall|m: int| 0 <= m < j ==> s@[k + m] == pat@[m],
        decreases pat.len() - j,
    {
        if s[k + j] != pat[j] {
            assert(s@.subrange(k as int, k + pat.len())[j as int] != pat@[j as int]);
            return false;
        }
        j = j + 1;
    }
    assert(s@.subrange(k as int, k + pat.len()) == pat@);
    true
}

/// The first position at or after `k` where `pat` occurs in `s`, as `str::find` looks for it.
pub fn find_at_or_after(s: &Vec<char>, pat: &Vec<char>, k: usize) -> (r: Option<usize>)
    ensures
        r matches Some(i) ==> find_from(s@, pat@, k as int) == Some(i as int),
        r is None ==> find_from(s@, pat@, k as int) is None,
{
    if pat.len() > s.len() || k > s.len() - pat.len() {
        return None;
    }
    let last = s.len() - pat.len();
    let mut i = k;
    loop
        invariant
            last + pat.len() == s.len(),
            k <= i <= last,
            find_from(s@, pat@, k as int) == find_from(s@, pat@, i as int),
        decreases last - i,
    {
        if occurs_at(s, pat, i) {
            return Some(i);
        }
        if i == last {
            assert(find_from(s@, pat@, i + 1) is None);
            return None;
        }
        i = i + 1;
    }
}

/// `s` with every non-overlapping occurrence of the non-empty `pat`, taken from
/// the left, starting at `k`, replaced by `rep`.
pub open spec fn replaced_from(s: Seq<char>, pat: Seq<char>, rep: Seq<char>, k: int) -> Seq<char>
    recommends
        pat.len() > 0,
    decreases s.len() - k,
    when pat.len() > 0 && 0 <= k <= s.len()
{
    match find_from(s, pat, k) {
        Some(i) => {
            proof {
                lemma_find_from(s, pat, k);
            }
            s.subrange(k, i) + rep + replaced_from(s, pat, rep, i + pat.len())
        },
        None => s.skip(k),
    }
}

/// `s` with `rep` before every character and at the end: what `str::replace`
/// gives for an empty pattern.
pub open spec fn interleaved(s: Seq<char>, rep: Seq<char>) -> Seq<char>
    decreases s.len(),
{
    if s.len() == 0 {
        rep
    } else {
        rep + seq![s[0]] + interleaved(s.drop_first(), rep)
    }
}

/// `s.replace(pat, rep)`, as `str::replace` defines it.
pub open spec fn replaced(s: Seq<char>, pat: Seq<char>, rep: Seq<char>) -> Seq<char> {
    if pat.len() == 0 {
        interleaved(s, rep)
    } else {
        replaced_from(s, pat, rep, 0)
    }
}

/// With a non-empty replacement that shares no character with the non-empty
/// pattern, no occurrence of the pattern is left after replacing; and a text
/// without the pattern is left as it is.
pub proof fn lemma_replaced_leaves_no_match(s: Seq<char>, pat: Seq<char>, rep: Seq<char>)
    requires
        pat.len() > 0,
    ensures
        (forall|j: int| !matches_at(s, pat, j)) ==> replaced(s, pat, rep) == s,
        rep.len() > 0 && (forall|m: int| 0 <= m < pat.len() ==> !rep.contains(#[trigger] pat[m]))
            ==> forall|j: int| !matches_at(replaced(s, pat, rep), pat, j),
{
    lemma_find_from(s, pat, 0);
    if forall|j: int| !matches_at(s, pat, j) {
        assert(s.skip(0) == s);
    }
    if rep.len() > 0 && (forall|m: int| 0 <= m < pat.len() ==> !rep.contains(#[trigger] pat[m])) {
        lemma_replaced_from_no_match(s, pat, rep, 0);
    }
}

proof fn lemma_no_match_in_piece(s: Seq<char>, pat: Seq<char>, k: int, e: int)
    requires
        pat.len() > 0,
        0 <= k <= e <= s.len(),
        forall|j: int| k <= j < e ==> !matches_at(s, pat, j),
    ensures
        forall|j: int| !matches_at(s.subrange(k, e), pat, j),
{
    assert forall|j: int| !matches_at(s.subrange(k, e), pat, j) by {
        if matches_at(s.subrange(k, e), pat, j) {
            assert(s.subrange(k, e).subrange(j, j + pat.len()) == s.subrange(k + j, k + j
                + pat.len()));
            assert(matches_at(s, pat, k + j));
        }
    }
}

proof fn lemma_no_match_across(a: Seq<char>, rep: Seq<char>, b: Seq<char>, pat: Seq<char>)
    requires
        pat.len() > 0,
        rep.len() > 0,
        forall|m: int| 0 <= m < pat.len() ==> !rep.contains(#[trigger] pat[m]),
        forall|j: int| !matches_at(a, pat, j),
        forall|j: int| !matches_at(b, pat, j),
    ensures
        forall|j: int| !matches_at(a + rep + b, pat, j),
{
    let x = a + rep + b;
    let lo = a.len() as int;
    let hi = lo + rep.len();
    assert forall|j: int| !matches_at(x, pat, j) by {
        if matches_at(x, pat, j) {
            let p = pat.len() as int;
            if j + p <= lo {
                assert(x.subrange(j, j + p) == a.subrange(j, j + p));
                assert(matches_at(a, pat, j));
            } else if j >= hi {
                assert(x.subrange(j, j + p) == b.subrange(j - hi, j - hi + p));
                assert(matches_at(b, pat, j - hi));
            } else {
                let q = if j > lo { j } else { lo };
                assert(lo <= q < hi);
                assert(x[q] == rep[q - lo]);
                assert(pat[q - j] == x.subrange(j, j + p)[q - j]);
                assert(rep.contains(pat[q - j]));
            }
        }
    }
}

proof fn lemma_replaced_from_no_match(s: Seq<char>, pat: Seq<char>, rep: Seq<char>, k: int)
    requires
        pat.len() > 0,
        rep.len() > 0,
        forall|m: int| 0 <= m < pat.len() ==> !rep.contains(#[trigger] pat[m]),
        0 <= k <= s.len(),
    ensures
        forall|j: int| !matches_at(replaced_from(s, pat, rep, k), pat, j),
    decreases s.len() - k,
{
    lemma_find_from(s, pat, k);
    match find_from(s, pat, k) {
        Some(i) => {
            lemma_no_match_in_piece(s, pat, k, i);
            lemma_replaced_from_no_match(s, pat, rep, i + pat.len());
            lemma_no_match_across(
                s.subrange(k, i),
                rep,
                replaced_from(s, pat, rep, i + pat.len()),
                pat,
            );
        },
        None => {
            lemma_no_match_in_piece(s, pat, k, s.len() as int);
            assert(s.subrange(k, s.len() as int) == s.skip(k));
        },
    }
}

/// `str::replace`: every non-overlapping occurrence of `pat`, from the left,
/// replaced by `rep`.
pub fn replace_all(s: &str, pat: &str, rep: &str) -> (r: String)
    ensures
        r@ == replaced(s@, pat@, rep@),
{
    let v = chars_of(s);
    let p = chars_of(pat);
    let mut out = String::new();
    if p.len() == 0 {
        let mut i: usize = 0;
        assert(s@.skip(0) == s@);
        while i < v.len()
            invariant
                v@ == s@,
                i <= v.len(),
                out@ + interleaved(s@.skip(i as int), rep@) == interleaved(s@, rep@),
            decreases v.len() - i,
        {
            let ghost rest = s@.skip(i as int);
            push_str(&mut out, rep);
            push_char(&mut out, v[i]);
            assert(rest.drop_first() == s@.skip(i + 1));
            assert(out@ + interleaved(s@.skip(i + 1), rep@) == interleaved(s@, rep@)) by {
                assert(interleaved(rest, rep@) == rep@ + seq![v@[i as int]] + interleaved(
                    rest.drop_first(),
                    rep@,
                ));
            }
            i = i + 1;
        }
        push_str(&mut out, rep);
        assert(s@.skip(i as int).len() == 0);
        return out;
    }
    let mut k: usize = 0;
    loop
        invariant
            v@ == s@,
            p@ == pat@,
            p.len() > 0,
            k <= v.len(),
            out@ + replaced_from(s@, pat@, rep@, k as int) == replaced_from(s@, pat@, rep@, 0),
        decreases v.len() - k,
    {
        proof {
            lemma_find_from(s@, pat@, k as int);
        }
        match find_at_or_after(&v, &p, k) {
            Some(i) => {
                push_range(&mut out, &v, k, i);
                push_str(&mut out, rep);
                k = i + p.len();
            },
            None => {
                push_range(&mut out, &v, k, v.len());
                assert(v@.subrange(k as int, v.len() as int) == s@.skip(k as int));
                return out;
            },
        }
    }
}

// ---------------------------------------------------------------------------
// Taking a name out of a text
// ---------------------------------------------------------------------------

/// `s` holds no occurrence of `pat`.
pub open spec fn free_of(s: Seq<char>, pat: Seq<char>) -> bool {
    forall|j: int| !#[trigger] matches_at(s, pat, j)
}

/// `pat` ends `s`.
pub open spec fn ends_with(s: Seq<char>, pat: Seq<char>) -> bool {
    matches_at(s, pat, s.len() - pat.len())
}

/// `out` with `c` appended, and with `name` taken off the end where it then
/// ends the text.
pub open spec fn push_dropping(out: Seq<char>, c: char, name: Seq<char>) -> Seq<char> {
    let o = out.push(c);
    if ends_with(o, name) {
        o.take(o.len() - name.len())
    } else {
        o
    }
}

/// The first `k` characters of `ph` appended to `out` one by one, each with
/// `push_dropping`.
pub open spec fn push_all_dropping(out: Seq<char>, ph: Seq<char>, name: Seq<char>, k: nat) -> Seq<
    char,
>
    decreases k,
{
    if k == 0 {
        out
    } else {
        push_dropping(push_all_dropping(out, ph, name, (k - 1) as nat), ph[k - 1], name)
    }
}

/// `out` with `c` appended; where `name` then ends the text, it is taken off
/// and the placeholder `ph` put in its place (a character of the placeholder
/// that would complete the name again is left out).
pub open spec fn redact_step(out: Seq<char>, c: char, name: Seq<char>, ph: Seq<char>) -> Seq<char> {
    let o = out.push(c);
    if ends_with(o, name) {
        push_all_dropping(o.take(o.len() - name.len()), ph, name, ph.len())
    } else {
        o
    }
}

/// The first `k` characters of `text`, taken in one by one with `redact_step`.
pub open spec fn redacted_prefix(text: Seq<char>, name: Seq<char>, ph: Seq<char>, k: nat) -> Seq<
    char,
>
    decreases k,
{
    if k == 0 {
        Seq::empty()
    } else {
        redact_step(redacted_prefix(text, name, ph, (k - 1) as nat), text[k - 1], name, ph)
    }
}

/// `text` with every occurrence of a non-empty `name` taken out and `ph` put
/// in its place, read from the left, so that no occurrence is left, not even
/// one that a placeholder forms with the text around it. An empty name leaves
/// the text as it is.
pub open spec fn redacted(text: Seq<char>, name: Seq<char>, ph: Seq<char>) -> Seq<char> {
    if name.len() == 0 {
        text
    } else {
        redacted_prefix(text, name, ph, text.len())
    }
}

proof fn lemma_take_free_of(s: Seq<char>, pat: Seq<char>, k: int)
    requires
        free_of(s, pat),
        0 <= k <= s.len(),
    ensures
        free_of(s.take(k), pat),
{
    assert forall|j: int| !#[trigger] matches_at(s.take(k), pat, j) by {
        if matches_at(s.take(k), pat, j) {
            assert(s.take(k).subrange(j, j + pat.len()) == s.subrange(j, j + pat.len()));
            assert(matches_at(s, pat, j));
        }
    }
}

/// Appending one character to a text free of `name` can form it only at the
/// end.
proof fn lemma_push_only_at_end(out: Seq<char>, c: char, name: Seq<char>, j: int)
    requires
        free_of(out, name),
        matches_at(out.push(c), name, j),
    ensures
        j == out.len() + 1 - name.len(),
{
    let o = out.push(c);
    if j + name.len() <= out.len() {
        assert(o.subrange(j, j + name.len()) == out.subrange(j, j + name.len()));
        assert(matches_at(out, name, j));
    }
}

proof fn lemma_push_dropping_free(out: Seq<char>, c: char, name: Seq<char>)
    requires
        name.len() > 0,
        free_of(out, name),
    ensures
        free_of(push_dropping(out, c, name), name),
{
    let o = out.push(c);
    if ends_with(o, name) {
        let k = o.len() - name.len();
        assert(o.take(k) == out.take(k));
        lemma_take_free_of(out, name, k);
    } else {
        assert forall|j: int| !#[trigger] matches_at(o, name, j) by {
            if matches_at(o, name, j) {
                lemma_push_only_at_end(out, c, name, j);
            }
        }
    }
}

proof fn lemma_push_all_dropping_free(out: Seq<char>, ph: Seq<char>, name: Seq<char>, k: nat)
    requires
        name.len() > 0,
        free_of(out, name),
        k <= ph.len(),
    ensures
        free_of(push_all_dropping(out, ph, name, k), name),
    decreases k,
{
    if k > 0 {
        lemma_push_all_dropping_free(out, ph, name, (k - 1) as nat);
        lemma_push_dropping_free(push_all_dropping(out, ph, name, (k - 1) as nat), ph[k - 1], name);
    }
}

proof fn lemma_redact_step_free(out: Seq<char>, c: char, name: Seq<char>, ph: Seq<char>)
    requires
        name.len() > 0,
        free_of(out, name),
    ensures
        free_of(redact_step(out, c, name, ph), name),
{
    let o = out.push(c);
    if ends_with(o, name) {
        let k = o.len() - name.len();
        assert(o.take(k) == out.take(k));
        lemma_take_free_of(out, name, k);
        lemma_push_all_dropping_free(o.take(k), ph, name, ph.len());
    } else {
        assert forall|j: int| !#[trigger] matches_at(o, name, j) by {
            if matches_at(o, name, j) {
                lemma_push_only_at_end(out, c, name, j);
            }
        }
    }
}

proof fn lemma_redacted_prefix_free(text: Seq<char>, name: Seq<char>, ph: Seq<char>, k: nat)
    requires
        name.len() > 0,
        k <= text.len(),
    ensures
        free_of(redacted_prefix(text, name, ph, k), name),
    decreases k,
{
    if k == 0 {
        assert forall|j: int| !#[trigger] matches_at(Seq::<char>::empty(), name, j) by {}
    } else {
        lemma_redacted_prefix_free(text, name, ph, (k - 1) as nat);
        lemma_redact_step_free(redacted_prefix(text, name, ph, (k - 1) as nat), text[k - 1], name, ph);
    }
}

proof fn lemma_redacted_prefix_clean(text: Seq<char>, name: Seq<char>, ph: Seq<char>, k: nat)
    requires
        name.len() > 0,
        free_of(text, name),
        k <= text.len(),
    ensures
        redacted_prefix(text, name, ph, k) == text.take(k as int),
    decreases k,
{
    if k > 0 {
        lemma_redacted_prefix_clean(text, name, ph, (k - 1) as nat);
        let o = text.take(k - 1).push(text[k - 1]);
        assert(o == text.take(k as int));
        if ends_with(o, name) {
            let j = o.len() - name.len();
            assert(o.subrange(j, j + name.len()) == text.subrange(j, j + name.len()));
            assert(matches_at(text, name, j));
        }
    }
}

/// Nothing of a non-empty name is left in the text once it is taken out: no
/// occurrence of it, wherever it would start.
pub proof fn lemma_redacted_free_of_name(text: Seq<char>, name: Seq<char>, ph: Seq<char>)
    requires
        name.len() > 0,
    ensures
        free_of(redacted(text, name, ph), name),
{
    lemma_redacted_prefix_free(text, name, ph, text.len());
}

/// A text that does not hold the name is left as it is.
pub proof fn lemma_redacted_keeps_clean_text(text: Seq<char>, name: Seq<char>, ph: Seq<char>)
    requires
        free_of(text, name),
    ensures
        redacted(text, name, ph) == text,
{
    if name.len() > 0 {
        lemma_redacted_prefix_clean(text, name, ph, text.len());
        assert(text.take(text.len() as int) == text);
    }
}

/// No character of `name` is a character of `ph`.
pub open spec fn share_no_char(name: Seq<char>, ph: Seq<char>) -> bool {
    forall|a: int, b: int|
        #![trigger name[a], ph[b]]
        0 <= a < name.len() && 0 <= b < ph.len() ==> name[a] != ph[b]
}

/// No occurrence of `name` can take in the last character of `out`.
spec fn sealed(out: Seq<char>, name: Seq<char>) -> bool {
    out.len() == 0 || !name.contains(out.last())
}

proof fn lemma_push_all_disjoint(x: Seq<char>, ph: Seq<char>, name: Seq<char>, k: nat)
    requires
        name.len() > 0,
        share_no_char(name, ph),
        k <= ph.len(),
    ensures
        push_all_dropping(x, ph, name, k) == x + ph.take(k as int),
    decreases k,
{
    if k > 0 {
        lemma_push_all_disjoint(x, ph, name, (k - 1) as nat);
        let o = (x + ph.take(k - 1)).push(ph[k - 1]);
        assert(o == x + ph.take(k as int));
        if ends_with(o, name) {
            let n = name.len() as int;
            assert(o.subrange(o.len() - n, o.len() as int)[n - 1] == o[o.len() - 1]);
            assert(name[n - 1] != ph[k - 1]);
        }
    }
}

/// Between two positions where no occurrence of `name` ends, the text is
/// taken over as it is.
proof fn lemma_run(text: Seq<char>, name: Seq<char>, ph: Seq<char>, p: nat, q: nat)
    requires
        name.len() > 0,
        p <= q <= text.len(),
        sealed(redacted_prefix(text, name, ph, p), name),
        forall|j: int| p <= j && j + name.len() <= q ==> !#[trigger] matches_at(text, name, j),
    ensures
        redacted_prefix(text, name, ph, q) == redacted_prefix(text, name, ph, p) + text.subrange(
            p as int,
            q as int,
        ),
    decreases q - p,
{
    let out = redacted_prefix(text, name, ph, p);
    if q == p {
        assert(text.subrange(p as int, q as int) =~= Seq::<char>::empty());
        assert(out + Seq::<char>::empty() =~= out);
    } else {
        lemma_run(text, name, ph, p, (q - 1) as nat);
        let n = name.len() as int;
        let o = (out + text.subrange(p as int, q - 1)).push(text[q - 1]);
        assert(o =~= out + text.subrange(p as int, q as int));
        if ends_with(o, name) {
            let idx = o.len() - n;
            if idx >= out.len() {
                assert(o.subrange(idx, idx + n) =~= text.subrange(q - n, q as int));
                assert(matches_at(text, name, q - n));
            } else {
                let m = out.len() - 1 - idx;
                assert(o.subrange(idx, idx + n)[m] == out.last());
                assert(name[m] == out.last());
                assert(name.contains(out.last()));
            }
        }
    }
}

proof fn lemma_redact_agrees_from(text: Seq<char>, name: Seq<char>, ph: Seq<char>, p: nat)
    requires
        name.len() > 0,
        ph.len() > 0,
        share_no_char(name, ph),
        p <= text.len(),
        sealed(redacted_prefix(text, name, ph, p), name),
    ensures
        redacted_prefix(text, name, ph, text.len()) == redacted_prefix(text, name, ph, p)
            + replaced_from(text, name, ph, p as int),
    decreases text.len() - p,
{
    let n = name.len() as int;
    let out = redacted_prefix(text, name, ph, p);
    lemma_find_from(text, name, p as int);
    match find_from(text, name, p as int) {
        Some(i) => {
            let e = (i + n) as nat;
            lemma_run(text, name, ph, p, (e - 1) as nat);
            let o = (out + text.subrange(p as int, e - 1)).push(text[e - 1]);
            assert(o =~= out + text.subrange(p as int, e as int));
            assert(o.subrange(o.len() - n, o.len() as int) =~= text.subrange(i, i + n));
            assert(ends_with(o, name));
            lemma_push_all_disjoint(o.take(o.len() - n), ph, name, ph.len());
            assert(ph.take(ph.len() as int) =~= ph);
            assert(o.take(o.len() - n) =~= out + text.subrange(p as int, i));
            let next = out + text.subrange(p as int, i) + ph;
            assert(redacted_prefix(text, name, ph, e) == next);
            assert(next.last() == ph[ph.len() - 1]);
            if name.contains(next.last()) {
                let a = choose|a: int| 0 <= a < name.len() && name[a] == next.last();
                assert(name[a] != ph[ph.len() - 1]);
            }
            lemma_redact_agrees_from(text, name, ph, e);
            assert(replaced_from(text, name, ph, p as int) == text.subrange(p as int, i) + ph
                + replaced_from(text, name, ph, i + n));
            assert(next + replaced_from(text, name, ph, e as int) =~= out + (text.subrange(
                p as int,
                i,
            ) + ph + replaced_from(text, name, ph, i + n)));
        },
        None => {
            lemma_run(text, name, ph, p, text.len());
            assert(text.subrange(p as int, text.len() as int) =~= text.skip(p as int));
        },
    }
}

/// Where the name and the placeholder share no character and the placeholder
/// is not empty, taking the name out gives what `str::replace` gives.
pub proof fn lemma_redacted_agrees_with_replace(text: Seq<char>, name: Seq<char>, ph: Seq<char>)
    requires
        name.len() > 0,
        ph.len() > 0,
        share_no_char(name, ph),
    ensures
        redacted(text, name, ph) == replaced(text, name, ph),
{
    lemma_redact_agrees_from(text, name, ph, 0);
    assert(Seq::<char>::empty() + replaced_from(text, name, ph, 0) =~= replaced_from(
        text,
        name,
        ph,
        0,
    ));
}

/// Appends `c` to `out`, and takes `name` off the end where it then ends the
/// text.
fn push_dropping_vec(out: &mut Vec<char>, c: char, name: &Vec<char>)
    ensures
        final(out)@ == push_dropping(old(out)@, c, name@),
{
    out.push(c);
    if out.len() >= name.len() && occurs_at(out, name, out.len() - name.len()) {
        let keep = out.len() - name.len();
        out.truncate(keep);
    }
}

/// Appends the characters of `ph` to `out` one by one with `push_dropping_vec`.
fn push_all_dropping_vec(out: &mut Vec<char>, ph: &Vec<char>, name: &Vec<char>)
    ensures
        final(out)@ == push_all_dropping(old(out)@, ph@, name@, ph@.len()),
{
    let ghost start = out@;
    let mut k: usize = 0;
    while k < ph.len()
        invariant
            k <= ph.len(),
            out@ == push_all_dropping(start, ph@, name@, k as nat),
        decreases ph.len() - k,
    {
        push_dropping_vec(out, ph[k], name);
        k = k + 1;
    }
}

/// `text` with every occurrence of `name` replaced by `placeholder`, read from
/// the left, and with no occurrence of a non-empty name left at all (see
/// `redacted`). A text without the name comes back as it is.
pub fn redact(text: &str, name: &str, placeholder: &str) -> (r: String)
    ensures
        r@ == redacted(text@, name@, placeholder@),
        name@.len() > 0 ==> free_of(r@, name@),
        free_of(text@, name@) ==> r@ == text@,
        name@.len() > 0 && placeholder@.len() > 0 && share_no_char(name@, placeholder@) ==> r@
            == replaced(text@, name@, placeholder@),
{
    proof {
        if name@.len() > 0 && placeholder@.len() > 0 && share_no_char(name@, placeholder@) {
            lemma_redacted_agrees_with_replace(text@, name@, placeholder@);
        }
        if free_of(text@, name@) {
            lemma_redacted_keeps_clean_text(text@, name@, placeholder@);
        }
        if name@.len() > 0 {
            lemma_redacted_free_of_name(text@, name@, placeholder@);
        }
    }
    let t = chars_of(text);
    let n = chars_of(name);
    let ph = chars_of(placeholder);
    if n.len() == 0 {
        return owned(text);
    }
    let mut out: Vec<char> = Vec::new();
    let mut i: usize = 0;
    while i < t.len()
        invariant
            t@ == text@,
            n@ == name@,
            ph@ == placeholder@,
            n.len() > 0,
            i <= t.len(),
            out@ == redacted_prefix(text@, name@, placeholder@, i as nat),
        decreases t.len() - i,
    {
        out.push(t[i]);
        if out.len() >= n.len() && occurs_at(&out, &n, out.len() - n.len()) {
            let keep = out.len() - n.len();
            out.truncate(keep);
            push_all_dropping_vec(&mut out, &ph, &n);
        }
        i = i + 1;
    }
    let r = string_from_range(&out, 0, out.len());
    assert(out@.subrange(0, out.len() as int) == out@);
    r
}

// ---------------------------------------------------------------------------
// Decimal numbers
// ---------------------------------------------------------------------------

pub open spec fn digit_value(c: char) -> nat {
    ((c as u32) - ('0' as u32)) as nat
}

/// The number that the decimal digits `s` write.
pub open spec fn digits_value(s: Seq<char>) -> nat
    decreases s.len(),
{
    if s.len() == 0 {
        0
    } else {
        digits_value(s.drop_last()) * 10 + digit_value(s.last())
    }
}

pub open spec fn all_digits(s: Seq<char>) -> bool {
    forall|i: int| 0 <= i < s.len() ==> is_ascii_digit(#[trigger] s[i])
}

/// A non-empty run of ASCII digits whose value is at most `max`: its value.
pub open spec fn digits_up_to(d: Seq<char>, max: nat) -> Option<nat> {
    if d.len() > 0 && all_digits(d) && digits_value(d) <= max {
        Some(digits_value(d))
    } else {
        None
    }
}

/// What `u64::from_str` (and the other unsigned `from_str`s, with their own
/// `max`) accept: an optional `+`, then one or more ASCII digits, of a value at
/// most `max`.
pub open spec fn parse_unsigned(s: Seq<char>, max: nat) -> Option<nat> {
    if s.len() > 0 && s[0] == '+' {
        digits_up_to(s.drop_first(), max)
    } else {
        digits_up_to(s, max)
    }
}

/// What `i64::from_str` accepts: an optional sign, then one or more ASCII digits,
/// with the value in the range of `i64`.
pub open spec fn parse_i64_text(s: Seq<char>) -> Option<int> {
    if s.len() > 0 && s[0] == '-' {
        match digits_up_to(s.drop_first(), 0x8000_0000_0000_0000) {
            Some(n) => Some(-(n as int)),
            None => None,
        }
    } else {
        match parse_unsigned(s, 0x7fff_ffff_ffff_ffff) {
            Some(n) => Some(n as int),
            None => None,
        }
    }
}

proof fn lemma_digits_prefix(s: Seq<char>, i: int)
    requires
        all_digits(s),
        0 <= i <= s.len(),
    ensures
        digits_value(s.take(i)) <= digits_value(s),
    decreases s.len(),
{
    if i < s.len() {
        assert(all_digits(s.drop_last()));
        assert(s.drop_last().take(i) == s.take(i));
        lemma_digits_prefix(s.drop_last(), i);
    } else {
        assert(s.take(i) == s);
    }
}

/// The value of the digits `v[start..]`, if they are all ASCII digits, there is
/// at least one, and the value is at most `max`.
pub fn digits_from(v: &Vec<char>, start: usize, max: u64) -> (r: Option<u64>)
    requires
        start <= v.len(),
    ensures
        r == (match digits_up_to(v@.skip(start as int), max as nat) {
            Some(n) => Some(n as u64),
            None => None::<u64>,
        }),
{
    let ghost d = v@.skip(start as int);
    if start == v.len() {
        return None;
    }
    let mut acc: u64 = 0;
    let mut i = start;
    assert(d.take(0) =~= Seq::<char>::empty());
    while i < v.len()
        invariant
            start <= i <= v.len(),
            d == v@.skip(start as int),
            forall|m: int| 0 <= m < i - start ==> is_ascii_digit(#[trigger] d[m]),
            acc as nat == digits_value(d.take(i - start)),
            acc <= max,
        decreases v.len() - i,
    {
        let c = v[i];
        if !('0' <= c && c <= '9') {
            assert(!is_ascii_digit(d[i - start]));
            return None;
        }
        let dv: u64 = ((c as u32) - ('0' as u32)) as u64;
        assert(d.take(i + 1 - start).drop_last() == d.take(i - start));
        assert(digits_value(d.take(i + 1 - start)) == acc * 10 + dv);
        match acc.checked_mul(10) {
            Some(a10) => match a10.checked_add(dv) {
                Some(next) => {
                    if next > max {
                        proof {
                            if all_digits(d) {
                                lemma_digits_prefix(d, i + 1 - start);
                            }
                        }
                        return None;
                    }
                    acc = next;
                },
                None => {
                    proof {
                        if all_digits(d) {
                            lemma_digits_prefix(d, i + 1 - start);
                        }
                    }
                    return None;
                },
            },
            None => {
                proof {
                    if all_digits(d) {
                        lemma_digits_prefix(d, i + 1 - start);
                    }
                }
                return None;
            },
        }
        i = i + 1;
    }
    assert(d.take(i - start) == d);
    Some(acc)
}

/// `u64::from_str`.
pub fn parse_u64(s: &str) -> (r: Option<u64>)
    ensures
        r == (match parse_unsigned(s@, u64::MAX as nat) {
            Some(n) => Some(n as u64),
            None => None::<u64>,
        }),
{
    let v = chars_of(s);
    if v.len() > 0 && v[0] == '+' {
        assert(v@.skip(1) == s@.drop_first());
        digits_from(&v, 1, u64::MAX)
    } else {
        assert(v@.skip(0) == s@);
        digits_from(&v, 0, u64::MAX)
    }
}

/// `u32::from_str`.
pub fn parse_u32(s: &str) -> (r: Option<u32>)
    ensures
        r == (match parse_unsigned(s@, u32::MAX as nat) {
            Some(n) => Some(n as u32),
            None => None::<u32>,
        }),
{
    let v = chars_of(s);
    let r = if v.len() > 0 && v[0] == '+' {
        assert(v@.skip(1) == s@.drop_first());
        digits_from(&v, 1, u32::MAX as u64)
    } else {
        assert(v@.skip(0) == s@);
        digits_from(&v, 0, u32::MAX as u64)
    };
    match r {
        Some(n) => Some(n as u32),
        None => None,
    }
}

/// `i64::from_str`.
pub fn parse_i64(s: &str) -> (r: Option<i64>)
    ensures
        r == (match parse_i64_text(s@) {
            Some(n) => Some(n as i64),
            None => None::<i64>,
        }),
{
    let v = chars_of(s);
    if v.len() > 0 && v[0] == '-' {
        assert(v@.skip(1) == s@.drop_first());
        match digits_from(&v, 1, 0x8000_0000_0000_0000u64) {
            Some(n) => {
                if n == 0x8000_0000_0000_0000u64 {
                    Some(i64::MIN)
                } else {
                    Some(-(n as i64))
                }
            },
            None => None,
        }
    } else {
        let r = if v.len() > 0 && v[0] == '+' {
            assert(v@.skip(1) == s@.drop_first());
            digits_from(&v, 1, 0x7fff_ffff_ffff_ffffu64)
        } else {
            assert(v@.skip(0) == s@);
            digits_from(&v, 0, 0x7fff_ffff_ffff_ffffu64)
        };
        match r {
            Some(n) => Some(n as i64),
            None => None,
        }
    }
}

/// The ASCII digit for `d` (below 10).
pub open spec fn digit_char(d: nat) -> char {
    if d == 0 {
        '0'
    } else if d == 1 {
        '1'
    } else if d == 2 {
        '2'
    } else if d == 3 {
        '3'
    } else if d == 4 {
        '4'
    } else if d == 5 {
        '5'
    } else if d == 6 {
        '6'
    } else if d == 7 {
        '7'
    } else if d == 8 {
        '8'
    } else {
        '9'
    }
}

fn digit(d: u64) -> (c: char)
    requires
        d < 10,
    ensures
        c == digit_char(d as nat),
{
    if d == 0 {
        '0'
    } else if d == 1 {
        '1'
    } else if d == 2 {
        '2'
    } else if d == 3 {
        '3'
    } else if d == 4 {
        '4'
    } else if d == 5 {
        '5'
    } else if d == 6 {
        '6'
    } else if d == 7 {
        '7'
    } else if d == 8 {
        '8'
    } else {
        '9'
    }
}

/// The decimal digits of `n`, without leading zeros, as `Display` writes an integer.
pub open spec fn decimal_text(n: nat) -> Seq<char>
    decreases n,
{
    if n < 10 {
        seq![digit_char(n)]
    } else {
        decimal_text(n / 10).push(digit_char(n % 10))
    }
}

/// Reading back the digits that `Display` writes gives the number again.
pub proof fn lemma_decimal_roundtrip(n: nat, max: nat)
    requires
        n <= max,
    ensures
        parse_unsigned(decimal_text(n), max) == Some(n),
{
    lemma_decimal_text(n);
}

proof fn lemma_digit(d: nat)
    requires
        d < 10,
    ensures
        digit_value(digit_char(d)) == d,
        is_ascii_digit(digit_char(d)),
{
}

proof fn lemma_decimal_text(n: nat)
    ensures
        decimal_text(n).len() > 0,
        all_digits(decimal_text(n)),
        digits_value(decimal_text(n)) == n,
    decreases n,
{
    if n < 10 {
        lemma_digit(n);
        let t = decimal_text(n);
        assert(t.drop_last() =~= Seq::<char>::empty());
        assert(digits_value(t.drop_last()) == 0);
        assert(t.last() == digit_char(n));
        assert(digits_value(t) == digits_value(t.drop_last()) * 10 + digit_value(t.last()));
    } else {
        lemma_decimal_text(n / 10);
        lemma_digit(n % 10);
        let t = decimal_text(n);
        assert(t.drop_last() == decimal_text(n / 10));
        assert(t.last() == digit_char(n % 10));
        assert(digits_value(t) == digits_value(t.drop_last()) * 10 + digit_value(t.last()));
        assert(n == (n / 10) * 10 + n % 10) by (nonlinear_arith);
        assert(forall|i: int| 0 <= i < t.len() - 1 ==> t[i] == decimal_text(n / 10)[i]);
    }
}

/// Appends the decimal digits of `n` to `s`.
pub fn push_decimal(s: &mut String, n: u64)
    ensures
        final(s)@ == old(s)@ + decimal_text(n as nat),
    decreases n,
{
    if n >= 10 {
        push_decimal(s, n / 10);
    }
    push_char(s, digit(n % 10));
}

/// `n.to_string()` for an unsigned integer.
pub fn decimal_string(n: u64) -> (r: String)
    ensures
        r@ == decimal_text(n as nat),
{
    let mut r = String::new();
    push_decimal(&mut r, n);
    r
}

} // verus!
