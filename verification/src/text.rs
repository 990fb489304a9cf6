//! Character classes, byte lengths, substring search and the string-list
//! helpers shared by the entities.

use vstd::prelude::*;

verus! {

broadcast use vstd::seq_lib::group_seq_properties;

/// ASCII letter or digit.
pub open spec fn is_ascii_alnum(c: char) -> bool {
    ('a' <= c && c <= 'z') || ('A' <= c && c <= 'Z') || ('0' <= c && c <= '9')
}

/// Executable form of [`is_ascii_alnum`].
pub fn ascii_alnum(c: char) -> (b: bool)
    ensures
        b == is_ascii_alnum(c),
{
    ('a' <= c && c <= 'z') || ('A' <= c && c <= 'Z') || ('0' <= c && c <= '9')
}

/// ASCII hexadecimal digit, either case.
pub open spec fn is_hex_digit(c: char) -> bool {
    ('0' <= c && c <= '9') || ('a' <= c && c <= 'f') || ('A' <= c && c <= 'F')
}

/// Characters allowed in identifiers that may hold dots: letters, digits, `.`, `_`, `-`.
pub open spec fn is_dotted_id_char(c: char) -> bool {
    is_ascii_alnum(c) || c == '.' || c == '_' || c == '-'
}

/// Characters allowed in user and team identifiers: letters, digits, `_`, `-`.
pub open spec fn is_plain_id_char(c: char) -> bool {
    is_ascii_alnum(c) || c == '_' || c == '-'
}

/// The Unicode `White_Space` property, which is what `char::is_whitespace` tests.
pub open spec fn is_whitespace(c: char) -> bool {
    ('\u{9}' <= c && c <= '\u{d}') || c == ' ' || c == '\u{85}' || c == '\u{a0}'
        || c == '\u{1680}' || ('\u{2000}' <= c && c <= '\u{200a}') || c == '\u{2028}'
        || c == '\u{2029}' || c == '\u{202f}' || c == '\u{205f}' || c == '\u{3000}'
}

/// A text is blank when trimming it leaves nothing: every character is white space.
pub open spec fn is_blank(s: Seq<char>) -> bool {
    forall|i: int| 0 <= i < s.len() ==> is_whitespace(#[trigger] s[i])
}

/// Number of bytes of the UTF-8 encoding of a text, as `str::len` reports it.
pub open spec fn byte_len(s: Seq<char>) -> usize {
    vstd::utf8::encode_utf8(s).len() as usize
}

/// Byte length of a string, as `str::len` reports it.
pub fn str_byte_len(s: &str) -> (n: usize)
    ensures
        n == byte_len(s@),
{
    s.len()
}

/// Whether every character of `s` is a dotted identifier character.
pub fn all_dotted_id_chars(s: &str) -> (b: bool)
    ensures
        b == (forall|i: int| 0 <= i < s@.len() ==> is_dotted_id_char(#[trigger] s@[i])),
{
    let n = s.unicode_len();
    let mut i: usize = 0;
    while i < n
        invariant
            n == s@.len(),
            i <= n,
            forall|j: int| 0 <= j < i ==> is_dotted_id_char(#[trigger] s@[j]),
        decreases n - i,
    {
        let c = s.get_char(i);
        if !(ascii_alnum(c) || c == '.' || c == '_' || c == '-') {
            return false;
        }
        i = i + 1;
    }
    true
}

/// Whether every character of `s` is a plain identifier character.
pub fn all_plain_id_chars(s: &str) -> (b: bool)
    ensures
        b == (forall|i: int| 0 <= i < s@.len() ==> is_plain_id_char(#[trigger] s@[i])),
{
    let n = s.unicode_len();
    let mut i: usize = 0;
    while i < n
        invariant
            n == s@.len(),
            i <= n,
            forall|j: int| 0 <= j < i ==> is_plain_id_char(#[trigger] s@[j]),
        decreases n - i,
    {
        let c = s.get_char(i);
        if !(ascii_alnum(c) || c == '_' || c == '-') {
            return false;
        }
        i = i + 1;
    }
    true
}

/// Whether a text is blank (what `s.trim().is_empty()` tests).
pub fn str_is_blank(s: &str) -> (b: bool)
    ensures
        b == is_blank(s@),
{
    let n = s.unicode_len();
    let mut i: usize = 0;
    while i < n
        invariant
            n == s@.len(),
            i <= n,
            forall|j: int| 0 <= j < i ==> is_whitespace(#[trigger] s@[j]),
        decreases n - i,
    {
        let c = s.get_char(i);
        if !(('\u{9}' <= c && c <= '\u{d}') || c == ' ' || c == '\u{85}' || c == '\u{a0}'
            || c == '\u{1680}' || ('\u{2000}' <= c && c <= '\u{200a}') || c == '\u{2028}'
            || c == '\u{2029}' || c == '\u{202f}' || c == '\u{205f}' || c == '\u{3000}') {
            return false;
        }
        i = i + 1;
    }
    true
}

/// `s` begins with `prefix`.
pub open spec fn has_prefix(s: Seq<char>, prefix: Seq<char>) -> bool {
    prefix.len() <= s.len() && s.subrange(0, prefix.len() as int) == prefix
}

/// `pat` occurs in `s` starting at position `i`.
pub open spec fn occurs_at(s: Seq<char>, pat: Seq<char>, i: int) -> bool {
    0 <= i && i + pat.len() <= s.len() && s.subrange(i, i + pat.len()) == pat
}

/// `pat` occurs somewhere in `s` (what `str::contains` with a string pattern tests).
pub open spec fn has_substring(s: Seq<char>, pat: Seq<char>) -> bool {
    exists|i: int| occurs_at(s, pat, i)
}

/// Position of the first occurrence of `pat` in `s`, if any.
pub open spec fn first_occurrence(s: Seq<char>, pat: Seq<char>) -> Option<int> {
    if has_substring(s, pat) {
        Some(choose|i: int| occurs_at(s, pat, i) && forall|j: int| 0 <= j < i ==> !occurs_at(s, pat, j))
    } else {
        None
    }
}

/// Whether `s` starts with `prefix`.
pub fn str_starts_with(s: &str, prefix: &str) -> (b: bool)
    ensures
        b == has_prefix(s@, prefix@),
{
    let n = s.unicode_len();
    let m = prefix.unicode_len();
    if m > n {
        return false;
    }
    let mut i: usize = 0;
    while i < m
        invariant
            n == s@.len(),
            m == prefix@.len(),
            m <= n,
            i <= m,
            forall|j: int| 0 <= j < i ==> s@[j] == prefix@[j],
        decreases m - i,
    {
        if s.get_char(i) != prefix.get_char(i) {
            assert(s@.subrange(0, m as int)[i as int] != prefix@[i as int]);
            return false;
        }
        i = i + 1;
    }
    assert(s@.subrange(0, m as int) =~= prefix@);
    true
}

/// Whether `pat` occurs in `s` at position `i`.
fn matches_at(s: &str, pat: &str, i: usize) -> (b: bool)
    requires
        i + pat@.len() <= s@.len(),
    ensures
        b == occurs_at(s@, pat@, i as int),
{
    let n = s.unicode_len();
    let m = pat.unicode_len();
    let mut k: usize = 0;
    while k < m
        invariant
            n == s@.len(),
            m == pat@.len(),
            i + m <= s@.len(),
            k <= m,
            forall|j: int| 0 <= j < k ==> s@[i + j] == pat@[j],
        decreases m - k,
    {
        if s.get_char(i + k) != pat.get_char(k) {
            assert(s@.subrange(i as int, i + m)[k as int] != pat@[k as int]);
            return false;
        }
        k = k + 1;
    }
    assert(s@.subrange(i as int, i + m) =~= pat@);
    true
}

/// Position of the first occurrence of `pat` in `s` (what `str::find` reports, counted in characters).
pub fn str_find(s: &str, pat: &str) -> (r: Option<usize>)
    ensures
        r matches Some(i) ==> occurs_at(s@, pat@, i as int) && forall|j: int| 0 <= j < i ==> !occurs_at(s@, pat@, j),
        r is None ==> !has_substring(s@, pat@),
        r matches Some(i) ==> first_occurrence(s@, pat@) == Some(i as int),
        r is None ==> first_occurrence(s@, pat@) is None,
{
    let n = s.unicode_len();
    let m = pat.unicode_len();
    if m > n {
        assert forall|j: int| !occurs_at(s@, pat@, j) by {}
        return None;
    }
    if m == 0 {
        assert(s@.subrange(0, 0) =~= pat@);
        assert(occurs_at(s@, pat@, 0));
        return Some(0);
    }
    let mut i: usize = 0;
    while i <= n - m
        invariant
            n == s@.len(),
            m == pat@.len(),
            m <= n,
            1 <= m,
            i <= n - m + 1,
            forall|j: int| 0 <= j < i ==> !occurs_at(s@, pat@, j),
        decreases n - m + 1 - i,
    {
        if matches_at(s, pat, i) {
            proof {
                let f = choose|k: int| occurs_at(s@, pat@, k) && forall|j: int| 0 <= j < k ==> !occurs_at(s@, pat@, j);
                assert(occurs_at(s@, pat@, f) && forall|j: int| 0 <= j < f ==> !occurs_at(s@, pat@, j));
                if f < i {
                } else if f > i {
                    assert(!occurs_at(s@, pat@, i as int));
                }
            }
            return Some(i);
        }
        i = i + 1;
    }
    assert forall|j: int| !occurs_at(s@, pat@, j) by {
        if 0 <= j && j + m <= n {
            assert(j < i);
        }
    }
    None
}

/// Whether `pat` occurs in `s`.
pub fn str_contains(s: &str, pat: &str) -> (b: bool)
    ensures
        b == has_substring(s@, pat@),
{
    str_find(s, pat).is_some()
}

/// Position of the first occurrence of `c` in `s`, counted in characters.
pub fn str_find_char(s: &str, c: char) -> (r: Option<usize>)
    ensures
        r matches Some(i) ==> i < s@.len() && s@[i as int] == c && forall|j: int| 0 <= j < i ==> s@[j] != c,
        r is None ==> !s@.contains(c),
{
    let n = s.unicode_len();
    let mut i: usize = 0;
    while i < n
        invariant
            n == s@.len(),
            i <= n,
            forall|j: int| 0 <= j < i ==> s@[j] != c,
        decreases n - i,
    {
        if s.get_char(i) == c {
            return Some(i);
        }
        i = i + 1;
    }
    None
}

/// Position of the first `c` in `s` (meaningful when `s` holds `c`).
pub open spec fn first_index(s: Seq<char>, c: char) -> int {
    choose|i: int| 0 <= i < s.len() && s[i] == c && forall|j: int| 0 <= j < i ==> s[j] != c
}

/// The text before the first `c`, or all of `s` when it holds no `c`.
pub open spec fn before_char(s: Seq<char>, c: char) -> Seq<char> {
    if s.contains(c) { s.take(first_index(s, c)) } else { s }
}

/// The text after the first `c` (meaningful when `s` holds `c`).
pub open spec fn after_char(s: Seq<char>, c: char) -> Seq<char> {
    s.skip(first_index(s, c) + 1)
}

/// The minimal position of a character is unique, so it is [`first_index`].
pub proof fn lemma_first_index(s: Seq<char>, c: char, i: int)
    requires
        0 <= i < s.len(),
        s[i] == c,
        forall|j: int| 0 <= j < i ==> s[j] != c,
    ensures
        first_index(s, c) == i,
{
    let f = first_index(s, c);
    assert(0 <= f < s.len() && s[f] == c && forall|j: int| 0 <= j < f ==> s[j] != c);
    if f < i {
        assert(s[f] != c);
    } else if f > i {
        assert(s[i] != c);
    }
}

/// Position of the last occurrence of `pat` in `s` (meaningful when there is one).
pub open spec fn last_occurrence(s: Seq<char>, pat: Seq<char>) -> int {
    choose|i: int| occurs_at(s, pat, i) && forall|j: int| i < j ==> !occurs_at(s, pat, j)
}

/// The text after the last occurrence of `pat`, or all of `s` when there is none
/// (the last piece of `s.split(pat)`).
pub open spec fn after_last(s: Seq<char>, pat: Seq<char>) -> Seq<char> {
    if has_substring(s, pat) { s.skip(last_occurrence(s, pat) + pat.len()) } else { s }
}

/// Position of the last occurrence of `pat` in `s`, counted in characters.
pub fn str_rfind(s: &str, pat: &str) -> (r: Option<usize>)
    ensures
        r matches Some(i) ==> occurs_at(s@, pat@, i as int) && last_occurrence(s@, pat@) == i,
        r is None ==> !has_substring(s@, pat@),
{
    let n = s.unicode_len();
    let m = pat.unicode_len();
    if m > n {
        assert forall|j: int| !occurs_at(s@, pat@, j) by {}
        return None;
    }
    if m == 0 {
        assert(s@.subrange(n as int, n as int) =~= pat@);
        proof {
            let k = n as int;
            let f = last_occurrence(s@, pat@);
            assert(occurs_at(s@, pat@, k) && forall|j: int| k < j ==> !occurs_at(s@, pat@, j));
            assert(occurs_at(s@, pat@, f) && forall|j: int| f < j ==> !occurs_at(s@, pat@, j));
            if f < k {
                assert(!occurs_at(s@, pat@, k));
            }
        }
        return Some(n);
    }
    let mut i: usize = n - m + 1;
    while i > 0
        invariant
            n == s@.len(),
            m == pat@.len(),
            m <= n,
            i <= n - m + 1,
            forall|j: int| i <= j ==> !occurs_at(s@, pat@, j),
        decreases i,
    {
        if matches_at(s, pat, i - 1) {
            proof {
                let k = (i - 1) as int;
                let f = last_occurrence(s@, pat@);
                assert(occurs_at(s@, pat@, k) && forall|j: int| k < j ==> !occurs_at(s@, pat@, j));
                assert(occurs_at(s@, pat@, f) && forall|j: int| f < j ==> !occurs_at(s@, pat@, j));
                if f < k {
                    assert(!occurs_at(s@, pat@, k));
                } else if f > k {
                    assert(!occurs_at(s@, pat@, f));
                }
            }
            return Some(i - 1);
        }
        i = i - 1;
    }
    None
}

/// The text after the last occurrence of `pat` in `s`, or all of `s`.
pub fn str_after_last(s: &str, pat: &str) -> (r: String)
    ensures
        r@ == after_last(s@, pat@),
{
    let n = s.unicode_len();
    let m = pat.unicode_len();
    match str_rfind(s, pat) {
        Some(i) => substring(s, i + m, n),
        None => copy_str(s),
    }
}

/// The text before the first `c` in `s`, or all of `s`.
pub fn str_before_char(s: &str, c: char) -> (r: String)
    ensures
        r@ == before_char(s@, c),
{
    match str_find_char(s, c) {
        Some(i) => {
            proof { lemma_first_index(s@, c, i as int); }
            substring(s, 0, i)
        },
        None => copy_str(s),
    }
}

/// Whether `c` occurs in `s`.
pub fn str_contains_char(s: &str, c: char) -> (b: bool)
    ensures
        b == s@.contains(c),
{
    str_find_char(s, c).is_some()
}

/// Copy of the characters `from..to` of `s`.
pub fn substring(s: &str, from: usize, to: usize) -> (r: String)
    requires
        from <= to <= s@.len(),
    ensures
        r@ == s@.subrange(from as int, to as int),
{
    s.substring_char(from, to).to_string()
}

/// Copy of a string.
pub fn copy_str(s: &str) -> (r: String)
    ensures
        r@ == s@,
{
    s.to_string()
}

/// Whether two strings hold the same characters.
pub fn str_eq(a: &str, b: &str) -> (r: bool)
    ensures
        r == (a@ == b@),
{
    let n = a.unicode_len();
    let m = b.unicode_len();
    if n != m {
        return false;
    }
    let mut i: usize = 0;
    while i < n
        invariant
            n == a@.len(),
            m == b@.len(),
            n == m,
            i <= n,
            forall|j: int| 0 <= j < i ==> a@[j] == b@[j],
        decreases n - i,
    {
        if a.get_char(i) != b.get_char(i) {
            return false;
        }
        i = i + 1;
    }
    assert(a@ =~= b@);
    true
}

/// The characters of a list of strings, element by element.
pub open spec fn views(v: Seq<String>) -> Seq<Seq<char>> {
    v.map_values(|s: String| s@)
}

/// Whether `v` holds a string equal to `s`.
pub fn list_contains(v: &Vec<String>, s: &str) -> (b: bool)
    ensures
        b == views(v@).contains(s@),
{
    let mut i: usize = 0;
    while i < v.len()
        invariant
            i <= v.len(),
            forall|j: int| 0 <= j < i ==> v@[j]@ != s@,
        decreases v.len() - i,
    {
        if str_eq(v[i].as_str(), s) {
            assert(views(v@)[i as int] == s@);
            return true;
        }
        i = i + 1;
    }
    assert forall|j: int| 0 <= j < views(v@).len() implies views(v@)[j] != s@ by {
        assert(views(v@)[j] == v@[j]@);
    }
    false
}

/// Appends `s` unless an equal string is already present; reports whether it was appended.
pub fn push_unique(v: &mut Vec<String>, s: String) -> (added: bool)
    ensures
        added == !views(old(v)@).contains(s@),
        added ==> views(final(v)@) == views(old(v)@).push(s@),
        !added ==> *final(v) == *old(v),
{
    if list_contains(v, s.as_str()) {
        false
    } else {
        proof {
            let ghost sv = s@;
        }
        v.push(s);
        assert(views(final(v)@) =~= views(old(v)@).push(s@));
        true
    }
}

/// Keeps only the strings that differ from `s`, in order; reports whether any was removed.
pub fn remove_all(v: &mut Vec<String>, s: &str) -> (removed: bool)
    ensures
        views(final(v)@) == with_removed(views(old(v)@), s@),
        removed == views(old(v)@).contains(s@),
{
    let ghost old_v = views(v@);
    let ghost pred = differs_from(s@);
    let mut kept: Vec<String> = Vec::new();
    let mut removed = false;
    let mut i: usize = 0;
    let n = v.len();
    while i < n
        invariant
            n == v.len(),
            i <= n,
            old_v == views(v@),
            pred == differs_from(s@),
            views(kept@) == old_v.take(i as int).filter(pred),
            removed == old_v.take(i as int).contains(s@),
        decreases n - i,
    {
        proof {
            old_v.take(i as int).lemma_filter_push(old_v[i as int], pred);
            assert(old_v.take(i + 1) =~= old_v.take(i as int).push(old_v[i as int]));
            assert(old_v[i as int] == v@[i as int]@);
        }
        if str_eq(v[i].as_str(), s) {
            removed = true;
        } else {
            let c = copy_str(v[i].as_str());
            kept.push(c);
            assert(views(kept@) =~= old_v.take(i as int).filter(pred).push(old_v[i as int]));
        }
        i = i + 1;
    }
    assert(old_v.take(n as int) =~= old_v);
    *v = kept;
    removed
}

/// Deep copy of a list of strings.
pub fn copy_list(v: &Vec<String>) -> (r: Vec<String>)
    ensures
        views(r@) == views(v@),
{
    let mut r: Vec<String> = Vec::new();
    let mut i: usize = 0;
    while i < v.len()
        invariant
            i <= v.len(),
            views(r@) == views(v@).take(i as int),
        decreases v.len() - i,
    {
        let c = copy_str(v[i].as_str());
        let ghost before = r@;
        r.push(c);
        assert(views(v@)[i as int] == v@[i as int]@);
        assert(views(r@) =~= views(before).push(v@[i as int]@));
        assert(views(r@) =~= views(v@).take(i + 1));
        i = i + 1;
    }
    assert(views(v@).take(v.len() as int) =~= views(v@));
    r
}

/// Whether two lists of strings are equal element by element.
pub fn lists_equal(a: &Vec<String>, b: &Vec<String>) -> (r: bool)
    ensures
        r == (views(a@) == views(b@)),
{
    if a.len() != b.len() {
        assert(views(a@).len() != views(b@).len());
        return false;
    }
    let mut i: usize = 0;
    while i < a.len()
        invariant
            a.len() == b.len(),
            i <= a.len(),
            forall|j: int| 0 <= j < i ==> a@[j]@ == b@[j]@,
        decreases a.len() - i,
    {
        if !str_eq(a[i].as_str(), b[i].as_str()) {
            assert(views(a@)[i as int] != views(b@)[i as int]);
            return false;
        }
        i = i + 1;
    }
    assert(views(a@) =~= views(b@));
    true
}

/// Whether two optional strings are equal.
pub fn opt_str_equal(a: &Option<String>, b: &Option<String>) -> (r: bool)
    ensures
        r == (opt_view(*a) == opt_view(*b)),
{
    match (a, b) {
        (Some(x), Some(y)) => str_eq(x.as_str(), y.as_str()),
        (None, None) => true,
        _ => false,
    }
}

/// The characters of an optional string.
pub open spec fn opt_view(o: Option<String>) -> Option<Seq<char>> {
    match o {
        Some(s) => Some(s@),
        None => None,
    }
}

/// Deep copy of an optional string.
pub fn copy_opt(o: &Option<String>) -> (r: Option<String>)
    ensures
        opt_view(r) == opt_view(*o),
{
    match o {
        Some(s) => Some(copy_str(s.as_str())),
        None => None,
    }
}

/// A membership list after adding `x` once: unchanged when `x` is there already, else
/// with `x` at the end (what the `add_*` methods of the entities do).
pub open spec fn with_added(s: Seq<Seq<char>>, x: Seq<char>) -> Seq<Seq<char>> {
    if s.contains(x) {
        s
    } else {
        s.push(x)
    }
}

/// The texts that differ from `x`.
pub open spec fn differs_from(x: Seq<char>) -> spec_fn(Seq<char>) -> bool {
    |y: Seq<char>| y != x
}

/// A membership list after removing `x` (what the `remove_*` methods do).
pub open spec fn with_removed(s: Seq<Seq<char>>, x: Seq<char>) -> Seq<Seq<char>> {
    s.filter(differs_from(x))
}

/// Keeping every element keeps the list.
proof fn lemma_filter_keeps_all(s: Seq<Seq<char>>, x: Seq<char>)
    requires
        !s.contains(x),
    ensures
        with_removed(s, x) == s,
    decreases s.len(),
{
    if s.len() > 0 {
        let t = s.drop_last();
        assert(s =~= t.push(s.last()));
        assert(!t.contains(x)) by {
            if t.contains(x) {
                let i = choose|i: int| 0 <= i < t.len() && t[i] == x;
                assert(s[i] == x);
            }
        }
        lemma_filter_keeps_all(t, x);
        t.lemma_filter_push(s.last(), differs_from(x));
    } else {
        reveal(Seq::filter);
        assert(with_removed(s, x) =~= s);
    }
}

/// Filtering a list without repeats leaves a list without repeats.
proof fn lemma_filter_distinct(s: Seq<Seq<char>>, x: Seq<char>)
    requires
        s.no_duplicates(),
    ensures
        with_removed(s, x).no_duplicates(),
    decreases s.len(),
{
    if s.len() > 0 {
        let t = s.drop_last();
        let e = s.last();
        let p = differs_from(x);
        assert(s =~= t.push(e));
        assert(t.no_duplicates());
        lemma_filter_distinct(t, x);
        t.lemma_filter_push(e, p);
        if p(e) {
            let f = t.filter(p);
            assert(!f.contains(e)) by {
                if f.contains(e) {
                    t.lemma_filter_contains_rev(p, e);
                    let i = choose|i: int| 0 <= i < t.len() && t[i] == e;
                    assert(s[i] == s[s.len() - 1]);
                }
            }
            assert forall|i: int, j: int|
                0 <= i < f.push(e).len() && 0 <= j < f.push(e).len() && i != j
                implies f.push(e)[i] != f.push(e)[j] by {
                if i < f.len() && j < f.len() {
                } else if i < f.len() {
                    assert(f.push(e)[i] == f[i]);
                    assert(f.contains(f[i]));
                } else {
                    assert(f.push(e)[j] == f[j]);
                    assert(f.contains(f[j]));
                }
            }
        }
    } else {
        reveal(Seq::filter);
        assert(with_removed(s, x) =~= s);
    }
}

/// Membership lists never repeat a member: adding and removing keep a list without
/// repeats free of them.
pub proof fn lemma_membership_stays_distinct(s: Seq<Seq<char>>, x: Seq<char>)
    requires
        s.no_duplicates(),
    ensures
        with_added(s, x).no_duplicates(),
        with_removed(s, x).no_duplicates(),
        !with_removed(s, x).contains(x),
        with_added(s, x).contains(x),
{
    lemma_filter_distinct(s, x);
    if !s.contains(x) {
        assert forall|i: int, j: int|
            0 <= i < s.push(x).len() && 0 <= j < s.push(x).len() && i != j
            implies s.push(x)[i] != s.push(x)[j] by {
            if i < s.len() && j < s.len() {
            } else if i < s.len() {
                assert(s.push(x)[i] == s[i]);
            } else {
                assert(s.push(x)[j] == s[j]);
            }
        }
        assert(s.push(x)[s.len() as int] == x);
    }
    let f = with_removed(s, x);
    if f.contains(x) {
        let i = choose|i: int| 0 <= i < f.len() && f[i] == x;
        s.lemma_filter_pred(differs_from(x), i);
    }
}

/// Removing a member undoes adding it: when `x` was not a member, adding then removing
/// it gives the list back as it was.
pub proof fn lemma_remove_undoes_add(s: Seq<Seq<char>>, x: Seq<char>)
    requires
        !s.contains(x),
    ensures
        with_removed(with_added(s, x), x) == s,
{
    s.lemma_filter_push(x, differs_from(x));
    lemma_filter_keeps_all(s, x);
}

/// `s` padded with spaces on the right to `width` characters, as `{:<width}` prints it;
/// a longer text is left as it is.
pub open spec fn pad_right(s: Seq<char>, width: nat) -> Seq<char> {
    if s.len() >= width {
        s
    } else {
        s + Seq::new((width - s.len()) as nat, |i: int| ' ')
    }
}

/// Pads a text with spaces on the right to `width` characters.
pub fn padded(s: &str, width: usize) -> (r: String)
    ensures
        r@ == pad_right(s@, width as nat),
{
    let n = s.unicode_len();
    let mut r = copy_str(s);
    if n >= width {
        return r;
    }
    proof {
        reveal_strlit(" ");
    }
    let mut k: usize = n;
    while k < width
        invariant
            n == s@.len(),
            n <= k <= width,
            " "@ =~= seq![' '],
            r@ == s@ + Seq::new((k - n) as nat, |i: int| ' '),
        decreases width - k,
    {
        let ghost before = r@;
        r.append(" ");
        assert(r@ =~= s@ + Seq::new((k + 1 - n) as nat, |i: int| ' '));
        k = k + 1;
    }
    r
}

} // verus!
