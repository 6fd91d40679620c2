//! Text helpers: trimming, case folding, searching, ordering and the parts of
//! `/`-separated paths. Strings are modelled as sequences of characters.
use vstd::prelude::*;
use vstd::string::*;

verus! {

/// The characters with the Unicode `White_Space` property.
pub open spec fn white_space(c: char) -> bool {
    ||| '\u{9}' <= c <= '\u{d}'
    ||| c == '\u{20}'
    ||| c == '\u{85}'
    ||| c == '\u{a0}'
    ||| c == '\u{1680}'
    ||| '\u{2000}' <= c <= '\u{200a}'
    ||| c == '\u{2028}'
    ||| c == '\u{2029}'
    ||| c == '\u{202f}'
    ||| c == '\u{205f}'
    ||| c == '\u{3000}'
}

fn is_white_space(c: char) -> (r: bool)
    ensures
        r == white_space(c),
{
    ('\u{9}' <= c && c <= '\u{d}') || c == '\u{20}' || c == '\u{85}' || c == '\u{a0}' || c
        == '\u{1680}' || ('\u{2000}' <= c && c <= '\u{200a}') || c == '\u{2028}' || c == '\u{2029}'
        || c == '\u{202f}' || c == '\u{205f}' || c == '\u{3000}'
}

/// The text without leading and trailing white space.
pub open spec fn trimmed(s: Seq<char>) -> Seq<char>
    decreases s.len(),
{
    if s.len() > 0 && white_space(s.first()) {
        trimmed(s.drop_first())
    } else if s.len() > 0 && white_space(s.last()) {
        trimmed(s.drop_last())
    } else {
        s
    }
}

pub open spec fn lower_char(c: char) -> char {
    if 'A' <= c <= 'Z' {
        ((c as u32) + 32) as char
    } else {
        c
    }
}

/// The text with the ASCII letters `A` to `Z` replaced by `a` to `z`.
pub open spec fn lowered(s: Seq<char>) -> Seq<char> {
    Seq::new(s.len(), |i: int| lower_char(s[i]))
}

/// `str::to_ascii_lowercase`: every ASCII upper-case letter becomes its
/// lower-case letter, every other character stays as it is.
#[verifier::external_body]
pub(crate) fn to_ascii_lowercase(s: &str) -> (r: String)
    ensures
        r@ == lowered(s@),
{
    s.to_ascii_lowercase()
}

/// `pattern` occurs somewhere in `s`.
pub open spec fn occurs_in(pattern: Seq<char>, s: Seq<char>) -> bool {
    exists|i: int|
        0 <= i <= s.len() - pattern.len() && #[trigger] s.subrange(i, i + pattern.len()) == pattern
}

/// `a` stands strictly before `b` in dictionary order of code points.
pub open spec fn text_before(a: Seq<char>, b: Seq<char>) -> bool
    decreases a.len(),
{
    if b.len() == 0 {
        false
    } else if a.len() == 0 {
        true
    } else if a[0] == b[0] {
        text_before(a.drop_first(), b.drop_first())
    } else {
        a[0] < b[0]
    }
}

pub(crate) fn characters(s: &str) -> (v: Vec<char>)
    ensures
        v@ == s@,
{
    let mut v: Vec<char> = Vec::new();
    for c in it: s.chars()
        invariant
            v@ == it.seq().take(it.index()),
            it.seq() == s@,
    {
        v.push(c);
    }
    v
}

proof fn lemma_trimmed_front(s: Seq<char>, i: int)
    requires
        0 <= i <= s.len(),
        forall|k: int| 0 <= k < i ==> white_space(#[trigger] s[k]),
    ensures
        trimmed(s) == trimmed(s.subrange(i, s.len() as int)),
    decreases i,
{
    if i == 0 {
        assert(s.subrange(0, s.len() as int) =~= s);
    } else {
        let t = s.drop_first();
        assert forall|k: int| 0 <= k < i - 1 implies white_space(#[trigger] t[k]) by {
            assert(t[k] == s[k + 1]);
        }
        lemma_trimmed_front(t, i - 1);
        assert(t.subrange(i - 1, t.len() as int) =~= s.subrange(i, s.len() as int));
        assert(white_space(s[0]));
    }
}

proof fn lemma_trimmed_back(s: Seq<char>, j: int)
    requires
        0 <= j <= s.len(),
        j > 0 ==> !white_space(s[0]),
        forall|k: int| j <= k < s.len() ==> white_space(#[trigger] s[k]),
    ensures
        trimmed(s) == trimmed(s.subrange(0, j)),
    decreases s.len(),
{
    if j == s.len() {
        assert(s.subrange(0, j) =~= s);
    } else if j == 0 {
        lemma_trimmed_front(s, s.len() as int);
        assert(s.subrange(s.len() as int, s.len() as int) =~= s.subrange(0, j));
    } else {
        let t = s.drop_last();
        assert forall|k: int| j <= k < t.len() implies white_space(#[trigger] t[k]) by {
            assert(t[k] == s[k]);
        }
        assert(t[0] == s[0]);
        lemma_trimmed_back(t, j);
        assert(t.subrange(0, j) =~= s.subrange(0, j));
        assert(white_space(s[s.len() - 1]));
    }
}

/// Removes leading and trailing white space.
pub(crate) fn trim(s: &str) -> (r: String)
    ensures
        r@ == trimmed(s@),
{
    let v: Vec<char> = characters(s);
    let n: usize = v.len();
    let mut i: usize = 0;
    while i < n && is_white_space(v[i])
        invariant
            i <= n == v@.len(),
            forall|k: int| 0 <= k < i ==> white_space(#[trigger] v@[k]),
        decreases n - i,
    {
        i += 1;
    }
    let mut j: usize = n;
    while j > i && is_white_space(v[j - 1])
        invariant
            i <= j <= n == v@.len(),
            forall|k: int| j <= k < n ==> white_space(#[trigger] v@[k]),
        decreases j,
    {
        j -= 1;
    }
    proof {
        lemma_trimmed_front(s@, i as int);
        let t = s@.subrange(i as int, n as int);
        lemma_trimmed_back(t, j - i);
        let u = s@.subrange(i as int, j as int);
        assert(t.subrange(0, j - i) =~= u);
        assert(trimmed(u) == u);
    }
    s.substring_char(i, j).to_owned()
}

/// Whether nothing but white space remains of the text.
pub open spec fn blank(s: Seq<char>) -> bool {
    trimmed(s).len() == 0
}

pub(crate) fn is_blank(s: &str) -> (r: bool)
    ensures
        r == blank(s@),
{
    trim(s).as_str().is_empty()
}

pub(crate) fn same_text(a: &str, b: &str) -> (r: bool)
    ensures
        r == (a@ == b@),
{
    a.to_owned() == b.to_owned()
}

/// Whether `pattern` occurs in `s`.
pub(crate) fn contains(s: &str, pattern: &str) -> (r: bool)
    ensures
        r == occurs_in(pattern@, s@),
{
    let v: Vec<char> = characters(s);
    let p: Vec<char> = characters(pattern);
    if p.len() > v.len() {
        return false;
    }
    let mut i: usize = 0;
    while i <= v.len() - p.len()
        invariant
            v@ == s@,
            p@ == pattern@,
            p@.len() <= v@.len(),
            i <= v@.len() - p@.len() + 1,
            forall|k: int| 0 <= k < i ==> #[trigger] s@.subrange(k, k + p@.len()) != p@,
        decreases v@.len() - p@.len() + 1 - i,
    {
        let mut k: usize = 0;
        while k < p.len() && v[i + k] == p[k]
            invariant
                i + p.len() <= v.len(),
                k <= p.len(),
                forall|m: int| 0 <= m < k ==> v@[i + m] == #[trigger] p@[m],
            decreases p@.len() - k,
        {
            k += 1;
        }
        if k == p.len() {
            assert(s@.subrange(i as int, i + p@.len()) =~= p@);
            return true;
        }
        assert(s@.subrange(i as int, i + p@.len())[k as int] != p@[k as int]);
        i += 1;
    }
    false
}

/// Whether `a` comes strictly before `b` in dictionary order.
pub(crate) fn comes_before(a: &str, b: &str) -> (r: bool)
    ensures
        r == text_before(a@, b@),
{
    let x: Vec<char> = characters(a);
    let y: Vec<char> = characters(b);
    let mut i: usize = 0;
    proof {
        assert(a@.subrange(0, a@.len() as int) =~= a@);
        assert(b@.subrange(0, b@.len() as int) =~= b@);
    }
    while i < x.len() && i < y.len() && x[i] == y[i]
        invariant
            x@ == a@,
            y@ == b@,
            i <= x@.len(),
            i <= y@.len(),
            text_before(a@, b@) == text_before(
                a@.subrange(i as int, a@.len() as int),
                b@.subrange(i as int, b@.len() as int),
            ),
        decreases x@.len() - i,
    {
        proof {
            let s = a@.subrange(i as int, a@.len() as int);
            let t = b@.subrange(i as int, b@.len() as int);
            assert(s.drop_first() =~= a@.subrange(i + 1, a@.len() as int));
            assert(t.drop_first() =~= b@.subrange(i + 1, b@.len() as int));
        }
        i += 1;
    }
    if i == y.len() {
        false
    } else if i == x.len() {
        true
    } else {
        x[i] < y[i]
    }
}

/// Dictionary order is irreflexive.
pub proof fn lemma_text_before_irreflexive(a: Seq<char>)
    ensures
        !text_before(a, a),
    decreases a.len(),
{
    if a.len() > 0 {
        lemma_text_before_irreflexive(a.drop_first());
    }
}

/// Dictionary order is total: of two different texts one comes first.
pub proof fn lemma_text_before_total(a: Seq<char>, b: Seq<char>)
    ensures
        text_before(a, b) || text_before(b, a) || a == b,
        !(text_before(a, b) && text_before(b, a)),
    decreases a.len(),
{
    if a.len() == 0 && b.len() == 0 {
        assert(a =~= b);
    } else if a.len() > 0 && b.len() > 0 && a[0] == b[0] {
        lemma_text_before_total(a.drop_first(), b.drop_first());
        if a.drop_first() == b.drop_first() {
            assert(a =~= seq![a[0]] + a.drop_first());
            assert(b =~= seq![b[0]] + b.drop_first());
        }
    }
}

/// Dictionary order is transitive.
pub proof fn lemma_text_before_transitive(a: Seq<char>, b: Seq<char>, c: Seq<char>)
    requires
        text_before(a, b),
        text_before(b, c),
    ensures
        text_before(a, c),
    decreases a.len(),
{
    if a.len() > 0 && a[0] == b[0] && b[0] == c[0] {
        lemma_text_before_transitive(a.drop_first(), b.drop_first(), c.drop_first());
    }
}

/// Position of the first occurrence of `c`, or the length of the text.
pub open spec fn first_position(s: Seq<char>, c: char) -> int
    decreases s.len(),
{
    if s.len() == 0 || s[0] == c {
        0
    } else {
        1 + first_position(s.drop_first(), c)
    }
}

/// The first line: what stands before the first line feed, without the
/// carriage return that may precede it.
pub open spec fn first_line(s: Seq<char>) -> Seq<char> {
    let end = first_position(s, '\n');
    if end < s.len() && end > 0 && s[end - 1] == '\r' {
        s.subrange(0, end - 1)
    } else {
        s.subrange(0, end)
    }
}

/// The first `limit` characters.
pub open spec fn clipped(s: Seq<char>, limit: int) -> Seq<char> {
    if s.len() <= limit {
        s
    } else {
        s.subrange(0, limit)
    }
}

pub open spec fn occurrences(s: Seq<char>, c: char) -> int
    decreases s.len(),
{
    if s.len() == 0 {
        0
    } else {
        occurrences(s.drop_last(), c) + if s.last() == c {
            1int
        } else {
            0int
        }
    }
}

proof fn lemma_first_position(s: Seq<char>, c: char, i: int)
    requires
        0 <= i <= s.len(),
        forall|k: int| 0 <= k < i ==> #[trigger] s[k] != c,
        i == s.len() || s[i] == c,
    ensures
        first_position(s, c) == i,
    decreases i,
{
    if i > 0 {
        let t = s.drop_first();
        assert(s[0] != c);
        assert forall|k: int| 0 <= k < i - 1 implies #[trigger] t[k] != c by {
            assert(t[k] == s[k + 1]);
        }
        lemma_first_position(t, c, i - 1);
    }
}

/// The first line of the text, clipped to `limit` characters.
pub(crate) fn line_preview(s: &str, limit: usize) -> (r: String)
    ensures
        r@ == clipped(first_line(s@), limit as int),
{
    let v: Vec<char> = characters(s);
    let mut i: usize = 0;
    while i < v.len() && v[i] != '\n'
        invariant
            v@ == s@,
            i <= v@.len(),
            forall|k: int| 0 <= k < i ==> #[trigger] s@[k] != '\n',
        decreases v@.len() - i,
    {
        i += 1;
    }
    proof {
        lemma_first_position(s@, '\n', i as int);
    }
    let mut end: usize = i;
    if i < v.len() && i > 0 && v[i - 1] == '\r' {
        end = i - 1;
    }
    if end > limit {
        assert(s@.subrange(0, end as int).subrange(0, limit as int) =~= s@.subrange(
            0,
            limit as int,
        ));
        end = limit;
    }
    s.substring_char(0, end).to_owned()
}

/// How often `c` occurs in the text.
pub(crate) fn count_char(s: &str, c: char) -> (r: usize)
    ensures
        r == occurrences(s@, c),
        r <= s@.len(),
{
    let v: Vec<char> = characters(s);
    let mut n: usize = 0;
    let mut i: usize = 0;
    while i < v.len()
        invariant
            v@ == s@,
            n <= i <= v@.len(),
            n == occurrences(s@.subrange(0, i as int), c),
        decreases v@.len() - i,
    {
        proof {
            let t = s@.subrange(0, i + 1);
            assert(t.drop_last() =~= s@.subrange(0, i as int));
        }
        if v[i] == c {
            n += 1;
        }
        i += 1;
    }
    assert(s@.subrange(0, s@.len() as int) =~= s@);
    n
}

/// Position just behind the last `/`, or zero.
pub open spec fn tail_start(s: Seq<char>) -> int
    decreases s.len(),
{
    if s.len() == 0 || s.last() == '/' {
        s.len() as int
    } else {
        tail_start(s.drop_last())
    }
}

/// What stands behind the last `/`.
pub open spec fn path_tail(s: Seq<char>) -> Seq<char> {
    s.subrange(tail_start(s), s.len() as int)
}

/// What stands before the last `/`; nothing where there is none.
pub open spec fn path_head(s: Seq<char>) -> Seq<char> {
    let start = tail_start(s);
    if start == 0 {
        Seq::empty()
    } else {
        s.subrange(0, start - 1)
    }
}

pub proof fn lemma_tail_start_bounds(s: Seq<char>)
    ensures
        0 <= tail_start(s) <= s.len(),
        forall|k: int| tail_start(s) <= k < s.len() ==> #[trigger] s[k] != '/',
        tail_start(s) > 0 ==> s[tail_start(s) - 1] == '/',
    decreases s.len(),
{
    if s.len() > 0 && s.last() != '/' {
        lemma_tail_start_bounds(s.drop_last());
        assert forall|k: int| tail_start(s) <= k < s.len() implies #[trigger] s[k] != '/' by {
            if k < s.len() - 1 {
                assert(s.drop_last()[k] == s[k]);
            }
        }
    }
}

/// The last component of a `/`-separated path that is neither empty nor `.`;
/// `None` where there is no such component or it is `..`.
pub open spec fn file_name(s: Seq<char>) -> Option<Seq<char>>
    decreases s.len(),
    via file_name_decreases
{
    if s.len() == 0 {
        None
    } else if path_tail(s).len() == 0 || path_tail(s) == seq!['.'] {
        file_name(path_head(s))
    } else if path_tail(s) == seq!['.', '.'] {
        None
    } else {
        Some(path_tail(s))
    }
}

#[via_fn]
proof fn file_name_decreases(s: Seq<char>) {
    lemma_tail_start_bounds(s);
}

/// A file name is not empty and holds no `/`: it says nothing of the
/// directories above it.
pub proof fn law_file_name_hides_parents(s: Seq<char>)
    ensures
        file_name(s) matches Some(name) ==> name.len() > 0 && !name.contains('/'),
    decreases s.len(),
{
    if s.len() > 0 {
        lemma_tail_start_bounds(s);
        if path_tail(s).len() == 0 || path_tail(s) == seq!['.'] {
            law_file_name_hides_parents(path_head(s));
        } else {
            let start = tail_start(s);
            assert forall|k: int| 0 <= k < path_tail(s).len() implies path_tail(s)[k] != '/' by {
                assert(path_tail(s)[k] == s[start + k]);
            }
        }
    }
}

fn find_tail_start(v: &Vec<char>, end: usize) -> (start: usize)
    requires
        end <= v@.len(),
    ensures
        start <= end,
        start == tail_start(v@.subrange(0, end as int)),
{
    let mut i: usize = end;
    while i > 0 && v[i - 1] != '/'
        invariant
            i <= end <= v@.len(),
            tail_start(v@.subrange(0, end as int)) == tail_start(v@.subrange(0, i as int)),
        decreases i,
    {
        assert(v@.subrange(0, i as int).drop_last() =~= v@.subrange(0, i - 1));
        i -= 1;
    }
    i
}

/// The file name of a path, as `std::path::Path::file_name` finds it where `/`
/// separates components.
pub(crate) fn path_file_name(path: &str) -> (r: Option<String>)
    ensures
        match file_name(path@) {
            Some(name) => r matches Some(text) && text@ == name,
            None => r is None,
        },
{
    let v: Vec<char> = characters(path);
    let mut end: usize = v.len();
    assert(path@.subrange(0, path@.len() as int) =~= path@);
    while end > 0
        invariant
            v@ == path@,
            end <= v@.len(),
            file_name(path@) == file_name(path@.subrange(0, end as int)),
        decreases end,
    {
        let ghost part = path@.subrange(0, end as int);
        let start: usize = find_tail_start(&v, end);
        proof {
            assert(path_tail(part) =~= path@.subrange(start as int, end as int));
            if start > 0 {
                assert(path_head(part) =~= path@.subrange(0, start - 1));
            } else {
                assert(path_head(part) =~= path@.subrange(0, 0));
            }
        }
        let width: usize = end - start;
        if width == 0 || (width == 1 && v[start] == '.') {
            assert(width == 1 ==> path_tail(part) =~= seq!['.']);
            if start == 0 {
                end = 0;
            } else {
                end = start - 1;
            }
        } else if width == 2 && v[start] == '.' && v[start + 1] == '.' {
            assert(path_tail(part) =~= seq!['.', '.']);
            return None;
        } else {
            proof {
                if path_tail(part) == seq!['.'] {
                    assert(path_tail(part).len() == 1);
                    assert(path_tail(part)[0] == v@[start as int]);
                }
                if path_tail(part) == seq!['.', '.'] {
                    assert(path_tail(part).len() == 2);
                    assert(path_tail(part)[0] == v@[start as int]);
                    assert(path_tail(part)[1] == v@[start + 1]);
                }
            }
            return Some(path.substring_char(start, end).to_owned());
        }
    }
    None
}

/// The last stretch between `/` characters that is not empty.
pub open spec fn last_segment(s: Seq<char>) -> Option<Seq<char>>
    decreases s.len(),
    via last_segment_decreases
{
    if s.len() == 0 {
        None
    } else if path_tail(s).len() == 0 {
        last_segment(path_head(s))
    } else {
        Some(path_tail(s))
    }
}

#[via_fn]
proof fn last_segment_decreases(s: Seq<char>) {
    lemma_tail_start_bounds(s);
}

pub(crate) fn path_last_segment(path: &str) -> (r: Option<String>)
    ensures
        match last_segment(path@) {
            Some(name) => r matches Some(text) && text@ == name,
            None => r is None,
        },
{
    let v: Vec<char> = characters(path);
    let mut end: usize = v.len();
    assert(path@.subrange(0, path@.len() as int) =~= path@);
    while end > 0
        invariant
            v@ == path@,
            end <= v@.len(),
            last_segment(path@) == last_segment(path@.subrange(0, end as int)),
        decreases end,
    {
        let ghost part = path@.subrange(0, end as int);
        let start: usize = find_tail_start(&v, end);
        proof {
            assert(path_tail(part) =~= path@.subrange(start as int, end as int));
            if start > 0 {
                assert(path_head(part) =~= path@.subrange(0, start - 1));
            } else {
                assert(path_head(part) =~= path@.subrange(0, 0));
            }
        }
        if start < end {
            return Some(path.substring_char(start, end).to_owned());
        }
        if start == 0 {
            end = 0;
        } else {
            end = start - 1;
        }
    }
    None
}

/// Whether `s` begins with `prefix`.
pub open spec fn begins_with(s: Seq<char>, prefix: Seq<char>) -> bool {
    prefix.len() <= s.len() && s.subrange(0, prefix.len() as int) == prefix
}

pub(crate) fn has_prefix(s: &str, prefix: &str) -> (r: bool)
    ensures
        r == begins_with(s@, prefix@),
{
    let v: Vec<char> = characters(s);
    let p: Vec<char> = characters(prefix);
    if p.len() > v.len() {
        return false;
    }
    let mut i: usize = 0;
    while i < p.len()
        invariant
            v@ == s@,
            p@ == prefix@,
            i <= p@.len() <= v@.len(),
            forall|k: int| 0 <= k < i ==> v@[k] == #[trigger] p@[k],
        decreases p@.len() - i,
    {
        if v[i] != p[i] {
            assert(s@.subrange(0, prefix@.len() as int)[i as int] != prefix@[i as int]);
            return false;
        }
        i += 1;
    }
    assert(s@.subrange(0, prefix@.len() as int) =~= prefix@);
    true
}

pub(crate) fn has_char(s: &str, c: char) -> (r: bool)
    ensures
        r == s@.contains(c),
{
    let v: Vec<char> = characters(s);
    let mut i: usize = 0;
    while i < v.len()
        invariant
            v@ == s@,
            i <= v@.len(),
            forall|k: int| 0 <= k < i ==> v@[k] != c,
        decreases v@.len() - i,
    {
        if v[i] == c {
            assert(s@[i as int] == c);
            return true;
        }
        i += 1;
    }
    false
}

/// Index of the first white space, or the length of the text.
pub open spec fn word_end(s: Seq<char>) -> int
    decreases s.len(),
{
    if s.len() == 0 || white_space(s[0]) {
        0
    } else {
        1 + word_end(s.drop_first())
    }
}

/// What stands before the first white space.
pub open spec fn leading_word(s: Seq<char>) -> Seq<char> {
    s.subrange(0, word_end(s))
}

proof fn lemma_word_end(s: Seq<char>, i: int)
    requires
        0 <= i <= s.len(),
        forall|k: int| 0 <= k < i ==> !white_space(#[trigger] s[k]),
        i == s.len() || white_space(s[i]),
    ensures
        word_end(s) == i,
    decreases i,
{
    if i > 0 {
        let t = s.drop_first();
        assert(!white_space(s[0]));
        assert forall|k: int| 0 <= k < i - 1 implies !white_space(#[trigger] t[k]) by {
            assert(t[k] == s[k + 1]);
        }
        lemma_word_end(t, i - 1);
    }
}

pub(crate) fn first_word(s: &str) -> (r: String)
    ensures
        r@ == leading_word(s@),
{
    let v: Vec<char> = characters(s);
    let mut i: usize = 0;
    while i < v.len() && !is_white_space(v[i])
        invariant
            v@ == s@,
            i <= v@.len(),
            forall|k: int| 0 <= k < i ==> !white_space(#[trigger] v@[k]),
        decreases v@.len() - i,
    {
        i += 1;
    }
    proof {
        lemma_word_end(s@, i as int);
    }
    s.substring_char(0, i).to_owned()
}

/// The text without the line ends at its end.
pub open spec fn without_line_ends(s: Seq<char>) -> Seq<char>
    decreases s.len(),
{
    if s.len() > 0 && (s.last() == '\r' || s.last() == '\n') {
        without_line_ends(s.drop_last())
    } else {
        s
    }
}

pub(crate) fn trim_line_ends(s: &str) -> (r: String)
    ensures
        r@ == without_line_ends(s@),
{
    let v: Vec<char> = characters(s);
    let mut n: usize = v.len();
    assert(s@.subrange(0, s@.len() as int) =~= s@);
    while n > 0 && (v[n - 1] == '\r' || v[n - 1] == '\n')
        invariant
            v@ == s@,
            n <= v@.len(),
            without_line_ends(s@) == without_line_ends(s@.subrange(0, n as int)),
        decreases n,
    {
        assert(s@.subrange(0, n as int).drop_last() =~= s@.subrange(0, n - 1));
        n -= 1;
    }
    s.substring_char(0, n).to_owned()
}

/// A stretch of a path as a component; `.`, `..` and the empty stretch name none.
pub open spec fn component(part: Seq<char>) -> Seq<Seq<char>> {
    if part.len() == 0 || part == "."@ || part == ".."@ {
        Seq::empty()
    } else {
        seq![part]
    }
}

/// The named components of a `/`-separated path.
pub open spec fn components(s: Seq<char>) -> Seq<Seq<char>>
    decreases s.len(),
    via components_decreases
{
    if s.len() == 0 {
        Seq::empty()
    } else {
        components(path_head(s)) + component(path_tail(s))
    }
}

#[via_fn]
proof fn components_decreases(s: Seq<char>) {
    lemma_tail_start_bounds(s);
}

/// The texts have the given contents.
pub open spec fn have_contents(texts: Seq<String>, contents: Seq<Seq<char>>) -> bool {
    &&& texts.len() == contents.len()
    &&& forall|i: int| 0 <= i < texts.len() ==> (#[trigger] texts[i])@ == contents[i]
}

fn components_upto(path: &str, v: &Vec<char>, end: usize) -> (r: Vec<String>)
    requires
        v@ == path@,
        end <= v@.len(),
    ensures
        have_contents(r@, components(path@.subrange(0, end as int))),
    decreases end,
{
    if end == 0 {
        return Vec::new();
    }
    let ghost part = path@.subrange(0, end as int);
    let start: usize = find_tail_start(v, end);
    let mut r: Vec<String> = if start == 0 {
        Vec::new()
    } else {
        components_upto(path, v, start - 1)
    };
    proof {
        assert(path_tail(part) =~= path@.subrange(start as int, end as int));
        if start > 0 {
            assert(path_head(part) =~= path@.subrange(0, start - 1));
        } else {
            assert(path_head(part) =~= Seq::empty());
        }
    }
    let tail: String = path.substring_char(start, end).to_owned();
    let skipped: bool = start == end || same_text(tail.as_str(), ".") || same_text(
        tail.as_str(),
        "..",
    );
    let ghost front = r@;
    proof {
        assert(tail@ == path_tail(part));
        assert(skipped <==> component(tail@).len() == 0);
        assert(have_contents(front, components(path_head(part))));
        assert(components(part) == components(path_head(part)) + component(path_tail(part)));
    }
    if !skipped {
        r.push(tail);
    }
    r
}

/// The named components of a path, as `std::path::Path::components` finds them
/// where `/` separates components.
pub(crate) fn path_components(path: &str) -> (r: Vec<String>)
    ensures
        have_contents(r@, components(path@)),
{
    let v: Vec<char> = characters(path);
    assert(path@.subrange(0, path@.len() as int) =~= path@);
    components_upto(path, &v, v.len())
}

pub open spec fn digit(n: nat) -> char {
    ((n % 10) as u32 + 48u32) as char
}

/// The decimal numeral of a number.
pub open spec fn decimal(n: nat) -> Seq<char>
    decreases n,
{
    if n < 10 {
        seq![digit(n)]
    } else {
        decimal(n / 10).push(digit(n))
    }
}

fn digit_text(n: u64) -> (r: &'static str)
    requires
        n < 10,
    ensures
        r@ == seq![digit(n as nat)],
{
    proof {
        reveal_strlit("0");
        reveal_strlit("1");
        reveal_strlit("2");
        reveal_strlit("3");
        reveal_strlit("4");
        reveal_strlit("5");
        reveal_strlit("6");
        reveal_strlit("7");
        reveal_strlit("8");
        reveal_strlit("9");
    }
    let r: &'static str = match n {
        0 => "0",
        1 => "1",
        2 => "2",
        3 => "3",
        4 => "4",
        5 => "5",
        6 => "6",
        7 => "7",
        8 => "8",
        _ => "9",
    };
    assert(r@ =~= seq![digit(n as nat)]);
    r
}

pub(crate) fn decimal_text(n: u64) -> (r: String)
    ensures
        r@ == decimal(n as nat),
    decreases n,
{
    if n < 10 {
        digit_text(n).to_owned()
    } else {
        let mut r: String = decimal_text(n / 10);
        r.append(digit_text(n % 10));
        assert(digit(n as nat) == digit((n % 10) as nat));
        assert(r@ =~= decimal(n as nat));
        r
    }
}

/// `a` followed by `b`.
pub(crate) fn joined(a: &str, b: &str) -> (r: String)
    ensures
        r@ == a@ + b@,
{
    let mut r: String = a.to_owned();
    r.append(b);
    r
}

/// A path below a directory, as `std::path::Path::join` builds it where `/`
/// separates components: an absolute path stands for itself.
pub open spec fn path_below(root: Seq<char>, relative: Seq<char>) -> Seq<char> {
    if begins_with(relative, "/"@) {
        relative
    } else if root.len() == 0 || root.last() == '/' {
        root + relative
    } else {
        root + "/"@ + relative
    }
}

pub(crate) fn join_path(root: &str, relative: &str) -> (r: String)
    ensures
        r@ == path_below(root@, relative@),
{
    if has_prefix(relative, "/") {
        return relative.to_owned();
    }
    let v: Vec<char> = characters(root);
    if v.len() == 0 || v[v.len() - 1] == '/' {
        return joined(root, relative);
    }
    let base: String = joined(root, "/");
    joined(base.as_str(), relative)
}

/// White space is what Unicode calls so: the controls from the tab to the
/// carriage return, the blank, the next-line control and the wider blanks.
pub proof fn law_white_space_is_that_of_unicode(c: char)
    ensures
        white_space(c) <==> ({
            let n = c as u32;
            ||| 9 <= n <= 13
            ||| n == 32
            ||| n == 133
            ||| n == 160
            ||| n == 5760
            ||| 8192 <= n <= 8202
            ||| n == 8232
            ||| n == 8233
            ||| n == 8239
            ||| n == 8287
            ||| n == 12288
        }),
{
}

/// Trimming takes white space from both ends, all of it there and nothing else.
pub proof fn law_trimming_takes_only_white_space_from_the_ends(s: Seq<char>) -> (r: (int, int))
    ensures
        0 <= r.0 <= r.1 <= s.len(),
        trimmed(s) == s.subrange(r.0, r.1),
        forall|i: int| 0 <= i < r.0 ==> white_space(#[trigger] s[i]),
        forall|i: int| r.1 <= i < s.len() ==> white_space(#[trigger] s[i]),
        r.0 < r.1 ==> !white_space(s[r.0]) && !white_space(s[r.1 - 1]),
    decreases s.len(),
{
    if s.len() > 0 && white_space(s.first()) {
        let t = s.drop_first();
        let r = law_trimming_takes_only_white_space_from_the_ends(t);
        assert(t.subrange(r.0, r.1) =~= s.subrange(r.0 + 1, r.1 + 1));
        assert forall|i: int| 0 <= i < r.0 + 1 implies white_space(#[trigger] s[i]) by {
            if i > 0 {
                assert(t[i - 1] == s[i]);
            }
        }
        assert forall|i: int| r.1 + 1 <= i < s.len() implies white_space(#[trigger] s[i]) by {
            assert(t[i - 1] == s[i]);
        }
        (r.0 + 1, r.1 + 1)
    } else if s.len() > 0 && white_space(s.last()) {
        let t = s.drop_last();
        let r = law_trimming_takes_only_white_space_from_the_ends(t);
        assert(t.subrange(r.0, r.1) =~= s.subrange(r.0, r.1));
        assert forall|i: int| 0 <= i < r.0 implies white_space(#[trigger] s[i]) by {
            assert(t[i] == s[i]);
        }
        assert forall|i: int| r.1 <= i < s.len() implies white_space(#[trigger] s[i]) by {
            if i < t.len() {
                assert(t[i] == s[i]);
            }
        }
        r
    } else {
        assert(s.subrange(0, s.len() as int) =~= s);
        (0, s.len() as int)
    }
}

/// A text is blank exactly where it holds white space only.
pub proof fn law_blank_texts_hold_white_space_only(s: Seq<char>)
    ensures
        blank(s) <==> forall|i: int| 0 <= i < s.len() ==> white_space(#[trigger] s[i]),
{
    let r = law_trimming_takes_only_white_space_from_the_ends(s);
    if blank(s) {
        assert(r.0 == r.1);
    } else {
        assert(r.0 < r.1);
        assert(!white_space(s[r.0]));
    }
}

/// Lowering moves the capital letters to their small ones and nothing else, and
/// once is enough.
pub proof fn law_lowering_moves_capitals_only(s: Seq<char>, i: int)
    requires
        0 <= i < s.len(),
    ensures
        lowered(s).len() == s.len(),
        'A' <= s[i] <= 'Z' ==> 'a' <= lowered(s)[i] <= 'z' && lowered(s)[i] as int - 'a' as int
            == s[i] as int - 'A' as int,
        !('A' <= s[i] <= 'Z') ==> lowered(s)[i] == s[i],
        lowered(lowered(s)) == lowered(s),
{
    assert forall|k: int| 0 <= k < s.len() implies lower_char(#[trigger] lowered(s)[k])
        == lowered(s)[k] by {
        assert(lowered(s)[k] == lower_char(s[k]));
    }
    assert(lowered(lowered(s)) =~= lowered(s));
}

/// Texts are ordered by the first character in which they differ, and a text
/// comes before what it begins.
pub proof fn law_texts_are_ordered_by_their_first_difference(a: Seq<char>, b: Seq<char>, k: int)
    requires
        0 <= k <= a.len(),
        k <= b.len(),
        a.subrange(0, k) == b.subrange(0, k),
    ensures
        k < a.len() && k < b.len() && a[k] < b[k] ==> text_before(a, b),
        k < a.len() && k < b.len() && a[k] > b[k] ==> !text_before(a, b),
        k == a.len() && k < b.len() ==> text_before(a, b),
        k == b.len() ==> !text_before(a, b),
    decreases k,
{
    if k > 0 {
        let s = a.drop_first();
        let t = b.drop_first();
        assert forall|i: int| 0 <= i < k implies #[trigger] a[i] == b[i] by {
            assert(a.subrange(0, k)[i] == a[i]);
            assert(b.subrange(0, k)[i] == b[i]);
        }
        assert forall|i: int| 0 <= i < k - 1 implies #[trigger] s[i] == t[i] by {
            assert(s[i] == a[i + 1] && t[i] == b[i + 1]);
        }
        assert(s.subrange(0, k - 1) =~= t.subrange(0, k - 1));
        law_texts_are_ordered_by_their_first_difference(s, t, k - 1);
        assert(a[0] == b[0]);
    }
}

/// A pattern occurs exactly where the text can be cut around it.
pub proof fn law_patterns_occur_between_what_is_around_them(
    front: Seq<char>,
    pattern: Seq<char>,
    back: Seq<char>,
)
    ensures
        occurs_in(pattern, front + pattern + back),
        begins_with(pattern + back, pattern),
{
    let s = front + pattern + back;
    assert(s.subrange(front.len() as int, (front.len() + pattern.len()) as int) =~= pattern);
    assert((pattern + back).subrange(0, pattern.len() as int) =~= pattern);
}

/// What begins with a prefix is that prefix and what follows it.
pub proof fn law_a_prefix_is_followed_by_the_rest(s: Seq<char>, prefix: Seq<char>)
    ensures
        begins_with(s, prefix) <==> prefix.len() <= s.len() && s == prefix + s.subrange(
            prefix.len() as int,
            s.len() as int,
        ),
{
    if begins_with(s, prefix) {
        assert forall|i: int| 0 <= i < prefix.len() implies s[i] == prefix[i] by {
            assert(s.subrange(0, prefix.len() as int)[i] == s[i]);
        }
        assert(s =~= prefix + s.subrange(prefix.len() as int, s.len() as int));
    }
    if prefix.len() <= s.len() && s == prefix + s.subrange(prefix.len() as int, s.len() as int) {
        let whole = prefix + s.subrange(prefix.len() as int, s.len() as int);
        assert(whole.subrange(0, prefix.len() as int) =~= prefix);
    }
}

/// The first line begins the text, holds no line end, and goes as far as the
/// first one; a carriage return before that one is no part of it.
pub proof fn law_the_first_line_ends_at_the_first_line_end(line: Seq<char>, rest: Seq<char>)
    requires
        !line.contains('\n'),
    ensures
        first_line(line) == line,
        line.len() > 0 && line.last() == '\r' ==> first_line(line + seq!['\n'] + rest)
            == line.drop_last(),
        !(line.len() > 0 && line.last() == '\r') ==> first_line(line + seq!['\n'] + rest) == line,
{
    lemma_first_position(line, '\n', line.len() as int);
    assert(line.subrange(0, line.len() as int) =~= line);
    let s = line + seq!['\n'] + rest;
    assert forall|k: int| 0 <= k < line.len() implies s[k] != '\n' by {
        assert(line.contains(line[k]));
    }
    assert(s[line.len() as int] == '\n');
    lemma_first_position(s, '\n', line.len() as int);
    assert(s.subrange(0, line.len() as int) =~= line);
    if line.len() > 0 {
        assert(s.subrange(0, line.len() - 1) =~= line.drop_last());
    }
}

/// Clipping keeps the beginning, all of it where it fits.
pub proof fn law_clipping_keeps_the_beginning(s: Seq<char>, limit: int)
    requires
        0 <= limit,
    ensures
        s.len() <= limit ==> clipped(s, limit) == s,
        s.len() > limit ==> clipped(s, limit).len() == limit && begins_with(s, clipped(s, limit)),
{
}

/// A character occurs as often in two texts as in one after the other, and once
/// in itself.
pub proof fn law_occurrences_add_up(a: Seq<char>, b: Seq<char>, c: char)
    ensures
        occurrences(a + b, c) == occurrences(a, c) + occurrences(b, c),
        occurrences(seq![c], c) == 1,
        !b.contains(c) ==> occurrences(b, c) == 0,
    decreases b.len(),
{
    assert(seq![c].drop_last() =~= Seq::<char>::empty());
    assert(occurrences(seq![c].drop_last(), c) == 0);
    if b.len() == 0 {
        assert(a + b =~= a);
    } else {
        assert((a + b).drop_last() =~= a + b.drop_last());
        assert(b.contains(b.last()));
        law_occurrences_add_up(a, b.drop_last(), c);
        if !b.contains(c) {
            assert forall|x: char| b.drop_last().contains(x) implies b.contains(x) by {
                let i = choose|i: int| 0 <= i < b.drop_last().len() && b.drop_last()[i] == x;
                assert(b[i] == x);
            }
        }
    }
}

/// Where the last part of a path begins.
proof fn lemma_tail_of_joined(dir: Seq<char>, name: Seq<char>)
    requires
        !name.contains('/'),
    ensures
        tail_start(dir + seq!['/'] + name) == dir.len() + 1,
        path_tail(dir + seq!['/'] + name) == name,
        path_head(dir + seq!['/'] + name) == dir,
    decreases name.len(),
{
    let s = dir + seq!['/'] + name;
    if name.len() == 0 {
        assert(s.last() == '/');
    } else {
        assert(name.contains(name.last()));
        assert(s.drop_last() =~= dir + seq!['/'] + name.drop_last());
        assert forall|x: char| name.drop_last().contains(x) implies name.contains(x) by {
            let i = choose|i: int| 0 <= i < name.drop_last().len() && name.drop_last()[i] == x;
            assert(name[i] == x);
        }
        lemma_tail_of_joined(dir, name.drop_last());
        assert(s.last() == name.last());
    }
    assert(s.subrange((dir.len() + 1) as int, s.len() as int) =~= name);
    assert(s.subrange(0, dir.len() as int) =~= dir);
}

/// The last part of a path names it, whatever stands before; a trailing slash
/// and a single dot name nothing, and two dots leave it without a name.
pub proof fn law_a_path_is_named_by_its_last_part(dir: Seq<char>, name: Seq<char>)
    requires
        !name.contains('/'),
        name.len() > 0,
    ensures
        last_segment(dir + seq!['/'] + name) == Some(name),
        last_segment(dir + seq!['/']) == last_segment(dir),
        file_name(dir + seq!['/']) == file_name(dir),
        name != seq!['.'] && name != seq!['.', '.'] ==> file_name(dir + seq!['/'] + name) == Some(
            name,
        ),
        file_name(dir + seq!['/'] + seq!['.']) == file_name(dir),
        file_name(dir + seq!['/'] + seq!['.', '.']) is None,
{
    lemma_tail_of_joined(dir, name);
    lemma_tail_of_joined(dir, Seq::empty());
    assert(dir + seq!['/'] + Seq::<char>::empty() =~= dir + seq!['/']);
    lemma_tail_of_joined(dir, seq!['.']);
    lemma_tail_of_joined(dir, seq!['.', '.']);
    assert(seq!['.', '.'].len() != seq!['.'].len());
}

/// The parts of a path are those of what stands before its last part, then that
/// part; an empty one and the dots are no parts.
pub proof fn law_the_parts_of_a_path_go_from_left_to_right(dir: Seq<char>, name: Seq<char>)
    requires
        !name.contains('/'),
    ensures
        name.len() > 0 && name != "."@ && name != ".."@ ==> components(dir + seq!['/'] + name)
            == components(dir).push(name),
        name.len() == 0 || name == "."@ || name == ".."@ ==> components(dir + seq!['/'] + name)
            == components(dir),
{
    lemma_tail_of_joined(dir, name);
    assert(components(dir) + seq![name] =~= components(dir).push(name));
    assert(components(dir) + Seq::<Seq<char>>::empty() =~= components(dir));
}

/// The first word begins the text, holds no white space, and goes as far as the
/// first one.
pub proof fn law_the_first_word_ends_at_white_space(word: Seq<char>, gap: char, rest: Seq<char>)
    requires
        forall|i: int| 0 <= i < word.len() ==> !white_space(#[trigger] word[i]),
        white_space(gap),
    ensures
        leading_word(word) == word,
        leading_word(word + seq![gap] + rest) == word,
{
    lemma_word_end(word, word.len() as int);
    assert(word.subrange(0, word.len() as int) =~= word);
    let s = word + seq![gap] + rest;
    assert forall|k: int| 0 <= k < word.len() implies !white_space(#[trigger] s[k]) by {
        assert(s[k] == word[k]);
    }
    assert(s[word.len() as int] == gap);
    lemma_word_end(s, word.len() as int);
    assert(s.subrange(0, word.len() as int) =~= word);
}

/// Line ends are taken from the end, all of them there and nothing else.
pub proof fn law_line_ends_are_taken_from_the_end(s: Seq<char>, c: char)
    ensures
        c == '\r' || c == '\n' ==> without_line_ends(s.push(c)) == without_line_ends(s),
        c != '\r' && c != '\n' ==> without_line_ends(s.push(c)) == s.push(c),
        without_line_ends(Seq::<char>::empty()) == Seq::<char>::empty(),
{
    assert(s.push(c).drop_last() =~= s);
}

/// What the digits of a text stand for.
pub open spec fn number_of(s: Seq<char>) -> int
    decreases s.len(),
{
    if s.len() == 0 {
        0
    } else {
        10 * number_of(s.drop_last()) + (s.last() as int - '0' as int)
    }
}

/// A number's text reads as that number, in digits and without a leading zero.
pub proof fn law_numbers_read_as_themselves(n: nat)
    ensures
        number_of(decimal(n)) == n,
        decimal(n).len() > 0,
        forall|i: int| 0 <= i < decimal(n).len() ==> '0' <= (#[trigger] decimal(n)[i]) <= '9',
        n > 0 ==> decimal(n)[0] != '0',
    decreases n,
{
    let d = digit(n);
    assert(d as int == 48 + n % 10);
    if n < 10 {
        assert(seq![d].drop_last() =~= Seq::<char>::empty());
        assert(number_of(seq![d].drop_last()) == 0);
    } else {
        law_numbers_read_as_themselves(n / 10);
        let front = decimal(n / 10);
        assert(front.push(d).drop_last() =~= front);
        assert(decimal(n) == front.push(d));
        assert forall|i: int| 0 <= i < decimal(n).len() implies '0' <= (#[trigger] decimal(n)[i])
            <= '9' by {
            if i < front.len() {
                assert(decimal(n)[i] == front[i]);
            }
        }
        assert(decimal(n)[0] == front[0]);
    }
}

/// A path below a root is the root, one slash and the path; an absolute path
/// stands for itself.
pub proof fn law_paths_stand_below_their_root(root: Seq<char>, relative: Seq<char>)
    ensures
        relative.len() > 0 && relative[0] == '/' ==> path_below(root, relative) == relative,
        !(relative.len() > 0 && relative[0] == '/') && root.len() > 0 && root.last() != '/'
            ==> path_below(root, relative) == root + seq!['/'] + relative,
        !(relative.len() > 0 && relative[0] == '/') && (root.len() == 0 || root.last() == '/')
            ==> path_below(root, relative) == root + relative,
{
    reveal_strlit("/");
    assert("/"@ =~= seq!['/']);
    if relative.len() > 0 {
        assert(relative.subrange(0, 1)[0] == relative[0]);
        if relative[0] == '/' {
            assert(relative.subrange(0, 1) =~= seq!['/']);
        } else {
            assert(seq!['/'][0] == '/');
        }
    }
}

} // verus!
