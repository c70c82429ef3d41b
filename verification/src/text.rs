//! Character-sequence toolkit: splitting, line and word breaking, trimming,
//! searching, replacing, and decimal numbers, each stated over `Seq<char>`.
use vstd::prelude::*;

verus! {

// ---------------------------------------------------------------------------
// Character classes
// ---------------------------------------------------------------------------

/// Whether `c` has the Unicode `White_Space` property, the test behind
/// `char::is_whitespace`, `str::trim` and `str::split_whitespace`: the
/// property's fixed set of code points U+0009..U+000D, U+0020, U+0085,
/// U+00A0, U+1680, U+2000..U+200A, U+2028, U+2029, U+202F, U+205F, U+3000.
pub open spec fn is_white_space(c: char) -> bool {
    let u = c as int;
    ||| 0x09 <= u <= 0x0d
    ||| u == 0x20
    ||| u == 0x85
    ||| u == 0xa0
    ||| u == 0x1680
    ||| 0x2000 <= u <= 0x200a
    ||| u == 0x2028
    ||| u == 0x2029
    ||| u == 0x202f
    ||| u == 0x205f
    ||| u == 0x3000
}

/// Whether `c` belongs to one of the Unicode general categories for numbers
/// (Nd, Nl, No).
pub uninterp spec fn is_numeric_char(c: char) -> bool;

/// The lowercase mapping of a whole string, as `str::to_lowercase` defines it.
pub uninterp spec fn lowercase(s: Seq<char>) -> Seq<char>;

/// Whether the character has the Unicode `White_Space` property.
pub fn char_is_whitespace(c: char) -> (r: bool)
    ensures
        r == is_white_space(c),
{
    let u = c as u32;
    (0x09 <= u && u <= 0x0d) || u == 0x20 || u == 0x85 || u == 0xa0 || u == 0x1680 || (0x2000
        <= u && u <= 0x200a) || u == 0x2028 || u == 0x2029 || u == 0x202f || u == 0x205f || u
        == 0x3000
}

/// Whether `c` is in a numeric general category: on ASCII exactly the digits
/// `0`..`9`; beyond ASCII, as the Unicode data says.
pub open spec fn numeric(c: char) -> bool {
    if (c as u32) < 128 {
        '0' <= c && c <= '9'
    } else {
        is_numeric_char(c)
    }
}

/// `char::is_numeric`: whether the character is in a numeric general category
/// (Nd, Nl, No). The contract states what those categories give on ASCII
/// (the digits `0`..`9` are numeric and no other ASCII character is) and
/// names the answer beyond ASCII.
#[verifier::external_body]
pub fn char_is_numeric(c: char) -> (r: bool)
    ensures
        (c as u32) < 128 ==> r == ('0' <= c && c <= '9'),
        (c as u32) >= 128 ==> r == is_numeric_char(c),
{
    c.is_numeric()
}

/// Whether some character of `s` is numeric.
pub open spec fn has_numeric(s: Seq<char>) -> bool {
    exists|j: int| 0 <= j < s.len() && numeric(#[trigger] s[j])
}

/// Whether some character of `s` is numeric.
pub fn any_numeric(s: &[char]) -> (r: bool)
    ensures
        r == has_numeric(s@),
{
    let n = s.len();
    for i in 0..n
        invariant
            n == s@.len(),
            forall|j: int| 0 <= j < i ==> !numeric(#[trigger] s@[j]),
    {
        if char_is_numeric(s[i]) {
            return true;
        }
    }
    false
}

/// Whether every character is ASCII.
pub open spec fn is_ascii_text(s: Seq<char>) -> bool {
    forall|i: int| 0 <= i < s.len() ==> (#[trigger] s[i] as int) < 128
}

/// The ASCII lowercase of a character: `A`..`Z` become `a`..`z`, every other
/// character stays.
pub open spec fn ascii_lower_char(c: char) -> char {
    if 'A' <= c <= 'Z' {
        ((c as int) + 32) as char
    } else {
        c
    }
}

/// The ASCII lowercase of a text.
pub open spec fn ascii_lowercase(s: Seq<char>) -> Seq<char> {
    s.map_values(|c: char| ascii_lower_char(c))
}

/// `str::to_lowercase`: the Unicode lowercase of a string. The contract names
/// the result as a function of the input's characters, and states the one
/// short fact that Unicode's mapping gives on ASCII text: capital letters
/// become small ones, and nothing else changes. What it does beyond ASCII is
/// left unsaid.
#[verifier::external_body]
pub fn to_lowercase(s: &str) -> (r: String)
    ensures
        r@ == lowercase(s@),
        is_ascii_text(s@) ==> r@ == ascii_lowercase(s@),
{
    s.to_lowercase()
}

/// `String::push`: appends one character.
#[verifier::external_body]
pub fn push_char(s: &mut String, c: char)
    ensures
        final(s)@ == old(s)@.push(c),
{
    s.push(c)
}

/// A set of characters that separate or surround text.
pub enum CharClass {
    /// Exactly this character.
    Only(char),
    /// Either of the two characters.
    Either(char, char),
    /// Unicode white space.
    Whitespace,
    /// Anything that is neither numeric nor a `.`.
    NotNumericNorDot,
}

pub open spec fn class_has(cls: CharClass, c: char) -> bool {
    match cls {
        CharClass::Only(a) => c == a,
        CharClass::Either(a, b) => c == a || c == b,
        CharClass::Whitespace => is_white_space(c),
        CharClass::NotNumericNorDot => !numeric(c) && c != '.',
    }
}

pub fn class_contains(cls: &CharClass, c: char) -> (r: bool)
    ensures
        r == class_has(*cls, c),
{
    match cls {
        CharClass::Only(a) => c == *a,
        CharClass::Either(a, b) => c == *a || c == *b,
        CharClass::Whitespace => char_is_whitespace(c),
        CharClass::NotNumericNorDot => !char_is_numeric(c) && c != '.',
    }
}

// ---------------------------------------------------------------------------
// Conversions between `String`, `&str` and `Vec<char>`
// ---------------------------------------------------------------------------

/// The views of a sequence of character vectors.
pub open spec fn char_views(v: Seq<Vec<char>>) -> Seq<Seq<char>> {
    v.map_values(|x: Vec<char>| x@)
}

/// The views of a sequence of strings.
pub open spec fn string_views(v: Seq<String>) -> Seq<Seq<char>> {
    v.map_values(|x: String| x@)
}

/// The characters of a string slice, in order.
pub fn chars_of(s: &str) -> (r: Vec<char>)
    ensures
        r@ == s@,
{
    let mut r: Vec<char> = Vec::new();
    for c in it: s.chars()
        invariant
            r@ == it.seq().take(it.index() as int),
            it.seq() == s@,
    {
        r.push(c);
    }
    r
}

/// A string holding exactly the given characters.
pub fn string_of(cs: &[char]) -> (r: String)
    ensures
        r@ == cs@,
{
    let mut r = String::new();
    for i in 0..cs.len()
        invariant
            r@ == cs@.take(i as int),
    {
        push_char(&mut r, cs[i]);
        assert(cs@.take(i + 1) == cs@.take(i as int).push(cs@[i as int]));
    }
    assert(cs@.take(cs@.len() as int) == cs@);
    r
}

/// Appends all characters of `b` to `a`.
pub fn append_chars(a: &mut Vec<char>, b: &[char])
    ensures
        final(a)@ == old(a)@ + b@,
{
    let ghost a0 = a@;
    for i in 0..b.len()
        invariant
            a@ == a0 + b@.take(i as int),
    {
        a.push(b[i]);
        assert(b@.take(i + 1) == b@.take(i as int).push(b@[i as int]));
    }
    assert(b@.take(b@.len() as int) == b@);
}

/// Appends all characters of the string slice `b` to `a`.
pub fn append_str(a: &mut Vec<char>, b: &str)
    ensures
        final(a)@ == old(a)@ + b@,
{
    let bs = chars_of(b);
    append_chars(a, bs.as_slice());
}

/// The strings holding the given character vectors.
pub fn strings_of(v: &Vec<Vec<char>>) -> (r: Vec<String>)
    ensures
        string_views(r@) == char_views(v@),
{
    let mut r: Vec<String> = Vec::new();
    for i in 0..v.len()
        invariant
            string_views(r@) == char_views(v@.take(i as int)),
    {
        let s = string_of(v[i].as_slice());
        let ghost before = r@;
        r.push(s);
        assert(v@.take(i + 1) =~= v@.take(i as int).push(v@[i as int]));
        assert(string_views(r@) =~= string_views(before).push(s@));
        assert(char_views(v@.take(i + 1)) =~= char_views(v@.take(i as int)).push(v@[i as int]@));
    }
    assert(v@.take(v@.len() as int) == v@);
    r
}

// ---------------------------------------------------------------------------
// Splitting
// ---------------------------------------------------------------------------

/// The pieces of `s` between separator characters of `cls`, as `str::split`
/// yields them: always at least one piece, empty pieces included.
pub open spec fn split_by(s: Seq<char>, cls: CharClass) -> Seq<Seq<char>>
    decreases s.len(),
{
    if s.len() == 0 {
        seq![Seq::<char>::empty()]
    } else {
        let p = split_by(s.drop_last(), cls);
        if class_has(cls, s.last()) {
            p.push(Seq::<char>::empty())
        } else {
            p.update(p.len() - 1, p.last().push(s.last()))
        }
    }
}

/// Splitting always yields at least one piece.
pub proof fn lemma_split_nonempty(s: Seq<char>, cls: CharClass)
    ensures
        split_by(s, cls).len() >= 1,
    decreases s.len(),
{
    if s.len() > 0 {
        lemma_split_nonempty(s.drop_last(), cls);
    }
}

/// No piece of a split holds a separator.
pub proof fn lemma_split_pieces_free(s: Seq<char>, cls: CharClass)
    ensures
        forall|i: int, j: int|
            0 <= i < split_by(s, cls).len() && 0 <= j < split_by(s, cls)[i].len() ==> !class_has(
                cls,
                #[trigger] split_by(s, cls)[i][j],
            ),
    decreases s.len(),
{
    if s.len() > 0 {
        lemma_split_nonempty(s.drop_last(), cls);
        lemma_split_pieces_free(s.drop_last(), cls);
        let p = split_by(s.drop_last(), cls);
        if !class_has(cls, s.last()) {
            let q = p.update(p.len() - 1, p.last().push(s.last()));
            assert forall|i: int, j: int| 0 <= i < q.len() && 0 <= j < q[i].len() implies !class_has(
                cls,
                #[trigger] q[i][j],
            ) by {
                if i == p.len() - 1 {
                    if j < p.last().len() {
                        assert(q[i][j] == p[i][j]);
                    }
                }
            }
        }
    }
}

/// A text free of separators splits into itself alone.
pub proof fn lemma_split_free(s: Seq<char>, cls: CharClass)
    requires
        forall|j: int| 0 <= j < s.len() ==> !class_has(cls, #[trigger] s[j]),
    ensures
        split_by(s, cls) == seq![s],
    decreases s.len(),
{
    if s.len() > 0 {
        lemma_split_free(s.drop_last(), cls);
        assert(s.drop_last().push(s.last()) =~= s);
    } else {
        assert(s =~= Seq::<char>::empty());
    }
}

/// Splitting a text joined at a separator character: the pieces of the left
/// part followed by the pieces of the right part.
pub proof fn lemma_split_join(a: Seq<char>, c: char, b: Seq<char>, cls: CharClass)
    requires
        class_has(cls, c),
    ensures
        split_by(a + seq![c] + b, cls) == split_by(a, cls) + split_by(b, cls),
    decreases b.len(),
{
    if b.len() == 0 {
        assert(a + seq![c] + b =~= a.push(c));
        assert((a + seq![c] + b).drop_last() =~= a);
        assert(split_by(a, cls).push(Seq::<char>::empty()) =~= split_by(a, cls) + split_by(b, cls));
    } else {
        let s = a + seq![c] + b;
        assert(s.drop_last() =~= a + seq![c] + b.drop_last());
        assert(s.last() == b.last());
        lemma_split_join(a, c, b.drop_last(), cls);
        lemma_split_nonempty(b.drop_last(), cls);
        let pa = split_by(a, cls);
        let pb = split_by(b.drop_last(), cls);
        if class_has(cls, b.last()) {
            assert((pa + pb).push(Seq::<char>::empty()) =~= pa + pb.push(Seq::<char>::empty()));
        } else {
            let q = pb.update(pb.len() - 1, pb.last().push(b.last()));
            assert((pa + pb).update((pa + pb).len() - 1, (pa + pb).last().push(b.last())) =~= pa
                + q);
        }
    }
}

/// The pieces of `s` between characters of `cls`.
pub fn split_chars(s: &[char], cls: &CharClass) -> (r: Vec<Vec<char>>)
    ensures
        char_views(r@) == split_by(s@, *cls),
{
    let mut done: Vec<Vec<char>> = Vec::new();
    let mut cur: Vec<char> = Vec::new();
    assert(s@.take(0) =~= Seq::<char>::empty());
    for i in 0..s.len()
        invariant
            split_by(s@.take(i as int), *cls) == char_views(done@).push(cur@),
    {
        let c = s[i];
        let ghost t = s@.take(i + 1);
        assert(t.drop_last() =~= s@.take(i as int));
        assert(t.last() == c);
        if class_contains(cls, c) {
            let finished = cur;
            cur = Vec::new();
            done.push(finished);
            assert(char_views(done@).push(cur@) =~= char_views(done@.drop_last()).push(
                finished@,
            ).push(Seq::<char>::empty()));
            assert(done@.drop_last() =~= done@.take(done@.len() - 1));
        } else {
            let ghost before = char_views(done@).push(cur@);
            cur.push(c);
            assert(char_views(done@).push(cur@) =~= before.update(
                before.len() - 1,
                before.last().push(c),
            ));
        }
    }
    assert(s@.take(s@.len() as int) =~= s@);
    done.push(cur);
    assert(char_views(done@) =~= char_views(done@.drop_last()).push(done@.last()@));
    done
}

// ---------------------------------------------------------------------------
// Lines and words
// ---------------------------------------------------------------------------

/// A piece with one trailing carriage return removed, if it has one.
pub open spec fn strip_cr(p: Seq<char>) -> Seq<char> {
    if p.len() > 0 && p.last() == '\r' {
        p.drop_last()
    } else {
        p
    }
}

/// The lines of `s` as `str::lines` yields them: split at `\n`, each line
/// that a `\n` ends losing one trailing `\r`, and no line after a final `\n`.
pub open spec fn lines_of(s: Seq<char>) -> Seq<Seq<char>> {
    let parts = split_by(s, CharClass::Only('\n'));
    let n = parts.len();
    let body = Seq::new((n - 1) as nat, |i: int| strip_cr(parts[i]));
    if parts[n - 1].len() == 0 {
        body
    } else {
        body.push(parts[n - 1])
    }
}

/// The lines of a text.
pub fn lines(s: &[char]) -> (r: Vec<Vec<char>>)
    ensures
        char_views(r@) == lines_of(s@),
{
    let parts = split_chars(s, &CharClass::Only('\n'));
    proof {
        lemma_split_nonempty(s@, CharClass::Only('\n'));
    }
    let ghost pv = split_by(s@, CharClass::Only('\n'));
    let n = parts.len();
    let mut r: Vec<Vec<char>> = Vec::new();
    for i in 0..n - 1
        invariant
            n == parts@.len(),
            n >= 1,
            char_views(parts@) == pv,
            char_views(r@) == Seq::new(i as nat, |k: int| strip_cr(pv[k])),
    {
        let p = &parts[i];
        let ghost pi = pv[i as int];
        assert(p@ == pi);
        let mut q: Vec<char> = Vec::new();
        let plen = p.len();
        let keep = if plen > 0 && p[plen - 1] == '\r' {
            plen - 1
        } else {
            plen
        };
        for j in 0..keep
            invariant
                keep <= plen,
                plen == p@.len(),
                q@ == p@.take(j as int),
        {
            q.push(p[j]);
            assert(p@.take(j + 1) =~= p@.take(j as int).push(p@[j as int]));
        }
        assert(q@ =~= strip_cr(pi));
        let ghost before = r@;
        r.push(q);
        assert(char_views(r@) =~= char_views(before).push(strip_cr(pi)));
        assert(char_views(r@) =~= Seq::new((i + 1) as nat, |k: int| strip_cr(pv[k])));
    }
    let last = &parts[n - 1];
    assert(last@ == pv[n - 1]);
    if last.len() > 0 {
        let mut q: Vec<char> = Vec::new();
        append_chars(&mut q, last.as_slice());
        let ghost before = r@;
        r.push(q);
        assert(char_views(r@) =~= char_views(before).push(pv[n - 1]));
        assert(char_views(r@) =~= Seq::new((n - 1) as nat, |k: int| strip_cr(pv[k])).push(
            pv[n - 1],
        ));
    }
    r
}

/// The pieces that are not empty, in order.
pub open spec fn nonempty_pieces(ps: Seq<Seq<char>>) -> Seq<Seq<char>>
    decreases ps.len(),
{
    if ps.len() == 0 {
        ps
    } else {
        let r = nonempty_pieces(ps.drop_last());
        if ps.last().len() > 0 {
            r.push(ps.last())
        } else {
            r
        }
    }
}

/// The words of `s` as `str::split_whitespace` yields them: the maximal runs
/// of characters without white space.
pub open spec fn words_of(s: Seq<char>) -> Seq<Seq<char>> {
    nonempty_pieces(split_by(s, CharClass::Whitespace))
}

/// The words of a text.
pub fn words(s: &[char]) -> (r: Vec<Vec<char>>)
    ensures
        char_views(r@) == words_of(s@),
{
    let parts = split_chars(s, &CharClass::Whitespace);
    let ghost pv = char_views(parts@);
    let mut r: Vec<Vec<char>> = Vec::new();
    assert(pv.take(0) =~= Seq::<Seq<char>>::empty());
    for i in 0..parts.len()
        invariant
            pv == char_views(parts@),
            char_views(r@) == nonempty_pieces(pv.take(i as int)),
    {
        assert(pv.take(i + 1).drop_last() =~= pv.take(i as int));
        if parts[i].len() > 0 {
            let mut q: Vec<char> = Vec::new();
            append_chars(&mut q, parts[i].as_slice());
            r.push(q);
            assert(char_views(r@) =~= nonempty_pieces(pv.take(i as int)).push(pv[i as int]));
        }
    }
    assert(pv.take(parts@.len() as int) =~= pv);
    r
}

// ---------------------------------------------------------------------------
// Trimming
// ---------------------------------------------------------------------------

/// `s` without its leading characters of `cls`.
pub open spec fn trim_start_by(s: Seq<char>, cls: CharClass) -> Seq<char>
    decreases s.len(),
{
    if s.len() > 0 && class_has(cls, s[0]) {
        trim_start_by(s.drop_first(), cls)
    } else {
        s
    }
}

/// `s` without its trailing characters of `cls`.
pub open spec fn trim_end_by(s: Seq<char>, cls: CharClass) -> Seq<char>
    decreases s.len(),
{
    if s.len() > 0 && class_has(cls, s.last()) {
        trim_end_by(s.drop_last(), cls)
    } else {
        s
    }
}

/// `s` without leading and trailing characters of `cls`, as
/// `str::trim_matches` gives it.
pub open spec fn trim_by(s: Seq<char>, cls: CharClass) -> Seq<char> {
    trim_end_by(trim_start_by(s, cls), cls)
}

/// `s` without leading and trailing white space, as `str::trim` gives it.
pub open spec fn trim_ws(s: Seq<char>) -> Seq<char> {
    trim_by(s, CharClass::Whitespace)
}

proof fn lemma_trim_start_at(s: Seq<char>, cls: CharClass, a: int)
    requires
        0 <= a <= s.len(),
        forall|k: int| 0 <= k < a ==> class_has(cls, #[trigger] s[k]),
        a == s.len() || !class_has(cls, s[a]),
    ensures
        trim_start_by(s, cls) == s.skip(a),
    decreases a,
{
    if a > 0 {
        assert(forall|k: int| 0 <= k < a - 1 ==> s.drop_first()[k] == s[k + 1]);
        lemma_trim_start_at(s.drop_first(), cls, a - 1);
        assert(s.drop_first().skip(a - 1) =~= s.skip(a));
    } else {
        assert(s.skip(0) =~= s);
    }
}

proof fn lemma_trim_end_at(s: Seq<char>, cls: CharClass, b: int)
    requires
        0 <= b <= s.len(),
        forall|k: int| b <= k < s.len() ==> class_has(cls, #[trigger] s[k]),
        b == 0 || !class_has(cls, s[b - 1]),
    ensures
        trim_end_by(s, cls) == s.take(b),
    decreases s.len() - b,
{
    if b < s.len() {
        lemma_trim_end_at(s.drop_last(), cls, b);
        assert(s.drop_last().take(b) =~= s.take(b));
    } else {
        assert(s.take(b) =~= s);
    }
}

/// `s` without leading and trailing characters of `cls`.
pub fn trim_chars(s: &[char], cls: &CharClass) -> (r: Vec<char>)
    ensures
        r@ == trim_by(s@, *cls),
{
    let n = s.len();
    let mut a: usize = 0;
    while a < n && class_contains(cls, s[a])
        invariant
            a <= n,
            n == s@.len(),
            forall|k: int| 0 <= k < a ==> class_has(*cls, #[trigger] s@[k]),
        decreases n - a,
    {
        a = a + 1;
    }
    proof {
        lemma_trim_start_at(s@, *cls, a as int);
    }
    let ghost t = s@.skip(a as int);
    let mut b: usize = n;
    while b > a && class_contains(cls, s[b - 1])
        invariant
            a <= b <= n,
            n == s@.len(),
            t == s@.skip(a as int),
            forall|k: int| b - a <= k < t.len() ==> class_has(*cls, #[trigger] t[k]),
        decreases b,
    {
        b = b - 1;
    }
    proof {
        lemma_trim_end_at(t, *cls, b - a);
    }
    let mut r: Vec<char> = Vec::new();
    for k in a..b
        invariant
            a <= b <= n,
            n == s@.len(),
            r@ == s@.subrange(a as int, k as int),
    {
        r.push(s[k]);
        assert(s@.subrange(a as int, k + 1) =~= s@.subrange(a as int, k as int).push(s@[k as int]));
    }
    assert(r@ =~= t.take(b - a));
    r
}

/// Trimming never brings in a character that the text does not hold.
pub proof fn lemma_trim_keeps_absent(s: Seq<char>, cls: CharClass, c: char)
    requires
        forall|j: int| 0 <= j < s.len() ==> #[trigger] s[j] != c,
    ensures
        forall|j: int| 0 <= j < trim_by(s, cls).len() ==> #[trigger] trim_by(s, cls)[j] != c,
{
    lemma_trim_start_keeps_absent(s, cls, c);
    lemma_trim_end_keeps_absent(trim_start_by(s, cls), cls, c);
}

proof fn lemma_trim_start_keeps_absent(s: Seq<char>, cls: CharClass, c: char)
    requires
        forall|j: int| 0 <= j < s.len() ==> #[trigger] s[j] != c,
    ensures
        forall|j: int| 0 <= j < trim_start_by(s, cls).len() ==> #[trigger] trim_start_by(s, cls)[j]
            != c,
    decreases s.len(),
{
    if s.len() > 0 && class_has(cls, s[0]) {
        assert forall|j: int| 0 <= j < s.drop_first().len() implies #[trigger] s.drop_first()[j]
            != c by {
            assert(s.drop_first()[j] == s[j + 1]);
        }
        lemma_trim_start_keeps_absent(s.drop_first(), cls, c);
        assert(trim_start_by(s, cls) == trim_start_by(s.drop_first(), cls));
    } else {
        assert(trim_start_by(s, cls) == s);
    }
}

proof fn lemma_trim_end_keeps_absent(s: Seq<char>, cls: CharClass, c: char)
    requires
        forall|j: int| 0 <= j < s.len() ==> #[trigger] s[j] != c,
    ensures
        forall|j: int| 0 <= j < trim_end_by(s, cls).len() ==> #[trigger] trim_end_by(s, cls)[j]
            != c,
    decreases s.len(),
{
    if s.len() > 0 && class_has(cls, s.last()) {
        assert forall|j: int| 0 <= j < s.drop_last().len() implies #[trigger] s.drop_last()[j]
            != c by {
            assert(s.drop_last()[j] == s[j]);
        }
        lemma_trim_end_keeps_absent(s.drop_last(), cls, c);
        assert(trim_end_by(s, cls) == trim_end_by(s.drop_last(), cls));
    } else {
        assert(trim_end_by(s, cls) == s);
    }
}

// ---------------------------------------------------------------------------
// Searching and replacing
// ---------------------------------------------------------------------------

/// Whether `pat` occurs in `s` starting at index `i`.
pub open spec fn occurs_at(s: Seq<char>, pat: Seq<char>, i: int) -> bool {
    0 <= i && i + pat.len() <= s.len() && s.subrange(i, i + pat.len()) == pat
}

/// Whether `pat` occurs anywhere in `s`, as `str::contains` tells it.
pub open spec fn contains_seq(s: Seq<char>, pat: Seq<char>) -> bool {
    exists|i: int| occurs_at(s, pat, i)
}

/// Whether `s` begins with `pat`.
pub open spec fn starts_with_seq(s: Seq<char>, pat: Seq<char>) -> bool {
    occurs_at(s, pat, 0)
}

/// Whether `pat` occurs in `s` at index `i`.
pub fn occurs_at_index(s: &[char], pat: &[char], i: usize) -> (r: bool)
    ensures
        r == occurs_at(s@, pat@, i as int),
{
    if pat.len() > s.len() || i > s.len() - pat.len() {
        return false;
    }
    let m = pat.len();
    let mut j: usize = 0;
    while j < m
        invariant
            j <= m,
            m == pat@.len(),
            m == pat.len(),
            i + m <= s.len(),
            i + m <= s@.len(),
            forall|k: int| 0 <= k < j ==> s@[i + k] == pat@[k],
        decreases m - j,
    {
        if s[i + j] != pat[j] {
            assert(s@.subrange(i as int, i + m)[j as int] != pat@[j as int]);
            return false;
        }
        j = j + 1;
    }
    assert(s@.subrange(i as int, i + m) =~= pat@);
    true
}

/// Whether `pat` occurs in `s`.
pub fn contains_chars(s: &[char], pat: &[char]) -> (r: bool)
    ensures
        r == contains_seq(s@, pat@),
{
    if pat.len() > s.len() {
        return false;
    }
    let last = s.len() - pat.len();
    let mut i: usize = 0;
    loop
        invariant
            last == s@.len() - pat@.len(),
            i <= last,
            forall|k: int| 0 <= k < i ==> !occurs_at(s@, pat@, k),
        decreases last - i,
    {
        if occurs_at_index(s, pat, i) {
            return true;
        }
        if i == last {
            assert forall|k: int| #![trigger occurs_at(s@, pat@, k)] !occurs_at(s@, pat@, k) by {
                if 0 <= k && k < i {
                } else if k == i {
                } else {
                }
            }
            return false;
        }
        i = i + 1;
    }
}

/// Whether two texts are the same.
pub fn chars_eq(a: &[char], b: &[char]) -> (r: bool)
    ensures
        r == (a@ == b@),
{
    if a.len() != b.len() {
        return false;
    }
    let r = occurs_at_index(a, b, 0);
    proof {
        if r {
            assert(a@.subrange(0, b@.len() as int) =~= a@);
        } else {
            if a@ == b@ {
                assert(a@.subrange(0, b@.len() as int) =~= a@);
            }
        }
    }
    r
}

/// Whether the text is the given string.
pub fn eq_str(a: &[char], b: &str) -> (r: bool)
    ensures
        r == (a@ == b@),
{
    let bs = chars_of(b);
    chars_eq(a, bs.as_slice())
}

/// Whether the text holds the given string.
pub fn contains_str(s: &[char], pat: &str) -> (r: bool)
    ensures
        r == contains_seq(s@, pat@),
{
    let p = chars_of(pat);
    contains_chars(s, p.as_slice())
}

/// Whether `s` begins with the given string.
pub fn starts_with_str(s: &[char], pat: &str) -> (r: bool)
    ensures
        r == starts_with_seq(s@, pat@),
{
    let p = chars_of(pat);
    occurs_at_index(s, p.as_slice(), 0)
}

/// `s` with every occurrence of `from` replaced by `to`, scanning left to
/// right without overlap, as `str::replace` gives it.
pub open spec fn replace_seq(s: Seq<char>, from: Seq<char>, to: Seq<char>) -> Seq<char>
    recommends
        from.len() > 0,
    decreases s.len(),
{
    if s.len() == 0 || from.len() == 0 {
        s
    } else if occurs_at(s, from, 0) {
        to + replace_seq(s.skip(from.len() as int), from, to)
    } else {
        seq![s[0]] + replace_seq(s.drop_first(), from, to)
    }
}

/// `s` with every occurrence of `from` replaced by `to`.
pub fn replace_chars(s: &[char], from: &[char], to: &[char]) -> (r: Vec<char>)
    requires
        from@.len() > 0,
    ensures
        r@ == replace_seq(s@, from@, to@),
{
    let n = s.len();
    let m = from.len();
    let mut r: Vec<char> = Vec::new();
    let mut i: usize = 0;
    assert(s@.skip(0) =~= s@);
    while i < n
        invariant
            i <= n,
            n == s@.len(),
            m == from@.len(),
            m > 0,
            replace_seq(s@, from@, to@) == r@ + replace_seq(s@.skip(i as int), from@, to@),
        decreases n - i,
    {
        let ghost rest = s@.skip(i as int);
        let hit = occurs_at_index(s, from, i);
        if hit {
            assert(occurs_at(rest, from@, 0)) by {
                assert(rest.subrange(0, m as int) =~= s@.subrange(i as int, i + m));
            }
            let ghost r0 = r@;
            append_chars(&mut r, to);
            assert(rest.skip(m as int) =~= s@.skip(i + m));
            assert(r0 + (to@ + replace_seq(s@.skip(i + m), from@, to@)) =~= r@ + replace_seq(
                s@.skip(i + m),
                from@,
                to@,
            ));
            i = i + m;
        } else {
            assert(!occurs_at(rest, from@, 0)) by {
                if occurs_at(rest, from@, 0) {
                    assert(rest.subrange(0, m as int) =~= s@.subrange(i as int, i + m));
                }
            }
            let ghost r0 = r@;
            r.push(s[i]);
            assert(rest.drop_first() =~= s@.skip(i + 1));
            assert(rest[0] == s@[i as int]);
            assert(r0 + (seq![rest[0]] + replace_seq(s@.skip(i + 1), from@, to@)) =~= r@
                + replace_seq(s@.skip(i + 1), from@, to@));
            i = i + 1;
        }
    }
    assert(s@.skip(n as int) =~= Seq::<char>::empty());
    assert(r@ + Seq::<char>::empty() =~= r@);
    r
}

// ---------------------------------------------------------------------------
// Decimal numbers
// ---------------------------------------------------------------------------

pub open spec fn is_digit(c: char) -> bool {
    '0' <= c <= '9'
}

pub open spec fn all_digits(d: Seq<char>) -> bool {
    forall|i: int| 0 <= i < d.len() ==> is_digit(#[trigger] d[i])
}

pub open spec fn digit_value(c: char) -> nat {
    (c as int - '0' as int) as nat
}

/// The number that a string of decimal digits denotes.
pub open spec fn digits_value(d: Seq<char>) -> nat
    decreases d.len(),
{
    if d.len() == 0 {
        0
    } else {
        digits_value(d.drop_last()) * 10 + digit_value(d.last())
    }
}

/// What `str::parse::<u32>` accepts and yields: an optional `+`, then one or
/// more ASCII digits whose value fits in a `u32`.
pub open spec fn parse_u32_spec(s: Seq<char>) -> Option<u32> {
    let d = if s.len() > 0 && s[0] == '+' {
        s.drop_first()
    } else {
        s
    };
    if d.len() > 0 && all_digits(d) && digits_value(d) <= u32::MAX {
        Some(digits_value(d) as u32)
    } else {
        None
    }
}

proof fn lemma_digits_value_grows(d: Seq<char>, i: int, j: int)
    requires
        0 <= i <= j <= d.len(),
    ensures
        digits_value(d.take(i)) <= digits_value(d.take(j)),
    decreases j - i,
{
    if i < j {
        lemma_digits_value_grows(d, i, j - 1);
        assert(d.take(j).drop_last() =~= d.take(j - 1));
    }
}

/// Parses an unsigned 32-bit decimal number.
pub fn parse_u32(s: &[char]) -> (r: Option<u32>)
    ensures
        r == parse_u32_spec(s@),
{
    let n = s.len();
    let start: usize = if n > 0 && s[0] == '+' {
        1
    } else {
        0
    };
    let ghost d = if s@.len() > 0 && s@[0] == '+' {
        s@.drop_first()
    } else {
        s@
    };
    assert(d =~= s@.skip(start as int));
    if start == n {
        return None;
    }
    let mut acc: u64 = 0;
    let mut i: usize = start;
    assert(d.take(0) =~= Seq::<char>::empty());
    while i < n
        invariant
            start <= i <= n,
            n == s@.len(),
            d == s@.skip(start as int),
            d == (if s@.len() > 0 && s@[0] == '+' {
                s@.drop_first()
            } else {
                s@
            }),
            d.len() > 0,
            acc as nat == digits_value(d.take(i - start)),
            acc <= u32::MAX,
            all_digits(d.take(i - start)),
        decreases n - i,
    {
        let c = s[i];
        if !('0' <= c && c <= '9') {
            assert(d[i - start] == c);
            assert(!is_digit(d[i - start]));
            assert(!all_digits(d));
            return None;
        }
        let k = i - start;
        assert(d.take(k + 1).drop_last() =~= d.take(k as int));
        assert(d.take(k + 1).last() == c);
        let dv: u64 = (c as u64) - ('0' as u64);
        let next: u64 = acc * 10 + dv;
        assert(next as nat == digits_value(d.take(k + 1)));
        if next > 0xffff_ffffu64 {
            proof {
                lemma_digits_value_grows(d, k + 1, d.len() as int);
                assert(d.take(d.len() as int) =~= d);
            }
            return None;
        }
        acc = next;
        i = i + 1;
        assert forall|j: int| 0 <= j < d.take(i - start).len() implies is_digit(
            #[trigger] d.take(i - start)[j],
        ) by {
            if j < k {
                assert(d.take(i - start)[j] == d.take(k as int)[j]);
            }
        }
    }
    assert(d.take(n - start) =~= d);
    Some(acc as u32)
}

/// The character for a decimal digit value.
pub open spec fn digit_char(k: nat) -> char {
    if k == 0 {
        '0'
    } else if k == 1 {
        '1'
    } else if k == 2 {
        '2'
    } else if k == 3 {
        '3'
    } else if k == 4 {
        '4'
    } else if k == 5 {
        '5'
    } else if k == 6 {
        '6'
    } else if k == 7 {
        '7'
    } else if k == 8 {
        '8'
    } else {
        '9'
    }
}

/// The decimal notation of `n`, without sign or leading zeros, as the
/// `Display` of an unsigned integer writes it.
pub open spec fn decimal(n: nat) -> Seq<char>
    decreases n,
{
    if n < 10 {
        seq![digit_char(n)]
    } else {
        decimal(n / 10).push(digit_char(n % 10))
    }
}

fn digit_to_char(k: u32) -> (c: char)
    requires
        k < 10,
    ensures
        c == digit_char(k as nat),
{
    if k == 0 {
        '0'
    } else if k == 1 {
        '1'
    } else if k == 2 {
        '2'
    } else if k == 3 {
        '3'
    } else if k == 4 {
        '4'
    } else if k == 5 {
        '5'
    } else if k == 6 {
        '6'
    } else if k == 7 {
        '7'
    } else if k == 8 {
        '8'
    } else {
        '9'
    }
}

/// Appends the decimal notation of `n`.
pub fn push_decimal(out: &mut Vec<char>, n: u32)
    ensures
        final(out)@ == old(out)@ + decimal(n as nat),
    decreases n,
{
    let ghost o = out@;
    if n >= 10 {
        push_decimal(out, n / 10);
    }
    out.push(digit_to_char(n % 10));
    proof {
        if n >= 10 {
            assert(o + decimal(n as nat) =~= o + decimal((n / 10) as nat) + seq![digit_char((n % 10) as nat)]);
        } else {
            assert(o + decimal(n as nat) =~= o.push(digit_char(n as nat)));
        }
    }
}

proof fn lemma_digit_char(k: nat)
    requires
        k < 10,
    ensures
        is_digit(digit_char(k)),
        digit_value(digit_char(k)) == k,
        digit_char(k) != '+',
{
}

/// A decimal notation is a non-empty run of digits that denotes its number.
pub proof fn lemma_decimal_digits(n: nat)
    ensures
        decimal(n).len() > 0,
        all_digits(decimal(n)),
        digits_value(decimal(n)) == n,
    decreases n,
{
    if n < 10 {
        lemma_digit_char(n);
        reveal_with_fuel(digits_value, 2);
        assert(seq![digit_char(n)].drop_last() =~= Seq::<char>::empty());
    } else {
        lemma_decimal_digits(n / 10);
        lemma_digit_char(n % 10);
        let d = decimal(n);
        assert(d.drop_last() =~= decimal(n / 10));
        assert(n == (n / 10) * 10 + n % 10) by (nonlinear_arith);
        assert forall|i: int| 0 <= i < d.len() implies is_digit(#[trigger] d[i]) by {
            if i < d.len() - 1 {
                assert(d[i] == decimal(n / 10)[i]);
            }
        }
    }
}

/// Reading back the decimal notation of a `u32` gives the number.
pub proof fn lemma_parse_decimal(n: u32)
    ensures
        parse_u32_spec(decimal(n as nat)) == Some(n),
{
    lemma_decimal_digits(n as nat);
    lemma_digit_char_not_plus(n as nat);
}

proof fn lemma_digit_char_not_plus(n: nat)
    ensures
        decimal(n)[0] != '+',
    decreases n,
{
    if n < 10 {
        lemma_digit_char(n);
    } else {
        lemma_decimal_digits(n / 10);
        lemma_digit_char_not_plus(n / 10);
        assert(decimal(n)[0] == decimal(n / 10)[0]);
    }
}

} // verus!
