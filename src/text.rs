//! Text rules on filenames: whitespace trimming, splitting into tokens,
//! extracting the extension, and the lexicographic order of names.

use vstd::prelude::*;

verus! {

/// The characters with the Unicode `White_Space` property.
pub open spec fn is_space_spec(c: char) -> bool {
    let u = c as u32;
    ||| 0x9 <= u <= 0xD
    ||| u == 0x20
    ||| u == 0x85
    ||| u == 0xA0
    ||| u == 0x1680
    ||| 0x2000 <= u <= 0x200A
    ||| u == 0x2028
    ||| u == 0x2029
    ||| u == 0x202F
    ||| u == 0x205F
    ||| u == 0x3000
}

/// The characters on which a filename is split into tokens.
pub open spec fn is_delimiter_spec(c: char) -> bool {
    ||| c == ','
    ||| c == '.'
    ||| c == '-'
    ||| c == '['
    ||| c == ']'
    ||| c == '{'
    ||| c == '}'
    ||| c == '('
    ||| c == ')'
}

/// `s` without its leading whitespace.
pub open spec fn trim_start(s: Seq<char>) -> Seq<char>
    decreases s.len(),
{
    if s.len() > 0 && is_space_spec(s[0]) {
        trim_start(s.drop_first())
    } else {
        s
    }
}

/// `s` without its trailing whitespace.
pub open spec fn trim_end(s: Seq<char>) -> Seq<char>
    decreases s.len(),
{
    if s.len() > 0 && is_space_spec(s.last()) {
        trim_end(s.drop_last())
    } else {
        s
    }
}

/// `s` without whitespace at either end.
pub open spec fn trim(s: Seq<char>) -> Seq<char> {
    trim_end(trim_start(s))
}

/// The pieces of `s` between delimiters, in order, empty pieces included:
/// one more piece than `s` has delimiters.
pub open spec fn pieces(s: Seq<char>) -> Seq<Seq<char>>
    decreases s.len(),
{
    if s.len() == 0 {
        seq![Seq::empty()]
    } else {
        let p = pieces(s.drop_last());
        if is_delimiter_spec(s.last()) {
            p.push(Seq::empty())
        } else {
            p.update(p.len() - 1, p.last().push(s.last()))
        }
    }
}

/// The trimmed pieces of `ps` that are not empty, in order.
pub open spec fn kept_tokens(ps: Seq<Seq<char>>) -> Seq<Seq<char>>
    decreases ps.len(),
{
    if ps.len() == 0 {
        Seq::empty()
    } else {
        let r = kept_tokens(ps.drop_last());
        let t = trim(ps.last());
        if t.len() > 0 {
            r.push(t)
        } else {
            r
        }
    }
}

/// The tokens of a filename: its pieces between delimiters, trimmed, with
/// the empty ones left out.
pub open spec fn tokens(s: Seq<char>) -> Seq<Seq<char>> {
    kept_tokens(pieces(s))
}

/// The contents of each string of `v`.
pub open spec fn views(v: Seq<String>) -> Seq<Seq<char>> {
    v.map_values(|t: String| t@)
}

/// A string without delimiters is a single piece.
proof fn lemma_pieces_without_delimiters(s: Seq<char>)
    requires
        forall|i: int| 0 <= i < s.len() ==> !is_delimiter_spec(#[trigger] s[i]),
    ensures
        pieces(s) == seq![s],
    decreases s.len(),
{
    if s.len() > 0 {
        let t = s.drop_last();
        assert forall|i: int| 0 <= i < t.len() implies !is_delimiter_spec(#[trigger] t[i]) by {
            assert(t[i] == s[i]);
        }
        lemma_pieces_without_delimiters(t);
        assert(t.push(s.last()) =~= s);
        assert(!is_delimiter_spec(s[s.len() - 1]));
        assert(seq![t].update(0, t.push(s.last())) =~= seq![s]);
    } else {
        assert(s =~= Seq::<char>::empty());
    }
}

/// A name with no delimiter has one token, the whole name trimmed, or none
/// when the trimmed name is empty.
pub proof fn lemma_tokens_without_delimiters(s: Seq<char>)
    requires
        forall|i: int| 0 <= i < s.len() ==> !is_delimiter_spec(#[trigger] s[i]),
    ensures
        trim(s).len() > 0 ==> tokens(s) == seq![trim(s)],
        trim(s).len() == 0 ==> tokens(s) == Seq::<Seq<char>>::empty(),
{
    lemma_pieces_without_delimiters(s);
    let ps = seq![s];
    assert(ps.drop_last() =~= Seq::<Seq<char>>::empty());
    assert(kept_tokens(ps.drop_last()) == Seq::<Seq<char>>::empty());
    assert(Seq::<Seq<char>>::empty().push(trim(s)) =~= seq![trim(s)]);
}

/// Whether `c` has the Unicode `White_Space` property.
pub fn is_space(c: char) -> (r: bool)
    ensures
        r == is_space_spec(c),
{
    let u = c as u32;
    (0x9 <= u && u <= 0xD) || u == 0x20 || u == 0x85 || u == 0xA0 || u == 0x1680 || (0x2000
        <= u && u <= 0x200A) || u == 0x2028 || u == 0x2029 || u == 0x202F || u == 0x205F || u
        == 0x3000
}

/// Whether `c` splits a filename into tokens.
pub fn is_delimiter(c: char) -> (r: bool)
    ensures
        r == is_delimiter_spec(c),
{
    c == ',' || c == '.' || c == '-' || c == '[' || c == ']' || c == '{' || c == '}' || c == '('
        || c == ')'
}

/// The bounds, inside `from..to`, of that range of `s` with its surrounding
/// whitespace removed.
fn trimmed_bounds(s: &str, from: usize, to: usize) -> (r: (usize, usize))
    requires
        from <= to <= s@.len(),
    ensures
        from <= r.0 <= r.1 <= to,
        s@.subrange(r.0 as int, r.1 as int) == trim(s@.subrange(from as int, to as int)),
{
    let mut lo = from;
    while lo < to && is_space(s.get_char(lo))
        invariant
            from <= lo <= to <= s@.len(),
            trim_start(s@.subrange(from as int, to as int)) == trim_start(
                s@.subrange(lo as int, to as int),
            ),
        decreases to - lo,
    {
        assert(s@.subrange(lo as int, to as int).drop_first() =~= s@.subrange(
            lo + 1,
            to as int,
        ));
        lo = lo + 1;
    }
    assert(trim_start(s@.subrange(from as int, to as int)) == s@.subrange(lo as int, to as int));
    let mut hi = to;
    while hi > lo && is_space(s.get_char(hi - 1))
        invariant
            from <= lo <= hi <= to <= s@.len(),
            trim_end(s@.subrange(lo as int, to as int)) == trim_end(
                s@.subrange(lo as int, hi as int),
            ),
        decreases hi - lo,
    {
        assert(s@.subrange(lo as int, hi as int).drop_last() =~= s@.subrange(
            lo as int,
            hi - 1,
        ));
        hi = hi - 1;
    }
    (lo, hi)
}

/// Appends to `r` the range `from..to` of `s`, trimmed, unless that is empty.
fn push_token(s: &str, from: usize, to: usize, r: &mut Vec<String>)
    requires
        from <= to <= s@.len(),
    ensures
        views(final(r)@) == if trim(s@.subrange(from as int, to as int)).len() > 0 {
            views(old(r)@).push(trim(s@.subrange(from as int, to as int)))
        } else {
            views(old(r)@)
        },
{
    let (lo, hi) = trimmed_bounds(s, from, to);
    if lo < hi {
        let t = s.substring_char(lo, hi).to_owned();
        r.push(t);
        assert(views(r@) =~= views(old(r)@).push(t@));
    }
}

/// Splits a filename into its tokens: the text between the delimiters
/// `, . - [ ] { } ( )`, each trimmed of whitespace, in order, with no empty
/// token.
pub fn tokenize(name: &str) -> (r: Vec<String>)
    ensures
        views(r@) == tokens(name@),
{
    let n = name.unicode_len();
    let mut r: Vec<String> = Vec::new();
    let mut start: usize = 0;
    let mut i: usize = 0;
    assert(name@.take(0) =~= Seq::<char>::empty());
    assert(views(r@) =~= Seq::<Seq<char>>::empty());
    assert(name@.subrange(0, 0) =~= Seq::<char>::empty());
    while i < n
        invariant
            n == name@.len(),
            start <= i <= n,
            pieces(name@.take(i as int)).len() >= 1,
            pieces(name@.take(i as int)).last() == name@.subrange(start as int, i as int),
            views(r@) == kept_tokens(pieces(name@.take(i as int)).drop_last()),
        decreases n - i,
    {
        let c = name.get_char(i);
        let ghost p = pieces(name@.take(i as int));
        assert(name@.take(i + 1).drop_last() =~= name@.take(i as int));
        assert(name@.take(i + 1).last() == c);
        if is_delimiter(c) {
            push_token(name, start, i, &mut r);
            start = i + 1;
            assert(pieces(name@.take(i + 1)) == p.push(Seq::empty()));
            assert(p.push(Seq::<char>::empty()).drop_last() =~= p);
            assert(name@.subrange(i + 1, i + 1) =~= Seq::<char>::empty());
        } else {
            let ghost q = p.update(p.len() - 1, p.last().push(c));
            assert(pieces(name@.take(i + 1)) == q);
            assert(q.drop_last() =~= p.drop_last());
            assert(q.last() =~= name@.subrange(start as int, i + 1));
        }
        i = i + 1;
    }
    push_token(name, start, n, &mut r);
    assert(name@.take(n as int) =~= name@);
    r
}

/// The position of the last `.` of `s`.
pub open spec fn is_last_dot(s: Seq<char>, k: int) -> bool {
    &&& 0 <= k < s.len()
    &&& s[k] == '.'
    &&& forall|j: int| k < j < s.len() ==> s[j] != '.'
}

/// The extension of a filename: a `.` followed by what comes after its last
/// `.`; empty when it holds no `.`.
pub open spec fn extension_of(s: Seq<char>) -> Seq<char> {
    if exists|i: int| 0 <= i < s.len() && s[i] == '.' {
        let k = choose|k: int| is_last_dot(s, k);
        seq!['.'] + s.skip(k + 1)
    } else {
        Seq::empty()
    }
}

/// The extension of a filename, with its leading `.`; empty where the name
/// holds no `.`.
pub fn extract_extension(name: &str) -> (r: String)
    ensures
        r@ == extension_of(name@),
{
    let n = name.unicode_len();
    let mut i: usize = n;
    while i > 0 && name.get_char(i - 1) != '.'
        invariant
            i <= n == name@.len(),
            forall|j: int| i <= j < n ==> name@[j] != '.',
        decreases i,
    {
        i = i - 1;
    }
    if i == 0 {
        String::new()
    } else {
        assert(is_last_dot(name@, i - 1));
        let tail = name.substring_char(i, n);
        let r = String::from_str(".").concat(tail);
        proof {
            reveal_strlit(".");
            let k = choose|k: int| is_last_dot(name@, k);
            assert(k == i - 1);
            assert(r@ =~= seq!['.'] + name@.skip(i as int));
        }
        r
    }
}

/// Strict lexicographic order of character sequences by code point, the
/// order in which `String`s compare.
pub open spec fn lex_lt(a: Seq<char>, b: Seq<char>) -> bool
    decreases a.len(),
{
    if a.len() == 0 {
        b.len() > 0
    } else if b.len() == 0 {
        false
    } else if a[0] != b[0] {
        (a[0] as int) < (b[0] as int)
    } else {
        lex_lt(a.drop_first(), b.drop_first())
    }
}

/// `a` comes before `b`, or equals it.
pub open spec fn lex_le(a: Seq<char>, b: Seq<char>) -> bool {
    lex_lt(a, b) || a == b
}

/// The order is transitive.
pub proof fn lemma_lex_lt_transitive(a: Seq<char>, b: Seq<char>, c: Seq<char>)
    requires
        lex_lt(a, b),
        lex_lt(b, c),
    ensures
        lex_lt(a, c),
    decreases a.len(),
{
    if a.len() > 0 && b.len() > 0 && c.len() > 0 && a[0] == b[0] && b[0] == c[0] {
        lemma_lex_lt_transitive(a.drop_first(), b.drop_first(), c.drop_first());
    }
}

/// Of two different sequences, one comes before the other.
pub proof fn lemma_lex_lt_total(a: Seq<char>, b: Seq<char>)
    ensures
        lex_lt(a, b) || lex_lt(b, a) || a == b,
    decreases a.len(),
{
    if a.len() > 0 && b.len() > 0 && a[0] == b[0] {
        lemma_lex_lt_total(a.drop_first(), b.drop_first());
        if a.drop_first() == b.drop_first() {
            assert(a =~= seq![a[0]] + a.drop_first());
            assert(b =~= seq![b[0]] + b.drop_first());
        }
    } else if a.len() > 0 && b.len() > 0 {
    } else if a.len() == 0 && b.len() == 0 {
        assert(a =~= b);
    }
}

/// Whether `a` comes strictly before `b` in lexicographic order.
pub fn str_lt(a: &str, b: &str) -> (r: bool)
    ensures
        r == lex_lt(a@, b@),
{
    let na = a.unicode_len();
    let nb = b.unicode_len();
    let mut i: usize = 0;
    assert(a@.skip(0) =~= a@);
    assert(b@.skip(0) =~= b@);
    while i < na && i < nb
        invariant
            na == a@.len(),
            nb == b@.len(),
            i <= na,
            i <= nb,
            lex_lt(a@, b@) == lex_lt(a@.skip(i as int), b@.skip(i as int)),
        decreases na - i,
    {
        let x = a.get_char(i);
        let y = b.get_char(i);
        if x != y {
            return (x as u32) < (y as u32);
        }
        assert(a@.skip(i as int).drop_first() =~= a@.skip(i + 1));
        assert(b@.skip(i as int).drop_first() =~= b@.skip(i + 1));
        i = i + 1;
    }
    i == na && i < nb
}

} // verus!
