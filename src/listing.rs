//! The listing of a directory's regular files, and its display order.

use vstd::prelude::*;
use crate::text::{lex_le, lex_lt, str_lt, views, lemma_lex_lt_transitive, lemma_lex_lt_total};

verus! {

broadcast use vstd::seq_lib::to_multiset_build, vstd::seq_lib::to_multiset_insert;

/// One entry directly inside a directory, as the operating system lists it.
pub struct DirEntry {
    pub name: String,
    /// Whether the entry is a regular file (not a directory).
    pub is_file: bool,
}

/// The names of the regular files among `es`, in the order listed.
pub open spec fn file_names(es: Seq<DirEntry>) -> Seq<Seq<char>>
    decreases es.len(),
{
    if es.len() == 0 {
        Seq::empty()
    } else {
        let r = file_names(es.drop_last());
        if es.last().is_file {
            r.push(es.last().name@)
        } else {
            r
        }
    }
}

/// Names in lexicographic order, equal names side by side.
pub open spec fn is_sorted(s: Seq<Seq<char>>) -> bool {
    forall|a: int, b: int| 0 <= a < b < s.len() ==> lex_le(#[trigger] s[a], #[trigger] s[b])
}

/// The names of the regular files of a directory listing, in listing order;
/// directories are left out.
pub fn regular_files(entries: &Vec<DirEntry>) -> (r: Vec<String>)
    ensures
        views(r@) == file_names(entries@),
{
    let mut r: Vec<String> = Vec::new();
    let mut i: usize = 0;
    assert(entries@.take(0) =~= Seq::<DirEntry>::empty());
    assert(views(r@) =~= Seq::<Seq<char>>::empty());
    while i < entries.len()
        invariant
            i <= entries@.len(),
            views(r@) == file_names(entries@.take(i as int)),
        decreases entries@.len() - i,
    {
        let e = &entries[i];
        assert(entries@.take(i + 1).drop_last() =~= entries@.take(i as int));
        assert(entries@.take(i + 1).last() == *e);
        if e.is_file {
            let ghost before = r@;
            r.push(e.name.clone());
            assert(views(r@) =~= views(before).push(e.name@));
        }
        i = i + 1;
    }
    assert(entries@.take(entries@.len() as int) =~= entries@);
    r
}

/// The names in lexicographic (case-sensitive) order: the same names, each
/// as often as given, sorted.
pub fn sorted_names(names: &Vec<String>) -> (r: Vec<String>)
    ensures
        r@.to_multiset() == names@.to_multiset(),
        is_sorted(views(r@)),
{
    let mut r: Vec<String> = Vec::new();
    let mut i: usize = 0;
    assert(names@.take(0) =~= Seq::<String>::empty());
    while i < names.len()
        invariant
            i <= names@.len(),
            r@.to_multiset() == names@.take(i as int).to_multiset(),
            is_sorted(views(r@)),
        decreases names@.len() - i,
    {
        let name = &names[i];
        let mut pos: usize = 0;
        while pos < r.len() && !str_lt(name.as_str(), r[pos].as_str())
            invariant
                pos <= r@.len(),
                forall|k: int| 0 <= k < pos ==> !lex_lt(name@, #[trigger] r@[k]@),
            decreases r@.len() - pos,
        {
            pos = pos + 1;
        }
        let ghost old_r = r@;
        r.insert(pos, name.clone());
        proof {
            assert(names@.take(i + 1) =~= names@.take(i as int).push(names@[i as int]));
            let q = r@;
            assert forall|a: int, b: int| 0 <= a < b < q.len() implies lex_le(
                #[trigger] views(q)[a],
                #[trigger] views(q)[b],
            ) by {
                if b < pos {
                    assert(lex_le(views(old_r)[a], views(old_r)[b]));
                } else if b == pos {
                    lemma_lex_lt_total(old_r[a]@, name@);
                } else if a < pos {
                    assert(lex_le(views(old_r)[a], views(old_r)[b - 1]));
                } else if a == pos {
                    assert(lex_lt(name@, old_r[pos as int]@));
                    if pos < b - 1 {
                        assert(lex_le(views(old_r)[pos as int], views(old_r)[b - 1]));
                        if old_r[pos as int]@ != old_r[b - 1]@ {
                            lemma_lex_lt_transitive(name@, old_r[pos as int]@, old_r[b - 1]@);
                        }
                    }
                } else {
                    assert(lex_le(views(old_r)[a - 1], views(old_r)[b - 1]));
                }
            }
        }
        i = i + 1;
    }
    assert(names@.take(names@.len() as int) =~= names@);
    r
}

} // verus!
