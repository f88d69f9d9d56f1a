//! Splitting a path into the stem and extension of its file name.
//!
//! The compile invoker filters on the extension and names the produced
//! artifact after the stem, so both are defined here once, as spec functions,
//! and computed by a verified splitter.
use vstd::prelude::*;

verus! {

/// Index of the last occurrence of `c` in `s`, or -1 when `c` does not occur.
pub open spec fn last_index_of(s: Seq<char>, c: char) -> int
    decreases s.len(),
{
    if s.len() == 0 {
        -1
    } else if s[s.len() - 1] == c {
        s.len() - 1
    } else {
        last_index_of(s.drop_last(), c)
    }
}

/// `last_index_of` finds an occurrence, and nothing follows it.
pub proof fn lemma_last_index_of(s: Seq<char>, c: char)
    ensures
        -1 <= last_index_of(s, c) < s.len(),
        last_index_of(s, c) >= 0 ==> s[last_index_of(s, c)] == c,
        forall|j: int| last_index_of(s, c) < j < s.len() ==> s[j] != c,
    decreases s.len(),
{
    if s.len() == 0 {
    } else if s[s.len() - 1] == c {
    } else {
        lemma_last_index_of(s.drop_last(), c);
        assert(forall|j: int| 0 <= j < s.len() - 1 ==> s.drop_last()[j] == s[j]);
    }
}

/// The file name of a path: what follows the last separator, or the whole
/// path when it has none.
pub open spec fn file_name_of(p: Seq<char>) -> Seq<char> {
    p.subrange(last_index_of(p, '/') + 1, p.len() as int)
}

/// The extension of a path: what follows the last dot of its file name. A
/// name without a dot has none, and so does a name whose only dot starts it
/// (a hidden file is not an extension).
pub open spec fn extension_of(p: Seq<char>) -> Option<Seq<char>> {
    let name = file_name_of(p);
    let d = last_index_of(name, '.');
    if d > 0 {
        Some(name.subrange(d + 1, name.len() as int))
    } else {
        None
    }
}

/// The stem of a path's file name: the name with its extension and the dot
/// stripped, or the whole name when there is no extension.
pub open spec fn stem_of(p: Seq<char>) -> Seq<char> {
    let name = file_name_of(p);
    let d = last_index_of(name, '.');
    if d > 0 {
        name.subrange(0, d)
    } else {
        name
    }
}

/// Stripping the extension loses only the extension: for a path that has
/// one, the file name is exactly the stem, a dot, and the extension.
pub proof fn lemma_output_strips_extension(p: Seq<char>)
    requires
        extension_of(p) is Some,
    ensures
        file_name_of(p) == stem_of(p) + seq!['.'] + extension_of(p)->Some_0,
        stem_of(p).len() > 0,
{
    let name = file_name_of(p);
    let d = last_index_of(name, '.');
    lemma_last_index_of(name, '.');
    assert(name =~= stem_of(p) + seq!['.'] + extension_of(p)->Some_0);
}

/// Index of the last occurrence of `c` in `s`.
fn find_last(s: &str, c: char) -> (r: Option<usize>)
    ensures
        match r {
            Some(i) => i == last_index_of(s@, c) && i < s@.len(),
            None => last_index_of(s@, c) == -1,
        },
{
    let len = s.unicode_len();
    let mut best: Option<usize> = None;
    let mut k: usize = 0;
    while k < len
        invariant
            k <= len,
            len == s@.len(),
            match best {
                Some(i) => i == last_index_of(s@.subrange(0, k as int), c) && i < k,
                None => last_index_of(s@.subrange(0, k as int), c) == -1,
            },
        decreases len - k,
    {
        let ch = s.get_char(k);
        proof {
            let pre = s@.subrange(0, k as int);
            let post = s@.subrange(0, k + 1 as int);
            assert(post.drop_last() =~= pre);
            assert(post[post.len() - 1] == s@[k as int]);
        }
        if ch == c {
            best = Some(k);
        }
        k = k + 1;
    }
    proof {
        assert(s@.subrange(0, len as int) =~= s@);
    }
    best
}

/// Split a path into the stem and, where it has one, the extension of its
/// file name.
pub fn split_path(p: &str) -> (r: (String, Option<String>))
    ensures
        r.0@ == stem_of(p@),
        match r.1 {
            Some(e) => extension_of(p@) == Some(e@),
            None => extension_of(p@) is None,
        },
{
    let len = p.unicode_len();
    let name_start: usize = match find_last(p, '/') {
        Some(i) => {
            proof {
                lemma_last_index_of(p@, '/');
            }
            i + 1
        },
        None => 0,
    };
    let name: &str = p.substring_char(name_start, len);
    proof {
        assert(name@ == file_name_of(p@));
    }
    let nlen = name.unicode_len();
    match find_last(name, '.') {
        Some(d) => {
            if d > 0 {
                let stem = name.substring_char(0, d);
                let ext = name.substring_char(d + 1, nlen);
                (stem.to_owned(), Some(ext.to_owned()))
            } else {
                (name.to_owned(), None)
            }
        },
        None => (name.to_owned(), None),
    }
}

} // verus!
