//! Names of task functions, taken from their type names.

use vstd::prelude::*;

use crate::text::{find, find_from, find_str, lemma_find_from};

verus! {

/// The last piece of `s.skip(start)` when split at `p`, as
/// `str::split(p).last()` gives it: splitting goes left to right and the
/// pieces do not overlap.
pub open spec fn last_piece_from(s: Seq<char>, p: Seq<char>, start: int) -> Seq<char>
    decreases s.len() - start,
{
    if p.len() == 0 || start < 0 || start > s.len() {
        s.skip(start)
    } else {
        match find_from(s, p, start) {
            Some(i) => if i >= start && i + p.len() <= s.len() {
                last_piece_from(s, p, i + p.len())
            } else {
                s.skip(start)
            },
            None => s.skip(start),
        }
    }
}

/// The short name of a function from its type name: the text before the
/// first `<` (generic arguments are dropped), then its last `::`-separated
/// piece.
pub open spec fn short_function_name(full_name: Seq<char>) -> Seq<char> {
    let base = match find(full_name, "<"@) {
        Some(i) => full_name.take(i),
        None => full_name,
    };
    last_piece_from(base, "::"@, 0)
}

/// The short name of a function from its type name (see
/// [`short_function_name`]).
pub fn function_name_from_type_name(full_name: &str) -> (r: &str)
    ensures
        r@ == short_function_name(full_name@),
{
    proof {
        reveal_strlit("<");
        reveal_strlit("::");
        lemma_find_from(full_name@, "<"@, 0);
    }
    let total = full_name.unicode_len();
    let base = match find_str(full_name, "<") {
        Some(i) => full_name.substring_char(0, i),
        None => full_name,
    };
    proof {
        if find(full_name@, "<"@) is Some {
            let i = find(full_name@, "<"@)->0;
            assert(0 <= i <= total);
            assert(base@ =~= full_name@.take(i));
        }
    }
    assert(short_function_name(full_name@) == last_piece_from(base@, "::"@, 0));
    let n = base.unicode_len();
    let mut start: usize = 0;
    loop
        invariant
            start <= n,
            n == base@.len(),
            "::"@.len() == 2,
            short_function_name(full_name@) == last_piece_from(base@, "::"@, 0),
            last_piece_from(base@, "::"@, 0) == last_piece_from(base@, "::"@, start as int),
        decreases n - start,
    {
        let rest = base.substring_char(start, n);
        proof {
            lemma_find_from(base@, "::"@, start as int);
            lemma_find_shift(base@, "::"@, start as int);
        }
        match find_str(rest, "::") {
            Some(k) => {
                proof {
                    lemma_find_from(rest@, "::"@, 0);
                }
                start = start + k + 2;
            },
            None => {
                assert(rest@ =~= base@.skip(start as int));
                return rest;
            },
        }
    }
}

proof fn lemma_occurs_shift(s: Seq<char>, p: Seq<char>, start: int, j: int)
    requires
        0 <= start <= s.len(),
        0 <= j,
    ensures
        crate::text::occurs_at(s, p, start + j) == crate::text::occurs_at(s.skip(start), p, j),
{
    if j + p.len() <= s.len() - start {
        assert(s.subrange(start + j, start + j + p.len()) =~= s.skip(start).subrange(
            j,
            j + p.len(),
        ));
    }
}

/// Searching the suffix from its start is searching the whole from `start`.
proof fn lemma_find_shift(s: Seq<char>, p: Seq<char>, start: int)
    requires
        0 <= start <= s.len(),
    ensures
        match find(s.skip(start), p) {
            Some(k) => find_from(s, p, start) == Some(start + k),
            None => find_from(s, p, start) is None,
        },
{
    let t = s.skip(start);
    lemma_find_from(t, p, 0);
    lemma_find_from(s, p, start);
    match find(t, p) {
        Some(k) => {
            lemma_occurs_shift(s, p, start, k);
            if find_from(s, p, start) is Some {
                let m = find_from(s, p, start)->0;
                lemma_occurs_shift(s, p, start, m - start);
            }
        },
        None => {
            if find_from(s, p, start) is Some {
                let m = find_from(s, p, start)->0;
                lemma_occurs_shift(s, p, start, m - start);
            }
        },
    }
}


/// Where the last piece starts: past the last separator found from `start`
/// on, with no separator after it.
proof fn lemma_last_piece_start(s: Seq<char>, p: Seq<char>, start: int) -> (k: int)
    requires
        p.len() > 0,
        0 <= start <= s.len(),
    ensures
        start <= k <= s.len(),
        last_piece_from(s, p, start) == s.skip(k),
        find_from(s, p, k) is None,
    decreases s.len() - start,
{
    lemma_find_from(s, p, start);
    match find_from(s, p, start) {
        Some(i) => {
            assert(start <= i && i + p.len() <= s.len());
            lemma_last_piece_start(s, p, i + p.len())
        },
        None => start,
    }
}

/// A function's short name is the last `::`-separated segment of its type
/// name without generic arguments: it holds no `::` and no `<`.
pub proof fn lemma_short_name_is_last_segment(full_name: Seq<char>)
    ensures
        find(short_function_name(full_name), "::"@) is None,
        forall|i: int|
            0 <= i < short_function_name(full_name).len() ==> #[trigger] short_function_name(
                full_name,
            )[i] != '<',
{
    reveal_strlit("<");
    reveal_strlit("::");
    lemma_find_from(full_name, "<"@, 0);
    let base = match find(full_name, "<"@) {
        Some(i) => full_name.take(i),
        None => full_name,
    };
    assert("<"@ =~= seq!['<']);
    assert forall|j: int| 0 <= j < base.len() implies base[j] != '<' by {
        assert(base[j] == full_name[j]);
        assert(!crate::text::occurs_at(full_name, "<"@, j));
        assert(full_name.subrange(j, j + 1) =~= seq![full_name[j]]);
    }
    let k = lemma_last_piece_start(base, "::"@, 0);
    let r = base.skip(k);
    assert(r == short_function_name(full_name));
    lemma_find_shift(base, "::"@, k);
    assert forall|i: int| 0 <= i < r.len() implies #[trigger] r[i] != '<' by {
        assert(r[i] == base[k + i]);
    }
}

} // verus!
