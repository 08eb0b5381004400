//! The report computations: how often each author name occurs across the
//! loaded books, and the ordering of those tallies. Writers are deduplicated
//! by name in the store, so two books naming the same author count under one
//! entry here.

use vstd::prelude::*;

use crate::models::ExtendedBook;
use crate::models::Writer;
use crate::text::str_eq;

verus! {

/// Which statistics the report screen shows.
#[derive(Debug, Clone, Copy, PartialEq, Eq, Structural)]
pub enum ReportView {
    /// Books per author.
    Authors,
    /// Books per year.
    Years,
    /// The most recently added books.
    Recent,
}

impl Default for ReportView {
    /// The report opens on the author statistics.
    fn default() -> (r: ReportView)
        ensures
            r == ReportView::Authors,
    {
        ReportView::Authors
    }
}

/// How query results are rendered on the command line.
#[derive(Debug, Clone, Copy, PartialEq, Eq, Structural)]
pub enum OutputFormat {
    /// A bordered table.
    Table,
    /// Machine-readable JSON.
    Json,
    /// A short human-readable summary.
    Summary,
}

/// How many of these writers carry the given name.
pub open spec fn occ_in_authors(ws: Seq<Writer>, name: Seq<char>) -> int
    decreases ws.len(),
{
    if ws.len() == 0 {
        0
    } else {
        occ_in_authors(ws.drop_last(), name) + if ws.last().name@ == name {
            1int
        } else {
            0int
        }
    }
}

/// How often the author name occurs across all the books (a book naming the
/// author twice counts twice).
pub open spec fn author_occurrences(books: Seq<ExtendedBook>, name: Seq<char>) -> int
    decreases books.len(),
{
    if books.len() == 0 {
        0
    } else {
        author_occurrences(books.drop_last(), name) + occ_in_authors(books.last().authors@, name)
    }
}

/// The total number of author slots across all the books.
pub open spec fn sum_author_pairs(books: Seq<ExtendedBook>) -> int
    decreases books.len(),
{
    if books.len() == 0 {
        0
    } else {
        sum_author_pairs(books.drop_last()) + books.last().authors@.len()
    }
}

proof fn lemma_occ_nonneg(ws: Seq<Writer>, name: Seq<char>)
    ensures
        0 <= occ_in_authors(ws, name) <= ws.len(),
    decreases ws.len(),
{
    if ws.len() > 0 {
        lemma_occ_nonneg(ws.drop_last(), name);
    }
}

proof fn lemma_occ_prefix_step(ws: Seq<Writer>, name: Seq<char>, i: int)
    requires
        0 <= i < ws.len(),
    ensures
        occ_in_authors(ws.subrange(0, i + 1), name) == occ_in_authors(ws.subrange(0, i), name) + (
        if ws[i].name@ == name {
            1int
        } else {
            0int
        }),
{
    assert(ws.subrange(0, i + 1).drop_last() =~= ws.subrange(0, i));
}

proof fn lemma_author_occ_prefix_step(books: Seq<ExtendedBook>, name: Seq<char>, i: int)
    requires
        0 <= i < books.len(),
    ensures
        author_occurrences(books.subrange(0, i + 1), name) == author_occurrences(
            books.subrange(0, i),
            name,
        ) + occ_in_authors(books[i].authors@, name),
        sum_author_pairs(books.subrange(0, i + 1)) == sum_author_pairs(books.subrange(0, i))
            + books[i].authors@.len(),
{
    assert(books.subrange(0, i + 1).drop_last() =~= books.subrange(0, i));
}

proof fn lemma_sum_pairs_prefix_le(books: Seq<ExtendedBook>, k: int)
    requires
        0 <= k <= books.len(),
    ensures
        sum_author_pairs(books.subrange(0, k)) <= sum_author_pairs(books),
    decreases books.len() - k,
{
    if k == books.len() {
        assert(books.subrange(0, k) =~= books);
    } else {
        lemma_author_occ_prefix_step(books, Seq::<char>::empty(), k);
        lemma_sum_pairs_prefix_le(books, k + 1);
    }
}

/// Whether the total number of author slots fits the machine's word, the
/// precondition of [`author_book_counts`]; callers that cannot know it
/// statically check here first.
pub fn sum_author_pairs_fits(books: &Vec<ExtendedBook>) -> (r: bool)
    ensures
        r == (sum_author_pairs(books@) <= usize::MAX),
{
    let mut acc: usize = 0;
    let mut i: usize = 0;
    proof {
        assert(books@.subrange(0, 0) =~= Seq::<ExtendedBook>::empty());
    }
    while i < books.len()
        invariant
            0 <= i <= books@.len(),
            acc == sum_author_pairs(books@.subrange(0, i as int)),
        decreases books@.len() - i,
    {
        let n = books[i].authors.len();
        proof {
            lemma_author_occ_prefix_step(books@, Seq::<char>::empty(), i as int);
        }
        if acc > usize::MAX - n {
            proof {
                lemma_sum_pairs_prefix_le(books@, i + 1);
            }
            return false;
        }
        acc = acc + n;
        i = i + 1;
    }
    proof {
        assert(books@.subrange(0, books@.len() as int) =~= books@);
    }
    true
}

/// Some tallied entry carries this name.
pub open spec fn covered(entries: Seq<(String, usize)>, name: Seq<char>) -> bool {
    exists|e: int| 0 <= e < entries.len() && entries[e].0@ == name
}

proof fn lemma_covered_extend(a: Seq<(String, usize)>, b: Seq<(String, usize)>, name: Seq<char>)
    requires
        covered(a, name),
        a.len() <= b.len(),
        forall|e: int| 0 <= e < a.len() ==> b[e].0@ == a[e].0@,
    ensures
        covered(b, name),
{
    let e = choose|e: int| 0 <= e < a.len() && a[e].0@ == name;
    assert(b[e].0@ == name);
}

/// The position of `name` among the tallied entries, if it is there.
fn find_entry(entries: &Vec<(String, usize)>, name: &str) -> (r: Option<usize>)
    ensures
        r matches Some(k) ==> k < entries@.len() && entries@[k as int].0@ == name@,
        r is None ==> forall|k: int| 0 <= k < entries@.len() ==> entries@[k].0@ != name@,
{
    let mut k: usize = 0;
    while k < entries.len()
        invariant
            0 <= k <= entries@.len(),
            forall|j: int| 0 <= j < k ==> entries@[j].0@ != name@,
        decreases entries@.len() - k,
    {
        if str_eq(entries[k].0.as_str(), name) {
            return Some(k);
        }
        k = k + 1;
    }
    None
}

/// Tallies how often each author name occurs across the books: one entry
/// per distinct name, carrying its occurrence count, an entry for every
/// name that occurs, and no entry for a name that does not. Two books that
/// name the same author therefore fall under a single entry, and the number
/// of entries is the number of distinct author names.
pub fn author_book_counts(books: &Vec<ExtendedBook>) -> (r: Vec<(String, usize)>)
    requires
        sum_author_pairs(books@) <= usize::MAX,
    ensures
        forall|e: int, f: int| 0 <= e < f < r@.len() ==> r@[e].0@ != r@[f].0@,
        forall|e: int|
            0 <= e < r@.len() ==> r@[e].1 == author_occurrences(books@, r@[e].0@),
        forall|e: int| 0 <= e < r@.len() ==> author_occurrences(books@, r@[e].0@) > 0,
        forall|bi: int, ai: int|
            0 <= bi < books@.len() && 0 <= ai < books@[bi].authors@.len() ==> covered(
                r@,
                #[trigger] books@[bi].authors@[ai].name@,
            ),
{
    let mut entries: Vec<(String, usize)> = Vec::new();
    let ghost all = books@;
    let mut bi: usize = 0;
    let ghost mut pairs: int = 0;
    proof {
        assert(all.subrange(0, 0) =~= Seq::<ExtendedBook>::empty());
    }
    while bi < books.len()
        invariant
            all == books@,
            0 <= bi <= all.len(),
            0 <= pairs,
            pairs == sum_author_pairs(all.subrange(0, bi as int)),
            forall|e: int, f: int|
                0 <= e < f < entries@.len() ==> entries@[e].0@ != entries@[f].0@,
            forall|e: int|
                0 <= e < entries@.len() ==> entries@[e].1 == author_occurrences(
                    all.subrange(0, bi as int),
                    entries@[e].0@,
                ),
            forall|e: int| 0 <= e < entries@.len() ==> 1 <= #[trigger] entries@[e].1 <= pairs,
            sum_author_pairs(all) <= usize::MAX,
            forall|b2: int, a2: int|
                0 <= b2 < bi && 0 <= a2 < all[b2].authors@.len() ==> covered(
                    entries@,
                    #[trigger] all[b2].authors@[a2].name@,
                ),
        decreases all.len() - bi,
    {
        let ghost book_prefix = all.subrange(0, bi as int);
        let authors_len = books[bi].authors.len();
        let ghost authors = all[bi as int].authors@;
        let mut ai: usize = 0;
        let ghost pairs0 = pairs;
        proof {
            assert(authors.subrange(0, 0) =~= Seq::<Writer>::empty());
        }
        while ai < authors_len
            invariant
                all == books@,
                0 <= bi < all.len(),
                authors == all[bi as int].authors@,
                authors_len == authors.len(),
                book_prefix == all.subrange(0, bi as int),
                0 <= ai <= authors_len,
                0 <= pairs0,
                pairs0 == sum_author_pairs(book_prefix),
                pairs == pairs0 + ai,
                forall|e: int, f: int|
                    0 <= e < f < entries@.len() ==> entries@[e].0@ != entries@[f].0@,
                forall|e: int|
                    0 <= e < entries@.len() ==> entries@[e].1 == author_occurrences(
                        book_prefix,
                        entries@[e].0@,
                    ) + occ_in_authors(authors.subrange(0, ai as int), entries@[e].0@),
                forall|e: int| 0 <= e < entries@.len() ==> 1 <= #[trigger] entries@[e].1 <= pairs,
                sum_author_pairs(all) <= usize::MAX,
                forall|b2: int, a2: int|
                    0 <= b2 < bi && 0 <= a2 < all[b2].authors@.len() ==> covered(
                        entries@,
                        #[trigger] all[b2].authors@[a2].name@,
                    ),
                forall|a2: int|
                    0 <= a2 < ai ==> covered(entries@, #[trigger] authors[a2].name@),
            decreases authors_len - ai,
        {
            let name = books[bi].authors[ai].name.clone();
            let ghost n = authors[ai as int].name@;
            proof {
                lemma_occ_prefix_step(authors, n, ai as int);
                lemma_sum_pairs_prefix_le(all, bi as int);
                lemma_author_occ_prefix_step(all, n, bi as int);
                assert(pairs < sum_author_pairs(all) + authors.len());
            }
            let found = find_entry(&entries, name.as_str());
            match found {
                Some(k) => {
                    let ghost old_entries = entries@;
                    proof {
                        lemma_occ_nonneg(authors.subrange(0, ai as int), n);
                        assert(entries@[k as int].1 <= pairs);
                        assert(pairs0 + ai + 1 <= usize::MAX) by {
                            lemma_author_occ_prefix_step(all, n, bi as int);
                            lemma_sum_pairs_prefix_le(all, bi + 1);
                        }
                    }
                    let count = entries[k].1;
                    entries[k] = (name, count + 1);
                    proof {
                        assert(forall|e: int|
                            0 <= e < old_entries.len() ==> entries@[e].0@ == old_entries[e].0@);
                        assert forall|e: int|
                            0 <= e < entries@.len() implies entries@[e].1 == author_occurrences(
                            book_prefix,
                            entries@[e].0@,
                        ) + occ_in_authors(authors.subrange(0, ai + 1), entries@[e].0@) by {
                            lemma_occ_prefix_step(authors, old_entries[e].0@, ai as int);
                            if e != k {
                                assert(entries@[e] == old_entries[e]);
                                assert(old_entries[e].0@ != n);
                            }
                        }
                        assert forall|b2: int, a2: int|
                            0 <= b2 < bi && 0 <= a2 < all[b2].authors@.len() implies covered(
                            entries@,
                            #[trigger] all[b2].authors@[a2].name@,
                        ) by {
                            lemma_covered_extend(old_entries, entries@, all[b2].authors@[a2].name@);
                        }
                        assert forall|a2: int| 0 <= a2 < ai + 1 implies covered(
                            entries@,
                            #[trigger] authors[a2].name@,
                        ) by {
                            if a2 < ai {
                                lemma_covered_extend(old_entries, entries@, authors[a2].name@);
                            } else {
                                assert(entries@[k as int].0@ == n);
                            }
                        }
                    }
                },
                None => {
                    let ghost old_entries = entries@;
                    entries.push((name, 1));
                    proof {
                        lemma_author_occ_prefix_step(all, n, bi as int);
                        assert forall|b2: int, a2: int|
                            0 <= b2 < bi && 0 <= a2 < all[b2].authors@.len() implies covered(
                            entries@,
                            #[trigger] all[b2].authors@[a2].name@,
                        ) by {
                            lemma_covered_extend(old_entries, entries@, all[b2].authors@[a2].name@);
                        }
                        assert forall|a2: int| 0 <= a2 < ai + 1 implies covered(
                            entries@,
                            #[trigger] authors[a2].name@,
                        ) by {
                            if a2 < ai {
                                lemma_covered_extend(old_entries, entries@, authors[a2].name@);
                            } else {
                                assert(entries@[entries@.len() - 1].0@ == n);
                            }
                        }
                        assert forall|e: int|
                            0 <= e < entries@.len() implies entries@[e].1 == author_occurrences(
                            book_prefix,
                            entries@[e].0@,
                        ) + occ_in_authors(authors.subrange(0, ai + 1), entries@[e].0@) by {
                            lemma_occ_prefix_step(authors, entries@[e].0@, ai as int);
                            if e < old_entries.len() {
                                assert(entries@[e] == old_entries[e]);
                                assert(old_entries[e].0@ != n);
                            } else {
                                assert(entries@[e].0@ == n);
                                assert(occ_in_authors(authors.subrange(0, ai as int), n) >= 0) by {
                                    lemma_occ_nonneg(authors.subrange(0, ai as int), n);
                                }
                                assert(author_occurrences(book_prefix, n) + occ_in_authors(
                                    authors.subrange(0, ai as int),
                                    n,
                                ) == 0) by {
                                    if author_occurrences(book_prefix, n) + occ_in_authors(
                                        authors.subrange(0, ai as int),
                                        n,
                                    ) != 0 {
                                        lemma_count_positive_has_entry(
                                            book_prefix,
                                            authors.subrange(0, ai as int),
                                            n,
                                            all,
                                            bi as int,
                                        );
                                    }
                                }
                            }
                        }
                    }
                },
            }
            proof {
                pairs = pairs + 1;
            }
            ai = ai + 1;
        }
        proof {
            assert(authors.subrange(0, authors.len() as int) =~= authors);
            lemma_author_occ_prefix_step(all, Seq::<char>::empty(), bi as int);
            assert forall|e: int|
                0 <= e < entries@.len() implies entries@[e].1 == author_occurrences(
                all.subrange(0, bi + 1),
                entries@[e].0@,
            ) by {
                lemma_author_occ_prefix_step(all, entries@[e].0@, bi as int);
            }
            assert forall|b2: int, a2: int|
                0 <= b2 < bi + 1 && 0 <= a2 < all[b2].authors@.len() implies covered(
                entries@,
                #[trigger] all[b2].authors@[a2].name@,
            ) by {
                if b2 == bi {
                    assert(covered(entries@, authors[a2].name@));
                }
            }
        }
        bi = bi + 1;
    }
    proof {
        assert(all.subrange(0, all.len() as int) =~= all);
    }
    entries
}

/// A name that occurs nowhere in the processed prefix cannot have a positive
/// tally, stated in the contrapositive: a positive tally means some
/// processed slot carries the name. The completeness invariant then gives an
/// entry for it — this lemma is the bridge used when a new name is pushed.
proof fn lemma_count_positive_has_entry(
    book_prefix: Seq<ExtendedBook>,
    author_prefix: Seq<Writer>,
    n: Seq<char>,
    all: Seq<ExtendedBook>,
    bi: int,
)
    requires
        0 <= bi < all.len(),
        book_prefix == all.subrange(0, bi),
        author_prefix == all[bi].authors@.subrange(0, author_prefix.len() as int),
        author_prefix.len() <= all[bi].authors@.len(),
        author_occurrences(book_prefix, n) + occ_in_authors(author_prefix, n) != 0,
    ensures
        (exists|b2: int, a2: int|
            0 <= b2 < bi && 0 <= a2 < all[b2].authors@.len() && all[b2].authors@[a2].name@ == n)
            || (exists|a2: int| 0 <= a2 < author_prefix.len() && all[bi].authors@[a2].name@ == n),
{
    lemma_occ_nonneg(author_prefix, n);
    lemma_author_occ_nonneg(book_prefix, n);
    if occ_in_authors(author_prefix, n) > 0 {
        let a2 = lemma_occ_witness(author_prefix, n);
        assert(all[bi].authors@[a2].name@ == n);
    } else {
        let (b2, a2) = lemma_author_occ_witness(book_prefix, n);
        assert(book_prefix[b2] == all[b2]);
    }
}

proof fn lemma_author_occ_nonneg(books: Seq<ExtendedBook>, n: Seq<char>)
    ensures
        author_occurrences(books, n) >= 0,
    decreases books.len(),
{
    if books.len() > 0 {
        lemma_author_occ_nonneg(books.drop_last(), n);
        lemma_occ_nonneg(books.last().authors@, n);
    }
}

proof fn lemma_occ_witness(ws: Seq<Writer>, n: Seq<char>) -> (a: int)
    requires
        occ_in_authors(ws, n) > 0,
    ensures
        0 <= a < ws.len(),
        ws[a].name@ == n,
    decreases ws.len(),
{
    if ws.last().name@ == n {
        ws.len() - 1
    } else {
        lemma_occ_nonneg(ws.drop_last(), n);
        let a = lemma_occ_witness(ws.drop_last(), n);
        a
    }
}

proof fn lemma_author_occ_witness(books: Seq<ExtendedBook>, n: Seq<char>) -> (r: (int, int))
    requires
        author_occurrences(books, n) > 0,
    ensures
        0 <= r.0 < books.len(),
        0 <= r.1 < books[r.0].authors@.len(),
        books[r.0].authors@[r.1].name@ == n,
    decreases books.len(),
{
    lemma_author_occ_nonneg(books.drop_last(), n);
    lemma_occ_nonneg(books.last().authors@, n);
    if occ_in_authors(books.last().authors@, n) > 0 {
        let a = lemma_occ_witness(books.last().authors@, n);
        (books.len() - 1, a)
    } else {
        let r = lemma_author_occ_witness(books.drop_last(), n);
        assert(books.drop_last()[r.0] == books[r.0]);
        r
    }
}

/// Entries in weakly descending order of their counts.
pub open spec fn sorted_by_count_desc(s: Seq<(String, usize)>) -> bool {
    forall|i: int, j: int| 0 <= i < j < s.len() ==> s[i].1 >= s[j].1
}

/// Sorts tally entries by descending count; the entries themselves are kept
/// (the result is a permutation of the input).
pub fn sort_by_count_desc(entries: Vec<(String, usize)>) -> (r: Vec<(String, usize)>)
    ensures
        sorted_by_count_desc(r@),
        r@.to_multiset() == entries@.to_multiset(),
{
    broadcast use vstd::seq_lib::group_to_multiset_ensures;

    let ghost original = entries@;
    let mut rest = entries;
    let mut out: Vec<(String, usize)> = Vec::new();
    while rest.len() > 0
        invariant
            out@.to_multiset().add(rest@.to_multiset()) == original.to_multiset(),
            sorted_by_count_desc(out@),
            forall|i: int, j: int|
                0 <= i < out@.len() && 0 <= j < rest@.len() ==> out@[i].1 >= rest@[j].1,
        decreases rest@.len(),
    {
        let mut best: usize = 0;
        let mut k: usize = 1;
        while k < rest.len()
            invariant
                rest@.len() > 0,
                0 <= best < rest@.len(),
                best < k,
                1 <= k <= rest@.len(),
                forall|j: int| 0 <= j < k ==> rest@[best as int].1 >= rest@[j].1,
            decreases rest@.len() - k,
        {
            if rest[k].1 > rest[best].1 {
                best = k;
            }
            k = k + 1;
        }
        let ghost old_out = out@;
        let ghost old_rest = rest@;
        let picked = rest.remove(best);
        out.push(picked);
        proof {
            broadcast use vstd::seq_lib::group_to_multiset_ensures;
            broadcast use vstd::multiset::group_multiset_axioms;

            assert(rest@ == old_rest.remove(best as int));
            assert(old_rest.remove(best as int).to_multiset() == old_rest.to_multiset().remove(
                old_rest[best as int],
            ));
            assert(out@ == old_out.push(picked));
            assert(old_out.push(picked).to_multiset() == old_out.to_multiset().insert(picked));
            assert(old_rest.to_multiset().count(picked) > 0) by {
                assert(old_rest.contains(picked));
            }
            assert(out@.to_multiset().add(rest@.to_multiset()) =~= original.to_multiset());
            assert forall|i: int, j: int|
                0 <= i < out@.len() && 0 <= j < rest@.len() implies out@[i].1 >= rest@[j].1 by {
                if i < old_out.len() {
                    if j < best {
                        assert(rest@[j] == old_rest[j]);
                    } else {
                        assert(rest@[j] == old_rest[j + 1]);
                    }
                } else {
                    assert(out@[i] == old_rest[best as int]);
                    if j < best {
                        assert(rest@[j] == old_rest[j]);
                    } else {
                        assert(rest@[j] == old_rest[j + 1]);
                    }
                }
            }
        }
    }
    out
}

} // verus!
