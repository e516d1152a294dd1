//! The Corpus Enumerator: turns a raw cache listing into the ordered work
//! list one run walks.
//!
//! Entries that fail to parse are dropped, never fatal. The surviving
//! identifiers are sorted ascending by their canonical `name-version`
//! string, with duplicates collapsed, so re-runs over the same snapshot
//! process packages in the same order and external bookkeeping (skip
//! counts, "every Nth item" triggers) stays reproducible.

use vstd::prelude::*;

use crate::ident::{parse_filename, parsed_name, parsed_version, valid_archive_name, wf_id,
    PackageId};
use crate::text::{lemma_lex_lt_asymmetric, lemma_lex_lt_total, lemma_lex_lt_transitive, lex_lt,
    str_lt};

verus! {

/// The corpus is strictly ascending by canonical string: every pair of
/// positions is ordered, so the order is total, deterministic, and free of
/// duplicates.
pub open spec fn strictly_sorted(s: Seq<PackageId>) -> bool {
    forall|i: int, j: int| 0 <= i < j < s.len() ==> lex_lt(s[i].canon(), s[j].canon())
}

/// Some identifier in `s` has exactly this name and version.
pub open spec fn has_id(s: Seq<PackageId>, n: Seq<char>, v: Seq<char>) -> bool {
    exists|k: int| 0 <= k < s.len() && (#[trigger] s[k]).name@ == n && s[k].version@ == v
}

/// Some listed filename is a valid archive name that parses to exactly this
/// name and version.
pub open spec fn parsed_in(files: Seq<String>, n: Seq<char>, v: Seq<char>) -> bool {
    exists|t: int|
        0 <= t < files.len() && valid_archive_name((#[trigger] files[t])@) && parsed_name(
            files[t]@,
        ) == n && parsed_version(files[t]@) == v
}

/// Inserts `id` at its sorted position, unless an identifier with the same
/// name and version is already present; the list stays strictly sorted
/// either way.
fn insert_id(corpus: &mut Vec<PackageId>, id: PackageId)
    requires
        strictly_sorted(old(corpus)@),
        forall|k: int| 0 <= k < old(corpus)@.len() ==> wf_id(#[trigger] old(corpus)@[k]),
        wf_id(id),
    ensures
        strictly_sorted(final(corpus)@),
        forall|k: int| 0 <= k < final(corpus)@.len() ==> wf_id(#[trigger] final(corpus)@[k]),
        forall|n: Seq<char>, v: Seq<char>|
            has_id(final(corpus)@, n, v) <==> has_id(old(corpus)@, n, v) || (n == id.name@ && v
                == id.version@),
{
    let key = id.canonical();
    let len = corpus.len();
    let mut p: usize = 0;
    #[verifier::loop_isolation(false)]
    while p < len && str_lt(corpus[p].canonical().as_str(), key.as_str())
        invariant
            0 <= p <= len,
            forall|k: int| 0 <= k < p ==> lex_lt((#[trigger] corpus@[k]).canon(), id.canon()),
        decreases len - p,
    {
        p = p + 1;
    }
    if p < len {
        let there = corpus[p].canonical();
        if !str_lt(key.as_str(), there.as_str()) {
            // Neither order holds, so the canonical strings are equal; by
            // well-formedness the identifiers are the same, and a second
            // copy is not inserted.
            proof {
                lemma_lex_lt_total(id.canon(), corpus@[p as int].canon());
                crate::ident::lemma_canon_injective(id, corpus@[p as int]);
            }
            return ;
        }
    }
    corpus.insert(p, id);
    proof {
        let s = corpus@;
        let olds = old(corpus)@;
        assert forall|i: int, j: int| 0 <= i < j < s.len() implies lex_lt(
            s[i].canon(),
            s[j].canon(),
        ) by {
            if j == p {
                // s[i] is an element scanned past: it precedes id.
            } else if i == p {
                // id precedes s[j]: directly for the element at the stop
                // position, through it for everything after.
                if j > p + 1 {
                    lemma_lex_lt_transitive(id.canon(), olds[p as int].canon(), s[j].canon());
                }
            }
        }
        assert forall|n: Seq<char>, v: Seq<char>|
            has_id(s, n, v) <==> has_id(olds, n, v) || (n == id.name@ && v == id.version@) by {
            if has_id(s, n, v) {
                let k = choose|k: int|
                    0 <= k < s.len() && (#[trigger] s[k]).name@ == n && s[k].version@ == v;
                if k < p {
                    assert(olds[k].name@ == n && olds[k].version@ == v);
                } else if k > p {
                    assert(olds[k - 1].name@ == n && olds[k - 1].version@ == v);
                }
            }
            if has_id(olds, n, v) {
                let k = choose|k: int|
                    0 <= k < olds.len() && (#[trigger] olds[k]).name@ == n && olds[k].version@
                        == v;
                if k < p {
                    assert(s[k].name@ == n && s[k].version@ == v);
                } else {
                    assert(s[k + 1].name@ == n && s[k + 1].version@ == v);
                }
            }
            if n == id.name@ && v == id.version@ {
                assert(s[p as int].name@ == n && s[p as int].version@ == v);
            }
        }
    }
}

/// Builds the ordered corpus from a raw directory listing: parses every
/// entry, silently drops the ones that are not valid archive names, sorts
/// the survivors ascending by canonical `name-version` string, and keeps
/// each identifier once. The result holds exactly the identifiers parsed
/// from the listing, in one deterministic order.
pub fn build_corpus(filenames: &Vec<String>) -> (r: Vec<PackageId>)
    ensures
        strictly_sorted(r@),
        forall|k: int| 0 <= k < r@.len() ==> wf_id(#[trigger] r@[k]),
        forall|n: Seq<char>, v: Seq<char>| has_id(r@, n, v) <==> parsed_in(filenames@, n, v),
{
    let mut corpus: Vec<PackageId> = Vec::new();
    let total = filenames.len();
    let mut t: usize = 0;
    #[verifier::loop_isolation(false)]
    while t < total
        invariant
            0 <= t <= total,
            strictly_sorted(corpus@),
            forall|k: int| 0 <= k < corpus@.len() ==> wf_id(#[trigger] corpus@[k]),
            forall|n: Seq<char>, v: Seq<char>|
                has_id(corpus@, n, v) <==> parsed_in(filenames@.take(t as int), n, v),
        decreases total - t,
    {
        let ghost pre = filenames@.take(t as int);
        let ghost post = filenames@.take(t + 1 as int);
        match parse_filename(filenames[t].as_str()) {
            Ok(id) => {
                let ghost idn = id.name@;
                let ghost idv = id.version@;
                insert_id(&mut corpus, id);
                proof {
                    assert forall|n: Seq<char>, v: Seq<char>|
                        has_id(corpus@, n, v) <==> parsed_in(post, n, v) by {
                        if has_id(corpus@, n, v) {
                            if parsed_in(pre, n, v) {
                                let w = choose|w: int|
                                    0 <= w < pre.len() && valid_archive_name(
                                        (#[trigger] pre[w])@,
                                    ) && parsed_name(pre[w]@) == n && parsed_version(pre[w]@)
                                        == v;
                                assert(valid_archive_name(post[w]@));
                            } else {
                                assert(n == idn && v == idv);
                                assert(valid_archive_name(post[t as int]@));
                            }
                        }
                        if parsed_in(post, n, v) {
                            let w = choose|w: int|
                                0 <= w < post.len() && valid_archive_name(
                                    (#[trigger] post[w])@,
                                ) && parsed_name(post[w]@) == n && parsed_version(post[w]@) == v;
                            if w < t {
                                assert(valid_archive_name(pre[w]@));
                                assert(parsed_in(pre, n, v));
                            } else {
                                assert(n == idn && v == idv);
                            }
                        }
                    }
                }
            },
            Err(_) => {
                proof {
                    assert forall|n: Seq<char>, v: Seq<char>|
                        parsed_in(post, n, v) <==> parsed_in(pre, n, v) by {
                        if parsed_in(post, n, v) {
                            let w = choose|w: int|
                                0 <= w < post.len() && valid_archive_name(
                                    (#[trigger] post[w])@,
                                ) && parsed_name(post[w]@) == n && parsed_version(post[w]@) == v;
                            if w < t {
                                assert(valid_archive_name(pre[w]@));
                            } else {
                                assert(!valid_archive_name(filenames@[t as int]@));
                            }
                        }
                        if parsed_in(pre, n, v) {
                            let w = choose|w: int|
                                0 <= w < pre.len() && valid_archive_name(
                                    (#[trigger] pre[w])@,
                                ) && parsed_name(pre[w]@) == n && parsed_version(pre[w]@) == v;
                            assert(valid_archive_name(post[w]@));
                        }
                    }
                }
            },
        }
        t = t + 1;
    }
    proof {
        assert(filenames@.take(total as int) =~= filenames@);
    }
    corpus
}

/// The corpus holds no duplicate identifiers: strict sortedness by
/// canonical string rules out two entries with the same name and version.
pub proof fn lemma_corpus_unique(s: Seq<PackageId>)
    requires
        strictly_sorted(s),
        forall|k: int| 0 <= k < s.len() ==> wf_id(#[trigger] s[k]),
    ensures
        forall|i: int, j: int|
            0 <= i < j < s.len() ==> !((#[trigger] s[i]).name@ == (#[trigger] s[j]).name@
                && s[i].version@ == s[j].version@),
{
    assert forall|i: int, j: int| 0 <= i < j < s.len() implies !((#[trigger] s[i]).name@ == (
    #[trigger] s[j]).name@ && s[i].version@ == s[j].version@) by {
        if s[i].name@ == s[j].name@ && s[i].version@ == s[j].version@ {
            assert(s[i].canon() == s[j].canon());
            lemma_lex_lt_asymmetric(s[i].canon(), s[j].canon());
        }
    }
}

} // verus!
