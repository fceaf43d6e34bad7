use vstd::prelude::*;

use crate::helsafe::rows_of;
use crate::password::{RowView, StoredPassword};
use vstd::string::StrSliceExecFns;

verus! {

/// Whether `needle` occurs contiguously inside `hay`. The empty needle
/// occurs in everything.
pub open spec fn is_substring(needle: Seq<char>, hay: Seq<char>) -> bool {
    exists|k: int| 0 <= k <= hay.len() - needle.len()
        && #[trigger] hay.subrange(k, k + needle.len()) == needle
}

/// Whether the characters of `hay` starting at `k` spell `needle`.
fn match_at(hay: &str, needle: &str, k: usize) -> (r: bool)
    requires
        k + needle@.len() <= hay@.len(),
        hay@.len() <= usize::MAX,
    ensures
        r == (hay@.subrange(k as int, k + needle@.len()) == needle@),
{
    let m = needle.unicode_len();
    let ghost sub = hay@.subrange(k as int, k + needle@.len());
    let mut j: usize = 0;
    while j < m
        invariant
            m == needle@.len(),
            k + m <= hay@.len(),
            hay@.len() <= usize::MAX,
            j <= m,
            sub == hay@.subrange(k as int, k + m as int),
            forall|x: int| 0 <= x < j ==> hay@[k + x] == needle@[x],
        decreases m - j,
    {
        if hay.get_char(k + j) != needle.get_char(j) {
            proof {
                assert(sub[j as int] == hay@[k + j]);
            }
            return false;
        }
        j += 1;
    }
    proof {
        assert(sub =~= needle@);
    }
    true
}

/// Whether `needle` occurs contiguously inside `hay`, exactly as
/// `is_substring` says.
pub fn str_contains(hay: &str, needle: &str) -> (r: bool)
    ensures
        r == is_substring(needle@, hay@),
{
    let n = hay.unicode_len();
    let m = needle.unicode_len();
    if m > n {
        return false;
    }
    if m == 0 {
        proof {
            assert(hay@.subrange(0, 0 + needle@.len() as int) =~= needle@);
        }
        return true;
    }
    let mut k: usize = 0;
    while k <= n - m
        invariant
            n == hay@.len(),
            m == needle@.len(),
            1 <= m <= n,
            k <= n - m + 1,
            forall|t: int| 0 <= t < k ==> #[trigger] hay@.subrange(t, t + m as int) != needle@,
        decreases n - m - k + 1,
    {
        if match_at(hay, needle, k) {
            return true;
        }
        k += 1;
    }
    false
}

/// Whether a record answers the query: the query occurs in its title, its
/// username or its email.
pub open spec fn record_matches(rv: RowView, query: Seq<char>) -> bool {
    ||| is_substring(query, rv.entry.title)
    ||| is_substring(query, rv.entry.username)
    ||| is_substring(query, rv.entry.email)
}

/// `record_matches` with the query fixed, for filtering.
pub open spec fn match_pred(query: Seq<char>) -> spec_fn(RowView) -> bool {
    |rv: RowView| record_matches(rv, query)
}

fn entry_matches(p: &StoredPassword, query: &str) -> (r: bool)
    ensures
        r == record_matches(p@, query@),
{
    str_contains(p.entry.title.as_str(), query)
        || str_contains(p.entry.username.as_str(), query)
        || str_contains(p.entry.email.as_str(), query)
}

/// The records that answer the query, in their given order: the list
/// filtered by `record_matches` against title, username and email. Reads
/// only; the store is untouched.
pub fn search_records(records: &Vec<StoredPassword>, query: &str) -> (r: Vec<StoredPassword>)
    ensures
        rows_of(r@) == rows_of(records@).filter(match_pred(query@)),
{
    let ghost all = rows_of(records@);
    let ghost pred = match_pred(query@);
    let mut out: Vec<StoredPassword> = Vec::new();
    proof {
        assert(rows_of(out@) =~= all.take(0).filter(pred));
    }
    let mut i: usize = 0;
    while i < records.len()
        invariant
            i <= records@.len(),
            all == rows_of(records@),
            pred == match_pred(query@),
            rows_of(out@) == all.take(i as int).filter(pred),
        decreases records@.len() - i,
    {
        let p = &records[i];
        let matched = entry_matches(p, query);
        if matched {
            let copied = p.duplicate();
            proof {
                crate::helsafe::lemma_rows_of_push(out@, copied);
            }
            out.push(copied);
        }
        proof {
            reveal_with_fuel(Seq::<_>::filter, 2);
            let prev = all.take(i as int);
            let cur = all.take(i + 1);
            assert(all.len() == records@.len());
            assert(cur.len() == i + 1);
            assert(cur.drop_last() =~= prev);
            assert(cur.last() == p@);
            assert(pred(p@) == record_matches(p@, query@));
            assert(cur.filter(pred) == (if pred(cur.last()) {
                cur.drop_last().filter(pred).push(cur.last())
            } else {
                cur.drop_last().filter(pred)
            }));
        }
        i += 1;
    }
    proof {
        assert(all.take(records@.len() as int) =~= all);
    }
    out
}

} // verus!
