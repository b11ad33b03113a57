//! Assembling a complete result set from a paged endpoint.
//!
//! Two disciplines cover the vendor's endpoints. Under the cursor
//! discipline the response carries an optional continuation URL; the value
//! of its `cursor` query parameter is the sole parameter of the next
//! request, absence of the URL means exhaustion, and a URL without exactly
//! one `cursor` parameter is malformed pagination metadata — a permanent
//! error. Under the timestamp discipline (for endpoints ordered only by a
//! non-unique timestamp) each page records the secondary keys seen at its
//! maximum timestamp; the next request filters from that timestamp and
//! drops any record whose key was recorded, so no record is emitted twice
//! across a page boundary. Exhaustion there is a page shorter than the
//! requested limit. The page fetches themselves stay with the caller: these
//! types only accumulate items and decide the next request.

use vstd::prelude::*;
use vstd::string::StrSliceExecFns;
use crate::error::{FetchError, PermanentCause};

verus! {

/// True when the characters at `i` spell `cursor=`.
pub open spec fn spec_cursor_at(s: Seq<char>, i: int) -> bool {
    &&& 0 <= i
    &&& i + 7 <= s.len()
    &&& s[i] == 'c'
    &&& s[i + 1] == 'u'
    &&& s[i + 2] == 'r'
    &&& s[i + 3] == 's'
    &&& s[i + 4] == 'o'
    &&& s[i + 5] == 'r'
    &&& s[i + 6] == '='
}

/// True when `cursor=` occurs exactly once in the string.
pub open spec fn spec_unique_cursor(s: Seq<char>) -> bool {
    exists|i: int|
        spec_cursor_at(s, i) && (forall|j: int| spec_cursor_at(s, j) ==> j == i)
}

/// The continuation token: everything after the one `cursor=`.
pub open spec fn spec_cursor_value(s: Seq<char>) -> Seq<char>
    recommends
        spec_unique_cursor(s),
{
    let i = choose|i: int| spec_cursor_at(s, i);
    s.subrange(i + 7, s.len() as int)
}

/// Whether `cursor=` is spelled at position `i`.
fn cursor_match_at(s: &str, i: usize) -> (r: bool)
    requires
        i + 7 <= s@.len(),
        i + 7 <= usize::MAX,
    ensures
        r == spec_cursor_at(s@, i as int),
{
    s.get_char(i) == 'c' && s.get_char(i + 1) == 'u' && s.get_char(i + 2) == 'r' && s.get_char(
        i + 3,
    ) == 's' && s.get_char(i + 4) == 'o' && s.get_char(i + 5) == 'r' && s.get_char(i + 6) == '='
}

/// Pulls the continuation token out of a continuation URL: the value of its
/// one `cursor` query parameter. A URL without exactly one `cursor=` is
/// malformed pagination metadata, a permanent error.
pub fn extract_cursor(next_url: &str) -> (r: Result<String, FetchError>)
    ensures
        r is Ok <==> spec_unique_cursor(next_url@),
        r matches Ok(c) ==> c@ == spec_cursor_value(next_url@),
        r is Err ==> r == Err::<String, FetchError>(
            FetchError::Permanent(PermanentCause::MalformedPagination),
        ),
{
    let n = next_url.unicode_len();
    if n < 7 {
        return Err(FetchError::Permanent(PermanentCause::MalformedPagination));
    }
    let mut i: usize = 0;
    let mut found: Option<usize> = None;
    while i <= n - 7
        invariant
            n == next_url@.len(),
            7 <= n,
            i <= n - 7 + 1,
            found is None ==> forall|j: int| 0 <= j < i ==> !spec_cursor_at(next_url@, j),
            found matches Some(p) ==> {
                &&& spec_cursor_at(next_url@, p as int)
                &&& p < i
                &&& forall|j: int| 0 <= j < i && spec_cursor_at(next_url@, j) ==> j == p
            },
        decreases n - i,
    {
        if cursor_match_at(next_url, i) {
            match found {
                Some(_) => {
                    return Err(FetchError::Permanent(PermanentCause::MalformedPagination));
                },
                None => {
                    found = Some(i);
                },
            }
        }
        i = i + 1;
    }
    proof {
        assert(forall|j: int| j > n - 7 ==> !spec_cursor_at(next_url@, j));
    }
    match found {
        None => Err(FetchError::Permanent(PermanentCause::MalformedPagination)),
        Some(p) => {
            let tail = next_url.substring_char(p + 7, n);
            let c = tail.to_owned();
            proof {
                assert(spec_unique_cursor(next_url@));
                let i = choose|i: int| spec_cursor_at(next_url@, i);
                assert(i == p as int);
            }
            Ok(c)
        },
    }
}

/// Accumulates the pages of a cursor-disciplined endpoint in page order and
/// extracts each continuation token.
pub struct CursorPager<T> {
    /// Every item seen so far, in page order.
    pub items: Vec<T>,
}

impl<T> CursorPager<T> {
    /// An empty accumulator.
    pub fn new() -> (r: CursorPager<T>)
        ensures
            r.items@.len() == 0,
    {
        CursorPager { items: Vec::new() }
    }

    /// Takes one page: appends its items, and reads the continuation URL.
    /// No URL means the result set is complete; a URL yields the cursor for
    /// the next request, or the malformed-pagination error. Items are
    /// appended even when the URL is malformed, as the page itself arrived
    /// whole.
    pub fn step(&mut self, page_items: Vec<T>, next_url: Option<&str>) -> (r: Result<
        Option<String>,
        FetchError,
    >)
        ensures
            final(self).items@ == old(self).items@ + page_items@,
            next_url is None ==> r == Ok::<Option<String>, FetchError>(None),
            next_url matches Some(u) ==> {
                &&& (r is Ok <==> spec_unique_cursor(u@))
                &&& (r matches Ok(c) ==> c matches Some(cv) && cv@ == spec_cursor_value(u@))
                &&& (r is Err ==> r == Err::<Option<String>, FetchError>(
                    FetchError::Permanent(PermanentCause::MalformedPagination),
                ))
            },
    {
        let mut incoming = page_items;
        self.items.append(&mut incoming);
        match next_url {
            None => Ok(None),
            Some(u) => {
                match extract_cursor(u) {
                    Ok(c) => Ok(Some(c)),
                    Err(e) => Err(e),
                }
            },
        }
    }
}

/// One record as the timestamp-disciplined paginator sees it: a canonical
/// timestamp, a secondary key (the sequence ID), and the caller's payload.
pub struct Keyed<T> {
    /// The record's timestamp — the endpoint's only ordering key.
    pub ts: i64,
    /// The record's secondary key, unique within one timestamp.
    pub key: u64,
    /// Whatever the caller carries per record.
    pub value: T,
}

/// Whether a vector of keys holds `x`.
fn contains_u64(v: &Vec<u64>, x: u64) -> (r: bool)
    ensures
        r == v@.contains(x),
{
    let mut i: usize = 0;
    while i < v.len()
        invariant
            i <= v@.len(),
            forall|j: int| 0 <= j < i ==> v@[j] != x,
        decreases v.len() - i,
    {
        if v[i] == x {
            return true;
        }
        i = i + 1;
    }
    false
}

/// The records of a page that survive deduplication: those whose key is not
/// among the boundary keys recorded from the previous page.
pub open spec fn spec_kept<T>(page: Seq<Keyed<T>>, boundary: Seq<u64>) -> Seq<Keyed<T>> {
    page.filter(|r: Keyed<T>| !boundary.contains(r.key))
}

/// Accumulates the pages of a timestamp-disciplined endpoint, dropping the
/// records already emitted at the previous page's boundary timestamp.
pub struct DedupPager<T> {
    /// The page size requested from the server; a shorter page means the
    /// result set is exhausted.
    pub limit: usize,
    /// Every record kept so far, in page order.
    pub items: Vec<Keyed<T>>,
    /// The maximum timestamp of the last page: the timestamp filter of the
    /// next request.
    pub boundary_ts: i64,
    /// The keys of the last page's records at that timestamp; the next page
    /// drops records carrying one of them.
    pub boundary_keys: Vec<u64>,
}

impl<T> DedupPager<T> {
    /// A fresh accumulator for pages of up to `limit` records.
    pub fn new(limit: usize) -> (r: DedupPager<T>)
        requires
            limit >= 1,
        ensures
            r.limit == limit,
            r.items@.len() == 0,
            r.boundary_ts == i64::MIN,
            r.boundary_keys@.len() == 0,
    {
        DedupPager { limit, items: Vec::new(), boundary_ts: i64::MIN, boundary_keys: Vec::new() }
    }

    /// Takes one page: drops the records whose key was recorded at the
    /// previous boundary, appends the rest in order, and records the new
    /// boundary — the page's maximum timestamp and the keys seen exactly
    /// there. Returns true when the result set is exhausted: the page was
    /// shorter than the requested limit.
    pub fn step(&mut self, page: Vec<Keyed<T>>) -> (done: bool)
        ensures
            done == (page@.len() < old(self).limit),
            final(self).limit == old(self).limit,
            final(self).items@ == old(self).items@ + spec_kept(page@, old(self).boundary_keys@),
            page@.len() == 0 ==> final(self).boundary_ts == old(self).boundary_ts
                && final(self).boundary_keys@ == old(self).boundary_keys@,
            page@.len() > 0 ==> {
                &&& exists|i: int|
                    0 <= i < page@.len() && (#[trigger] page@[i]).ts == final(self).boundary_ts
                &&& forall|i: int|
                    0 <= i < page@.len() ==> (#[trigger] page@[i]).ts <= final(self).boundary_ts
                &&& forall|k: u64|
                    #[trigger] final(self).boundary_keys@.contains(k) <==> exists|i: int|
                        0 <= i < page@.len() && (#[trigger] page@[i]).ts
                            == final(self).boundary_ts && page@[i].key == k
                &&& final(self).boundary_keys@.no_duplicates()
            },
    {
        let ghost olimit: usize = self.limit;
        let done = page.len() < self.limit;
        let mut new_keys: Vec<u64> = Vec::new();
        let mut have_boundary = false;
        if page.len() > 0 {
            let mut mx: i64 = page[0].ts;
            let mut i: usize = 1;
            while i < page.len()
                invariant
                    1 <= i <= page@.len(),
                    exists|j: int| 0 <= j < i && (#[trigger] page@[j]).ts == mx,
                    forall|j: int| 0 <= j < i ==> (#[trigger] page@[j]).ts <= mx,
                decreases page.len() - i,
            {
                if page[i].ts > mx {
                    mx = page[i].ts;
                }
                i = i + 1;
            }
            let mut i: usize = 0;
            while i < page.len()
                invariant
                    i <= page@.len(),
                    forall|k: u64|
                        #[trigger] new_keys@.contains(k) <==> exists|j: int|
                            0 <= j < i && (#[trigger] page@[j]).ts == mx && page@[j].key == k,
                    new_keys@.no_duplicates(),
                decreases page.len() - i,
            {
                if page[i].ts == mx {
                    let k = page[i].key;
                    if !contains_u64(&new_keys, k) {
                        let ghost before: Seq<u64> = new_keys@;
                        new_keys.push(k);
                        proof {
                            assert(new_keys@ == before.push(k));
                            assert forall|x: u64| #[trigger] before.push(k).contains(x) <==> (
                            before.contains(x) || x == k) by {
                                vstd::seq_lib::lemma_seq_contains_after_push(before, k, x);
                            }
                        }
                    }
                }
                i = i + 1;
            }
            self.boundary_ts = mx;
            have_boundary = true;
        }
        let ghost old_items: Seq<Keyed<T>> = self.items@;
        let ghost orig: Seq<Keyed<T>> = page@;
        let ghost okeys: Seq<u64> = self.boundary_keys@;
        let ghost bts: i64 = self.boundary_ts;
        let mut rem = page;
        let ghost mut i: int = 0;
        proof {
            assert(self.items@ == old_items + spec_kept(orig.take(0), okeys)) by {
                reveal(Seq::filter);
                assert(orig.take(0) =~= Seq::<Keyed<T>>::empty());
                assert(old_items + spec_kept(orig.take(0), okeys) =~= old_items);
            }
        }
        while rem.len() > 0
            invariant
                0 <= i <= orig.len(),
                rem@ =~= orig.skip(i),
                self.limit == olimit,
                self.boundary_ts == bts,
                self.boundary_keys@ == okeys,
                self.items@ == old_items + spec_kept(orig.take(i), okeys),
            decreases rem.len(),
        {
            let x = rem.remove(0);
            proof {
                assert(orig.skip(i).remove(0) =~= orig.skip(i + 1));
                assert(orig.take(i + 1).drop_last() =~= orig.take(i));
                assert(orig.take(i + 1).last() == orig[i]);
                reveal(Seq::filter);
            }
            let keep = !contains_u64(&self.boundary_keys, x.key);
            if keep {
                self.items.push(x);
            }
            proof {
                i = i + 1;
                assert(self.items@ == old_items + spec_kept(orig.take(i), okeys)) by {
                    reveal(Seq::filter);
                }
            }
        }
        proof {
            assert(orig.take(orig.len() as int) =~= orig);
        }
        if have_boundary {
            self.boundary_keys = new_keys;
        }
        done
    }
}

} // verus!
