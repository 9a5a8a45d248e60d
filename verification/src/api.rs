//! The catalog model and the matcher that locates the tracked thread.

use vstd::prelude::*;
use crate::data;
use crate::response::APIPage;
use crate::response::APIThread;

verus! {

/// A catalog: ordered pages, each listing thread summaries in bump order.
pub struct Catalog(pub Vec<Page>);

/// One page of the catalog.
pub struct Page {
    pub page: i32,
    pub threads: Vec<Thread>,
}

/// The catalog's summary of one thread.
pub struct Thread {
    pub no: i32,
    pub sub: String,
    pub bumplimit: bool,
}

/// `needle` occurs in `hay` starting at position `i`.
pub open spec fn matches_at(hay: Seq<char>, needle: Seq<char>, i: int) -> bool {
    0 <= i && i + needle.len() <= hay.len() && hay.subrange(i, i + needle.len() as int) == needle
}

/// `needle` occurs somewhere in `hay` as a contiguous run of characters.
pub open spec fn contains_seq(hay: Seq<char>, needle: Seq<char>) -> bool {
    exists|i: int| matches_at(hay, needle, i)
}

/// Thread `j` of page `i` (both 0-based) carries `title` in its subject.
pub open spec fn thread_matches(c: Catalog, title: Seq<char>, i: int, j: int) -> bool {
    &&& 0 <= i < c.0@.len()
    &&& 0 <= j < c.0@[i].threads@.len()
    &&& contains_seq(c.0@[i].threads@[j].sub@, title)
}

/// Some thread anywhere in the catalog carries `title` in its subject.
pub open spec fn some_match(c: Catalog, title: Seq<char>) -> bool {
    exists|i: int, j: int| thread_matches(c, title, i, j)
}

/// Thread `j` of page `i` is the first match in traversal order: pages in
/// catalog order, threads in bump order within each page.
pub open spec fn first_match(c: Catalog, title: Seq<char>, i: int, j: int) -> bool {
    &&& thread_matches(c, title, i, j)
    &&& forall|i2: int, j2: int|
        thread_matches(c, title, i2, j2) ==> i2 > i || (i2 == i && j2 >= j)
}

/// The observation built from thread `j` of page `i`, captured at `now_ms`:
/// a 1-based on-page rank and the total thread count of that page.
pub open spec fn observation_of(c: Catalog, i: int, j: int, now_ms: i64) -> data::Thread {
    data::Thread {
        page: c.0@[i].page,
        no: c.0@[i].threads@[j].no,
        sub: c.0@[i].threads@[j].sub,
        time: now_ms,
        position: (j + 1) as i32,
        page_length: c.0@[i].threads@.len() as i32,
        bumplimit: c.0@[i].threads@[j].bumplimit,
    }
}

/// The catalog's view of one decoded document thread summary.
pub open spec fn thread_of_api(t: APIThread) -> Thread {
    Thread { no: t.no, sub: t.sub, bumplimit: t.bumplimit }
}

impl Catalog {
    /// Assemble a catalog from the decoded document pages, keeping every
    /// page and every thread in document order.
    pub fn from_pages(pages: Vec<APIPage>) -> (c: Catalog)
        ensures
            c.0@.len() == pages@.len(),
            forall|i: int| 0 <= i < pages@.len() ==> #[trigger] c.0@[i].page == pages@[i].page,
            forall|i: int|
                0 <= i < pages@.len() ==> #[trigger] c.0@[i].threads@.len()
                    == pages@[i].threads@.len(),
            forall|i: int, j: int|
                0 <= i < pages@.len() && 0 <= j < pages@[i].threads@.len()
                    ==> #[trigger] c.0@[i].threads@[j] == thread_of_api(pages@[i].threads@[j]),
    {
        let mut out: Vec<Page> = Vec::new();
        let mut i: usize = 0;
        while i < pages.len()
            invariant
                0 <= i <= pages@.len(),
                out@.len() == i,
                forall|k: int| 0 <= k < i ==> #[trigger] out@[k].page == pages@[k].page,
                forall|k: int|
                    0 <= k < i ==> #[trigger] out@[k].threads@.len()
                        == pages@[k].threads@.len(),
                forall|k: int, j: int|
                    0 <= k < i && 0 <= j < pages@[k].threads@.len()
                        ==> #[trigger] out@[k].threads@[j] == thread_of_api(
                        pages@[k].threads@[j],
                    ),
            decreases pages@.len() - i,
        {
            let src_page = &pages[i];
            let mut threads: Vec<Thread> = Vec::new();
            let mut j: usize = 0;
            while j < src_page.threads.len()
                invariant
                    0 <= i < pages@.len(),
                    *src_page == pages@[i as int],
                    0 <= j <= src_page.threads@.len(),
                    threads@.len() == j,
                    forall|l: int|
                        0 <= l < j ==> #[trigger] threads@[l] == thread_of_api(
                            pages@[i as int].threads@[l],
                        ),
                decreases src_page.threads@.len() - j,
            {
                let t = &src_page.threads[j];
                threads.push(Thread { no: t.no, sub: t.sub.clone(), bumplimit: t.bumplimit });
                j += 1;
            }
            let page_number = src_page.page;
            let ghost out_prev = out@;
            out.push(Page { page: page_number, threads });
            proof {
                assert forall|k: int|
                    0 <= k < i + 1 implies #[trigger] out@[k].threads@.len()
                    == pages@[k].threads@.len() by {
                    if k < i {
                        assert(out@[k] == out_prev[k]);
                        assert(out_prev[k].threads@.len() == pages@[k].threads@.len());
                    }
                }
                assert forall|k: int, j2: int|
                    0 <= k < i + 1 && 0 <= j2 < pages@[k].threads@.len() implies #[trigger] out@[
                    k].threads@[j2] == thread_of_api(pages@[k].threads@[j2]) by {
                    if k < i {
                        assert(out@[k] == out_prev[k]);
                        assert(out_prev[k].threads@[j2] == thread_of_api(pages@[k].threads@[j2]));
                    }
                }
            }
            i += 1;
        }
        Catalog(out)
    }
}

/// `needle` occurs in `hay` at exactly the position `at`.
fn match_at(hay: &str, needle: &str, at: usize, hay_len: usize, needle_len: usize) -> (b: bool)
    requires
        hay_len == hay@.len(),
        needle_len == needle@.len(),
        at + needle_len <= hay_len,
    ensures
        b == matches_at(hay@, needle@, at as int),
{
    let mut j: usize = 0;
    while j < needle_len
        invariant
            hay_len == hay@.len(),
            needle_len == needle@.len(),
            at + needle_len <= hay_len,
            0 <= j <= needle_len,
            forall|k: int| 0 <= k < j ==> hay@[at + k] == needle@[k],
        decreases needle_len - j,
    {
        let hc = hay.get_char(at + j);
        let nc = needle.get_char(j);
        if hc != nc {
            proof {
                assert(!matches_at(hay@, needle@, at as int)) by {
                    if matches_at(hay@, needle@, at as int) {
                        assert(hay@.subrange(at as int, at + needle@.len())[j as int]
                            == needle@[j as int]);
                    }
                }
            }
            return false;
        }
        j += 1;
    }
    proof {
        assert(hay@.subrange(at as int, at + needle@.len()) =~= needle@);
    }
    true
}

/// Whether `hay` contains `needle` as a substring, matched character by
/// character with no normalization.
pub fn title_contains(hay: &str, needle: &str) -> (b: bool)
    ensures
        b == contains_seq(hay@, needle@),
{
    let hay_len = hay.unicode_len();
    let needle_len = needle.unicode_len();
    if needle_len > hay_len {
        return false;
    }
    if needle_len == 0 {
        proof {
            assert(hay@.subrange(0, 0) =~= needle@);
            assert(matches_at(hay@, needle@, 0));
        }
        return true;
    }
    let mut i: usize = 0;
    while i <= hay_len - needle_len
        invariant
            hay_len == hay@.len(),
            needle_len == needle@.len(),
            1 <= needle_len <= hay_len,
            0 <= i <= hay_len - needle_len + 1,
            forall|k: int| 0 <= k < i ==> !matches_at(hay@, needle@, k),
        decreases hay_len - needle_len + 1 - i,
    {
        if match_at(hay, needle, i, hay_len, needle_len) {
            return true;
        }
        i += 1;
    }
    false
}

impl Catalog {
    /// Find the first thread whose subject carries `title`, in traversal
    /// order, as an observation captured at `now_ms`; `None` when no thread
    /// in the catalog matches.
    pub fn find(&self, title: &String, now_ms: i64) -> (r: Option<data::Thread>)
        requires
            forall|i: int|
                0 <= i < self.0@.len() ==> #[trigger] self.0@[i].threads@.len() <= i32::MAX,
        ensures
            match r {
                Some(t) => exists|i: int, j: int|
                    #[trigger] first_match(*self, title@, i, j) && t == observation_of(
                        *self,
                        i,
                        j,
                        now_ms,
                    ),
                None => !some_match(*self, title@),
            },
            r matches Some(t) ==> t.wf(),
    {
        let mut pi: usize = 0;
        while pi < self.0.len()
            invariant
                forall|i: int|
                    0 <= i < self.0@.len() ==> #[trigger] self.0@[i].threads@.len() <= i32::MAX,
                0 <= pi <= self.0@.len(),
                forall|i: int, j: int| #[trigger]
                    thread_matches(*self, title@, i, j) ==> i >= pi,
            decreases self.0@.len() - pi,
        {
            let page = &self.0[pi];
            let page_length = page.threads.len();
            let mut ti: usize = 0;
            while ti < page.threads.len()
                invariant
                    forall|i: int|
                        0 <= i < self.0@.len() ==> #[trigger] self.0@[i].threads@.len()
                            <= i32::MAX,
                    0 <= pi < self.0@.len(),
                    page == self.0@[pi as int],
                    page_length == page.threads@.len(),
                    0 <= ti <= page.threads@.len(),
                    forall|i: int, j: int| #[trigger]
                        thread_matches(*self, title@, i, j) ==> i > pi || (i == pi && j >= ti),
                decreases page.threads@.len() - ti,
            {
                let th = &page.threads[ti];
                if title_contains(th.sub.as_str(), title.as_str()) {
                    proof {
                        assert(thread_matches(*self, title@, pi as int, ti as int));
                        assert(first_match(*self, title@, pi as int, ti as int));
                    }
                    return Some(
                        data::Thread {
                            page: page.page,
                            no: th.no,
                            sub: th.sub.clone(),
                            time: now_ms,
                            position: (ti + 1) as i32,
                            page_length: page_length as i32,
                            bumplimit: th.bumplimit,
                        },
                    );
                }
                proof {
                    assert forall|i: int, j: int| #[trigger]
                        thread_matches(*self, title@, i, j) implies i > pi || (i == pi && j
                        >= ti + 1) by {
                        if i == pi && j == ti {
                            assert(!contains_seq(self.0@[pi as int].threads@[ti as int].sub@,
                                title@));
                        }
                    }
                }
                ti += 1;
            }
            pi += 1;
        }
        None
    }
}

} // verus!
