use vstd::prelude::*;
use vstd::string::*;

use crate::error::S3ExampleError;

verus! {

/// Number of keys asked for per page when a listing is printed.
pub const PRINT_PAGE_SIZE: i32 = 10;

/// The keys of the objects of one page, as plain sequences.
pub open spec fn page_view(page: Seq<Option<String>>) -> Seq<Option<Seq<char>>> {
    page.map_values(|o: Option<String>| match o {
        Some(k) => Some(k@),
        None => None,
    })
}

/// The keys that a page contributes: those of its objects that have one, in
/// page order.
pub open spec fn page_keys(page: Seq<Option<Seq<char>>>) -> Seq<Seq<char>>
    decreases page.len(),
{
    if page.len() == 0 {
        Seq::empty()
    } else {
        page_keys(page.drop_last()) + match page.last() {
            Some(k) => seq![k],
            None => Seq::empty(),
        }
    }
}

proof fn lemma_page_keys_take(page: Seq<Option<Seq<char>>>, i: int)
    requires
        0 <= i < page.len(),
    ensures
        page_keys(page.take(i + 1)) == page_keys(page.take(i)) + match page[i] {
            Some(k) => seq![k],
            None => Seq::<Seq<char>>::empty(),
        },
{
    assert(page.take(i + 1).drop_last() =~= page.take(i));
}

/// Collecting the keys of two pages one after the other gives the keys of the
/// two pages joined: the result does not depend on where a listing is cut into
/// pages.
pub proof fn lemma_page_keys_append(a: Seq<Option<Seq<char>>>, b: Seq<Option<Seq<char>>>)
    ensures
        page_keys(a + b) == page_keys(a) + page_keys(b),
    decreases b.len(),
{
    if b.len() == 0 {
        assert(a + b =~= a);
        assert(page_keys(a) + page_keys(b) =~= page_keys(a));
    } else {
        lemma_page_keys_append(a, b.drop_last());
        assert((a + b).drop_last() =~= a + b.drop_last());
        assert((a + b).last() == b.last());
    }
}

/// A listing of object keys that is being collected page by page.
pub struct KeyListing {
    keys: Vec<String>,
}

impl KeyListing {
    /// The keys collected so far.
    pub closed spec fn keys_view(&self) -> Seq<Seq<char>> {
        self.keys.deep_view()
    }

    /// A listing that has collected nothing yet.
    pub fn new() -> (l: KeyListing)
        ensures
            l.keys_view() == Seq::<Seq<char>>::empty(),
    {
        let keys: Vec<String> = Vec::new();
        proof {
            assert(keys.deep_view() =~= Seq::<Seq<char>>::empty());
        }
        KeyListing { keys }
    }

    /// Takes in the next page of the listing, or the error that fetching it
    /// gave.  A page adds the keys of its objects; an error ends the listing
    /// with that error and leaves the keys as they were.
    pub fn absorb_page(&mut self, page: Result<Vec<Option<String>>, S3ExampleError>) -> (r: Result<
        (),
        S3ExampleError,
    >)
        ensures
            match page {
                Ok(p) => {
                    &&& r is Ok
                    &&& final(self).keys_view() == old(self).keys_view() + page_keys(
                        page_view(p@),
                    )
                },
                Err(e) => {
                    &&& r == Err::<(), S3ExampleError>(e)
                    &&& final(self).keys_view() == old(self).keys_view()
                },
            },
    {
        match page {
            Err(e) => Err(e),
            Ok(p) => {
                let ghost start = self.keys.deep_view();
                let ghost pv = page_view(p@);
                let n = p.len();
                let mut i: usize = 0;
                while i < n
                    invariant
                        n == p@.len(),
                        pv == page_view(p@),
                        0 <= i <= n,
                        self.keys.deep_view() == start + page_keys(pv.take(i as int)),
                    decreases n - i,
                {
                    proof {
                        lemma_page_keys_take(pv, i as int);
                    }
                    match &p[i] {
                        Some(k) => {
                            let ghost before = self.keys.deep_view();
                            self.keys.push(k.clone());
                            proof {
                                assert(self.keys.deep_view() =~= before.push(k@));
                            }
                        },
                        None => {},
                    }
                    proof {
                        assert(start + page_keys(pv.take(i as int)) + match pv[i as int] {
                            Some(k) => seq![k],
                            None => Seq::<Seq<char>>::empty(),
                        } =~= start + page_keys(pv.take(i as int + 1)));
                    }
                    i = i + 1;
                }
                proof {
                    assert(pv.take(n as int) =~= pv);
                }
                Ok(())
            },
        }
    }

    /// The keys collected, in the order in which the pages gave them.
    pub fn into_keys(self) -> (keys: Vec<String>)
        ensures
            keys.deep_view() == self.keys_view(),
    {
        self.keys
    }
}

/// The line printed for an object of a listing: its key, or a placeholder
/// for an object without one.
pub open spec fn listing_line(key: Option<Seq<char>>) -> Seq<char> {
    match key {
        Some(k) => " - "@ + k,
        None => " - "@ + "Unknown"@,
    }
}

/// The line printed for an object is " - " followed by its key, character
/// for character, or by "Unknown" when it has none.
pub proof fn law_listed_line_is_key(key: Option<Seq<char>>)
    ensures
        key matches Some(k) ==> listing_line(key) == " - "@ + k,
        key is None ==> listing_line(key) == " - "@ + "Unknown"@,
{
}

/// The lines printed for one page of a listing, one per object, in order.
pub fn page_lines(page: &Vec<Option<String>>) -> (lines: Vec<String>)
    ensures
        lines@.len() == page@.len(),
        forall|i: int|
            0 <= i < page@.len() ==> #[trigger] lines@[i]@ == listing_line(
                page_view(page@)[i],
            ),
        forall|i: int|
            0 <= i < page@.len() ==> (#[trigger] page@[i] matches Some(k) ==> lines@[i]@ == " - "@
                + k@),
        forall|i: int|
            0 <= i < page@.len() ==> (#[trigger] page@[i] is None ==> lines@[i]@ == " - "@ + "Unknown"@),
{
    let mut lines: Vec<String> = Vec::new();
    let n = page.len();
    let mut i: usize = 0;
    while i < n
        invariant
            n == page@.len(),
            0 <= i <= n,
            lines@.len() == i,
            forall|j: int|
                0 <= j < i ==> #[trigger] lines@[j]@ == listing_line(page_view(page@)[j]),
        decreases n - i,
    {
        let line = match &page[i] {
            Some(k) => String::from_str(" - ").concat(k.as_str()),
            None => String::from_str(" - ").concat("Unknown"),
        };
        lines.push(line);
        i = i + 1;
    }
    lines
}

/// What a printed listing writes for one page that the service answered:
/// the page's lines on standard output, or, for a page that failed, the
/// error's description on standard error.  Either way the listing goes on.
#[derive(Debug, Clone, PartialEq, Eq)]
pub enum PageReport {
    Printed(Vec<String>),
    Failed(String),
}

/// The report for one page of a printed listing, given the page's keys or
/// the description of the error that came instead.
pub fn page_report(page: Result<Vec<Option<String>>, String>) -> (r: PageReport)
    ensures
        page matches Ok(p) ==> r matches PageReport::Printed(lines) && lines@.len() == p@.len()
            && forall|i: int|
            0 <= i < p@.len() ==> #[trigger] lines@[i]@ == listing_line(page_view(p@)[i]),
        page matches Err(e) ==> r matches PageReport::Failed(d) && d@ == e@,
{
    match page {
        Ok(p) => PageReport::Printed(page_lines(&p)),
        Err(e) => PageReport::Failed(e),
    }
}

/// A page with no objects gives no keys; each further object gives its key
/// after those of the objects before it, and an object without a key gives
/// nothing.
pub proof fn law_page_keys_in_order(page: Seq<Option<Seq<char>>>, key: Seq<char>)
    ensures
        page_keys(Seq::<Option<Seq<char>>>::empty()) == Seq::<Seq<char>>::empty(),
        page_keys(page.push(Some(key))) == page_keys(page).push(key),
        page_keys(page.push(None)) == page_keys(page),
{
    assert(page.push(Some(key)).drop_last() =~= page);
    assert(page.push(None).drop_last() =~= page);
    assert(page_keys(page) + seq![key] =~= page_keys(page).push(key));
    assert(page_keys(page) + Seq::<Seq<char>>::empty() =~= page_keys(page));
}

} // verus!
