//! Decisions of the test harness: which tests a run selects and what it reports.
//!
//! The harness itself (driving the tests' futures, at most [`MAX_CONCURRENT_TESTS`] at a time)
//! runs on an async runtime; what it decides for each test is stated and proved here.

use vstd::prelude::*;

verus! {

/// How many tests the harness drives at the same time.
pub const MAX_CONCURRENT_TESTS: usize = 4;

/// `needle` stands in `hay` starting at index `i`.
pub open spec fn occurs_at(hay: Seq<char>, needle: Seq<char>, i: int) -> bool {
    hay.subrange(i, i + needle.len()) == needle
}

/// `needle` occurs somewhere in `hay` as a run of consecutive characters.
pub open spec fn contains_chars(hay: Seq<char>, needle: Seq<char>) -> bool {
    exists|i: int| 0 <= i && i + needle.len() <= hay.len() && #[trigger] occurs_at(hay, needle, i)
}

/// A harness with the given filter runs the test with the given name: with no filter every test
/// runs, otherwise exactly those whose names contain the filter.
pub open spec fn selects(filter: Option<Seq<char>>, name: Seq<char>) -> bool {
    match filter {
        None => true,
        Some(f) => contains_chars(name, f),
    }
}

/// The command-line arguments of a test program.
///
/// Only the name filter (`TESTNAME`) is supported.
pub struct Args {
    filter: Option<String>,
}

impl View for Args {
    type V = Option<Seq<char>>;

    closed spec fn view(&self) -> Option<Seq<char>> {
        match self.filter {
            Some(f) => Some(f@),
            None => None,
        }
    }
}

impl Default for Args {
    /// Arguments without a filter: every test runs.
    fn default() -> (r: Self)
        ensures
            r@ is None,
    {
        Args { filter: None }
    }
}

impl Args {
    /// Arguments with the given name filter, as the command line gave it.
    pub fn with_filter(filter: Option<String>) -> (r: Self)
        ensures
            r@ == (match filter {
                Some(f) => Some(f@),
                None => None::<Seq<char>>,
            }),
    {
        Args { filter }
    }

    /// Whether the harness runs the test with the given name.
    pub fn runs(&self, name: &str) -> (r: bool)
        ensures
            r == selects(self@, name@),
    {
        match &self.filter {
            None => true,
            Some(f) => {
                let hay = chars_of(name);
                let needle = chars_of(f.as_str());
                contains(&hay, &needle)
            },
        }
    }
}

/// The characters of a string slice.
fn chars_of(s: &str) -> (r: Vec<char>)
    ensures
        r@ == s@,
{
    broadcast use vstd::string::group_string_axioms;

    let mut v: Vec<char> = Vec::new();
    for c in it: s.chars()
        invariant
            it.seq() == s@,
            v@ == it.seq().take(it.index() as int),
    {
        v.push(c);
    }
    assert(v@ =~= s@);
    v
}

/// Whether `needle` stands in `hay` at index `i`.
fn matches_at(hay: &Vec<char>, needle: &Vec<char>, i: usize) -> (r: bool)
    requires
        i + needle@.len() <= hay@.len(),
    ensures
        r == occurs_at(hay@, needle@, i as int),
{
    let m = needle.len();
    let n = hay.len();
    let mut k: usize = 0;
    while k < m
        invariant
            m == needle@.len(),
            n == hay@.len(),
            i + m <= hay@.len(),
            k <= m,
            forall|j: int| 0 <= j < k ==> hay@[i + j] == needle@[j],
        decreases m - k,
    {
        assert(i + k < hay@.len());
        if hay[i + k] != needle[k] {
            assert(hay@.subrange(i as int, i + m)[k as int] == hay@[i + k]);
            return false;
        }
        k = k + 1;
    }
    assert(hay@.subrange(i as int, i + m) =~= needle@);
    true
}

/// Whether `needle` occurs in `hay`.
fn contains(hay: &Vec<char>, needle: &Vec<char>) -> (r: bool)
    ensures
        r == contains_chars(hay@, needle@),
{
    if needle.len() > hay.len() {
        return false;
    }
    let last = hay.len() - needle.len();
    let mut i: usize = 0;
    loop
        invariant
            last + needle@.len() == hay@.len(),
            i <= last,
            forall|j: int| 0 <= j < i ==> !occurs_at(hay@, needle@, j),
        decreases last - i,
    {
        if matches_at(hay, needle, i) {
            return true;
        }
        if i == last {
            return false;
        }
        i = i + 1;
    }
}

/// The line the harness prints for a test that passed.
pub fn pass_line(name: &str) -> (r: String)
    ensures
        r@ == "test "@ + name@ + " ... ok"@,
{
    let mut line = String::from_str("test ");
    line.append(name);
    line.append(" ... ok");
    line
}

/// An empty filter selects every test.
pub proof fn lemma_empty_filter_selects_all(name: Seq<char>)
    ensures
        selects(Some(Seq::<char>::empty()), name),
{
    assert(name.subrange(0, 0) =~= Seq::<char>::empty());
    assert(occurs_at(name, Seq::<char>::empty(), 0));
}

/// A filter equal to a test's whole name selects that test.
pub proof fn lemma_full_name_selects(name: Seq<char>)
    ensures
        selects(Some(name), name),
{
    assert(name.subrange(0, name.len() as int) =~= name);
    assert(occurs_at(name, name, 0));
}

/// Narrowing the filter never selects more: every test selected by a filter `f` is also
/// selected by any filter `g` that occurs in `f`.
pub proof fn lemma_narrower_filter_selects_fewer(name: Seq<char>, f: Seq<char>, g: Seq<char>)
    requires
        contains_chars(f, g),
        selects(Some(f), name),
    ensures
        selects(Some(g), name),
{
    let i = choose|i: int| 0 <= i && i + f.len() <= name.len() && #[trigger] occurs_at(name, f, i);
    let j = choose|j: int| 0 <= j && j + g.len() <= f.len() && #[trigger] occurs_at(f, g, j);
    assert forall|k: int| 0 <= k < g.len() implies name.subrange(i + j, i + j + g.len())[k]
        == g[k] by {
        assert(name.subrange(i, i + f.len())[j + k] == f[j + k]);
        assert(f.subrange(j, j + g.len())[k] == g[k]);
    }
    assert(name.subrange(i + j, i + j + g.len()) =~= g);
    assert(occurs_at(name, g, i + j));
}

} // verus!
