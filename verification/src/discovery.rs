//! Discovery: from the listing of the source files of a module to its
//! test suites, in an order that does not depend on the listing.

use vstd::prelude::*;
use vstd::multiset::Multiset;
use vstd::seq_lib::{
    lemma_multiset_commutative, to_multiset_build, to_multiset_contains, to_multiset_insert,
    to_multiset_len, to_multiset_remove,
};
use vstd::utf8::encode_utf8;
use crate::testing::{TestCase, TestCaseView, TestSuite, TestSuiteView};
use crate::text::{
    lemma_bytes_le_total, lemma_bytes_le_transitive, lemma_str_le_antisymmetric, spec_str_le,
    str_le,
};

verus! {

/// A source file of a module and the test cases it defines, in the
/// order of their definition. Most files define none.
#[derive(Clone, Debug, PartialEq, Eq)]
pub struct SourceFile {
    pub path: String,
    pub cases: Vec<TestCase>,
}

/// A source file as contracts see it.
pub struct SourceFileView {
    pub path: Seq<char>,
    pub cases: Seq<TestCaseView>,
}

impl View for SourceFile {
    type V = SourceFileView;

    open spec fn view(&self) -> SourceFileView {
        SourceFileView { path: self.path@, cases: self.cases@.map_values(|c: TestCase| c@) }
    }
}

/// The views of a listing of source files.
pub open spec fn files_view(files: Seq<SourceFile>) -> Seq<SourceFileView> {
    files.map_values(|f: SourceFile| f@)
}

/// The views of a sequence of suites.
pub open spec fn suites_view(suites: Seq<TestSuite>) -> Seq<TestSuiteView> {
    suites.map_values(|s: TestSuite| s@)
}

/// The test of a file for defining cases.
pub open spec fn defines_cases() -> spec_fn(SourceFileView) -> bool {
    |f: SourceFileView| f.cases.len() > 0
}

/// The suite of a file: its path and its cases.
pub open spec fn suite_of() -> spec_fn(SourceFileView) -> TestSuiteView {
    |f: SourceFileView| TestSuiteView { path: f.path, cases: f.cases }
}

/// The suites of the files that define cases, in the order of the
/// listing.
pub open spec fn spec_defining(files: Seq<SourceFileView>) -> Seq<TestSuiteView> {
    files.filter(defines_cases()).map_values(suite_of())
}

/// Suites in the order of their paths.
pub open spec fn sorted_by_path(suites: Seq<TestSuiteView>) -> bool {
    forall|i: int, j: int|
        0 <= i < j < suites.len() ==> spec_str_le(
            (#[trigger] suites[i]).path,
            (#[trigger] suites[j]).path,
        )
}

/// `suites` is what is discovered in `files`: one suite for each file
/// that defines cases and no other suite, in the order of their paths.
pub open spec fn is_discovery_of(files: Seq<SourceFileView>, suites: Seq<TestSuiteView>) -> bool {
    &&& sorted_by_path(suites)
    &&& suites.to_multiset() == spec_defining(files).to_multiset()
}

/// Copies the cases of a file.
fn copy_cases(cases: &Vec<TestCase>) -> (copy: Vec<TestCase>)
    ensures
        copy@ == cases@,
{
    let mut copy: Vec<TestCase> = Vec::new();
    let mut i: usize = 0;
    while i < cases.len()
        invariant
            i <= cases@.len(),
            copy@ == cases@.take(i as int),
        decreases cases@.len() - i,
    {
        let case = &cases[i];
        copy.push(TestCase { name: case.name.clone(), line: case.line });
        assert(copy@ =~= cases@.take(i + 1));
        i += 1;
    }
    assert(cases@.take(cases@.len() as int) =~= cases@);
    copy
}

/// Where a suite of path `path` goes among suites in the order of their
/// paths: behind the suites at the front whose paths do not come after
/// `path`, so behind every suite of the same path.
pub open spec fn spec_place(suites: Seq<TestSuiteView>, path: Seq<char>) -> int
    decreases suites.len(),
{
    if suites.len() == 0 || !spec_str_le(suites[0].path, path) {
        0
    } else {
        1 + spec_place(suites.drop_first(), path)
    }
}

/// What is discovered in a listing: the suites of the files that define
/// cases, each put in its place among the suites of the files listed
/// before it.
pub open spec fn spec_discover(files: Seq<SourceFileView>) -> Seq<TestSuiteView>
    decreases files.len(),
{
    if files.len() == 0 {
        Seq::empty()
    } else {
        let before = spec_discover(files.drop_last());
        let file = files.last();
        if defines_cases()(file) {
            before.insert(spec_place(before, file.path), suite_of()(file))
        } else {
            before
        }
    }
}

/// The place of a path is behind suites that do not come after it and
/// before a suite that does.
proof fn lemma_place_divides(suites: Seq<TestSuiteView>, path: Seq<char>)
    ensures
        0 <= spec_place(suites, path) <= suites.len(),
        forall|k: int|
            0 <= k < spec_place(suites, path) ==> spec_str_le((#[trigger] suites[k]).path, path),
        spec_place(suites, path) < suites.len() ==> !spec_str_le(
            suites[spec_place(suites, path)].path,
            path,
        ),
    decreases suites.len(),
{
    if suites.len() > 0 && spec_str_le(suites[0].path, path) {
        let rest = suites.drop_first();
        lemma_place_divides(rest, path);
        assert forall|k: int| 0 <= k < spec_place(suites, path) implies spec_str_le(
            (#[trigger] suites[k]).path,
            path,
        ) by {
            if k > 0 {
                assert(suites[k] == rest[k - 1]);
            }
        }
        if spec_place(suites, path) < suites.len() {
            assert(suites[spec_place(suites, path)] == rest[spec_place(rest, path)]);
        }
    }
}

/// A suite put in its place among suites in the order of their paths
/// leaves them in that order.
proof fn lemma_insert_keeps_order(suites: Seq<TestSuiteView>, suite: TestSuiteView)
    requires
        sorted_by_path(suites),
    ensures
        sorted_by_path(suites.insert(spec_place(suites, suite.path), suite)),
{
    let at = spec_place(suites, suite.path);
    let after = suites.insert(at, suite);
    lemma_place_divides(suites, suite.path);
    assert forall|a: int, b: int| 0 <= a < b < after.len() implies spec_str_le(
        (#[trigger] after[a]).path,
        (#[trigger] after[b]).path,
    ) by {
        if b < at {
            assert(after[a] == suites[a] && after[b] == suites[b]);
        } else if b == at {
            assert(after[a] == suites[a]);
        } else if a < at {
            assert(after[a] == suites[a] && after[b] == suites[b - 1]);
        } else if a == at {
            assert(after[b] == suites[b - 1]);
            let here = suites[at].path;
            lemma_bytes_le_total(encode_utf8(here), encode_utf8(suite.path));
            if b - 1 > at {
                lemma_bytes_le_transitive(
                    encode_utf8(suite.path),
                    encode_utf8(here),
                    encode_utf8(suites[b - 1].path),
                );
            }
        } else {
            assert(after[a] == suites[a - 1] && after[b] == suites[b - 1]);
        }
    }
}

/// What is discovered in a listing is one suite for each file that
/// defines cases and no other suite, in the order of their paths.
pub proof fn lemma_discovery_is_sorted_and_complete(files: Seq<SourceFileView>)
    ensures
        is_discovery_of(files, spec_discover(files)),
    decreases files.len(),
{
    if files.len() == 0 {
        assert(spec_defining(files) =~= Seq::<TestSuiteView>::empty());
    } else {
        let seen = files.drop_last();
        let file = files.last();
        let before = spec_discover(seen);
        lemma_discovery_is_sorted_and_complete(seen);
        assert(files =~= seen.push(file));
        seen.lemma_filter_push(file, defines_cases());
        if defines_cases()(file) {
            let suite = suite_of()(file);
            seen.filter(defines_cases()).lemma_push_map_commute(suite_of(), file);
            assert(spec_defining(files) =~= spec_defining(seen).push(suite));
            to_multiset_build(spec_defining(seen), suite);
            lemma_place_divides(before, file.path);
            to_multiset_insert(before, spec_place(before, file.path), suite);
            lemma_insert_keeps_order(before, suite);
        } else {
            assert(spec_defining(files) == spec_defining(seen));
        }
    }
}

/// Where a suite of path `path` goes among `suites`.
fn place_of(suites: &Vec<TestSuite>, path: &str) -> (at: usize)
    ensures
        at == spec_place(suites_view(suites@), path@),
        at <= suites@.len(),
{
    let mut at: usize = 0;
    proof {
        assert(suites_view(suites@).skip(0) =~= suites_view(suites@));
    }
    while at < suites.len() && str_le(suites[at].path.as_str(), path)
        invariant
            at <= suites@.len(),
            spec_place(suites_view(suites@), path@) == at + spec_place(
                suites_view(suites@).skip(at as int),
                path@,
            ),
        decreases suites@.len() - at,
    {
        proof {
            let rest = suites_view(suites@).skip(at as int);
            assert(rest[0] == suites@[at as int]@);
            assert(rest.drop_first() =~= suites_view(suites@).skip(at + 1));
        }
        at += 1;
    }
    proof {
        let rest = suites_view(suites@).skip(at as int);
        if at < suites@.len() {
            assert(rest[0] == suites@[at as int]@);
        }
    }
    at
}

/// Discovers the suites of a module in the listing of its source files.
///
/// There is one suite for each file that defines cases, with the cases of
/// that file in the order of their definition. The suites come in the
/// order of their paths, whatever the order of the listing; suites of the
/// same path, if a listing has such, come in the order of the listing.
pub fn discover(files: &Vec<SourceFile>) -> (suites: Vec<TestSuite>)
    ensures
        suites_view(suites@) == spec_discover(files_view(files@)),
        is_discovery_of(files_view(files@), suites_view(suites@)),
{
    let mut suites: Vec<TestSuite> = Vec::new();
    let mut i: usize = 0;
    proof {
        assert(files_view(files@).take(0) =~= Seq::<SourceFileView>::empty());
        assert(suites_view(suites@) =~= Seq::<TestSuiteView>::empty());
    }
    while i < files.len()
        invariant
            i <= files@.len(),
            suites_view(suites@) == spec_discover(files_view(files@).take(i as int)),
        decreases files@.len() - i,
    {
        let file = &files[i];
        let ghost seen = files_view(files@).take(i as int);
        let ghost next = files_view(files@).take(i + 1);
        let ghost before = suites_view(suites@);
        proof {
            assert(next.drop_last() =~= seen);
            assert(next.last() == file@);
        }
        if file.cases.len() > 0 {
            let at = place_of(&suites, file.path.as_str());
            let suite = TestSuite { path: file.path.clone(), cases: copy_cases(&file.cases) };
            proof {
                assert(suite@ == suite_of()(file@));
            }
            suites.insert(at, suite);
            proof {
                assert(suites_view(suites@) =~= before.insert(at as int, suite@));
            }
        }
        i += 1;
    }
    proof {
        assert(files_view(files@).take(files@.len() as int) =~= files_view(files@));
        lemma_discovery_is_sorted_and_complete(files_view(files@));
    }
    suites
}

/// A path names one file: entries of the listing with the same path are
/// the same entry.
pub open spec fn path_names_one_file(files: Seq<SourceFileView>) -> bool {
    forall|i: int, j: int|
        0 <= i < files.len() && 0 <= j < files.len() && (#[trigger] files[i]).path == (
        #[trigger] files[j]).path ==> files[i] == files[j]
}

/// Among these suites a path names one suite.
spec fn path_names_one_suite(suites: Multiset<TestSuiteView>) -> bool {
    forall|a: TestSuiteView, b: TestSuiteView|
        #![trigger suites.count(a), suites.count(b)]
        suites.count(a) > 0 && suites.count(b) > 0 && a.path == b.path ==> a == b
}

/// The suites of two listings laid end to end are the suites of the one
/// and the suites of the other.
proof fn lemma_defining_of_concat(a: Seq<SourceFileView>, b: Seq<SourceFileView>)
    ensures
        spec_defining(a + b) == spec_defining(a) + spec_defining(b),
        spec_defining(a + b).to_multiset() == spec_defining(a).to_multiset().add(
            spec_defining(b).to_multiset(),
        ),
{
    Seq::filter_distributes_over_add(a, b, defines_cases());
    assert(spec_defining(a + b) =~= spec_defining(a) + spec_defining(b));
    lemma_multiset_commutative(spec_defining(a), spec_defining(b));
}

/// Listings of the same files in any order define the same suites, each
/// as often.
proof fn lemma_defining_permutes(a: Seq<SourceFileView>, b: Seq<SourceFileView>)
    requires
        a.to_multiset() == b.to_multiset(),
    ensures
        spec_defining(a).to_multiset() == spec_defining(b).to_multiset(),
    decreases a.len(),
{
    broadcast use vstd::multiset::group_multiset_axioms;

    to_multiset_len(a);
    to_multiset_len(b);
    if a.len() == 0 {
        assert(a =~= b);
    } else {
        let e = a.last();
        let rest = a.drop_last();
        assert(a =~= rest + seq![e]);
        assert(a =~= rest.push(e));
        to_multiset_build(rest, e);
        to_multiset_contains(b, e);
        assert(a.to_multiset().count(e) > 0);
        let i = choose|i: int| 0 <= i < b.len() && b[i] == e;
        let others = b.remove(i);
        to_multiset_remove(b, i);
        assert(rest.to_multiset() =~= others.to_multiset());
        lemma_defining_permutes(rest, others);
        let front = b.subrange(0, i);
        let back = b.subrange(i + 1, b.len() as int);
        assert(b =~= (front + seq![e]) + back);
        assert(others =~= front + back);
        lemma_defining_of_concat(rest, seq![e]);
        lemma_defining_of_concat(front, seq![e]);
        lemma_defining_of_concat(front + seq![e], back);
        lemma_defining_of_concat(front, back);
        assert(spec_defining(a).to_multiset() =~= spec_defining(b).to_multiset());
    }
}

/// Every suite that a listing defines is the suite of a file of the
/// listing.
proof fn lemma_defining_comes_from_files(files: Seq<SourceFileView>, suite: TestSuiteView)
    requires
        spec_defining(files).contains(suite),
    ensures
        exists|k: int| 0 <= k < files.len() && suite == suite_of()(#[trigger] files[k]),
{
    let kept = files.filter(defines_cases());
    let k = choose|k: int| 0 <= k < spec_defining(files).len() && spec_defining(files)[k] == suite;
    assert(kept.contains(kept[k]));
    files.lemma_filter_contains_rev(defines_cases(), kept[k]);
    let m = choose|m: int| 0 <= m < files.len() && files[m] == kept[k];
    assert(suite == suite_of()(files[m]));
}

/// Sequences of suites in the order of their paths that hold the same
/// suites, each as often, are equal, if a path names one suite.
proof fn lemma_sorted_suites_are_unique(x: Seq<TestSuiteView>, y: Seq<TestSuiteView>)
    requires
        sorted_by_path(x),
        sorted_by_path(y),
        x.to_multiset() == y.to_multiset(),
        path_names_one_suite(x.to_multiset()),
    ensures
        x == y,
    decreases x.len(),
{
    broadcast use vstd::multiset::group_multiset_axioms;

    to_multiset_len(x);
    to_multiset_len(y);
    if x.len() == 0 {
        assert(x =~= y);
    } else {
        to_multiset_contains(x, x[0]);
        to_multiset_contains(x, y[0]);
        to_multiset_contains(y, x[0]);
        to_multiset_contains(y, y[0]);
        assert(x.contains(x[0]));
        assert(y.contains(y[0]));
        let j = choose|j: int| 0 <= j < x.len() && x[j] == y[0];
        let i = choose|i: int| 0 <= i < y.len() && y[i] == x[0];
        assert(spec_str_le(x[0].path, x[j].path)) by {
            if j == 0 {
                lemma_bytes_le_total(encode_utf8(x[0].path), encode_utf8(x[0].path));
            }
        }
        assert(spec_str_le(y[0].path, y[i].path)) by {
            if i == 0 {
                lemma_bytes_le_total(encode_utf8(y[0].path), encode_utf8(y[0].path));
            }
        }
        lemma_str_le_antisymmetric(x[0].path, y[0].path);
        assert(x[0] == y[0]);
        to_multiset_remove(x, 0);
        to_multiset_remove(y, 0);
        assert(x.remove(0) =~= x.drop_first());
        assert(y.remove(0) =~= y.drop_first());
        let xs = x.drop_first();
        let ys = y.drop_first();
        assert(sorted_by_path(xs)) by {
            assert forall|a: int, b: int| 0 <= a < b < xs.len() implies spec_str_le(
                (#[trigger] xs[a]).path,
                (#[trigger] xs[b]).path,
            ) by {
                assert(xs[a] == x[a + 1] && xs[b] == x[b + 1]);
            }
        }
        assert(sorted_by_path(ys)) by {
            assert forall|a: int, b: int| 0 <= a < b < ys.len() implies spec_str_le(
                (#[trigger] ys[a]).path,
                (#[trigger] ys[b]).path,
            ) by {
                assert(ys[a] == y[a + 1] && ys[b] == y[b + 1]);
            }
        }
        assert(path_names_one_suite(xs.to_multiset())) by {
            assert forall|a: TestSuiteView, b: TestSuiteView|
                #![trigger xs.to_multiset().count(a), xs.to_multiset().count(b)]
                xs.to_multiset().count(a) > 0 && xs.to_multiset().count(b) > 0 && a.path
                    == b.path implies a == b by {
                assert(x.to_multiset().count(a) > 0 && x.to_multiset().count(b) > 0);
            }
        }
        lemma_sorted_suites_are_unique(xs, ys);
        assert(x =~= seq![x[0]] + xs);
        assert(y =~= seq![y[0]] + ys);
    }
}

/// Discovery gives the same suites with the same cases in the same order
/// each time it runs on a module, in whatever order the files of the
/// module are listed each time, as long as a path names one file.
pub proof fn lemma_discovery_is_repeatable(
    listing: Seq<SourceFileView>,
    again: Seq<SourceFileView>,
    first: Seq<TestSuiteView>,
    second: Seq<TestSuiteView>,
)
    requires
        path_names_one_file(listing),
        listing.to_multiset() == again.to_multiset(),
        is_discovery_of(listing, first),
        is_discovery_of(again, second),
    ensures
        first == second,
{
    lemma_defining_permutes(listing, again);
    assert(path_names_one_suite(first.to_multiset())) by {
        assert forall|a: TestSuiteView, b: TestSuiteView|
            #![trigger first.to_multiset().count(a), first.to_multiset().count(b)]
            first.to_multiset().count(a) > 0 && first.to_multiset().count(b) > 0 && a.path
                == b.path implies a == b by {
            to_multiset_contains(spec_defining(listing), a);
            to_multiset_contains(spec_defining(listing), b);
            lemma_defining_comes_from_files(listing, a);
            lemma_defining_comes_from_files(listing, b);
            let k = choose|k: int| 0 <= k < listing.len() && a == suite_of()(#[trigger] listing[k]);
            let m = choose|m: int| 0 <= m < listing.len() && b == suite_of()(#[trigger] listing[m]);
            assert(listing[k].path == listing[m].path);
        }
    }
    lemma_sorted_suites_are_unique(first, second);
}

} // verus!
