use vstd::prelude::*;
use vstd::string::*;

use crate::config::OutputType;

verus! {

/// `s` with every value after its first occurrence left out.
pub open spec fn unique_spec<T>(s: Seq<T>) -> Seq<T>
    decreases s.len(),
{
    if s.len() == 0 {
        s
    } else {
        let d = unique_spec(s.drop_last());
        if d.contains(s.last()) {
            d
        } else {
            d.push(s.last())
        }
    }
}

/// Position of the first occurrence of `x` in `s`, or -1.
pub open spec fn first_index<T>(s: Seq<T>, x: T) -> int
    decreases s.len(),
{
    if s.len() == 0 {
        -1
    } else if s.drop_last().contains(x) {
        first_index(s.drop_last(), x)
    } else if s.last() == x {
        s.len() - 1
    } else {
        -1
    }
}

/// Relies on itertools' `Itertools::unique`: the values in the order in
/// which they first occur, each once. Duplicates are found by `==` and
/// `Hash`, which `OutputType` derives structurally, so they agree with
/// equality of the values.
#[verifier::external_body]
pub(crate) fn unique_formats(v: &Vec<OutputType>) -> (r: Vec<OutputType>)
    ensures
        r@ == unique_spec(v@),
{
    itertools::Itertools::unique(v.iter().copied()).collect()
}

proof fn lemma_push_contains<T>(p: Seq<T>, y: T, x: T)
    ensures
        p.push(y).contains(x) <==> (p.contains(x) || x == y),
{
    if p.push(y).contains(x) && x != y {
        let i = choose|i: int| 0 <= i < p.push(y).len() && p.push(y)[i] == x;
        assert(p[i] == x);
    }
    if p.contains(x) {
        let i = choose|i: int| 0 <= i < p.len() && p[i] == x;
        assert(p.push(y)[i] == x);
    }
    if x == y {
        assert(p.push(y)[p.len() as int] == x);
    }
}

proof fn lemma_unique_members<T>(s: Seq<T>)
    ensures
        forall|x: T| #[trigger] unique_spec(s).contains(x) <==> s.contains(x),
    decreases s.len(),
{
    if s.len() > 0 {
        let p = s.drop_last();
        let d = unique_spec(p);
        lemma_unique_members(p);
        assert(s == p.push(s.last()));
        assert forall|x: T| #[trigger] unique_spec(s).contains(x) <==> s.contains(x) by {
            lemma_push_contains(p, s.last(), x);
            lemma_push_contains(d, s.last(), x);
        }
    }
}

proof fn lemma_unique_no_duplicates<T>(s: Seq<T>)
    ensures
        unique_spec(s).no_duplicates(),
    decreases s.len(),
{
    if s.len() > 0 {
        lemma_unique_no_duplicates(s.drop_last());
    }
}

proof fn lemma_first_index<T>(s: Seq<T>, x: T)
    ensures
        s.contains(x) ==> 0 <= first_index(s, x) < s.len() && s[first_index(s, x)] == x,
        !s.contains(x) ==> first_index(s, x) == -1,
    decreases s.len(),
{
    if s.len() > 0 {
        lemma_first_index(s.drop_last(), x);
        if s.drop_last().contains(x) {
            let i = first_index(s, x);
            assert(s[i] == s.drop_last()[i]);
        } else if s.last() == x {
            assert(s[s.len() - 1] == x);
        } else {
            if s.contains(x) {
                let i = choose|i: int| 0 <= i < s.len() && s[i] == x;
                assert(s.drop_last()[i] == x);
            }
        }
    }
}

proof fn lemma_unique_order<T>(s: Seq<T>)
    ensures
        forall|i: int, j: int|
            0 <= i < j < unique_spec(s).len() ==> first_index(s, #[trigger] unique_spec(s)[i])
                < first_index(s, #[trigger] unique_spec(s)[j]),
    decreases s.len(),
{
    if s.len() > 0 {
        let p = s.drop_last();
        let d = unique_spec(p);
        lemma_unique_order(p);
        lemma_unique_members(p);
        assert forall|i: int, j: int|
            0 <= i < j < unique_spec(s).len() implies first_index(s, #[trigger] unique_spec(s)[i])
                < first_index(s, #[trigger] unique_spec(s)[j]) by {
            let u = unique_spec(s);
            assert(u[i] == d[i]);
            assert(d.contains(d[i]));
            assert(p.contains(u[i]));
            lemma_first_index(p, u[i]);
            if j < d.len() {
                assert(u[j] == d[j]);
                assert(d.contains(d[j]));
                assert(p.contains(u[j]));
            } else {
                assert(u[j] == s.last());
                assert(!d.contains(s.last()));
                assert(!p.contains(s.last()));
            }
        }
    }
}

/// Deduplicating the requested formats keeps each format exactly once, no
/// other value, and the order in which the formats were first requested.
pub proof fn lemma_unique_formats(s: Seq<OutputType>)
    ensures
        unique_spec(s).no_duplicates(),
        forall|x: OutputType| #[trigger] unique_spec(s).contains(x) <==> s.contains(x),
        forall|i: int, j: int|
            0 <= i < j < unique_spec(s).len() ==> first_index(s, #[trigger] unique_spec(s)[i])
                < first_index(s, #[trigger] unique_spec(s)[j]),
{
    lemma_unique_no_duplicates(s);
    lemma_unique_members(s);
    lemma_unique_order(s);
}

/// Joins a relative path onto `base` with one separator between them.
pub open spec fn join_spec(base: Seq<char>, rel: Seq<char>) -> Seq<char> {
    if base.len() == 0 {
        rel
    } else if base.last() == '/' {
        base + rel
    } else {
        base + "/"@ + rel
    }
}

/// Where a format's report is written, relative to the project root.
pub open spec fn report_rel(format: OutputType) -> Seq<char> {
    match format {
        OutputType::Html => "target/coverage/html/index.html"@,
        OutputType::Lcov => "target/coverage/lcov"@,
    }
}

/// The page handed to the default viewer for the HTML report; the run's
/// working directory is the project root.
pub open spec fn html_open_target() -> Seq<char> {
    "./target/coverage/html/index.html"@
}

/// `rel` joined onto the directory `base`.
pub fn join_path(base: &str, rel: &str) -> (r: String)
    ensures
        r@ == join_spec(base@, rel@),
{
    let n = base.unicode_len();
    if n == 0 {
        String::from_str(rel)
    } else if base.get_char(n - 1) == '/' {
        String::from_str(base).concat(rel)
    } else {
        String::from_str(base).concat("/").concat(rel)
    }
}

/// What the dispatcher does for one report format.
pub struct ReportAction {
    pub format: OutputType,
    /// The report's location, shown to the user.
    pub shown: String,
    /// The page to open in the default viewer, for a format read by people.
    pub open: Option<String>,
}

impl ReportAction {
    /// Whether this action is the one owed for `format` in the project at `project`.
    pub open spec fn describes(&self, format: OutputType, project: Seq<char>) -> bool {
        &&& self.format == format
        &&& self.shown@ == join_spec(project, report_rel(format))
        &&& (self.open is Some <==> format == OutputType::Html)
        &&& (self.open matches Some(o) ==> o@ == html_open_target())
    }
}

/// The action for one format: an HTML report is shown and opened, an LCOV
/// report only shown.
pub fn report_action(format: OutputType, project_path: &str) -> (r: ReportAction)
    ensures
        r.describes(format, project_path@),
{
    match format {
        OutputType::Html => ReportAction {
            format,
            shown: join_path(project_path, "target/coverage/html/index.html"),
            open: Some(String::from_str("./target/coverage/html/index.html")),
        },
        OutputType::Lcov => ReportAction {
            format,
            shown: join_path(project_path, "target/coverage/lcov"),
            open: None,
        },
    }
}

/// The dispatcher's actions: one per requested format, duplicates
/// coalesced, in the order first requested.
pub fn report_actions(output_types: &Vec<OutputType>, project_path: &str) -> (r: Vec<ReportAction>)
    ensures
        r@.len() == unique_spec(output_types@).len(),
        forall|i: int|
            0 <= i < r@.len() ==> (#[trigger] r@[i]).describes(
                unique_spec(output_types@)[i],
                project_path@,
            ),
{
    let formats = unique_formats(output_types);
    let mut r: Vec<ReportAction> = Vec::new();
    let mut i: usize = 0;
    while i < formats.len()
        invariant
            i <= formats@.len(),
            formats@ == unique_spec(output_types@),
            r@.len() == i,
            forall|k: int| 0 <= k < i ==> (#[trigger] r@[k]).describes(formats@[k], project_path@),
        decreases formats@.len() - i,
    {
        r.push(report_action(formats[i], project_path));
        i = i + 1;
    }
    r
}

} // verus!
