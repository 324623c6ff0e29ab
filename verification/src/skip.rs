use vstd::prelude::*;
use vstd::string::StrSliceExecFns;
use vstd::string::StringExecFns;

verus! {

/// A named filter excluding files from compilation by filename suffix.
#[derive(Clone, Copy, PartialEq, Eq, PartialOrd, Ord, Hash, Structural, Debug)]
pub enum SkipBuildFilter {
    /// Skip test files, recognized by the `.t.sol` suffix.
    Tests,
    /// Skip script files, recognized by the `.s.sol` suffix.
    Scripts,
}

impl SkipBuildFilter {
    /// The filename suffix this filter excludes.
    pub open spec fn spec_file_pattern(self) -> Seq<char> {
        match self {
            SkipBuildFilter::Tests => ".t.sol"@,
            SkipBuildFilter::Scripts => ".s.sol"@,
        }
    }

    /// The filename suffix this filter excludes.
    pub fn file_pattern(&self) -> (r: &'static str)
        ensures
            r@ == self.spec_file_pattern(),
    {
        match self {
            SkipBuildFilter::Tests => ".t.sol",
            SkipBuildFilter::Scripts => ".s.sol",
        }
    }
}

/// The filter a command-line value names: the filter's name or its literal
/// suffix form, or nothing for any other value.
pub open spec fn filter_of(s: Seq<char>) -> Option<SkipBuildFilter> {
    if s == "test"@ || s == "tests"@ || s == ".t.sol"@ {
        Some(SkipBuildFilter::Tests)
    } else if s == "script"@ || s == "scripts"@ || s == ".s.sol"@ {
        Some(SkipBuildFilter::Scripts)
    } else {
        None
    }
}

/// True when `s` and `t` hold the same characters.
pub fn str_eq(s: &String, t: &str) -> (r: bool)
    ensures
        r == (s@ == t@),
{
    let other = String::from_str(t);
    *s == other
}

/// Parses one command-line value into the filter it names.
pub fn parse_skip_filter(s: &String) -> (r: Option<SkipBuildFilter>)
    ensures
        r == filter_of(s@),
{
    if str_eq(s, "test") || str_eq(s, "tests") || str_eq(s, ".t.sol") {
        Some(SkipBuildFilter::Tests)
    } else if str_eq(s, "script") || str_eq(s, "scripts") || str_eq(s, ".s.sol") {
        Some(SkipBuildFilter::Scripts)
    } else {
        None
    }
}

/// True when `s` ends with `suffix`.
pub open spec fn spec_has_suffix(s: Seq<char>, suffix: Seq<char>) -> bool {
    &&& s.len() >= suffix.len()
    &&& s.subrange(s.len() - suffix.len(), s.len() as int) == suffix
}

/// True when `s` ends with `suffix`.
pub fn has_suffix(s: &str, suffix: &str) -> (r: bool)
    ensures
        r == spec_has_suffix(s@, suffix@),
{
    let n = s.unicode_len();
    let m = suffix.unicode_len();
    if m > n {
        return false;
    }
    let mut i: usize = 0;
    while i < m
        invariant
            n == s@.len(),
            m == suffix@.len(),
            m <= n,
            i <= m,
            forall|j: int| 0 <= j < i ==> s@[n - m + j] == suffix@[j],
        decreases m - i,
    {
        if s.get_char(n - m + i) != suffix.get_char(i) {
            proof {
                assert(s@.subrange(n - m, n as int)[i as int] == s@[n - m + i]);
            }
            return false;
        }
        i += 1;
    }
    proof {
        assert(s@.subrange(n - m, n as int) =~= suffix@);
    }
    true
}

/// True when some filter in the sequence excludes the file name.
pub open spec fn spec_should_skip(filters: Seq<SkipBuildFilter>, name: Seq<char>) -> bool {
    exists|i: int|
        0 <= i < filters.len() && spec_has_suffix(name, filters[i].spec_file_pattern())
}

/// True when some filter in the set excludes the file name.
pub fn should_skip(filters: &Vec<SkipBuildFilter>, file_name: &str) -> (r: bool)
    ensures
        r == spec_should_skip(filters@, file_name@),
{
    let mut i: usize = 0;
    while i < filters.len()
        invariant
            i <= filters@.len(),
            forall|j: int|
                0 <= j < i ==> !spec_has_suffix(file_name@, filters@[j].spec_file_pattern()),
        decreases filters@.len() - i,
    {
        if has_suffix(file_name, filters[i].file_pattern()) {
            return true;
        }
        i += 1;
    }
    false
}

/// Law: which files are skipped depends only on which filters occur, not
/// on their order or multiplicity — filter lists have set semantics.
pub proof fn lemma_skip_filters_set_semantics(
    f1: Seq<SkipBuildFilter>,
    f2: Seq<SkipBuildFilter>,
    name: Seq<char>,
)
    requires
        forall|f: SkipBuildFilter| f1.contains(f) <==> f2.contains(f),
    ensures
        spec_should_skip(f1, name) == spec_should_skip(f2, name),
{
    if spec_should_skip(f1, name) {
        let i = choose|i: int|
            0 <= i < f1.len() && spec_has_suffix(name, f1[i].spec_file_pattern());
        assert(f1.contains(f1[i]));
        let j = choose|j: int| 0 <= j < f2.len() && f2[j] == f1[i];
        assert(spec_has_suffix(name, f2[j].spec_file_pattern()));
    }
    if spec_should_skip(f2, name) {
        let i = choose|i: int|
            0 <= i < f2.len() && spec_has_suffix(name, f2[i].spec_file_pattern());
        assert(f2.contains(f2[i]));
        let j = choose|j: int| 0 <= j < f1.len() && f1[j] == f2[i];
        assert(spec_has_suffix(name, f1[j].spec_file_pattern()));
    }
}

} // verus!
