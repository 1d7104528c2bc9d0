use vstd::prelude::*;
use crate::text::{decimal, decimal_string, is_digit, lemma_decimal_digits, lemma_decimal_injective};

verus! {

/// What `std::path::Path::file_name` gives for a path.
pub uninterp spec fn file_name_of(path: Seq<char>) -> Option<Seq<char>>;

/// Relies on `std::path::Path::file_name`: the final component of the path,
/// if there is one; it depends on the text of the path alone.
#[verifier::external_body]
pub(crate) fn path_file_name(path: &str) -> (r: Option<String>)
    ensures
        match r {
            Some(n) => file_name_of(path@) == Some(n@),
            None => file_name_of(path@) is None,
        },
{
    std::path::Path::new(path).file_name().map(|n| n.to_string_lossy().into_owned())
}

pub open spec fn staged_prefix() -> Seq<char> {
    seq!['t', 'e', 'm', 'p', '_']
}

/// The name under which a module file called `file_name` is staged at
/// `timestamp` (seconds since the Unix epoch): `temp_<timestamp>_<file_name>`.
pub open spec fn staged_name(timestamp: nat, file_name: Seq<char>) -> Seq<char> {
    staged_prefix() + decimal(timestamp) + seq!['_'] + file_name
}

/// Builds the staged copy's file name, `temp_<timestamp>_<file_name>`.
pub fn staged_file_name(timestamp: u64, file_name: &str) -> (r: String)
    ensures
        r@ == staged_name(timestamp as nat, file_name@),
{
    let mut name = String::from_str("temp_");
    let digits = decimal_string(timestamp);
    name.append(digits.as_str());
    name.append("_");
    name.append(file_name);
    proof {
        reveal_strlit("temp_");
        reveal_strlit("_");
    }
    assert(name@ =~= staged_name(timestamp as nat, file_name@));
    name
}

/// Staged names never collide: two stagings share a name only when they were
/// made in the same second from files of the same name.
pub proof fn lemma_staged_names_distinct(t1: nat, f1: Seq<char>, t2: nat, f2: Seq<char>)
    requires
        t1 != t2 || f1 != f2,
    ensures
        staged_name(t1, f1) != staged_name(t2, f2),
{
    if staged_name(t1, f1) == staged_name(t2, f2) {
        let s = staged_name(t1, f1);
        let d1 = decimal(t1);
        let d2 = decimal(t2);
        let n1 = d1.len() as int;
        let n2 = d2.len() as int;
        lemma_decimal_digits(t1);
        lemma_decimal_digits(t2);
        assert(s[5 + n1] == '_');
        assert(staged_name(t2, f2)[5 + n2] == '_');
        if n1 < n2 {
            assert(staged_name(t2, f2)[5 + n1] == d2[n1]);
            assert(is_digit(d2[n1]));
        } else if n2 < n1 {
            assert(s[5 + n2] == d1[n2]);
            assert(is_digit(d1[n2]));
        } else {
            assert(d1 =~= s.subrange(5, 5 + n1));
            assert(d2 =~= staged_name(t2, f2).subrange(5, 5 + n2));
            lemma_decimal_injective(t1, t2);
            assert(f1 =~= s.subrange(6 + n1, s.len() as int));
            assert(f2 =~= staged_name(t2, f2).subrange(6 + n2, s.len() as int));
        }
    }
}

/// The file name of a module called `basename` on this platform.
pub open spec fn module_file(basename: Seq<char>) -> Seq<char> {
    basename + seq!['.', 's', 'o']
}

/// Appends the platform's shared-module extension to a module's base name.
pub fn module_file_name(basename: &str) -> (r: String)
    ensures
        r@ == module_file(basename@),
{
    let mut name = String::from_str(basename);
    name.append(".so");
    proof {
        reveal_strlit(".so");
    }
    assert(name@ =~= module_file(basename@));
    name
}

/// Whether a mapped file called `file_name` is the module called `basename`.
pub fn is_module_file(file_name: &str, basename: &str) -> (r: bool)
    ensures
        r == (file_name@ == module_file(basename@)),
{
    let wanted = module_file_name(basename);
    let found = String::from_str(file_name);
    found == wanted
}

/// Whether one of the mapped files at `paths` is the module called `basename`:
/// some path's final component is the module's file name.
pub fn is_module_mapped(paths: &Vec<String>, basename: &str) -> (r: bool)
    ensures
        r == exists|i: int|
            0 <= i < paths@.len() && #[trigger] file_name_of(paths@[i]@) == Some(
                module_file(basename@),
            ),
{
    let mut i: usize = 0;
    while i < paths.len()
        invariant
            i <= paths@.len(),
            forall|j: int|
                0 <= j < i ==> #[trigger] file_name_of(paths@[j]@) != Some(module_file(basename@)),
        decreases paths@.len() - i,
    {
        match path_file_name(paths[i].as_str()) {
            Some(name) => {
                if is_module_file(name.as_str(), basename) {
                    return true;
                }
            },
            None => {},
        }
        i = i + 1;
    }
    false
}

} // verus!
