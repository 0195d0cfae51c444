//! Path helpers: existence probing and parent-directory computation on
//! plain `/`-separated path strings.

use vstd::prelude::*;

use crate::error::EspressoError;

verus! {

/// Relies on std::path::Path::exists: probes the filesystem, so nothing is
/// promised of the result; callers decide from the returned flag alone.
#[verifier::external_body]
pub fn does_path_exist(path: &String) -> bool {
    std::path::Path::new(path.as_str()).exists()
}

/// The longest prefix of `s` that ends in `/`, or the empty sequence when
/// `s` holds no `/` at all.
pub open spec fn parent_path(s: Seq<char>) -> Seq<char>
    decreases s.len(),
{
    if s.len() == 0 {
        Seq::empty()
    } else if s.last() == '/' {
        s
    } else {
        parent_path(s.drop_last())
    }
}

proof fn lemma_parent_path_at(s: Seq<char>, i: int)
    requires
        0 <= i < s.len(),
        s[i] == '/',
        forall|j: int| i < j < s.len() ==> s[j] != '/',
    ensures
        parent_path(s) == s.subrange(0, i + 1),
    decreases s.len(),
{
    if i == s.len() - 1 {
        assert(s.subrange(0, i + 1) =~= s);
    } else {
        lemma_parent_path_at(s.drop_last(), i);
        assert(s.drop_last().subrange(0, i + 1) =~= s.subrange(0, i + 1));
    }
}

proof fn lemma_parent_path_none(s: Seq<char>)
    requires
        forall|j: int| 0 <= j < s.len() ==> s[j] != '/',
    ensures
        parent_path(s) == Seq::<char>::empty(),
    decreases s.len(),
{
    if s.len() > 0 {
        lemma_parent_path_none(s.drop_last());
    }
}

/// The parent directory of a file path: everything up to and including the
/// last `/`, or the empty string for a bare file name.
pub fn get_parent_path_of_file(file_path: &String) -> (r: Result<String, EspressoError>)
    ensures
        r matches Ok(p) && p@ == parent_path(file_path@),
{
    let s = file_path.as_str();
    match crate::strutil::find_last_char(s, '/') {
        Some(i) => {
            let len = s.unicode_len();
            let parent = s.substring_char(0, i + 1);
            proof {
                lemma_parent_path_at(s@, i as int);
            }
            Ok(parent.to_owned())
        },
        None => {
            proof {
                lemma_parent_path_none(s@);
            }
            Ok(String::new())
        },
    }
}

} // verus!
