//! What is set aside when a response is compared with a recorded one:
//! the separators of the file paths it names.

use vstd::prelude::*;
use vstd::string::{StrSliceExecFns, StringExecFns};

verus! {

/// Whether `c` separates the parts of a path on some host.
pub open spec fn is_path_separator(c: char) -> bool {
    c == '/' || c == '\\'
}

/// The test of a character for being kept.
pub open spec fn kept() -> spec_fn(char) -> bool {
    |c: char| !is_path_separator(c)
}

/// A path without its separators: what is left is the same on every
/// host.
pub open spec fn spec_strip_path_separators(path: Seq<char>) -> Seq<char> {
    path.filter(kept())
}

/// `path` without its separators, forward and backward.
///
/// The path is read character by character from its start each time, so
/// the time this takes grows with the square of its length.
pub fn strip_path_separators(path: &str) -> (bare: String)
    ensures
        bare@ == spec_strip_path_separators(path@),
{
    let n = path.unicode_len();
    let mut bare = String::new();
    let mut i: usize = 0;
    proof {
        assert(path@.take(0) =~= Seq::<char>::empty());
        assert(Seq::<char>::empty().filter(kept()) =~= Seq::<char>::empty()) by {
            reveal(Seq::filter);
        }
    }
    while i < n
        invariant
            n == path@.len(),
            i <= n,
            bare@ == spec_strip_path_separators(path@.take(i as int)),
        decreases n - i,
    {
        let c = path.get_char(i);
        proof {
            assert(path@.take(i + 1) =~= path@.take(i as int).push(c));
            path@.take(i as int).lemma_filter_push(c, kept());
        }
        if c != '/' && c != '\\' {
            let one = path.substring_char(i, i + 1);
            proof {
                assert(one@ =~= seq![c]);
                assert(bare@ + one@ =~= bare@.push(c));
            }
            bare.append(one);
        }
        i += 1;
    }
    proof {
        assert(path@.take(n as int) =~= path@);
    }
    bare
}

/// Whether two paths are the same but for their separators.
pub fn same_path_modulo_separators(a: &str, b: &str) -> (same: bool)
    ensures
        same == (spec_strip_path_separators(a@) == spec_strip_path_separators(b@)),
{
    let x = strip_path_separators(a);
    let y = strip_path_separators(b);
    crate::text::str_eq(x.as_str(), y.as_str())
}

} // verus!
