//! Names for assembled assets: a fresh content token plus an extension
//! derived from the client-supplied file name.

use vstd::prelude::*;
use vstd::string::StrSliceExecFns;
use vstd::string::StringExecFns;
use crate::config::AssetClass;
use crate::config::spec_default_extension;
use crate::config::default_extension;

verus! {

/// Position `i` holds the last dot of `name`, and an extension follows it:
/// the dot is neither the first nor the last character.
pub open spec fn extension_dot(name: Seq<char>, i: int) -> bool {
    &&& 0 < i < name.len() - 1
    &&& name[i] == '.'
    &&& forall|j: int| i < j < name.len() ==> name[j] != '.'
}

/// A file name carries an extension when a dot splits a non-empty stem from
/// a non-empty suffix.
pub open spec fn has_extension(name: Seq<char>) -> bool {
    exists|i: int| extension_dot(name, i)
}

/// The characters after the last dot of `name`.
pub open spec fn spec_extension(name: Seq<char>) -> Seq<char> {
    let i = choose|i: int| extension_dot(name, i);
    name.subrange(i + 1, name.len() as int)
}

/// At most one position can hold the last dot.
pub proof fn lemma_extension_dot_unique(name: Seq<char>, i: int, j: int)
    requires
        extension_dot(name, i),
        extension_dot(name, j),
    ensures
        i == j,
{
    if i < j {
        assert(name[j] != '.');
    }
    if j < i {
        assert(name[i] != '.');
    }
}

/// The extension of a client-supplied file name: the characters after its
/// last dot, or `None` when there is no dot, the name starts with its only
/// dot, or the dot is the final character.
pub fn extension_of(name: &str) -> (r: Option<String>)
    ensures
        match r {
            Some(e) => has_extension(name@) && e@ == spec_extension(name@),
            None => !has_extension(name@),
        },
{
    let n = name.unicode_len();
    let mut i: usize = n;
    while i > 0
        invariant
            i <= n,
            n == name@.len(),
            forall|j: int| i <= j < n ==> name@[j] != '.',
        decreases i,
    {
        i = i - 1;
        if name.get_char(i) == '.' {
            if i > 0 && i + 1 < n {
                let e = name.substring_char(i + 1, n).to_owned();
                proof {
                    assert(extension_dot(name@, i as int));
                    lemma_extension_dot_unique(
                        name@,
                        i as int,
                        choose|k: int| extension_dot(name@, k),
                    );
                }
                return Some(e);
            } else {
                proof {
                    assert forall|k: int| !extension_dot(name@, k) by {
                        if extension_dot(name@, k) {
                            if k < i {
                                assert(name@[i as int] != '.');
                            }
                        }
                    }
                }
                return None;
            }
        }
    }
    proof {
        assert forall|k: int| !extension_dot(name@, k) by {
            if extension_dot(name@, k) {
                assert(name@[k] != '.');
            }
        }
    }
    None
}

/// The name an assembled asset is stored under: the content token, a dot,
/// and the extension taken from the original file name, or the class default
/// when the original has none.
pub open spec fn spec_asset_name(
    token: Seq<char>,
    original: Seq<char>,
    class: AssetClass,
) -> Seq<char> {
    let ext = if has_extension(original) {
        spec_extension(original)
    } else {
        spec_default_extension(class)
    };
    token + seq!['.'] + ext
}

/// Builds the stored name of an assembled asset from a fresh content token
/// and the original file name.
pub fn make_asset_name(token: &str, original: &str, class: AssetClass) -> (r: String)
    ensures
        r@ == spec_asset_name(token@, original@, class),
{
    let mut out = token.to_owned();
    out.append(".");
    proof {
        reveal_strlit(".");
        assert("."@ =~= seq!['.']);
    }
    match extension_of(original) {
        Some(e) => {
            out.append(e.as_str());
        },
        None => {
            out.append(default_extension(class));
        },
    }
    proof {
        assert(out@ =~= spec_asset_name(token@, original@, class));
    }
    out
}

/// Relies on `uuid::Uuid::new_v4` and its `Display` form: a freshly
/// generated random version-4 identifier, rendered in the hyphenated format,
/// which is exactly 36 characters long.
#[verifier::external_body]
pub(crate) fn fresh_token() -> (r: String)
    ensures
        r@.len() == 36,
{
    uuid::Uuid::new_v4().to_string()
}

} // verus!
