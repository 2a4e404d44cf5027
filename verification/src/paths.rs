//! File system paths handled as text.

use std::path::Path;
use vstd::prelude::*;

verus! {

/// A Windows verbatim path: it starts with `\\?\`.
pub open spec fn is_verbatim(base: Seq<char>) -> bool {
    base.len() >= 4 && base[0] == '\\' && base[1] == '\\' && base[2] == '?' && base[3] == '\\'
}

/// A relative path that `Path::join` appends to its base: it is not empty,
/// does not start at a root (`/` or `\`) and does not start with a drive
/// (a second character `:`).
pub open spec fn is_plain_relative(part: Seq<char>) -> bool {
    &&& part.len() > 0
    &&& part[0] != '/'
    &&& part[0] != '\\'
    &&& !(part.len() >= 2 && part[1] == ':')
}

/// `joined` is `base` followed by `part`, with at most one separator between them.
pub open spec fn joined_with_separator(base: Seq<char>, part: Seq<char>, joined: Seq<char>) -> bool {
    ||| joined == base + part
    ||| joined == base + seq!['/'] + part
    ||| joined == base + seq!['\\'] + part
}

/// What joining `part` to `base` gives: `part` itself after an empty base;
/// `base` and `part` with nothing between them after a base that ends in `/`;
/// `base`, one separator (`/` or `\`, as the platform has it) and `part` after
/// a base that ends in any other character than `/`, `\` or `:`. After a base
/// ending in `\` or `:` the platforms differ on whether a separator is put.
pub open spec fn is_path_join(base: Seq<char>, part: Seq<char>, joined: Seq<char>) -> bool {
    if base.len() == 0 {
        joined == part
    } else if base.last() == '/' {
        joined == base + part
    } else if base.last() == '\\' || base.last() == ':' {
        joined_with_separator(base, part, joined)
    } else {
        joined == base + seq!['/'] + part || joined == base + seq!['\\'] + part
    }
}

/// Calls `std::path::Path::join` and renders the result with `to_string_lossy`.
/// Claimed, for a base that is not verbatim and a plain relative part (the
/// case where `PathBuf::push` neither replaces the base nor rewrites the part):
/// a separator is put exactly when the base is not empty and does not end in a
/// separator, the bare drive `C:` aside. Which separator is the platform's.
#[verifier::external_body]
pub(crate) fn path_join(base: &str, part: &str) -> (joined: String)
    ensures
        !is_verbatim(base@) && is_plain_relative(part@) ==> is_path_join(base@, part@, joined@),
{
    Path::new(base).join(part).to_string_lossy().into_owned()
}

/// A base that stays clear of the verbatim prefix when plain parts are joined
/// to it: it does not start with `\\?`.
pub open spec fn is_ordinary_base(base: Seq<char>) -> bool {
    !(base.len() >= 3 && base[0] == '\\' && base[1] == '\\' && base[2] == '?')
}

/// Joining a plain part that does not start with `?` to an ordinary base gives
/// an ordinary base.
pub proof fn lemma_join_keeps_ordinary(base: Seq<char>, part: Seq<char>, joined: Seq<char>)
    requires
        is_path_join(base, part, joined),
        is_ordinary_base(base),
        is_plain_relative(part),
        part[0] != '?',
    ensures
        is_ordinary_base(joined),
        !is_verbatim(joined),
{
    if base.len() >= 3 {
        assert(joined[0] == base[0] && joined[1] == base[1] && joined[2] == base[2]);
    } else if base.len() == 0 {
        assert(joined == part);
    } else if base.len() == 1 {
        assert(joined[0] == base[0]);
        if joined == base + part {
            assert(joined[1] == part[0]);
        } else {
            assert(joined[2] == part[0]);
        }
    } else {
        assert(joined[0] == base[0] && joined[1] == base[1]);
        if joined == base + part {
            assert(joined[2] == part[0]);
        } else {
            assert(joined[2] == '/' || joined[2] == '\\');
        }
    }
}

} // verus!
