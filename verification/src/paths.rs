//! File-system paths, held as strings.
use vstd::prelude::*;

verus! {

/// A single relative path component: non-empty, no separator, no drive
/// colon, and neither `.` nor `..`.
pub open spec fn is_plain_file_name(name: Seq<char>) -> bool {
    &&& name.len() > 0
    &&& forall|i: int| 0 <= i < name.len() ==> {
        let c = #[trigger] name[i];
        c != '/' && c != '\\' && c != ':'
    }
    &&& name != seq!['.']
    &&& name != seq!['.', '.']
}

/// `res` ends with the component `name`.
pub open spec fn ends_with_component(res: Seq<char>, name: Seq<char>) -> bool {
    &&& res.len() >= name.len()
    &&& res.subrange(res.len() - name.len(), res.len() as int) == name
}

/// `base` begins with `\\?`, the verbatim prefix of Windows, under which
/// joining rebuilds the whole path from its components.
pub open spec fn is_verbatim(base: Seq<char>) -> bool {
    &&& base.len() >= 3
    &&& base[0] == '\\'
    &&& base[1] == '\\'
    &&& base[2] == '?'
}

/// `res` is `base`, a separator (`/` or `\`) and `name`; or `base` and
/// `name` with nothing between, which happens only when `base` is empty or
/// already ends in a separator or a drive's colon.
pub open spec fn is_joined(res: Seq<char>, base: Seq<char>, name: Seq<char>) -> bool {
    ||| res == base + name && (base.len() == 0 || base.last() == '/' || base.last() == '\\'
        || base.last() == ':')
    ||| res == base + seq!['/'] + name
    ||| res == base + seq!['\\'] + name
}

/// `base` adjoined with a plain file name, by `std::path::Path::join`.
///
/// A plain name is relative and has no prefix, so `join` extends `base`
/// with it, putting the platform's separator in between unless `base` is
/// empty, ends in a separator, or is a bare drive. Which separator that is
/// depends on the platform, so the contract allows both. A verbatim `base`
/// is rebuilt from its components, so for it the contract states only that
/// the joined path ends with `name`.
#[verifier::external_body]
pub(crate) fn join_path(base: &str, name: &str) -> (res: String)
    requires
        is_plain_file_name(name@),
    ensures
        ends_with_component(res@, name@),
        !is_verbatim(base@) ==> is_joined(res@, base@, name@),
{
    std::path::Path::new(base).join(name).to_string_lossy().into_owned()
}

} // verus!
