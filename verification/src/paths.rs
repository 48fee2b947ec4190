use vstd::prelude::*;

verus! {

/// What `std::path::Path::join` gives for `base` joined with `path`, written
/// back as a string, under the path rules of the platform the crate is built
/// for. It depends on the two strings alone.
pub uninterp spec fn path_join(base: Seq<char>, path: Seq<char>) -> Seq<char>;

/// Whether `std::path::Path::is_absolute` holds of `path` under the path rules
/// of the platform the crate is built for. It is the condition under which
/// `Path::join` documents that the joined path replaces the base.
pub uninterp spec fn path_is_absolute(path: Seq<char>) -> bool;

/// A plain file name: not empty, not `.` or `..`, and without a separator
/// (`/` or `\\`) or a drive colon, so that it is a relative path with neither
/// root nor prefix on every platform.
pub open spec fn plain_file_name(name: Seq<char>) -> bool {
    &&& name.len() > 0
    &&& !(name.len() == 1 && name[0] == '.')
    &&& !(name.len() == 2 && name[0] == '.' && name[1] == '.')
    &&& forall|i: int| 0 <= i < name.len() ==> name[i] != '/' && name[i] != '\\' && name[i] != ':'
}

/// Joins `path` onto `base` with `std::path::Path::join`.
///
/// Trusted: the result is `path_join` of the two strings, and, as the
/// documentation of `Path::join` says, an absolute `path` replaces `base`.
/// As the documentation of `PathBuf::push` says, a relative path without root
/// or prefix is appended to `base`, after a separator where one is needed;
/// so two different plain file names joined onto the same base give two
/// different paths. Both inputs are UTF-8, so the joined path converts back
/// to a string without loss.
#[verifier::external_body]
pub(crate) fn join_path(base: &str, path: &str) -> (r: String)
    ensures
        r@ == path_join(base@, path@),
        path_is_absolute(path@) ==> r@ == path@,
        forall|other: Seq<char>|
            plain_file_name(path@) && plain_file_name(other) && other != path@
                ==> #[trigger] path_join(base@, other) != r@,
{
    std::path::Path::new(base).join(path).to_string_lossy().into_owned()
}

/// Whether `path` is absolute, with `std::path::Path::is_absolute`.
///
/// Trusted: the result is `path_is_absolute` of the string.
#[verifier::external_body]
pub(crate) fn path_is_absolute_str(path: &str) -> (r: bool)
    ensures
        r == path_is_absolute(path@),
{
    std::path::Path::new(path).is_absolute()
}

} // verus!
