use vstd::prelude::*;

use crate::error::Error;

verus! {

/// The patch that `bsdiff::diff` writes for turning `old` into `new`.
pub uninterp spec fn bsdiff_diff_output(old: Seq<u8>, new: Seq<u8>) -> Seq<u8>;

/// What `bsdiff::patch` writes when it applies `patch` to `old`; `None` where
/// it reports the patch as malformed.
pub uninterp spec fn bsdiff_patch_output(old: Seq<u8>, patch: Seq<u8>) -> Option<Seq<u8>>;

/// Writes the patch from `base` to `target` into `patch` with `bsdiff::diff`.
///
/// Trusted: `diff` fails only where its writer fails, and writing to a
/// `Vec<u8>` appends to it, growing it as needed (std's documentation of
/// `impl Write for Vec<u8>`), so the call succeeds. The patch is appended to
/// `patch` and is `bsdiff_diff_output(base, target)`; as bsdiff's
/// documentation of `diff` says, applying that patch to `base` with
/// `bsdiff::patch` gives `target`.
#[verifier::external_body]
fn bsdiff_diff(base: &[u8], target: &[u8], patch: &mut Vec<u8>) -> (r: Result<(), std::io::Error>)
    ensures
        r is Ok,
        final(patch)@ == old(patch)@ + bsdiff_diff_output(base@, target@),
        bsdiff_patch_output(base@, final(patch)@.skip(old(patch)@.len() as int)) == Some(target@),
{
    bsdiff::diff(base, target, patch)
}

/// Applies `patch` to `base` with `bsdiff::patch`, appending to `out`.
///
/// Trusted: the patch is read from a byte slice, which never fails to read,
/// so whether it succeeds and what it appends depend on `base` and `patch`
/// alone; on success `bsdiff_patch_output(base, patch)` is appended to `out`.
/// What `out` holds after a failure is not stated.
#[verifier::external_body]
fn bsdiff_patch(base: &[u8], patch: &[u8], out: &mut Vec<u8>) -> (r: Result<(), std::io::Error>)
    ensures
        (r is Ok) == (bsdiff_patch_output(base@, patch@) is Some),
        r is Ok ==> final(out)@ == old(out)@ + bsdiff_patch_output(base@, patch@)->0,
{
    let mut reader = patch;
    bsdiff::patch(base, &mut reader, out)
}

/// The bytes of the patched game executable: a bsdiff patch from the
/// current executable to the modded one is made and applied back to the
/// current executable. What comes out is the modded executable; both steps
/// succeed on every input.
pub fn patched_exe_bytes(exe_bytes: &[u8], modded_bytes: &[u8]) -> (r: Result<Vec<u8>, Error>)
    ensures
        r is Ok,
        r matches Ok(v) ==> v@ == modded_bytes@,
{
    let mut patch: Vec<u8> = Vec::new();
    match bsdiff_diff(exe_bytes, modded_bytes, &mut patch) {
        Ok(()) => {},
        Err(e) => return Err(Error::IoError(e)),
    }
    assert(patch@.skip(0) =~= patch@);
    let mut patched: Vec<u8> = Vec::with_capacity(modded_bytes.len());
    match bsdiff_patch(exe_bytes, patch.as_slice(), &mut patched) {
        Ok(()) => {
            assert(patched@ =~= modded_bytes@);
            Ok(patched)
        },
        Err(e) => Err(Error::IoError(e)),
    }
}

} // verus!
