use vstd::prelude::*;

verus! {

/// Either of the 32-bit and 64-bit variants of a pelite view.
#[verifier::external_type_specification]
#[verifier::external_body]
#[verifier::reject_recursive_types(T32)]
#[verifier::reject_recursive_types(T64)]
pub struct ExPeliteWrap<T32, T64>(pelite::Wrap<T32, T64>);

/// A 32-bit PE file view of pelite.
#[verifier::external_type_specification]
#[verifier::external_body]
pub struct ExPe32File<'a>(pelite::pe32::PeFile<'a>);

/// A 64-bit PE file view of pelite.
#[verifier::external_type_specification]
#[verifier::external_body]
pub struct ExPe64File<'a>(pelite::pe64::PeFile<'a>);

/// The resource directory of a PE file.
#[verifier::external_type_specification]
#[verifier::external_body]
pub struct ExPeliteResources<'a>(pelite::resources::Resources<'a>);

/// The version information resource of a PE file.
#[verifier::external_type_specification]
#[verifier::external_body]
pub struct ExPeliteVersionInfo<'a>(pelite::resources::version_info::VersionInfo<'a>);

/// Language identifier of the neutral language in a version resource; with
/// `CHARSET_UNICODE` it selects the string table that product names and
/// versions are read from.
pub const LANG_NEUTRAL: u16 = 0x0000;

/// Character set identifier of Unicode in a version resource.
pub const CHARSET_UNICODE: u16 = 0x04b0;

/// Whether `image` can be a PE image at all: it holds a whole DOS header
/// (64 bytes) and starts with the DOS signature `MZ`. pelite reads the
/// signature as a native-endian `u16` equal to `0x5A4D`, so either byte order
/// of the two bytes is admitted here.
pub open spec fn may_be_pe_image(image: Seq<u8>) -> bool {
    &&& image.len() >= 64
    &&& ((image[0] == 0x4Du8 && image[1] == 0x5Au8) || (image[0] == 0x5Au8 && image[1] == 0x4Du8))
}

/// Views `image` as a PE file with `pelite::PeFile::from_bytes`.
///
/// `None` where pelite reports an error. Trusted: an image shorter than a DOS
/// header, or without the DOS signature, is refused (pelite's `Bounds` and
/// `BadMagic` errors, checked by `validate_headers` for both the 64-bit and
/// the 32-bit view). Nothing more is stated of the result: besides the bytes,
/// pelite also checks the alignment of the slice in memory, which is an
/// address.
#[verifier::external_body]
fn pe_file_from_bytes<'a>(image: &'a [u8]) -> (r: Option<pelite::PeFile<'a>>)
    ensures
        !may_be_pe_image(image@) ==> r is None,
{
    pelite::PeFile::from_bytes(image).ok()
}

/// Finds the resource directory with `pelite::PeFile::resources`.
///
/// pelite range-checks every offset it reads here (`slice_file`,
/// `range_file`), so the call returns on every file view.
/// `None` where pelite reports an error. Nothing is stated of the result: it is read from inside the opaque file
/// view.
#[verifier::external_body]
fn pe_file_resources<'a>(file: &pelite::PeFile<'a>) -> (r: Option<pelite::resources::Resources<'a>>) {
    file.resources().ok()
}

/// Finds the version information with `pelite::resources::Resources::version_info`.
///
/// The directory walk (`Directory::try_from`, `get_dir`, `first_data`,
/// `DataEntry::bytes`) checks every offset and length with `get` or checked
/// arithmetic, and `VersionInfo::try_from` only checks alignment, so the call
/// returns on every resource directory; the version resource is not parsed
/// here.
/// `None` where pelite reports an error. Nothing is stated of the result: it is read from inside the opaque
/// resource directory, and pelite checks the alignment of the resource in
/// memory.
#[verifier::external_body]
fn resources_version_info<'a>(resources: &pelite::resources::Resources<'a>) -> (r: Option<
    pelite::resources::version_info::VersionInfo<'a>,
>) {
    resources.version_info().ok()
}

/// Reads the version information resource out of the bytes of a PE image:
/// the image is viewed as a PE file, its resource directory is found, and the
/// version information in it. `None` where any of the three steps fails, and
/// in particular for bytes that cannot be a PE image.
pub fn read_pe_version_info<'a>(image: &'a [u8]) -> (r: Option<
    pelite::resources::version_info::VersionInfo<'a>,
>)
    ensures
        !may_be_pe_image(image@) ==> r is None,
{
    let file = match pe_file_from_bytes(image) {
        Some(file) => file,
        None => return None,
    };
    let resources = match pe_file_resources(&file) {
        Some(resources) => resources,
        None => return None,
    };
    resources_version_info(&resources)
}

} // verus!
