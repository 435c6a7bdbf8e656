//! The EXIF attributes of a RAW file header, read through the `kamadak-exif`
//! crate (imported as `exif`).
use vstd::prelude::*;

verus! {

#[verifier::external_type_specification]
#[verifier::external_body]
pub struct ExExif(exif::Exif);

/// The IFD that a tag number is read in.
#[derive(Clone, Copy, Debug)]
pub enum ExifContext {
    /// The primary TIFF IFD.
    Tiff,
    /// The Exif sub-IFD.
    Exif,
}

/// What `exif::Reader::read_from_container` reports for a header: `None`
/// where it parses, else the text of its error.
pub uninterp spec fn exif_read_error(header: Seq<u8>) -> Option<Seq<char>>;

/// The display text, with its unit, of the field with this tag in the primary
/// image of the parsed header, `None` where there is no such field.
pub uninterp spec fn exif_field_text(header: Seq<u8>, context: ExifContext, number: u16) -> Option<Seq<char>>;

/// The first unsigned integer of the field with this tag in the primary image
/// of the parsed header, `None` where there is no such field or its value is
/// not an unsigned integer.
pub uninterp spec fn exif_field_uint(header: Seq<u8>, context: ExifContext, number: u16) -> Option<u32>;

/// The EXIF attributes parsed from a header, with the header they came from.
pub struct ExifData {
    exif: exif::Exif,
    source: Ghost<Seq<u8>>,
}

impl ExifData {
    /// The header bytes these attributes were parsed from.
    pub closed spec fn source(&self) -> Seq<u8> {
        self.source@
    }
}

/// The views of an optional string.
pub open spec fn opt_text(o: Option<String>) -> Option<Seq<char>> {
    match o {
        Some(s) => Some(s@),
        None => None,
    }
}

/// Calls `exif::Reader::new().read_from_container` on the header bytes, held
/// in memory. Claims that the outcome is a function of the bytes
/// (`exif_read_error`), that an error comes back as its display text, that
/// the parsed attributes remember the bytes, and that a header shorter than
/// every signature the reader knows (2 bytes, JPEG's) is refused as
/// `Unknown image format`.
#[verifier::external_body]
pub(crate) fn read_exif(header: &[u8]) -> (res: Result<ExifData, String>)
    ensures
        match res {
            Ok(d) => d.source() == header@ && exif_read_error(header@) is None && header@.len() >= 2,
            Err(m) => exif_read_error(header@) == Some(m@) && (header@.len() < 2 ==> m@ == "Unknown image format"@),
        },
{
    match exif::Reader::new().read_from_container(&mut std::io::Cursor::new(header)) {
        Ok(exif) => Ok(ExifData { exif, source: Ghost(header@) }),
        Err(e) => Err(e.to_string()),
    }
}

/// Calls `exif::Exif::get_field` for the tag in `exif::In::PRIMARY` and, for a
/// field that is there, `display_value().with_unit(..).to_string()`. Claims that
/// the text is the named function of the header and the tag.
#[verifier::external_body]
pub(crate) fn exif_display_text(data: &ExifData, context: ExifContext, number: u16) -> (r: Option<String>)
    ensures
        opt_text(r) == exif_field_text(data.source(), context, number),
{
    let ctx = match context {
        ExifContext::Tiff => exif::Context::Tiff,
        ExifContext::Exif => exif::Context::Exif,
    };
    match data.exif.get_field(exif::Tag(ctx, number), exif::In::PRIMARY) {
        Some(f) => Some(f.display_value().with_unit(&data.exif).to_string()),
        None => None,
    }
}

/// Calls `exif::Exif::get_field` for the tag in `exif::In::PRIMARY` and, for a
/// field that is there, `value.get_uint(0)`. Claims that the number is the
/// named function of the header and the tag.
#[verifier::external_body]
pub(crate) fn exif_first_uint(data: &ExifData, context: ExifContext, number: u16) -> (r: Option<u32>)
    ensures
        r == exif_field_uint(data.source(), context, number),
{
    let ctx = match context {
        ExifContext::Tiff => exif::Context::Tiff,
        ExifContext::Exif => exif::Context::Exif,
    };
    match data.exif.get_field(exif::Tag(ctx, number), exif::In::PRIMARY) {
        Some(f) => f.value.get_uint(0),
        None => None,
    }
}

} // verus!
