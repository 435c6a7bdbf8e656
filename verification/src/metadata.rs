//! The metadata panel: what a RAW file's header says about the shot, and
//! where its embedded thumbnail lies.
use vstd::prelude::*;
use crate::encoding::{jpeg_data_url, jpeg_data_url_text};
use crate::exif_data::{
    ExifContext, exif_display_text, exif_field_text, exif_field_uint, exif_first_uint,
    exif_read_error, opt_text, read_exif,
};
use crate::text::{strip_quotes, without_quotes};

verus! {

/// How much of a RAW file is read to find its EXIF data and thumbnail:
/// 256 KiB, which holds the TIFF headers and the first IFD's thumbnail.
pub const HEADER_READ_LIMIT: u64 = 262144;

/// The largest embedded thumbnail that is read, 512 KiB; anything larger is
/// a full-size preview, not a thumbnail.
pub const THUMBNAIL_MAX_BYTES: u32 = 524288;

/// The EXIF tags the metadata panel reads.
#[derive(Clone, Copy, Debug)]
pub enum ExifTag {
    Make,
    Model,
    PixelXDimension,
    PixelYDimension,
    PhotographicSensitivity,
    IsoSpeed,
    ExposureTime,
    FNumber,
    FocalLength,
    LensModel,
    DateTaken,
    ThumbnailOffset,
    ThumbnailLength,
}

impl ExifTag {
    /// The IFD the tag belongs to.
    pub open spec fn context(self) -> ExifContext {
        match self {
            ExifTag::Make | ExifTag::Model | ExifTag::ThumbnailOffset | ExifTag::ThumbnailLength => ExifContext::Tiff,
            _ => ExifContext::Exif,
        }
    }

    /// The tag number, as the EXIF and TIFF standards assign it.
    pub open spec fn number(self) -> u16 {
        match self {
            ExifTag::Make => 0x10f,
            ExifTag::Model => 0x110,
            ExifTag::ThumbnailOffset => 0x201,
            ExifTag::ThumbnailLength => 0x202,
            ExifTag::ExposureTime => 0x829a,
            ExifTag::FNumber => 0x829d,
            ExifTag::PhotographicSensitivity => 0x8827,
            ExifTag::IsoSpeed => 0x8833,
            ExifTag::DateTaken => 0x9003,
            ExifTag::FocalLength => 0x920a,
            ExifTag::PixelXDimension => 0xa002,
            ExifTag::PixelYDimension => 0xa003,
            ExifTag::LensModel => 0xa434,
        }
    }

    /// The IFD and number of the tag.
    pub fn key(&self) -> (r: (ExifContext, u16))
        ensures
            r == (self.context(), self.number()),
            *self is FNumber ==> r == (ExifContext::Exif, 0x829du16),
            *self is LensModel ==> r == (ExifContext::Exif, 0xa434u16),
    {
        match self {
            ExifTag::Make => (ExifContext::Tiff, 0x10f),
            ExifTag::Model => (ExifContext::Tiff, 0x110),
            ExifTag::ThumbnailOffset => (ExifContext::Tiff, 0x201),
            ExifTag::ThumbnailLength => (ExifContext::Tiff, 0x202),
            ExifTag::ExposureTime => (ExifContext::Exif, 0x829a),
            ExifTag::FNumber => (ExifContext::Exif, 0x829d),
            ExifTag::PhotographicSensitivity => (ExifContext::Exif, 0x8827),
            ExifTag::IsoSpeed => (ExifContext::Exif, 0x8833),
            ExifTag::DateTaken => (ExifContext::Exif, 0x9003),
            ExifTag::FocalLength => (ExifContext::Exif, 0x920a),
            ExifTag::PixelXDimension => (ExifContext::Exif, 0xa002),
            ExifTag::PixelYDimension => (ExifContext::Exif, 0xa003),
            ExifTag::LensModel => (ExifContext::Exif, 0xa434),
        }
    }
}

/// The display text of a tag's field in a header.
pub open spec fn tag_text(header: Seq<u8>, tag: ExifTag) -> Option<Seq<char>> {
    exif_field_text(header, tag.context(), tag.number())
}

/// The first unsigned integer of a tag's field in a header.
pub open spec fn tag_uint(header: Seq<u8>, tag: ExifTag) -> Option<u32> {
    exif_field_uint(header, tag.context(), tag.number())
}

/// The raw EXIF values the metadata panel is built from: display texts as the
/// EXIF library renders them, and the first unsigned integer of the numeric
/// fields.
pub struct ExifFields {
    pub make: Option<String>,
    pub model: Option<String>,
    pub pixel_x_dimension: Option<u32>,
    pub pixel_y_dimension: Option<u32>,
    pub photographic_sensitivity: Option<String>,
    pub iso_speed: Option<String>,
    pub exposure_time: Option<String>,
    pub f_number: Option<String>,
    pub focal_length: Option<String>,
    pub lens_model: Option<String>,
    pub date_time_taken: Option<String>,
    pub thumbnail_offset: Option<u32>,
    pub thumbnail_length: Option<u32>,
}

/// The values of `ExifFields`, as plain text.
pub struct ExifValues {
    pub make: Option<Seq<char>>,
    pub model: Option<Seq<char>>,
    pub pixel_x_dimension: Option<u32>,
    pub pixel_y_dimension: Option<u32>,
    pub photographic_sensitivity: Option<Seq<char>>,
    pub iso_speed: Option<Seq<char>>,
    pub exposure_time: Option<Seq<char>>,
    pub f_number: Option<Seq<char>>,
    pub focal_length: Option<Seq<char>>,
    pub lens_model: Option<Seq<char>>,
    pub date_time_taken: Option<Seq<char>>,
    pub thumbnail_offset: Option<u32>,
    pub thumbnail_length: Option<u32>,
}

impl View for ExifFields {
    type V = ExifValues;

    open spec fn view(&self) -> ExifValues {
        ExifValues {
            make: opt_text(self.make),
            model: opt_text(self.model),
            pixel_x_dimension: self.pixel_x_dimension,
            pixel_y_dimension: self.pixel_y_dimension,
            photographic_sensitivity: opt_text(self.photographic_sensitivity),
            iso_speed: opt_text(self.iso_speed),
            exposure_time: opt_text(self.exposure_time),
            f_number: opt_text(self.f_number),
            focal_length: opt_text(self.focal_length),
            lens_model: opt_text(self.lens_model),
            date_time_taken: opt_text(self.date_time_taken),
            thumbnail_offset: self.thumbnail_offset,
            thumbnail_length: self.thumbnail_length,
        }
    }
}

/// The values a parsed header holds for the tags the panel reads.
pub open spec fn header_values(header: Seq<u8>) -> ExifValues {
    ExifValues {
        make: exif_field_text(header, ExifContext::Tiff, 0x10f),
        model: exif_field_text(header, ExifContext::Tiff, 0x110),
        pixel_x_dimension: exif_field_uint(header, ExifContext::Exif, 0xa002),
        pixel_y_dimension: exif_field_uint(header, ExifContext::Exif, 0xa003),
        photographic_sensitivity: exif_field_text(header, ExifContext::Exif, 0x8827),
        iso_speed: exif_field_text(header, ExifContext::Exif, 0x8833),
        exposure_time: exif_field_text(header, ExifContext::Exif, 0x829a),
        f_number: exif_field_text(header, ExifContext::Exif, 0x829d),
        focal_length: exif_field_text(header, ExifContext::Exif, 0x920a),
        lens_model: exif_field_text(header, ExifContext::Exif, 0xa434),
        date_time_taken: exif_field_text(header, ExifContext::Exif, 0x9003),
        thumbnail_offset: exif_field_uint(header, ExifContext::Tiff, 0x201),
        thumbnail_length: exif_field_uint(header, ExifContext::Tiff, 0x202),
    }
}

/// Each tag is read in the IFD and under the number that the TIFF 6.0 and
/// EXIF standards assign it: Make 0x10f, Model 0x110, JPEGInterchangeFormat
/// 0x201 and JPEGInterchangeFormatLength 0x202 in the primary TIFF IFD;
/// ExposureTime 0x829a, FNumber 0x829d, PhotographicSensitivity 0x8827,
/// ISOSpeed 0x8833, DateTimeOriginal 0x9003, FocalLength 0x920a,
/// PixelXDimension 0xa002, PixelYDimension 0xa003 and LensModel 0xa434 in the
/// Exif sub-IFD.
pub proof fn lemma_exif_tag_keys()
    ensures
        ExifTag::Make.context() == ExifContext::Tiff && ExifTag::Make.number() == 0x10f,
        ExifTag::Model.context() == ExifContext::Tiff && ExifTag::Model.number() == 0x110,
        ExifTag::ThumbnailOffset.context() == ExifContext::Tiff && ExifTag::ThumbnailOffset.number() == 0x201,
        ExifTag::ThumbnailLength.context() == ExifContext::Tiff && ExifTag::ThumbnailLength.number() == 0x202,
        ExifTag::ExposureTime.context() == ExifContext::Exif && ExifTag::ExposureTime.number() == 0x829a,
        ExifTag::FNumber.context() == ExifContext::Exif && ExifTag::FNumber.number() == 0x829d,
        ExifTag::PhotographicSensitivity.context() == ExifContext::Exif
            && ExifTag::PhotographicSensitivity.number() == 0x8827,
        ExifTag::IsoSpeed.context() == ExifContext::Exif && ExifTag::IsoSpeed.number() == 0x8833,
        ExifTag::DateTaken.context() == ExifContext::Exif && ExifTag::DateTaken.number() == 0x9003,
        ExifTag::FocalLength.context() == ExifContext::Exif && ExifTag::FocalLength.number() == 0x920a,
        ExifTag::PixelXDimension.context() == ExifContext::Exif && ExifTag::PixelXDimension.number() == 0xa002,
        ExifTag::PixelYDimension.context() == ExifContext::Exif && ExifTag::PixelYDimension.number() == 0xa003,
        ExifTag::LensModel.context() == ExifContext::Exif && ExifTag::LensModel.number() == 0xa434,
{
}

/// The panel reads each of its fields under its standard tag: `header_values`
/// is what the tag lookups give for the panel's tags.
pub proof fn lemma_header_values_by_tag(header: Seq<u8>)
    ensures
        header_values(header).make == tag_text(header, ExifTag::Make),
        header_values(header).model == tag_text(header, ExifTag::Model),
        header_values(header).f_number == tag_text(header, ExifTag::FNumber),
        header_values(header).lens_model == tag_text(header, ExifTag::LensModel),
        header_values(header).exposure_time == tag_text(header, ExifTag::ExposureTime),
        header_values(header).focal_length == tag_text(header, ExifTag::FocalLength),
        header_values(header).date_time_taken == tag_text(header, ExifTag::DateTaken),
        header_values(header).photographic_sensitivity == tag_text(header, ExifTag::PhotographicSensitivity),
        header_values(header).iso_speed == tag_text(header, ExifTag::IsoSpeed),
        header_values(header).pixel_x_dimension == tag_uint(header, ExifTag::PixelXDimension),
        header_values(header).pixel_y_dimension == tag_uint(header, ExifTag::PixelYDimension),
        header_values(header).thumbnail_offset == tag_uint(header, ExifTag::ThumbnailOffset),
        header_values(header).thumbnail_length == tag_uint(header, ExifTag::ThumbnailLength),
{
}

fn tag_display(data: &crate::exif_data::ExifData, tag: ExifTag) -> (r: Option<String>)
    ensures
        opt_text(r) == tag_text(data.source(), tag),
{
    let (context, number) = tag.key();
    exif_display_text(data, context, number)
}

fn tag_first_uint(data: &crate::exif_data::ExifData, tag: ExifTag) -> (r: Option<u32>)
    ensures
        r == tag_uint(data.source(), tag),
{
    let (context, number) = tag.key();
    exif_first_uint(data, context, number)
}

/// Parses the EXIF data of a RAW file header and reads the fields the
/// metadata panel shows. Fails, with the parser's error text, exactly when
/// the header holds no EXIF data the parser accepts.
pub fn read_exif_fields(header: &[u8]) -> (r: Result<ExifFields, String>)
    ensures
        match r {
            Ok(f) => exif_read_error(header@) is None && f@ == header_values(header@),
            Err(m) => exif_read_error(header@) == Some(m@),
        },
        header@.len() < 2 ==> (r matches Err(m) && m@ == "Unknown image format"@),
{
    let data = match read_exif(header) {
        Ok(d) => d,
        Err(m) => return Err(m),
    };
    Ok(ExifFields {
        make: tag_display(&data, ExifTag::Make),
        model: tag_display(&data, ExifTag::Model),
        pixel_x_dimension: tag_first_uint(&data, ExifTag::PixelXDimension),
        pixel_y_dimension: tag_first_uint(&data, ExifTag::PixelYDimension),
        photographic_sensitivity: tag_display(&data, ExifTag::PhotographicSensitivity),
        iso_speed: tag_display(&data, ExifTag::IsoSpeed),
        exposure_time: tag_display(&data, ExifTag::ExposureTime),
        f_number: tag_display(&data, ExifTag::FNumber),
        focal_length: tag_display(&data, ExifTag::FocalLength),
        lens_model: tag_display(&data, ExifTag::LensModel),
        date_time_taken: tag_display(&data, ExifTag::DateTaken),
        thumbnail_offset: tag_first_uint(&data, ExifTag::ThumbnailOffset),
        thumbnail_length: tag_first_uint(&data, ExifTag::ThumbnailLength),
    })
}

/// What the metadata panel shows for one RAW file.
pub struct RawInfo {
    pub width: usize,
    pub height: usize,
    pub make: String,
    pub model: String,
    pub clean_make: String,
    pub clean_model: String,
    pub iso: Option<String>,
    pub shutter_speed: Option<String>,
    pub aperture: Option<String>,
    pub focal_length: Option<String>,
    pub lens_model: Option<String>,
    pub date_taken: Option<String>,
    pub file_size_bytes: u64,
    pub thumbnail_base64: Option<String>,
}

/// A display text as shown: without its quotes.
pub open spec fn shown(t: Option<Seq<char>>) -> Option<Seq<char>> {
    match t {
        Some(s) => Some(without_quotes(s)),
        None => None,
    }
}

/// A camera name as shown: without its quotes, or `Unknown` when absent.
pub open spec fn shown_or_unknown(t: Option<Seq<char>>) -> Seq<char> {
    match t {
        Some(s) => without_quotes(s),
        None => "Unknown"@,
    }
}

/// A pixel dimension as shown: the number, or 0 when absent.
pub open spec fn dimension(d: Option<u32>) -> usize {
    match d {
        Some(x) => x as usize,
        None => 0,
    }
}

/// The ISO speed: the photographic sensitivity, and where that field is
/// absent, the ISO speed field.
pub open spec fn iso_text(v: ExifValues) -> Option<Seq<char>> {
    match v.photographic_sensitivity {
        Some(s) => Some(without_quotes(s)),
        None => shown(v.iso_speed),
    }
}

/// `info` is what the panel shows for these EXIF values, file size and
/// thumbnail URL.
pub open spec fn info_agrees(info: RawInfo, v: ExifValues, file_size: u64, thumbnail: Option<Seq<char>>) -> bool {
    &&& info.width == dimension(v.pixel_x_dimension)
    &&& info.height == dimension(v.pixel_y_dimension)
    &&& info.make@ == shown_or_unknown(v.make)
    &&& info.model@ == shown_or_unknown(v.model)
    &&& info.clean_make@ == shown_or_unknown(v.make)
    &&& info.clean_model@ == shown_or_unknown(v.model)
    &&& opt_text(info.iso) == iso_text(v)
    &&& opt_text(info.shutter_speed) == shown(v.exposure_time)
    &&& opt_text(info.aperture) == shown(v.f_number)
    &&& opt_text(info.focal_length) == shown(v.focal_length)
    &&& opt_text(info.lens_model) == shown(v.lens_model)
    &&& opt_text(info.date_taken) == shown(v.date_time_taken)
    &&& info.file_size_bytes == file_size
    &&& opt_text(info.thumbnail_base64) == thumbnail
}

fn shown_text(t: &Option<String>) -> (r: Option<String>)
    ensures
        opt_text(r) == shown(opt_text(*t)),
{
    match t {
        Some(s) => Some(strip_quotes(s.as_str())),
        None => None,
    }
}

fn shown_name(t: &Option<String>) -> (r: String)
    ensures
        r@ == shown_or_unknown(opt_text(*t)),
{
    match t {
        Some(s) => strip_quotes(s.as_str()),
        None => String::from_str("Unknown"),
    }
}

fn shown_dimension(d: Option<u32>) -> (r: usize)
    ensures
        r == dimension(d),
{
    match d {
        Some(x) => x as usize,
        None => 0,
    }
}

/// Builds what the metadata panel shows from the EXIF values of a file, its
/// size and its thumbnail URL: quotes are removed from every text, a missing
/// make or model reads `Unknown`, a missing dimension reads 0, and the ISO
/// speed falls back from the photographic sensitivity to the ISO speed field.
pub fn raw_info_from_fields(fields: &ExifFields, file_size: u64, thumbnail: Option<String>) -> (r: RawInfo)
    ensures
        info_agrees(r, fields@, file_size, opt_text(thumbnail)),
{
    let make = shown_name(&fields.make);
    let model = shown_name(&fields.model);
    let iso = match &fields.photographic_sensitivity {
        Some(s) => Some(strip_quotes(s.as_str())),
        None => shown_text(&fields.iso_speed),
    };
    RawInfo {
        width: shown_dimension(fields.pixel_x_dimension),
        height: shown_dimension(fields.pixel_y_dimension),
        clean_make: make.clone(),
        clean_model: model.clone(),
        make,
        model,
        iso,
        shutter_speed: shown_text(&fields.exposure_time),
        aperture: shown_text(&fields.f_number),
        focal_length: shown_text(&fields.focal_length),
        lens_model: shown_text(&fields.lens_model),
        date_taken: shown_text(&fields.date_time_taken),
        file_size_bytes: file_size,
        thumbnail_base64: thumbnail,
    }
}

/// How many bytes of a file of `file_size` bytes are read as its header:
/// the whole file up to `HEADER_READ_LIMIT`.
pub fn header_read_limit(file_size: u64) -> (r: usize)
    ensures
        r == if file_size < HEADER_READ_LIMIT { file_size } else { HEADER_READ_LIMIT },
{
    if file_size < HEADER_READ_LIMIT {
        file_size as usize
    } else {
        HEADER_READ_LIMIT as usize
    }
}

/// Where an embedded thumbnail is to be read from.
#[derive(Clone, Copy, Debug)]
pub enum ThumbnailSource {
    /// No usable thumbnail: its offset or length is missing, or it is larger
    /// than `THUMBNAIL_MAX_BYTES`.
    Missing,
    /// The bytes `start..end` of the header already read.
    InHeader { start: usize, end: usize },
    /// `length` bytes at `offset` in the file, past the header.
    InFile { offset: u64, length: usize },
}

/// Where the thumbnail that the EXIF offset and length fields describe is
/// read from, given a header of `header_len` bytes.
pub open spec fn thumbnail_source(offset: Option<u32>, length: Option<u32>, header_len: usize) -> ThumbnailSource {
    match (offset, length) {
        (Some(o), Some(l)) => if l > THUMBNAIL_MAX_BYTES {
            ThumbnailSource::Missing
        } else if o + l <= header_len {
            ThumbnailSource::InHeader { start: o as usize, end: (o + l) as usize }
        } else {
            ThumbnailSource::InFile { offset: o as u64, length: l as usize }
        },
        _ => ThumbnailSource::Missing,
    }
}

/// Decides where the embedded thumbnail is read from: nowhere when its
/// offset or length is missing or it is larger than 512 KiB, from the header
/// when it lies inside it, else from the file.
pub fn locate_thumbnail(offset: Option<u32>, length: Option<u32>, header_len: usize) -> (r: ThumbnailSource)
    ensures
        r == thumbnail_source(offset, length, header_len),
{
    match (offset, length) {
        (Some(o), Some(l)) => {
            if l > THUMBNAIL_MAX_BYTES {
                ThumbnailSource::Missing
            } else if (o as u64) + (l as u64) <= (header_len as u64) {
                ThumbnailSource::InHeader { start: o as usize, end: (o as usize) + (l as usize) }
            } else {
                ThumbnailSource::InFile { offset: o as u64, length: l as usize }
            }
        },
        _ => ThumbnailSource::Missing,
    }
}

/// The metadata read from a RAW file's header, and where to read the
/// thumbnail from when it lies past the header.
pub struct HeaderReport {
    pub info: RawInfo,
    /// The offset and length of a thumbnail to read from the file; its URL is
    /// then `jpeg_data_url` of the bytes read.
    pub thumbnail_in_file: Option<(u64, usize)>,
}

/// Where a header's values place its thumbnail.
pub open spec fn header_thumbnail_source(header: Seq<u8>) -> ThumbnailSource {
    let v = header_values(header);
    thumbnail_source(v.thumbnail_offset, v.thumbnail_length, header.len() as usize)
}

/// The thumbnail URL taken from the header itself, if the thumbnail lies in it.
pub open spec fn header_thumbnail(header: Seq<u8>) -> Option<Seq<char>> {
    match header_thumbnail_source(header) {
        ThumbnailSource::InHeader { start, end } => Some(jpeg_data_url_text(header.subrange(start as int, end as int))),
        _ => None,
    }
}

/// The part of the file still to be read for the thumbnail.
pub open spec fn file_thumbnail_request(header: Seq<u8>) -> Option<(u64, usize)> {
    match header_thumbnail_source(header) {
        ThumbnailSource::InFile { offset, length } => Some((offset, length)),
        _ => None,
    }
}

/// Reads the metadata of a RAW file from its header (the first
/// `header_read_limit(file_size)` bytes of a file of `file_size` bytes).
/// Fails exactly when the header holds no EXIF data the parser accepts. A
/// thumbnail inside the header is returned as a data URL; one past it is left
/// for the caller to read.
pub fn inspect_header(header: &[u8], file_size: u64) -> (r: Result<HeaderReport, String>)
    ensures
        match r {
            Ok(report) => {
                &&& exif_read_error(header@) is None
                &&& info_agrees(report.info, header_values(header@), file_size, header_thumbnail(header@))
                &&& report.thumbnail_in_file == file_thumbnail_request(header@)
            },
            Err(m) => exif_read_error(header@) == Some(m@),
        },
        header@.len() < 2 ==> (r matches Err(m) && m@ == "Unknown image format"@),
{
    let fields = read_exif_fields(header)?;
    let (thumbnail, thumbnail_in_file) = match locate_thumbnail(
        fields.thumbnail_offset,
        fields.thumbnail_length,
        header.len(),
    ) {
        ThumbnailSource::InHeader { start, end } => {
            let jpeg = &header[start..end];
            (Some(jpeg_data_url(jpeg)), None)
        },
        ThumbnailSource::InFile { offset, length } => (None, Some((offset, length))),
        ThumbnailSource::Missing => (None, None),
    };
    Ok(HeaderReport { info: raw_info_from_fields(&fields, file_size, thumbnail), thumbnail_in_file })
}

} // verus!
