//! Base64 data URLs and JPEG encoding of developed previews.
use vstd::prelude::*;
use base64::Engine;

verus! {

/// What the standard (padded) Base64 engine of the `base64` crate makes of
/// these bytes.
pub uninterp spec fn base64_standard(bytes: Seq<u8>) -> Seq<char>;

/// A character of the standard Base64 alphabet, or its padding `=`.
pub open spec fn is_base64_char(c: char) -> bool {
    ('A' <= c && c <= 'Z') || ('a' <= c && c <= 'z') || ('0' <= c && c <= '9') || c == '+' || c == '/' || c == '='
}

/// The `base64` crate can size the encoding of `n` bytes: its padded length,
/// four characters per started group of three bytes, fits in a `usize`.
pub open spec fn base64_input_fits(n: int) -> bool {
    4 * ((n + 2) / 3) <= usize::MAX
}

/// Calls `base64::engine::general_purpose::STANDARD.encode`. Claims the result
/// is the named encoding of the bytes; that, as `base64::encoded_len` computes
/// it with padding, it has four characters per started group of three bytes;
/// and that every character is of the standard alphabet or the padding `=`
/// (`alphabet::STANDARD`, `general_purpose::PAD`). The crate panics when that
/// length overflows `usize`, which `requires` rules out.
#[verifier::external_body]
fn base64_encode(bytes: &[u8]) -> (r: String)
    requires
        base64_input_fits(bytes@.len() as int),
    ensures
        r@ == base64_standard(bytes@),
        r@.len() == 4 * ((bytes@.len() + 2) / 3),
        forall|i: int| 0 <= i < r@.len() ==> is_base64_char(#[trigger] r@[i]),
{
    base64::engine::general_purpose::STANDARD.encode(bytes)
}

/// The length of the `data:image/jpeg;base64,` prefix.
pub const DATA_URL_PREFIX_LEN: usize = 23;

/// A JPEG `data:` URL for `n` bytes has the padded Base64 length after its
/// prefix, and every character after the prefix is of the standard Base64
/// alphabet or the padding `=`.
pub open spec fn data_url_shape(url: Seq<char>, n: int) -> bool {
    &&& url.len() == DATA_URL_PREFIX_LEN + 4 * ((n + 2) / 3)
    &&& forall|i: int| DATA_URL_PREFIX_LEN <= i < url.len() ==> is_base64_char(#[trigger] url[i])
}

/// The `data:` URL under which the front end shows a JPEG.
pub open spec fn jpeg_data_url_text(jpeg: Seq<u8>) -> Seq<char> {
    "data:image/jpeg;base64,"@ + base64_standard(jpeg)
}

/// Wraps JPEG bytes in a `data:image/jpeg;base64,` URL.
pub fn jpeg_data_url(jpeg: &[u8]) -> (r: String)
    requires
        base64_input_fits(jpeg@.len() as int),
    ensures
        r@ == jpeg_data_url_text(jpeg@),
        data_url_shape(r@, jpeg@.len() as int),
{
    proof {
        reveal_strlit("data:image/jpeg;base64,");
    }
    let prefix = String::from_str("data:image/jpeg;base64,");
    let body = base64_encode(jpeg);
    let r = prefix.concat(body.as_str());
    proof {
        assert forall|i: int| DATA_URL_PREFIX_LEN <= i < r@.len() implies is_base64_char(#[trigger] r@[i]) by {
            assert(r@[i] == body@[i - DATA_URL_PREFIX_LEN]);
        }
    }
    r
}

/// How many bytes an 8-bit RGB image of these dimensions takes.
pub open spec fn rgb_len(width: u32, height: u32) -> int {
    3 * width * height
}

/// An 8-bit RGB image of these dimensions can be made from a buffer of `len`
/// bytes, as `image::RgbImage::from_raw` decides it: the size it computes with
/// checked multiplications, first `3 * width` and then that times `height`,
/// does not overflow `usize`, and the buffer holds at least that many bytes.
pub open spec fn rgb_buffer_fits(width: u32, height: u32, len: int) -> bool {
    &&& 3 * width <= usize::MAX
    &&& rgb_len(width, height) <= usize::MAX
    &&& rgb_len(width, height) <= len
}

/// Decides whether an 8-bit RGB image of these dimensions can be made from a
/// buffer of `len` bytes, and if so how many of them it uses.
pub fn rgb_buffer_size(width: u32, height: u32, len: usize) -> (r: Option<usize>)
    ensures
        r is Some <==> rgb_buffer_fits(width, height, len as int),
        r matches Some(n) ==> n == rgb_len(width, height),
{
    match 3usize.checked_mul(width as usize) {
        Some(row) => match row.checked_mul(height as usize) {
            Some(n) => if n <= len {
                Some(n)
            } else {
                None
            },
            None => None,
        },
        None => None,
    }
}

/// What the `image` crate's JPEG encoder writes for an 8-bit RGB image with
/// these dimensions and pixel bytes, or the text of its error.
pub uninterp spec fn jpeg_encoding(width: u32, height: u32, pixels: Seq<u8>) -> Result<Seq<u8>, Seq<char>>;

/// The views of an encoder outcome.
pub open spec fn bytes_or_text(r: Result<Vec<u8>, String>) -> Result<Seq<u8>, Seq<char>> {
    match r {
        Ok(v) => Ok(v@),
        Err(m) => Err(m@),
    }
}

/// The sides of a JPEG: the encoder takes sides from 1 to 65535.
pub open spec fn jpeg_sides_ok(width: u32, height: u32) -> bool {
    1 <= width <= 65535 && 1 <= height <= 65535
}

/// Calls `image::write_buffer_with_format` with `ExtendedColorType::Rgb8` and
/// `ImageFormat::Jpeg` into an in-memory cursor; this is the call that
/// `RgbImage::write_to` makes with the image's pixel bytes. The JPEG encoder
/// asserts that the buffer holds exactly `3 * width * height` bytes and then
/// unwraps `ImageBuffer::from_raw`, which needs that size computed without
/// overflow; `requires` states both. Claims the bytes written, or the error's
/// display text, are the named encoding; that it fails exactly when a side is
/// 0 or above 65535 (`JpegEncoder::encode_image`; writing to memory does not
/// fail); and, as for every `Vec<u8>`, that the output holds at most
/// `isize::MAX` bytes.
#[verifier::external_body]
fn write_rgb8_jpeg(pixels: &[u8], width: u32, height: u32) -> (r: Result<Vec<u8>, String>)
    requires
        rgb_buffer_fits(width, height, pixels@.len() as int),
        pixels@.len() == rgb_len(width, height),
    ensures
        bytes_or_text(r) == jpeg_encoding(width, height, pixels@),
        r is Ok <==> jpeg_sides_ok(width, height),
        r matches Ok(v) ==> v@.len() <= isize::MAX,
{
    let mut out = std::io::Cursor::new(Vec::new());
    let color = image::ExtendedColorType::Rgb8;
    match image::write_buffer_with_format(&mut out, pixels, width, height, color, image::ImageFormat::Jpeg) {
        Ok(()) => Ok(out.into_inner()),
        Err(e) => Err(e.to_string()),
    }
}

/// The views of a text outcome.
pub open spec fn text_result(r: Result<String, String>) -> Result<Seq<char>, Seq<char>> {
    match r {
        Ok(s) => Ok(s@),
        Err(m) => Err(m@),
    }
}

/// What encoding a developed preview gives: the buffer error, the encoder's
/// error behind `JPEG encode failed: `, or the JPEG as a data URL.
pub open spec fn preview_outcome(width: u32, height: u32, pixels: Seq<u8>) -> Result<Seq<char>, Seq<char>> {
    if !rgb_buffer_fits(width, height, pixels.len() as int) {
        Err("Failed to create image buffer"@)
    } else {
        match jpeg_encoding(width, height, pixels.take(rgb_len(width, height))) {
            Ok(jpeg) => Ok(jpeg_data_url_text(jpeg)),
            Err(m) => Err("JPEG encode failed: "@ + m),
        }
    }
}

proof fn lemma_vec_len_encodes(n: int)
    requires
        0 <= n <= isize::MAX,
    ensures
        base64_input_fits(n),
{
    assert(usize::MAX == isize::MAX * 2 + 1) by {
        assert(usize::BITS == 32 || usize::BITS == 64);
    }
}

/// Encodes developed 8-bit RGB pixels (row-major, `width * height` pixels)
/// as a JPEG and returns it as a `data:` URL for the front end.
pub fn encode_preview(width: u32, height: u32, pixels: Vec<u8>) -> (r: Result<String, String>)
    ensures
        text_result(r) == preview_outcome(width, height, pixels@),
        rgb_buffer_fits(width, height, pixels@.len() as int) ==> (r is Ok <==> jpeg_sides_ok(width, height)),
        r matches Ok(url) ==> jpeg_encoding(width, height, pixels@.take(rgb_len(width, height))) matches Ok(jpeg)
            && data_url_shape(url@, jpeg.len() as int),
{
    let n = match rgb_buffer_size(width, height, pixels.len()) {
        Some(n) => n,
        None => return Err(String::from_str("Failed to create image buffer")),
    };
    let used = &pixels.as_slice()[0..n];
    match write_rgb8_jpeg(used, width, height) {
        Ok(jpeg) => {
            proof {
                lemma_vec_len_encodes(jpeg@.len() as int);
            }
            Ok(jpeg_data_url(jpeg.as_slice()))
        },
        Err(m) => Err(String::from_str("JPEG encode failed: ").concat(m.as_str())),
    }
}

} // verus!
