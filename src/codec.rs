//! Grayscale conversion of an uploaded image: detection, decoding, the
//! choice of output container, re-encoding and the base64 transport text.

use vstd::prelude::*;

use crate::response::{Response, STATUS_OK};
use crate::container::{container_kind, gif89a_signature, has_prefix, png_signature, ImageKind};

verus! {

#[verifier::external_type_specification]
#[verifier::external_body]
pub struct ExDynamicImage(image::DynamicImage);

#[verifier::external_type_specification]
#[verifier::external_body]
pub struct ExImageError(image::ImageError);

/// Whether the codec decodes `b` into an image.
pub uninterp spec fn decodes(b: Seq<u8>) -> bool;

/// The bytes the codec writes for the image decoded from `source`, taken to
/// grayscale first where `gray` holds, as a GIF where `gif` holds and as a
/// PNG otherwise; `None` where writing fails.
pub uninterp spec fn encoded_image(source: Seq<u8>, gray: bool, gif: bool) -> Option<Seq<u8>>;

/// A decoded image, with the upload it was decoded from and whether it has
/// been taken to grayscale. Only the codec wrappers below build one.
struct Decoded {
    img: image::DynamicImage,
    source: Ghost<Seq<u8>>,
    gray: Ghost<bool>,
}

/// Relies on image::load_from_memory, whose result depends on the bytes alone.
#[verifier::external_body]
fn decode(b: &[u8]) -> (r: Result<Decoded, image::ImageError>)
    ensures
        r is Ok <==> decodes(b@),
        r matches Ok(d) ==> d.source@ == b@ && !d.gray@,
{
    match image::load_from_memory(b) {
        Ok(img) => Ok(Decoded { img, source: Ghost(b@), gray: Ghost(false) }),
        Err(e) => Err(e),
    }
}

/// Relies on image::DynamicImage::grayscale, which returns a new image and
/// leaves its argument as it was.
#[verifier::external_body]
fn to_gray(d: &Decoded) -> (r: Decoded)
    ensures
        r.source@ == d.source@,
        r.gray@,
{
    Decoded { img: d.img.grayscale(), source: Ghost(d.source@), gray: Ghost(true) }
}

/// The container a converted image is written in.
#[derive(Clone, Copy, Debug, PartialEq, Eq, Structural)]
pub enum OutputFormat {
    Gif,
    Png,
}

/// A GIF stays a GIF; every other recognised container becomes a PNG.
pub open spec fn output_format_for(kind: ImageKind) -> OutputFormat {
    match kind {
        ImageKind::Gif => OutputFormat::Gif,
        _ => OutputFormat::Png,
    }
}

/// The container kind that an output format is read back as.
pub open spec fn kind_of_output(f: OutputFormat) -> ImageKind {
    match f {
        OutputFormat::Gif => ImageKind::Gif,
        OutputFormat::Png => ImageKind::Png,
    }
}

/// The signature that an encoder for `f` writes first.
pub open spec fn output_signature(f: OutputFormat) -> Seq<u8> {
    match f {
        OutputFormat::Gif => gif89a_signature(),
        OutputFormat::Png => png_signature(),
    }
}

/// Standard base64 (with padding) of `b`.
pub uninterp spec fn base64_text(b: Seq<u8>) -> Seq<char>;

/// A character of the standard base64 alphabet, or the padding '='.
pub open spec fn is_base64_char(c: char) -> bool {
    ||| 'A' <= c <= 'Z'
    ||| 'a' <= c <= 'z'
    ||| '0' <= c <= '9'
    ||| c == '+'
    ||| c == '/'
    ||| c == '='
}

pub open spec fn all_base64_chars(s: Seq<char>) -> bool {
    forall|i: int| 0 <= i < s.len() ==> is_base64_char(#[trigger] s[i])
}

/// The length of standard padded base64 text for `n` bytes.
pub open spec fn base64_len(n: nat) -> nat {
    4 * ((n + 2) / 3)
}

/// Relies on image::guess_format, which tests the start of `b` against its
/// table of magic bytes; the table's Gif and Png entries are told apart here.
#[verifier::external_body]
fn guess_kind(b: &[u8]) -> (r: Result<ImageKind, image::ImageError>)
    ensures
        r matches Ok(k) ==> container_kind(b@) == Some(k),
        r is Err ==> container_kind(b@) is None,
{
    match image::guess_format(b) {
        Ok(image::ImageFormat::Gif) => Ok(ImageKind::Gif),
        Ok(image::ImageFormat::Png) => Ok(ImageKind::Png),
        Ok(_) => Ok(ImageKind::Other),
        Err(e) => Err(e),
    }
}

/// Relies on image::DynamicImage::write_to into an in-memory cursor: the
/// bytes depend on the image and the format alone; the PNG encoder writes the
/// PNG signature first, the GIF encoder "GIF89a".
#[verifier::external_body]
fn encode_image(d: &Decoded, f: OutputFormat) -> (r: Result<Vec<u8>, image::ImageError>)
    ensures
        r is Err <==> encoded_image(d.source@, d.gray@, f == OutputFormat::Gif) is None,
        r matches Ok(v) ==> encoded_image(d.source@, d.gray@, f == OutputFormat::Gif) == Some(v@)
            && has_prefix(v@, output_signature(f)),
{
    let target = match f {
        OutputFormat::Gif => image::ImageOutputFormat::Gif,
        OutputFormat::Png => image::ImageOutputFormat::Png,
    };
    let mut cursor = std::io::Cursor::new(Vec::new());
    match d.img.write_to(&mut cursor, target) {
        Ok(()) => Ok(cursor.into_inner()),
        Err(e) => Err(e),
    }
}

/// Relies on base64::encode (standard alphabet, padded). It panics where the
/// output length overflows `usize`, which the bound here rules out.
#[verifier::external_body]
fn to_base64(b: &[u8]) -> (r: String)
    requires
        b@.len() <= usize::MAX / 2,
    ensures
        r@ == base64_text(b@),
        r@.len() == base64_len(b@.len()),
        all_base64_chars(r@),
{
    base64::encode(b)
}

} // verus!

verus! {

/// Why a recognised image could not be converted.
#[derive(Clone, Copy, Debug, PartialEq, Eq, Structural)]
pub enum ConvertError {
    /// The codec could not decode the body.
    Decode,
    /// The codec could not write the grayscale image.
    Encode,
    /// The encoded image is too large to be written as base64 text.
    TooLarge,
}

/// The reply to an upload whose bytes match no known container.
pub open spec fn unknown_format_text() -> Seq<char> {
    "Unknown image format"@
}

proof fn lemma_first_byte(b: Seq<u8>, p: Seq<u8>)
    requires
        has_prefix(b, p),
        p.len() > 0,
    ensures
        b.len() > 0,
        b[0] == p[0],
{
    assert(b.subrange(0, p.len() as int)[0] == b[0]);
}

/// Whatever an encoder for `f` writes is detected again as the container `f`
/// names: a GIF output reads back as GIF, a PNG output as PNG.
pub proof fn lemma_output_detected(enc: Seq<u8>, f: OutputFormat)
    requires
        has_prefix(enc, output_signature(f)),
    ensures
        container_kind(enc) == Some(kind_of_output(f)),
{
    lemma_first_byte(enc, output_signature(f));
    match f {
        OutputFormat::Png => {},
        OutputFormat::Gif => {
            if has_prefix(enc, png_signature()) {
                lemma_first_byte(enc, png_signature());
            }
        },
    }
}

/// The grayscale re-encoding of the upload `body`, in the container chosen
/// for `kind`.
pub open spec fn gray_output(body: Seq<u8>, kind: ImageKind) -> Option<Seq<u8>> {
    encoded_image(body, true, output_format_for(kind) == OutputFormat::Gif)
}

/// The outcome of converting the upload `body`, for every input:
/// - no container recognised: a 200 reply with the unknown-format text;
/// - recognised but not decodable: `Decode`;
/// - decoded but the grayscale image cannot be written: `Encode`;
/// - written, but too long for base64 text: `TooLarge`;
/// - else a 200 reply holding the base64 text of the grayscale re-encoding,
///   which is detected again as the chosen output container.
pub open spec fn converted(body: Seq<u8>, r: Result<Response, ConvertError>) -> bool {
    match container_kind(body) {
        None => r matches Ok(resp) && resp.status == STATUS_OK && resp.body@
            == unknown_format_text(),
        Some(k) => if !decodes(body) {
            r matches Err(e) && e == ConvertError::Decode
        } else {
            match gray_output(body, k) {
                None => r matches Err(e) && e == ConvertError::Encode,
                Some(enc) => if enc.len() <= usize::MAX / 2 {
                    &&& r matches Ok(resp)
                    &&& resp.status == STATUS_OK
                    &&& resp.body@ == base64_text(enc)
                    &&& all_base64_chars(resp.body@)
                    &&& container_kind(enc) == Some(kind_of_output(output_format_for(k)))
                } else {
                    r matches Err(e) && e == ConvertError::TooLarge
                },
            }
        },
    }
}

/// A converted image's reply never reads as the unknown-format text, so a
/// 200 reply says "Unknown image format" exactly when no container was
/// recognised.
pub proof fn lemma_unknown_text_only_when_unrecognised(body: Seq<u8>, resp: Response)
    requires
        converted(body, Ok(resp)),
    ensures
        resp.body@ == unknown_format_text() <==> container_kind(body) is None,
{
    reveal_strlit("Unknown image format");
    if container_kind(body) is Some {
        assert(!is_base64_char(unknown_format_text()[7]));
        if resp.body@ == unknown_format_text() {
            assert(is_base64_char(resp.body@[7]));
        }
    }
}

/// The base64 reply for encoded image bytes, or `TooLarge` where the text's
/// length would not fit in memory.
pub fn transport_response(enc: &[u8]) -> (r: Result<Response, ConvertError>)
    ensures
        enc@.len() <= usize::MAX / 2 <==> r is Ok,
        r matches Ok(resp) ==> resp.status == STATUS_OK && resp.body@ == base64_text(enc@)
            && all_base64_chars(resp.body@),
        r matches Err(e) ==> e == ConvertError::TooLarge,
{
    if enc.len() <= usize::MAX / 2 {
        Ok(Response::ok(to_base64(enc)))
    } else {
        Err(ConvertError::TooLarge)
    }
}

/// The output format chosen for a detected container.
pub fn output_format(kind: ImageKind) -> (r: OutputFormat)
    ensures
        r == output_format_for(kind),
{
    match kind {
        ImageKind::Gif => OutputFormat::Gif,
        _ => OutputFormat::Png,
    }
}

/// Converts an uploaded image to grayscale and returns it as base64 text,
/// re-encoded as GIF where the upload is a GIF and as PNG otherwise. An upload
/// whose bytes match no known container gets a 200 reply saying so.
pub fn convert_image(body: &[u8]) -> (r: Result<Response, ConvertError>)
    ensures
        converted(body@, r),
{
    let kind = match guess_kind(body) {
        Ok(k) => k,
        Err(_) => {
            return Ok(Response::ok("Unknown image format".to_owned()));
        },
    };
    let img = match decode(body) {
        Ok(img) => img,
        Err(_) => {
            return Err(ConvertError::Decode);
        },
    };
    let gray = to_gray(&img);
    let format = output_format(kind);
    let enc = match encode_image(&gray, format) {
        Ok(v) => v,
        Err(_) => {
            return Err(ConvertError::Encode);
        },
    };
    let r = transport_response(enc.as_slice());
    proof {
        lemma_output_detected(enc@, format);
    }
    r
}

} // verus!
