//! From pixels to a data URI: validation, PNG serialisation, Base64, and the
//! fixed prefix. A buffer that validation refuses never reaches the encoder.
//!
//! The PNG stream comes from the `image` crate and the Base64 text from the
//! `base64` crate. Base64 is stated in full by
//! [`base64_text`](crate::payload::base64_text); the PNG stream is only named,
//! by [`png_stream`].

use crate::payload::{base64_bytes, base64_len, base64_text, lemma_base64_round_trip};
use crate::pixel::{expected_len, verdict, RawClipboardImage, ValidationError};
use base64::Engine;
use vstd::prelude::*;

verus! {

/// The scheme marker that every encoded image starts with.
pub const DATA_URI_PREFIX: &'static str = "data:image/png;base64,";

/// Why an image could not be encoded.
#[derive(Clone, Copy, Debug, PartialEq, Eq, Structural)]
pub enum EncodingError {
    /// No image container can be made of the buffer: a dimension does not fit
    /// in 32 bits.
    Container,
    /// The PNG encoder gave up.
    Serialization,
    /// The data URI would be longer than one allocation may be.
    Payload,
}

/// Why no data URI came of an image.
#[derive(Clone, Copy, Debug, PartialEq, Eq, Structural)]
pub enum EncodeFailure {
    /// The buffer was refused before anything was encoded.
    Invalid(ValidationError),
    /// The buffer is valid and could not be encoded.
    Encoding(EncodingError),
}

/// The number of characters of [`DATA_URI_PREFIX`].
pub const PREFIX_LEN: usize = 22;

/// The data URI of a stream of `len` bytes is no longer than one allocation
/// may be: half of what `usize` can count.
pub open spec fn uri_fits(len: nat) -> bool {
    PREFIX_LEN + base64_len(len) <= usize::MAX / 2
}

/// The data URI that embeds a PNG stream.
pub open spec fn data_uri(png: Seq<u8>) -> Seq<char> {
    DATA_URI_PREFIX@ + base64_text(png)
}

/// An image container can be made of a buffer of `len` bytes: the dimensions
/// fit in 32 bits, four bytes per pixel of one row can be counted, and the
/// buffer holds at least four bytes per pixel.
pub open spec fn container_fits(width: nat, height: nat, len: nat) -> bool {
    &&& width <= u32::MAX
    &&& height <= u32::MAX
    &&& 4 * width <= usize::MAX
    &&& expected_len(width, height) <= len
}

/// The eight bytes that every PNG stream begins with.
pub open spec fn png_signature() -> Seq<u8> {
    seq![137u8, 80u8, 78u8, 71u8, 13u8, 10u8, 26u8, 10u8]
}

/// The stream begins with the PNG signature.
pub open spec fn is_signed(stream: Seq<u8>) -> bool {
    stream.len() >= 8 && stream.take(8) == png_signature()
}

/// The PNG stream that the `image` crate writes for the first
/// `4 * width * height` bytes of `pixels`, read as row-major RGBA8; `None`
/// where its encoder fails.
pub uninterp spec fn png_stream(width: u32, height: u32, pixels: Seq<u8>) -> Option<Seq<u8>>;

/// `image::ImageError`, of which nothing is read.
#[verifier::external_type_specification]
#[verifier::external_body]
pub struct ExImageError(image::ImageError);

/// Calls `ImageBuffer::from_raw` on the pixels and then
/// `ImageBuffer::write_to` with `ImageOutputFormat::Png`, into memory.
/// Trusted: there is a container exactly where [`container_fits`], which is
/// the test that `from_raw` makes; the bytes written are then [`png_stream`],
/// and the encoder fails exactly where that is `None`. The encoder refuses a
/// zero width or height, and what it writes begins with the PNG signature.
#[verifier::external_body]
fn write_png(width: u32, height: u32, pixels: &Vec<u8>) -> (written: Option<
    Result<Vec<u8>, image::ImageError>,
>)
    ensures
        written is Some <==> container_fits(width as nat, height as nat, pixels@.len()),
        written matches Some(Ok(stream)) ==> png_stream(width, height, pixels@) == Some(stream@),
        written matches Some(Err(_)) ==> png_stream(width, height, pixels@) is None,
        written matches Some(Ok(stream)) ==> width > 0 && height > 0 && is_signed(stream@),
{
    let buffer = image::ImageBuffer::<image::Rgba<u8>, &[u8]>::from_raw(
        width,
        height,
        pixels.as_slice(),
    )?;
    let mut stream: Vec<u8> = Vec::new();
    let mut cursor = std::io::Cursor::new(&mut stream);
    let done = buffer.write_to(&mut cursor, image::ImageOutputFormat::Png);
    Some(done.map(|_| stream))
}

/// Calls `Engine::encode` of `base64::engine::general_purpose::STANDARD`.
/// Trusted: the text is the standard Base64 of the bytes, with padding. The
/// call panics where the text is longer than one allocation may be, which
/// `requires` leaves out.
#[verifier::external_body]
fn base64_standard(bytes: &Vec<u8>) -> (text: String)
    requires
        uri_fits(bytes@.len()),
    ensures
        text@ == base64_text(bytes@),
{
    base64::engine::general_purpose::STANDARD.encode(bytes)
}

/// An image as a data URI: the fixed prefix and the Base64 text of a PNG
/// stream.
#[derive(Debug, PartialEq, Eq)]
pub struct EncodedImage {
    data_uri: String,
}

impl View for EncodedImage {
    type V = Seq<char>;

    closed spec fn view(&self) -> Seq<char> {
        self.data_uri@
    }
}

impl EncodedImage {
    /// The text is the data URI of some stream of bytes.
    #[verifier::type_invariant]
    closed spec fn is_data_uri(&self) -> bool {
        exists|png: Seq<u8>| self.data_uri@ == #[trigger] data_uri(png)
    }

    /// Wraps a PNG stream into a data URI.
    pub fn from_png(png: &Vec<u8>) -> (encoded: EncodedImage)
        requires
            uri_fits(png@.len()),
        ensures
            encoded@ == data_uri(png@),
    {
        let payload = base64_standard(png);
        let text = DATA_URI_PREFIX.to_owned().concat(payload.as_str());
        assert(text@ == data_uri(png@));
        EncodedImage { data_uri: text }
    }

    /// The data URI. It is the data URI of some stream of bytes: no encoded
    /// image holds anything else.
    pub fn as_str(&self) -> (text: &str)
        ensures
            text@ == self@,
            exists|png: Seq<u8>| text@ == #[trigger] data_uri(png),
    {
        proof {
            use_type_invariant(self);
        }
        self.data_uri.as_str()
    }

    /// The data URI, owned.
    pub fn into_string(self) -> (text: String)
        ensures
            text@ == self@,
            exists|png: Seq<u8>| text@ == #[trigger] data_uri(png),
    {
        proof {
            use_type_invariant(&self);
        }
        self.data_uri
    }
}

/// Tells whether the data URI of a stream of `len` bytes can be held.
pub fn stream_fits(len: usize) -> (fits: bool)
    ensures
        fits == uri_fits(len as nat),
{
    let groups = if len % 3 == 0 {
        len / 3
    } else {
        len / 3 + 1
    };
    groups <= (usize::MAX / 2 - PREFIX_LEN) / 4
}

/// The bytes of one row are no more than the bytes of all rows.
proof fn lemma_row_fits(width: nat, height: nat)
    requires
        height >= 1,
    ensures
        4 * width <= expected_len(width, height),
{
    assert(width * height >= width) by (nonlinear_arith)
        requires
            height >= 1,
    ;
}

/// What wrapping the outcome of the PNG encoder comes to: `None` stands for
/// its failure.
pub open spec fn wrapping(stream: Option<Seq<u8>>) -> Result<Seq<char>, EncodingError> {
    match stream {
        None => Err(EncodingError::Serialization),
        Some(png) => if uri_fits(png.len()) {
            Ok(data_uri(png))
        } else {
            Err(EncodingError::Payload)
        },
    }
}

/// What encoding an image of the given dimensions and bytes comes to. A
/// buffer that validation refuses is refused with that verdict, and nothing
/// of it is encoded.
pub open spec fn encoding(width: nat, height: nat, bytes: Seq<u8>) -> Result<
    Seq<char>,
    EncodeFailure,
> {
    match verdict(width, height, bytes.len()) {
        Err(e) => Err(EncodeFailure::Invalid(e)),
        Ok(()) => if width > u32::MAX || height > u32::MAX {
            Err(EncodeFailure::Encoding(EncodingError::Container))
        } else {
            match wrapping(png_stream(width as u32, height as u32, bytes)) {
                Ok(uri) => Ok(uri),
                Err(e) => Err(EncodeFailure::Encoding(e)),
            }
        },
    }
}

/// The model of the result of an encoding.
pub open spec fn encoded_model<E>(outcome: Result<EncodedImage, E>) -> Result<Seq<char>, E> {
    match outcome {
        Ok(encoded) => Ok(encoded@),
        Err(e) => Err(e),
    }
}

/// Wraps the PNG stream that the encoder wrote, or names its failure.
pub fn wrap_stream(stream: Option<Vec<u8>>) -> (outcome: Result<EncodedImage, EncodingError>)
    ensures
        encoded_model(outcome) == wrapping(
            match stream {
                Some(png) => Some(png@),
                None => None,
            },
        ),
{
    match stream {
        None => Err(EncodingError::Serialization),
        Some(png) => {
            if stream_fits(png.len()) {
                Ok(EncodedImage::from_png(&png))
            } else {
                Err(EncodingError::Payload)
            }
        },
    }
}

/// Encodes an image as a PNG data URI. The buffer is validated first: one
/// that validation refuses is refused with that verdict and nothing of it is
/// encoded. A valid buffer is read as row-major RGBA8.
pub fn encode_image_to_base64(image: &RawClipboardImage) -> (outcome: Result<
    EncodedImage,
    EncodeFailure,
>)
    ensures
        encoded_model(outcome) == encoding(image.width as nat, image.height as nat, image.bytes@),
        image.verdict() matches Err(e) ==> outcome == Err::<EncodedImage, _>(
            EncodeFailure::Invalid(e),
        ),
        outcome is Ok ==> image.is_valid(),
        outcome matches Ok(encoded) ==> {
            &&& png_stream(image.width as u32, image.height as u32, image.bytes@) matches Some(png)
            &&& is_signed(png)
            &&& encoded@ == data_uri(png)
        },
{
    match image.validate() {
        Err(e) => {
            return Err(EncodeFailure::Invalid(e));
        },
        Ok(()) => {},
    }
    if image.width > 0xffff_ffff || image.height > 0xffff_ffff {
        return Err(EncodeFailure::Encoding(EncodingError::Container));
    }
    let width = image.width as u32;
    let height = image.height as u32;
    let len = image.bytes.len();
    proof {
        lemma_row_fits(image.width as nat, image.height as nat);
        assert(container_fits(image.width as nat, image.height as nat, len as nat));
    }
    let wrapped = match write_png(width, height, &image.bytes) {
        None => Err(EncodingError::Container),
        Some(Ok(stream)) => wrap_stream(Some(stream)),
        Some(Err(_)) => wrap_stream(None),
    };
    match wrapped {
        Ok(encoded) => Ok(encoded),
        Err(e) => Err(EncodeFailure::Encoding(e)),
    }
}

/// The PNG stream can be read back from its data URI: the text starts with the
/// prefix, and what follows the prefix is Base64 that stands for exactly the
/// bytes of the stream.
pub proof fn lemma_stream_is_recoverable(png: Seq<u8>)
    ensures
        DATA_URI_PREFIX@.len() == PREFIX_LEN,
        data_uri(png).len() == PREFIX_LEN + base64_len(png.len()),
        data_uri(png).take(DATA_URI_PREFIX@.len() as int) == DATA_URI_PREFIX@,
        base64_bytes(data_uri(png).skip(DATA_URI_PREFIX@.len() as int)) == Some(png),
{
    reveal_strlit("data:image/png;base64,");
    lemma_base64_round_trip(png);
    assert(data_uri(png).take(DATA_URI_PREFIX@.len() as int) =~= DATA_URI_PREFIX@);
    assert(data_uri(png).skip(DATA_URI_PREFIX@.len() as int) =~= base64_text(png));
}

/// Two streams with the same data URI are the same stream.
pub proof fn lemma_data_uri_tells_streams_apart(one: Seq<u8>, other: Seq<u8>)
    requires
        data_uri(one) == data_uri(other),
    ensures
        one == other,
{
    lemma_stream_is_recoverable(one);
    lemma_stream_is_recoverable(other);
}

/// Encoding is deterministic: whatever two encodings of images with the same
/// dimensions and the same bytes return, they return the same, and where that
/// is a data URI, the same text character by character.
pub proof fn lemma_encoding_is_deterministic(
    one: RawClipboardImage,
    other: RawClipboardImage,
    first: Result<EncodedImage, EncodeFailure>,
    second: Result<EncodedImage, EncodeFailure>,
)
    requires
        one.width == other.width,
        one.height == other.height,
        one.bytes@ == other.bytes@,
        encoded_model(first) == encoding(one.width as nat, one.height as nat, one.bytes@),
        encoded_model(second) == encoding(other.width as nat, other.height as nat, other.bytes@),
    ensures
        encoded_model(first) == encoded_model(second),
        first is Ok <==> second is Ok,
        first is Ok ==> first->Ok_0@ == second->Ok_0@,
{
}

} // verus!
