use vstd::prelude::*;
use vstd::string::StringExecFns;
use base64::Engine;
use crate::error::SnipError;
use crate::pixel::{PixelBuffer, Raster};

verus! {

#[verifier::external_type_specification]
#[verifier::external_body]
pub struct ExEncodingError(png::EncodingError);

/// The PNG file that the png crate writes for a `width` x `height` RGBA8 image
/// at eight bits per channel, with its default compression settings.
pub uninterp spec fn png_rgba8_of(width: u32, height: u32, pixels: Seq<u8>) -> Seq<u8>;

/// The padded base64 text (standard alphabet) of `bytes`.
pub uninterp spec fn base64_standard_of(bytes: Seq<u8>) -> Seq<char>;

/// The eight bytes that open every PNG file.
pub open spec fn png_signature() -> Seq<u8> {
    seq![137u8, 80u8, 78u8, 71u8, 13u8, 10u8, 26u8, 10u8]
}

/// Whether `p` opens as a PNG file does.
pub open spec fn is_png_file(p: Seq<u8>) -> bool {
    p.len() >= 8 && p.subrange(0, 8) == png_signature()
}

/// Relies on png's `Encoder` (`new`, `set_color(Rgba)`, `set_depth(Eight)`,
/// `write_header`, `Writer::write_image_data`, `Writer::finish`) writing into
/// memory: what it produces depends on the arguments alone, and it starts with
/// the signature that `write_header` writes first. `Writer::init` refuses only a
/// zero width or height (RGBA at eight bits is a valid pair), and writing into a
/// `Vec` cannot fail. With the length matching the size, the row arithmetic in
/// `write_image_data` cannot overflow. Like every `Vec<u8>`, the file holds at
/// most `isize::MAX` bytes.
#[verifier::external_body]
fn png_rgba8(width: u32, height: u32, pixels: &Vec<u8>) -> (r: Result<Vec<u8>, png::EncodingError>)
    requires
        pixels@.len() == width * height * 4,
    ensures
        r is Ok <==> (width > 0 && height > 0),
        r matches Ok(v) ==> v@ == png_rgba8_of(width, height, pixels@),
        r matches Ok(v) ==> is_png_file(v@),
        r matches Ok(v) ==> v@.len() <= usize::MAX / 2,
{
    let mut out = Vec::new();
    let mut encoder = png::Encoder::new(&mut out, width, height);
    encoder.set_color(png::ColorType::Rgba);
    encoder.set_depth(png::BitDepth::Eight);
    let mut writer = encoder.write_header()?;
    writer.write_image_data(pixels)?;
    writer.finish()?;
    Ok(out)
}

/// Relies on base64's `STANDARD` engine and `Engine::encode`, which panics only
/// when the encoded length overflows `usize`.
#[verifier::external_body]
fn base64_standard(bytes: &Vec<u8>) -> (r: String)
    requires
        bytes@.len() <= usize::MAX / 2,
    ensures
        r@ == base64_standard_of(bytes@),
{
    base64::engine::general_purpose::STANDARD.encode(bytes)
}

/// The prefix that marks a transport image as base64-encoded PNG.
pub open spec fn data_url_prefix() -> Seq<char> {
    "data:image/png;base64,"@
}

/// The data URL that carries the PNG file `png`.
pub open spec fn data_url_of(png: Seq<u8>) -> Seq<char> {
    data_url_prefix() + base64_standard_of(png)
}

/// The PNG file of a raster.
pub open spec fn png_of(r: Raster) -> Seq<u8> {
    png_rgba8_of(r.width, r.height, r.pixels)
}

/// The transport image of a raster: its PNG file as a data URL.
pub open spec fn transport_of(r: Raster) -> Seq<char> {
    data_url_of(png_of(r))
}

/// Whether a raster can be sent as a transport image: PNG has no empty images.
pub open spec fn transport_ok(r: Raster) -> bool {
    r.width > 0 && r.height > 0
}

/// The PNG file of `buf`; `Encode` exactly when the image is empty.
pub fn encode_png(buf: &PixelBuffer) -> (r: Result<Vec<u8>, SnipError>)
    requires
        buf.wf(),
    ensures
        r is Ok <==> (buf@.width > 0 && buf@.height > 0),
        r matches Ok(v) ==> v@ == png_of(buf@) && is_png_file(v@) && v@.len() <= usize::MAX / 2,
        r matches Err(e) ==> e is Encode,
{
    match png_rgba8(buf.width(), buf.height(), buf.pixels()) {
        Ok(v) => Ok(v),
        Err(e) => Err(SnipError::Encode(e.to_string())),
    }
}

/// `data:image/png;base64,` followed by the base64 text of `png`.
pub fn data_url(png: &Vec<u8>) -> (r: String)
    requires
        png@.len() <= usize::MAX / 2,
    ensures
        r@ == data_url_of(png@),
{
    let mut url = String::from_str("data:image/png;base64,");
    let b64 = base64_standard(png);
    url.append(b64.as_str());
    url
}

/// Turns the outcome of PNG encoding into a transport image: the data URL of
/// the file, or the encoding error passed on as it is.
pub fn transport_from_png(png: Result<Vec<u8>, SnipError>) -> (r: Result<String, SnipError>)
    requires
        png matches Ok(v) ==> v@.len() <= usize::MAX / 2,
    ensures
        match png {
            Ok(v) => r matches Ok(s) && s@ == data_url_of(v@),
            Err(e) => r == Err::<String, SnipError>(e),
        },
{
    match png {
        Ok(v) => Ok(data_url(&v)),
        Err(e) => Err(e),
    }
}

/// The transport image of `buf`: the data URL of its PNG file. `Encode`
/// exactly when the image is empty.
pub fn encode_transport(buf: &PixelBuffer) -> (r: Result<String, SnipError>)
    requires
        buf.wf(),
    ensures
        r is Ok <==> transport_ok(buf@),
        r matches Ok(s) ==> s@ == transport_of(buf@) && is_png_file(png_of(buf@)),
        r matches Err(e) ==> e is Encode,
{
    transport_from_png(encode_png(buf))
}

} // verus!
