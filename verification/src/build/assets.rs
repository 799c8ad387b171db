//! Windows icons: an ICO container of PNG images in the standard sizes.
use crate::bytes::{le16, le32, push_bytes, push_le16, push_le32};
use crate::text::{cat2, decimal, decimal_text};
use vstd::prelude::*;
use vstd::string::*;

verus! {

/// ICO sizes to embed (standard Windows icon sizes)
pub const ICO_SIZES: [u32; 7] = [16, 24, 32, 48, 64, 128, 256];

/// The smallest width and height of a source image.
pub const MIN_ICON_SIZE: u32 = 256;

// ---------------------------------------------------------------------------
// The container
// ---------------------------------------------------------------------------

/// An image of an icon: its width and height in pixels, and its bytes.
pub open spec fn images_of(entries: Seq<(u32, Vec<u8>)>) -> Seq<(u32, Seq<u8>)> {
    entries.map_values(|e: (u32, Vec<u8>)| (e.0, e.1@))
}

/// The byte that stands for a width or a height: 0 means 256 or more.
pub open spec fn size_byte(size: u32) -> u8 {
    if size >= 256 {
        0
    } else {
        size as u8
    }
}

/// One entry of the directory: width, height, no palette, a reserved byte, one
/// plane, 32 bits per pixel, the length of the image, and where it starts, both
/// modulo 2^32.
#[verifier::opaque]
pub open spec fn dir_entry(size: u32, len: nat, offset: nat) -> Seq<u8> {
    seq![size_byte(size), size_byte(size), 0u8, 0u8] + le16(1) + le16(32) + le32(
        len % 0x1_0000_0000,
    ) + le32(offset % 0x1_0000_0000)
}

/// The images' bytes, one behind the other.
pub open spec fn ico_data(images: Seq<(u32, Seq<u8>)>) -> Seq<u8>
    decreases images.len(),
{
    if images.len() == 0 {
        Seq::empty()
    } else {
        ico_data(images.drop_last()) + images.last().1
    }
}

/// The directory of images whose bytes stand from `start` on.
pub open spec fn ico_directory(images: Seq<(u32, Seq<u8>)>, start: nat) -> Seq<u8>
    decreases images.len(),
{
    if images.len() == 0 {
        Seq::empty()
    } else {
        let rest = images.drop_last();
        ico_directory(rest, start) + dir_entry(
            images.last().0,
            images.last().1.len(),
            start + ico_data(rest).len(),
        )
    }
}

/// Where the images' bytes start, as far as the 16-bit count tells.
pub open spec fn data_start(count: nat) -> nat {
    (6 + 16 * (count % 65536)) as nat
}

/// The header of an ICO file.
pub open spec fn ico_header(count: nat) -> Seq<u8> {
    le16(0) + le16(1) + le16(count)
}

/// An ICO file: the header, the directory, the images.
pub open spec fn ico_file(images: Seq<(u32, Seq<u8>)>) -> Seq<u8> {
    ico_header(images.len()) + ico_directory(images, data_start(images.len())) + ico_data(images)
}

/// Appends an entry of the directory.
fn push_dir_entry(file: &mut Vec<u8>, size: u32, len: u32, offset: u32)
    ensures
        forall|full_len: nat, full_offset: nat|
            full_len % 0x1_0000_0000 == len && full_offset % 0x1_0000_0000 == offset
                ==> final(file)@ == old(file)@ + #[trigger] dir_entry(
                size,
                full_len,
                full_offset,
            ),
{
    let wh: u8 = if size >= 256 {
        0
    } else {
        size as u8
    };
    file.push(wh);
    file.push(wh);
    file.push(0);
    file.push(0);
    push_le16(file, 1);
    push_le16(file, 32);
    push_le32(file, len);
    push_le32(file, offset);
    reveal(dir_entry);
    assert forall|full_len: nat, full_offset: nat|
        full_len % 0x1_0000_0000 == len && full_offset % 0x1_0000_0000 == offset implies file@
        == old(file)@ + #[trigger] dir_entry(size, full_len, full_offset) by {
        assert(file@ =~= old(file)@ + dir_entry(size, full_len, full_offset));
    }
}

/// Write ICO binary format:
/// - ICONDIR header (6 bytes): reserved(2) + type(2, =1 for ICO) + count(2)
/// - ICONDIRENTRY array (16 bytes each): width, height, colors, reserved, planes, bpp, size, offset
/// - Image data (PNG blobs)
#[verifier::spinoff_prover]
#[verifier::rlimit(40)]
pub fn write_ico(entries: &Vec<(u32, Vec<u8>)>) -> (file: Vec<u8>)
    ensures
        file@ == ico_file(images_of(entries@)),
{
    let ghost images = images_of(entries@);
    let n: usize = entries.len();
    let count: u16 = (n % 65536) as u16;
    let mut file: Vec<u8> = Vec::new();
    push_le16(&mut file, 0);
    push_le16(&mut file, 1);
    push_le16(&mut file, count);
    assert(le16(count as nat) =~= le16(n as nat));
    assert(file@ =~= ico_header(n as nat));
    let ghost header = file@;
    let ghost start = data_start(n as nat);
    let mut offset: u32 = 6 + 16 * count as u32;
    let mut i: usize = 0;
    assert(images.take(0) =~= Seq::empty());
    assert(header + ico_directory(images.take(0), start) =~= header);
    while i < n
        invariant
            n == entries@.len(),
            i <= n,
            images == images_of(entries@),
            file@ == header + ico_directory(images.take(i as int), start),
            offset == (start + ico_data(images.take(i as int)).len()) % 0x1_0000_0000,
        decreases n - i,
    {
        let size: u32 = entries[i].0;
        let len: u32 = (entries[i].1.len() as u64 % 0x1_0000_0000) as u32;
        let ghost rest = images.take(i as int);
        let ghost full = images[i as int].1.len();
        let ghost place = start + ico_data(rest).len();
        let ghost before = file@;
        push_dir_entry(&mut file, size, len, offset);
        proof {
            assert(file@ == before + dir_entry(size, full, place));
            assert(images.take(i + 1).drop_last() =~= rest);
            assert(file@ =~= header + ico_directory(images.take(i + 1), start));
            vstd::arithmetic::div_mod::lemma_add_mod_noop(
                place as int,
                full as int,
                0x1_0000_0000,
            );
        }
        offset = ((offset as u64 + len as u64) % 0x1_0000_0000) as u32;
        i = i + 1;
    }
    let mut j: usize = 0;
    let ghost front = file@;
    assert(images.take(n as int) =~= images);
    while j < n
        invariant
            n == entries@.len(),
            j <= n,
            images == images_of(entries@),
            file@ == front + ico_data(images.take(j as int)),
        decreases n - j,
    {
        push_bytes(&mut file, entries[j].1.as_slice());
        assert(images.take(j + 1).drop_last() =~= images.take(j as int));
        assert(file@ =~= front + ico_data(images.take(j + 1)));
        j = j + 1;
    }
    file
}

// ---------------------------------------------------------------------------
// The images
// ---------------------------------------------------------------------------

/// A decoded picture of the `image` crate.
#[verifier::external_type_specification]
#[verifier::external_body]
pub struct ExDynamicImage(image::DynamicImage);

/// What a picture holds: its width, its height, and its samples behind a mark
/// of their colour type.
pub uninterp spec fn picture(img: image::DynamicImage) -> (nat, nat, Seq<u8>);

/// The width and the height of the picture in a file with that extension, or
/// the message of the decoder, as `image::load_from_memory_with_format` gives
/// them.
pub uninterp spec fn decoded_size(extension: Seq<char>, data: Seq<u8>) -> Result<
    (nat, nat),
    Seq<char>,
>;

/// Whether a picture is one that `image::load_from_memory_with_format` gives for
/// a file with that extension.
pub uninterp spec fn is_decoded(
    extension: Seq<char>,
    data: Seq<u8>,
    pic: (nat, nat, Seq<u8>),
) -> bool;

/// Whether a picture is one that `image::DynamicImage::resize_exact` with the
/// Lanczos3 filter gives for another one.
pub uninterp spec fn is_resized(from: (nat, nat, Seq<u8>), to: (nat, nat, Seq<u8>)) -> bool;

/// A picture as a PNG file, or the message of the encoder.
pub uninterp spec fn png_file(width: nat, height: nat, samples: Seq<u8>) -> Result<
    Seq<u8>,
    Seq<char>,
>;

/// A 32-bit number in big-endian order.
pub open spec fn be32(n: nat) -> Seq<u8> {
    seq![
        (n / 16777216 % 256) as u8,
        (n / 65536 % 256) as u8,
        (n / 256 % 256) as u8,
        (n % 256) as u8,
    ]
}

/// The bytes begin as a PNG file of that size: the signature, the length and
/// the name of the header chunk, the width and the height.
pub open spec fn is_png(data: Seq<u8>, width: nat, height: nat) -> bool {
    &&& data.len() >= 24
    &&& data.subrange(0, 8) == seq![137u8, 80u8, 78u8, 71u8, 13u8, 10u8, 26u8, 10u8]
    &&& data.subrange(8, 16) == seq![0u8, 0u8, 0u8, 13u8, 73u8, 72u8, 68u8, 82u8]
    &&& data.subrange(16, 20) == be32(width)
    &&& data.subrange(20, 24) == be32(height)
}

/// Calls `image::ImageFormat::from_extension` and
/// `image::load_from_memory_with_format`: the extension gives the format, and
/// one that is no image format gives the error that `image::open` gives for it.
/// Of the picture its size is named, which is what decisions are made on. Its
/// samples are those that the decoder gives; that they are the same on every
/// machine is not claimed.
/// Malformed data is documented as a decoding error of `image::ImageError`; that
/// no decoder ends in a panic instead is taken from there.
#[verifier::external_body]
fn decode_picture(extension: &str, data: &[u8]) -> (r: Result<image::DynamicImage, String>)
    ensures
        match r {
            Ok(img) => {
                &&& decoded_size(extension@, data@) == Ok::<(nat, nat), Seq<char>>(
                    (picture(img).0, picture(img).1),
                )
                &&& is_decoded(extension@, data@, picture(img))
            },
            Err(e) => decoded_size(extension@, data@) == Err::<(nat, nat), Seq<char>>(e@),
        },
{
    match image::ImageFormat::from_extension(extension) {
        Some(format) => image::load_from_memory_with_format(data, format).map_err(
            |e| e.to_string(),
        ),
        None => {
            let hint = image::error::ImageFormatHint::PathExtension(extension.into());
            Err(image::ImageError::Unsupported(hint.into()).to_string())
        },
    }
}

/// The message of `image::error::ImageFormatHint::Unknown`: the error that
/// `image::open` gives for a file without an extension.
#[verifier::external_body]
fn unknown_format_message() -> (r: String)
    ensures
        r@ == "The image format could not be determined"@,
{
    image::ImageError::Unsupported(image::error::ImageFormatHint::Unknown.into()).to_string()
}

/// `image::DynamicImage::width`.
#[verifier::external_body]
fn picture_width(img: &image::DynamicImage) -> (w: u32)
    ensures
        w == picture(*img).0,
{
    img.width()
}

/// `image::DynamicImage::height`.
#[verifier::external_body]
fn picture_height(img: &image::DynamicImage) -> (h: u32)
    ensures
        h == picture(*img).1,
{
    img.height()
}

/// `image::DynamicImage::resize_exact` with the Lanczos3 filter: a picture of
/// exactly that size. Its samples come from a sine in floating point, whose
/// last bits are up to the machine: they are those that the filter gives, and
/// that they are the same everywhere is not claimed.
#[verifier::external_body]
fn resize_picture(img: &image::DynamicImage, width: u32, height: u32) -> (r: image::DynamicImage)
    requires
        0 < width <= 256,
        0 < height <= 256,
    ensures
        picture(r).0 == width,
        picture(r).1 == height,
        is_resized(picture(*img), picture(r)),
{
    img.resize_exact(width, height, image::imageops::FilterType::Lanczos3)
}

/// `image::DynamicImage::write_to` in the PNG format, into a buffer: what it
/// writes begins with the signature of PNG and the picture's size.
#[verifier::external_body]
fn write_png(img: &image::DynamicImage) -> (r: Result<Vec<u8>, String>)
    ensures
        match r {
            Ok(data) => {
                &&& png_file(picture(*img).0, picture(*img).1, picture(*img).2) == Ok::<
                    Seq<u8>,
                    Seq<char>,
                >(data@)
                &&& is_png(data@, picture(*img).0, picture(*img).1)
            },
            Err(e) => png_file(picture(*img).0, picture(*img).1, picture(*img).2) == Err::<
                Seq<u8>,
                Seq<char>,
            >(e@),
        },
{
    let mut buf = Vec::new();
    img.write_to(&mut std::io::Cursor::new(&mut buf), image::ImageFormat::Png).map_err(
        |e| e.to_string(),
    )?;
    Ok(buf)
}

/// The message for a picture that the encoder refuses.
pub open spec fn png_failure(e: Seq<char>) -> Seq<char> {
    "Failed to encode PNG: "@ + e
}

/// A picture as a PNG file.
pub fn encode_png(img: &image::DynamicImage) -> (r: Result<Vec<u8>, String>)
    ensures
        match (r, png_file(picture(*img).0, picture(*img).1, picture(*img).2)) {
            (Ok(data), Ok(file)) => data@ == file && is_png(
                data@,
                picture(*img).0,
                picture(*img).1,
            ),
            (Err(e), Err(message)) => e@ == png_failure(message),
            _ => false,
        },
{
    match write_png(img) {
        Ok(data) => Ok(data),
        Err(e) => Err(cat2("Failed to encode PNG: ", e.as_str())),
    }
}

/// The size of the picture in a file: without an extension there is no format.
pub open spec fn opened_size(extension: Option<Seq<char>>, data: Seq<u8>) -> Result<
    (nat, nat),
    Seq<char>,
> {
    match extension {
        Some(e) if e.len() > 0 => decoded_size(e, data),
        _ => Err("The image format could not be determined"@),
    }
}

/// The message for an image that cannot be decoded.
pub open spec fn open_failure(e: Seq<char>) -> Seq<char> {
    "Failed to open icon: "@ + e
}

/// Opens the image in a file's bytes; the file's extension gives the format.
pub fn open_icon(extension: Option<&str>, data: &[u8]) -> (r: Result<image::DynamicImage, String>)
    ensures
        match (r, opened_size(ext_text(extension), data@)) {
            (Ok(img), Ok(size)) => {
                &&& picture(img).0 == size.0
                &&& picture(img).1 == size.1
                &&& ext_text(extension) matches Some(e) && is_decoded(e, data@, picture(img))
            },
            (Err(e), Err(message)) => e@ == open_failure(message),
            _ => false,
        },
{
    let opened = match extension {
        Some(e) => if e.is_empty() {
            Err(unknown_format_message())
        } else {
            decode_picture(e, data)
        },
        None => Err(unknown_format_message()),
    };
    match opened {
        Ok(img) => Ok(img),
        Err(e) => Err(cat2("Failed to open icon: ", e.as_str())),
    }
}

/// The text of an extension.
pub open spec fn ext_text(extension: Option<&str>) -> Option<Seq<char>> {
    match extension {
        Some(e) => Some(e@),
        None => None,
    }
}

/// A source image is at least 256x256.
pub open spec fn big_enough(width: nat, height: nat) -> bool {
    width >= MIN_ICON_SIZE && height >= MIN_ICON_SIZE
}

/// The message for an image that is too small.
pub open spec fn too_small(width: nat, height: nat) -> Seq<char> {
    "Icon must be at least 256x256, got "@ + decimal(width) + "x"@ + decimal(height)
}

/// Checks the size of a source image.
pub fn check_icon_size(width: u32, height: u32) -> (r: Result<(), String>)
    ensures
        r is Ok <==> big_enough(width as nat, height as nat),
        r matches Err(e) ==> e@ == too_small(width as nat, height as nat),
{
    if width < MIN_ICON_SIZE || height < MIN_ICON_SIZE {
        let mut s = "Icon must be at least 256x256, got ".to_owned();
        s.append(decimal_text(width as u64).as_str());
        s.append("x");
        s.append(decimal_text(height as u64).as_str());
        Err(s)
    } else {
        Ok(())
    }
}

/// The bytes are a PNG file of a picture, resized to a square.
pub open spec fn is_square_png(data: Seq<u8>, size: u32, source: (nat, nat, Seq<u8>)) -> bool {
    exists|pic: (nat, nat, Seq<u8>)|
        {
            &&& #[trigger] is_resized(source, pic)
            &&& pic.0 == size
            &&& pic.1 == size
            &&& png_file(pic.0, pic.1, pic.2) == Ok::<Seq<u8>, Seq<char>>(data)
            &&& is_png(data, size as nat, size as nat)
        }
}

/// The file is an icon of these images: one PNG of the picture for each of the
/// standard sizes.
pub open spec fn icon_holds(
    file: Seq<u8>,
    images: Seq<(u32, Seq<u8>)>,
    source: (nat, nat, Seq<u8>),
) -> bool {
    &&& images.len() == ICO_SIZES@.len()
    &&& forall|k: int|
        #![trigger images[k]]
        0 <= k < images.len() ==> images[k].0 == ICO_SIZES@[k] && is_square_png(
            images[k].1,
            ICO_SIZES@[k],
            source,
        )
    &&& file == ico_file(images)
}

/// The file is an icon of the picture in a file: one PNG for each of the
/// standard sizes.
pub open spec fn is_icon(file: Seq<u8>, extension: Seq<char>, data: Seq<u8>) -> bool {
    exists|images: Seq<(u32, Seq<u8>)>, source: (nat, nat, Seq<u8>)| #[trigger]
        icon_holds(file, images, source) && is_decoded(extension, data, source)
}

/// A picture of one of the standard sizes, resized from a source, that the PNG
/// encoder refuses with a message.
pub open spec fn is_refused(
    pic: (nat, nat, Seq<u8>),
    source: (nat, nat, Seq<u8>),
    message: Seq<char>,
) -> bool {
    &&& is_resized(source, pic)
    &&& pic.0 == pic.1
    &&& exists|k: int| 0 <= k < ICO_SIZES@.len() && pic.0 == #[trigger] ICO_SIZES@[k]
    &&& png_file(pic.0, pic.1, pic.2) == Err::<Seq<u8>, Seq<char>>(message)
}

/// The message is that of an encoder which refuses one of the resized pictures.
pub open spec fn is_encoding_failure(e: Seq<char>, extension: Seq<char>, data: Seq<u8>) -> bool {
    exists|pic: (nat, nat, Seq<u8>), source: (nat, nat, Seq<u8>), message: Seq<char>| #[trigger]
        is_refused(pic, source, message) && is_decoded(extension, data, source) && e
            == png_failure(message)
}

/// Generate a Windows .ico file from a source image, given as the bytes of its
/// file and the file's extension.
/// Minimum source size: 256x256. Each size is stored as a PNG inside the ICO container.
pub fn generate_ico(extension: Option<&str>, data: &[u8]) -> (r: Result<Vec<u8>, String>)
    ensures
        match opened_size(ext_text(extension), data@) {
            Err(message) => r matches Err(e) && e@ == open_failure(message),
            Ok(size) => if !big_enough(size.0, size.1) {
                r matches Err(e) && e@ == too_small(size.0, size.1)
            } else {
                match (r, ext_text(extension)) {
                    (Ok(file), Some(ext)) => is_icon(file@, ext, data@),
                    (Err(e), Some(ext)) => is_encoding_failure(e@, ext, data@),
                    _ => false,
                }
            },
        },
{
    let img = match open_icon(extension, data) {
        Ok(img) => img,
        Err(e) => return Err(e),
    };
    match check_icon_size(picture_width(&img), picture_height(&img)) {
        Ok(()) => {},
        Err(e) => return Err(e),
    }
    let mut entries: Vec<(u32, Vec<u8>)> = Vec::new();
    let mut k: usize = 0;
    while k < ICO_SIZES.len()
        invariant
            k <= ICO_SIZES@.len(),
            entries@.len() == k,
            forall|j: int|
                #![trigger entries@[j]]
                0 <= j < k ==> entries@[j].0 == ICO_SIZES@[j] && is_square_png(
                    entries@[j].1@,
                    ICO_SIZES@[j],
                    picture(img),
                ),
            opened_size(ext_text(extension), data@) matches Ok(size) && big_enough(
                size.0,
                size.1,
            ),
            ext_text(extension) matches Some(ext) && is_decoded(ext, data@, picture(img)),
        decreases ICO_SIZES@.len() - k,
    {
        let size: u32 = ICO_SIZES[k];
        let resized = resize_picture(&img, size, size);
        match encode_png(&resized) {
            Ok(png) => {
                assert(is_resized(picture(img), picture(resized)));
                assert(is_square_png(png@, size, picture(img)));
                entries.push((size, png));
            },
            Err(e) => {
                proof {
                    let pic = picture(resized);
                    let message = png_file(pic.0, pic.1, pic.2)->Err_0;
                    assert(ICO_SIZES@[k as int] == size);
                    assert(is_refused(pic, picture(img), message));
                }
                return Err(e);
            },
        }
        k = k + 1;
    }
    let file = write_ico(&entries);
    assert(icon_holds(file@, images_of(entries@), picture(img)));
    Ok(file)
}

} // verus!
