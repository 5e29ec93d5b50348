//! The icon of the windows.

use vstd::prelude::*;

verus! {

/// PNG's number of the color type of gray pixels.
pub const GRAYSCALE: u8 = 0;

/// PNG's number of the color type of red, green and blue.
pub const RGB: u8 = 2;

/// PNG's number of the color type of gray pixels with alpha.
pub const GRAYSCALE_ALPHA: u8 = 4;

/// PNG's number of the color type of red, green and blue with alpha.
pub const RGBA: u8 = 6;

/// A picture with four bytes a pixel.
pub struct IconImage {
    pub rgba: Vec<u8>,
    pub width: u32,
    pub height: u32,
}

/// What the png crate makes of a PNG file on a machine with words of
/// `word_bits`: the color type of the file, the width and height of its picture,
/// and the picture's bytes, expanded to whole channels of eight bits. Nothing
/// if the file cannot be decoded.
pub uninterp spec fn decoded_png(file: Seq<u8>, word_bits: nat) -> Option<
    (u8, u32, u32, Seq<u8>),
>;

/// `png::Decoder` and `png::Reader` of png: decode the first picture of a file,
/// with the transformations EXPAND and STRIP_16. What comes back, or that
/// nothing does, depends on the file and on how much the machine can address.
#[verifier::external_body]
fn decode_png(file: &[u8]) -> (image: Option<(u8, u32, u32, Vec<u8>)>)
    ensures
        match decoded_png(file@, usize::BITS as nat) {
            Some((color, width, height, data)) => {
                &&& image is Some
                &&& (image->0).0 == color
                &&& (image->0).1 == width
                &&& (image->0).2 == height
                &&& (image->0).3@ == data
            },
            None => image is None,
        },
{
    let mut decoder = png::Decoder::new(std::io::Cursor::new(file));
    decoder.set_transformations(png::Transformations::EXPAND | png::Transformations::STRIP_16);
    let mut reader = decoder.read_info().ok()?;
    let mut buf = vec![0; reader.output_buffer_size()?];
    let info = reader.next_frame(&mut buf).ok()?;
    let data = buf[..info.buffer_size()].to_vec();
    Some((reader.info().color_type as u8, info.width, info.height, data))
}

/// The pixels of a picture with the given color type, as red, green, blue and
/// alpha. An incomplete pixel at the end is dropped.
pub open spec fn expanded(color: u8, data: Seq<u8>) -> Option<Seq<u8>> {
    if color == RGBA {
        Some(data)
    } else if color == RGB {
        Some(
            Seq::new(
                4 * (data.len() / 3),
                |i: int|
                    if i % 4 == 3 {
                        0xFF
                    } else {
                        data[i / 4 * 3 + i % 4]
                    },
            ),
        )
    } else if color == GRAYSCALE {
        Some(
            Seq::new(
                4 * data.len(),
                |i: int|
                    if i % 4 == 3 {
                        0xFF
                    } else {
                        data[i / 4]
                    },
            ),
        )
    } else if color == GRAYSCALE_ALPHA {
        Some(
            Seq::new(
                4 * (data.len() / 2),
                |i: int|
                    if i % 4 == 3 {
                        data[i / 4 * 2 + 1]
                    } else {
                        data[i / 4 * 2]
                    },
            ),
        )
    } else {
        None
    }
}

fn expand_rgb(data: &[u8]) -> (rgba: Vec<u8>)
    ensures
        Some(rgba@) == expanded(RGB, data@),
{
    let mut rgba: Vec<u8> = Vec::new();
    for i in 0..data.len() / 3
        invariant
            rgba@.len() == 4 * i,
            forall|j: int|
                0 <= j < 4 * i ==> #[trigger] rgba@[j] == (if j % 4 == 3 {
                    0xFF
                } else {
                    data@[j / 4 * 3 + j % 4]
                }),
    {
        rgba.push(data[3 * i]);
        rgba.push(data[3 * i + 1]);
        rgba.push(data[3 * i + 2]);
        rgba.push(0xFF);
    }
    proof {
        assert(rgba@ =~= expanded(RGB, data@)->0);
    }
    rgba
}

fn expand_gray(data: &[u8]) -> (rgba: Vec<u8>)
    ensures
        Some(rgba@) == expanded(GRAYSCALE, data@),
{
    let mut rgba: Vec<u8> = Vec::new();
    for i in 0..data.len()
        invariant
            rgba@.len() == 4 * i,
            forall|j: int|
                0 <= j < 4 * i ==> #[trigger] rgba@[j] == (if j % 4 == 3 {
                    0xFF
                } else {
                    data@[j / 4]
                }),
    {
        let g: u8 = data[i];
        rgba.push(g);
        rgba.push(g);
        rgba.push(g);
        rgba.push(0xFF);
    }
    proof {
        assert(rgba@ =~= expanded(GRAYSCALE, data@)->0);
    }
    rgba
}

fn expand_gray_alpha(data: &[u8]) -> (rgba: Vec<u8>)
    ensures
        Some(rgba@) == expanded(GRAYSCALE_ALPHA, data@),
{
    let mut rgba: Vec<u8> = Vec::new();
    for i in 0..data.len() / 2
        invariant
            rgba@.len() == 4 * i,
            forall|j: int|
                0 <= j < 4 * i ==> #[trigger] rgba@[j] == (if j % 4 == 3 {
                    data@[j / 4 * 2 + 1]
                } else {
                    data@[j / 4 * 2]
                }),
    {
        let g: u8 = data[2 * i];
        rgba.push(g);
        rgba.push(g);
        rgba.push(g);
        rgba.push(data[2 * i + 1]);
    }
    proof {
        assert(rgba@ =~= expanded(GRAYSCALE_ALPHA, data@)->0);
    }
    rgba
}

/// An icon from a decoded picture. Palettes are not accepted.
pub fn icon_image(color: u8, width: u32, height: u32, data: Vec<u8>) -> (icon: Option<IconImage>)
    ensures
        match expanded(color, data@) {
            Some(rgba) => {
                &&& icon is Some
                &&& icon->0.rgba@ == rgba
                &&& icon->0.width == width
                &&& icon->0.height == height
            },
            None => icon is None,
        },
{
    let rgba = match color {
        RGBA => data,
        RGB => expand_rgb(data.as_slice()),
        GRAYSCALE => expand_gray(data.as_slice()),
        GRAYSCALE_ALPHA => expand_gray_alpha(data.as_slice()),
        _ => {
            return None;
        },
    };
    Some(IconImage { rgba, width, height })
}

/// The icon from a PNG file.
pub fn load_window_icon(file: &[u8]) -> (icon: Option<IconImage>)
    ensures
        match decoded_png(file@, usize::BITS as nat) {
            Some((color, width, height, data)) => match expanded(color, data) {
                Some(rgba) => {
                    &&& icon is Some
                    &&& icon->0.rgba@ == rgba
                    &&& icon->0.width == width
                    &&& icon->0.height == height
                },
                None => icon is None,
            },
            None => icon is None,
        },
{
    match decode_png(file) {
        Some((color, width, height, data)) => icon_image(color, width, height, data),
        None => None,
    }
}

/// An icon has four bytes for each pixel of a picture that has as many bytes as
/// its color type says.
pub proof fn law_icon_has_four_bytes_a_pixel(color: u8, pixels: nat, data: Seq<u8>)
    requires
        data.len() == pixels * (if color == RGBA {
            4nat
        } else if color == RGB {
            3nat
        } else if color == GRAYSCALE_ALPHA {
            2nat
        } else {
            1nat
        }),
    ensures
        expanded(color, data) matches Some(rgba) ==> rgba.len() == 4 * pixels,
{
}

} // verus!
