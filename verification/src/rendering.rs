//! Rendering support: the fixed 64-color NES palette and the conversion
//! of a palette-indexed framebuffer into RGB and RGBA byte streams, plus
//! the backend-neutral renderer and input-event interface a frontend
//! implements.

use vstd::prelude::*;

verus! {

/// Width of the NES output in pixels.
pub const NES_WIDTH: usize = 256;

/// Height of the NES output in pixels.
pub const NES_HEIGHT: usize = 240;

/// A full frame of palette indices, row-major.
pub type NESFramebuffer = [u8; 61440];

/// The packed 24-bit RGB color of palette entry `index` (0..=63; higher
/// indices are reduced modulo 64 by the callers).
pub open spec fn palette_entry(index: u8) -> u32 {
    match index {
        0u8 => 0x666666,
        1u8 => 0x002A88,
        2u8 => 0x1412A7,
        3u8 => 0x3B00A4,
        4u8 => 0x5C007E,
        5u8 => 0x6E0040,
        6u8 => 0x6C0600,
        7u8 => 0x561D00,
        8u8 => 0x333500,
        9u8 => 0x0B4800,
        10u8 => 0x005200,
        11u8 => 0x004F08,
        12u8 => 0x00404D,
        13u8 => 0x000000,
        14u8 => 0x000000,
        15u8 => 0x000000,
        16u8 => 0xADADAD,
        17u8 => 0x155FD9,
        18u8 => 0x4240FF,
        19u8 => 0x7527FE,
        20u8 => 0xA01ACC,
        21u8 => 0xB71E7B,
        22u8 => 0xB53120,
        23u8 => 0x994E00,
        24u8 => 0x6B6D00,
        25u8 => 0x388700,
        26u8 => 0x0C9300,
        27u8 => 0x008F32,
        28u8 => 0x007C8D,
        29u8 => 0x000000,
        30u8 => 0x000000,
        31u8 => 0x000000,
        32u8 => 0xFFFEFF,
        33u8 => 0x64B0FF,
        34u8 => 0x9290FF,
        35u8 => 0xC676FF,
        36u8 => 0xF36AFF,
        37u8 => 0xFE6ECC,
        38u8 => 0xFE8170,
        39u8 => 0xEA9E22,
        40u8 => 0xBCBE00,
        41u8 => 0x88D800,
        42u8 => 0x5CE430,
        43u8 => 0x45E082,
        44u8 => 0x48CDDE,
        45u8 => 0x4F4F4F,
        46u8 => 0x000000,
        47u8 => 0x000000,
        48u8 => 0xFFFEFF,
        49u8 => 0xC0DFFF,
        50u8 => 0xD3D2FF,
        51u8 => 0xE8C8FF,
        52u8 => 0xFBC2FF,
        53u8 => 0xFEC4EA,
        54u8 => 0xFECCC5,
        55u8 => 0xF7D8A5,
        56u8 => 0xE4E594,
        57u8 => 0xCFEF96,
        58u8 => 0xBDF4AB,
        59u8 => 0xB3F3CC,
        60u8 => 0xB5EBF2,
        61u8 => 0xB8B8B8,
        62u8 => 0x000000,
        _ => 0x000000,
    }
}

/// The red channel of a packed 24-bit color.
pub open spec fn red_of(color: u32) -> u8 {
    ((color >> 16) & 0xFF) as u8
}

/// The green channel of a packed 24-bit color.
pub open spec fn green_of(color: u32) -> u8 {
    ((color >> 8) & 0xFF) as u8
}

/// The blue channel of a packed 24-bit color.
pub open spec fn blue_of(color: u32) -> u8 {
    (color & 0xFF) as u8
}

/// Every palette entry is a 24-bit color.
pub proof fn lemma_palette_entry_range(index: u8)
    ensures
        palette_entry(index) < 0x1000000,
{
}

/// Splitting a 24-bit color into channels loses nothing: two colors with
/// the same red, green and blue bytes are the same color.
proof fn lemma_channels_faithful(c1: u32, c2: u32)
    by (bit_vector)
    requires
        c1 < 0x1000000,
        c2 < 0x1000000,
        ((c1 >> 16) & 0xFF) as u8 == ((c2 >> 16) & 0xFF) as u8,
        ((c1 >> 8) & 0xFF) as u8 == ((c2 >> 8) & 0xFF) as u8,
        (c1 & 0xFF) as u8 == (c2 & 0xFF) as u8,
    ensures
        c1 == c2,
{
}

/// Law: the palette-index-to-RGB conversion is as injective as the
/// palette itself — indices whose palette colors differ get different
/// RGB triples, so mapping each triple back to a nearest palette entry
/// separates them again. (Several palette entries share the color black,
/// so injectivity over all of 0..=63 cannot hold.)
pub proof fn lemma_palette_rgb_separates(i: u8, j: u8)
    requires
        i < 64,
        j < 64,
        palette_entry(i) != palette_entry(j),
    ensures
        (red_of(palette_entry(i)), green_of(palette_entry(i)), blue_of(palette_entry(i))) != (
            red_of(palette_entry(j)),
            green_of(palette_entry(j)),
            blue_of(palette_entry(j)),
        ),
{
    lemma_palette_entry_range(i);
    lemma_palette_entry_range(j);
    if red_of(palette_entry(i)) == red_of(palette_entry(j)) && green_of(palette_entry(i))
        == green_of(palette_entry(j)) && blue_of(palette_entry(i)) == blue_of(palette_entry(j)) {
        lemma_channels_faithful(palette_entry(i), palette_entry(j));
    }
}

/// The packed color of palette entry `index`, reduced modulo 64.
fn palette_color(index: u8) -> (r: u32)
    ensures
        r == palette_entry((index & 0x3F) as u8),
{
    let masked = index & 0x3F;
    match masked {
        0u8 => 0x666666,
        1u8 => 0x002A88,
        2u8 => 0x1412A7,
        3u8 => 0x3B00A4,
        4u8 => 0x5C007E,
        5u8 => 0x6E0040,
        6u8 => 0x6C0600,
        7u8 => 0x561D00,
        8u8 => 0x333500,
        9u8 => 0x0B4800,
        10u8 => 0x005200,
        11u8 => 0x004F08,
        12u8 => 0x00404D,
        13u8 => 0x000000,
        14u8 => 0x000000,
        15u8 => 0x000000,
        16u8 => 0xADADAD,
        17u8 => 0x155FD9,
        18u8 => 0x4240FF,
        19u8 => 0x7527FE,
        20u8 => 0xA01ACC,
        21u8 => 0xB71E7B,
        22u8 => 0xB53120,
        23u8 => 0x994E00,
        24u8 => 0x6B6D00,
        25u8 => 0x388700,
        26u8 => 0x0C9300,
        27u8 => 0x008F32,
        28u8 => 0x007C8D,
        29u8 => 0x000000,
        30u8 => 0x000000,
        31u8 => 0x000000,
        32u8 => 0xFFFEFF,
        33u8 => 0x64B0FF,
        34u8 => 0x9290FF,
        35u8 => 0xC676FF,
        36u8 => 0xF36AFF,
        37u8 => 0xFE6ECC,
        38u8 => 0xFE8170,
        39u8 => 0xEA9E22,
        40u8 => 0xBCBE00,
        41u8 => 0x88D800,
        42u8 => 0x5CE430,
        43u8 => 0x45E082,
        44u8 => 0x48CDDE,
        45u8 => 0x4F4F4F,
        46u8 => 0x000000,
        47u8 => 0x000000,
        48u8 => 0xFFFEFF,
        49u8 => 0xC0DFFF,
        50u8 => 0xD3D2FF,
        51u8 => 0xE8C8FF,
        52u8 => 0xFBC2FF,
        53u8 => 0xFEC4EA,
        54u8 => 0xFECCC5,
        55u8 => 0xF7D8A5,
        56u8 => 0xE4E594,
        57u8 => 0xCFEF96,
        58u8 => 0xBDF4AB,
        59u8 => 0xB3F3CC,
        60u8 => 0xB5EBF2,
        61u8 => 0xB8B8B8,
        62u8 => 0x000000,
        _ => 0x000000,
    }
}

/// The RGB channels of palette entry `palette_index` (reduced modulo 64).
pub fn palette_to_rgb(palette_index: u8) -> (r: (u8, u8, u8))
    ensures
        ({
            let color = palette_entry((palette_index & 0x3F) as u8);
            r == (red_of(color), green_of(color), blue_of(color))
        }),
{
    let color = palette_color(palette_index);
    (
        ((color >> 16) & 0xFF) as u8,
        ((color >> 8) & 0xFF) as u8,
        (color & 0xFF) as u8,
    )
}

/// The framebuffer expanded to three bytes per pixel: red, green, blue
/// per palette entry, in pixel order.
pub fn framebuffer_to_rgb888(framebuffer: &NESFramebuffer) -> (r: Vec<u8>)
    ensures
        r@.len() == 3 * 61440,
        forall|i: int|
            0 <= i < 61440 ==> {
                let color = palette_entry(((#[trigger] framebuffer@[i]) & 0x3F) as u8);
                &&& r@[3 * i] == red_of(color)
                &&& r@[3 * i + 1] == green_of(color)
                &&& r@[3 * i + 2] == blue_of(color)
            },
{
    let mut out: Vec<u8> = Vec::with_capacity(61440 * 3);
    let mut i: usize = 0;
    while i < 61440
        invariant
            i <= 61440,
            out@.len() == 3 * i,
            forall|k: int|
                0 <= k < i ==> {
                    let color = palette_entry(((#[trigger] framebuffer@[k]) & 0x3F) as u8);
                    &&& out@[3 * k] == red_of(color)
                    &&& out@[3 * k + 1] == green_of(color)
                    &&& out@[3 * k + 2] == blue_of(color)
                },
        decreases 61440 - i,
    {
        let (red, green, blue) = palette_to_rgb(framebuffer[i]);
        out.push(red);
        out.push(green);
        out.push(blue);
        i = i + 1;
    }
    out
}

/// The framebuffer expanded to four bytes per pixel: red, green, blue
/// and a fully opaque alpha.
pub fn framebuffer_to_rgba8888(framebuffer: &NESFramebuffer) -> (r: Vec<u8>)
    ensures
        r@.len() == 4 * 61440,
        forall|i: int|
            0 <= i < 61440 ==> {
                let color = palette_entry(((#[trigger] framebuffer@[i]) & 0x3F) as u8);
                &&& r@[4 * i] == red_of(color)
                &&& r@[4 * i + 1] == green_of(color)
                &&& r@[4 * i + 2] == blue_of(color)
                &&& r@[4 * i + 3] == 255u8
            },
{
    let mut out: Vec<u8> = Vec::with_capacity(61440 * 4);
    let mut i: usize = 0;
    while i < 61440
        invariant
            i <= 61440,
            out@.len() == 4 * i,
            forall|k: int|
                0 <= k < i ==> {
                    let color = palette_entry(((#[trigger] framebuffer@[k]) & 0x3F) as u8);
                    &&& out@[4 * k] == red_of(color)
                    &&& out@[4 * k + 1] == green_of(color)
                    &&& out@[4 * k + 2] == blue_of(color)
                    &&& out@[4 * k + 3] == 255u8
                },
        decreases 61440 - i,
    {
        let (red, green, blue) = palette_to_rgb(framebuffer[i]);
        out.push(red);
        out.push(green);
        out.push(blue);
        out.push(255);
        i = i + 1;
    }
    out
}

/// Input events a rendering backend reports.
#[derive(Debug, Clone, PartialEq)]
pub enum InputEvent {
    /// The window was asked to close.
    Close,
    /// A key went down.
    KeyDown(Key),
    /// A key went up.
    KeyUp(Key),
    /// The window was resized.
    Resize(u32, u32),
}

/// Keys of interest to the emulator: the controller mapping and a few
/// frontend controls.
#[derive(Debug, Clone, PartialEq)]
pub enum Key {
    /// Controller up.
    Up,
    /// Controller down.
    Down,
    /// Controller left.
    Left,
    /// Controller right.
    Right,
    /// Controller A.
    A,
    /// Controller B.
    B,
    /// Controller start.
    Start,
    /// Controller select.
    Select,
    /// Leave the frontend.
    Escape,
    /// Reset the console.
    Reset,
    /// Pause emulation.
    Pause,
    /// Any other key, by name.
    Other(String),
}

/// A rendering backend: a window that shows frames and reports input.
/// Frontends implement this outside the verified core.
pub trait Renderer: Sized {
    /// The backend's error type.
    type Error;

    /// Open a backend with the given window title.
    fn new(title: &str) -> Result<Self, Self::Error>;

    /// Show one frame of palette indices.
    fn render_frame(&mut self, framebuffer: &NESFramebuffer) -> Result<(), Self::Error>;

    /// Whether the user asked to close the window.
    fn should_close(&self) -> bool;

    /// Drain the input events seen since the last poll.
    fn poll_events(&mut self) -> Vec<InputEvent>;

    /// The current window size in pixels.
    fn window_size(&self) -> (u32, u32);
}

} // verus!
