use nessie::rendering::{
    framebuffer_to_rgb888, framebuffer_to_rgba8888, palette_to_rgb, NES_HEIGHT, NES_WIDTH,
};

#[test]
fn test_palette_to_rgb() {
    // Test first color (dark gray)
    let (r, g, b) = palette_to_rgb(0x00);
    assert_eq!((r, g, b), (0x66, 0x66, 0x66));

    // Test a known color (bright white)
    let (r, g, b) = palette_to_rgb(0x30);
    assert_eq!((r, g, b), (0xFF, 0xFE, 0xFF));
}

#[test]
fn test_framebuffer_conversion() {
    let mut framebuffer = [0u8; NES_WIDTH * NES_HEIGHT];
    framebuffer[0] = 0x00; // First pixel dark gray
    framebuffer[1] = 0x30; // Second pixel white

    let rgb = framebuffer_to_rgb888(&framebuffer);
    assert_eq!(rgb[0..3], [0x66, 0x66, 0x66]); // First pixel
    assert_eq!(rgb[3..6], [0xFF, 0xFE, 0xFF]); // Second pixel

    let rgba = framebuffer_to_rgba8888(&framebuffer);
    assert_eq!(rgba[0..4], [0x66, 0x66, 0x66, 255]); // First pixel with alpha
    assert_eq!(rgba[4..8], [0xFF, 0xFE, 0xFF, 255]); // Second pixel with alpha
}

#[test]
fn test_rgba_length_and_alpha() {
    // The RGBA expansion has length 256 x 240 x 4 and alpha 255 at every
    // fourth byte.
    let framebuffer = [0x21u8; NES_WIDTH * NES_HEIGHT];
    let rgba = framebuffer_to_rgba8888(&framebuffer);
    assert_eq!(rgba.len(), 256 * 240 * 4);
    for pixel in 0..NES_WIDTH * NES_HEIGHT {
        assert_eq!(rgba[4 * pixel + 3], 255);
    }
}

#[test]
fn test_palette_index_mirrors_modulo_64() {
    // Indices at and above 64 reduce modulo 64.
    assert_eq!(palette_to_rgb(0x40), palette_to_rgb(0x00));
    assert_eq!(palette_to_rgb(0x70), palette_to_rgb(0x30));
}

#[test]
fn test_distinct_palette_colors_stay_distinct() {
    // Indices with different palette colors keep different RGB triples:
    // the 64 entries hold exactly 54 distinct colors (the blacks and the
    // brightest white repeat), and exactly 54 distinct triples come out.
    let mut triples: Vec<(u8, u8, u8)> = Vec::new();
    for index in 0u8..64 {
        triples.push(palette_to_rgb(index));
    }
    let mut distinct = triples.clone();
    distinct.sort();
    distinct.dedup();
    assert_eq!(distinct.len(), 54);
    // The repeated blacks collide by necessity...
    assert_eq!(triples[0x0D], (0x00, 0x00, 0x00));
    assert_eq!(triples[0x0D], triples[0x0E]);
    // ...while neighbours with different colors stay apart.
    assert_ne!(triples[0x00], triples[0x10]);
    assert_ne!(triples[0x01], triples[0x02]);
}
