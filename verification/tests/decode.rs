use otp_export::qr_decode::{decode_to_string, DecodingError};

// A QR symbol (version 1, byte mode, error-correction level L, mask 0)
// holding the text "test", one character per module.
const TEST_QR: [&str; 21] = [
    "#######...#.#.#######",
    "#.....#.....#.#.....#",
    "#.###.#.#.#...#.###.#",
    "#.###.#.....#.#.###.#",
    "#.###.#..#.##.#.###.#",
    "#.....#..###..#.....#",
    "#######.#.#.#.#######",
    "........#.#..........",
    "###.#####.#.###...#..",
    ".#.##.....##.#.#...##",
    "..#...#....#.###.####",
    "#.#.##.###.###.##..#.",
    ".#.#..#.#..#.###.#.##",
    "........###...#..#..#",
    "#######.#.#.#...##.##",
    "#.....#.##....#....#.",
    "#.###.#.##..#.#.##.##",
    "#.###.#...##.#.#...#.",
    "#.###.#.##.#.###..#.#",
    "#.....#.#.####.###.#.",
    "#######.##.#.###..###",
];

// The same kind of symbol holding the bytes 0xde 0xad 0xbe 0xef, which are
// not valid UTF-8.
const NON_UTF8_QR: [&str; 21] = [
    "#######...#.#.#######",
    "#.....#.....#.#.....#",
    "#.###.#.#.#...#.###.#",
    "#.###.#.....#.#.###.#",
    "#.###.#..#.##.#.###.#",
    "#.....#..###..#.....#",
    "#######.#.#.#.#######",
    "........#.#..........",
    "###.#####.#.###...#..",
    "#####..#.###.#.#..###",
    "###...##..##.###.##..",
    "..##.#.#..####.######",
    "#####.##...#.###.#.#.",
    "........##....#...#..",
    "#######.#.#.#...#..#.",
    "#.....#.#.#...#...##.",
    "#.###.#.#...#.#.#..##",
    "#.###.#..###.#.#..##.",
    "#.###.#.#..#.###.#..#",
    "#.....#.######.###.#.",
    "#######.####.###..###",
];

const SCALE: usize = 4;
const QUIET: usize = 4;

/// Renders QR module patterns side by side as a grayscale pixel grid, each
/// module SCALE pixels wide, with a quiet zone around and between them.
fn pixel_grid(patterns: &[[&str; 21]]) -> (usize, usize, Vec<u8>) {
    let cols = (21 + QUIET) * patterns.len() + QUIET;
    let rows = 21 + 2 * QUIET;
    let width = cols * SCALE;
    let height = rows * SCALE;
    let mut pixels = vec![255u8; width * height];
    for (n, pattern) in patterns.iter().enumerate() {
        let col0 = QUIET + n * (21 + QUIET);
        for (r, row) in pattern.iter().enumerate() {
            for (c, ch) in row.chars().enumerate() {
                if ch == '#' {
                    for dy in 0..SCALE {
                        for dx in 0..SCALE {
                            let y = (QUIET + r) * SCALE + dy;
                            let x = (col0 + c) * SCALE + dx;
                            pixels[y * width + x] = 0;
                        }
                    }
                }
            }
        }
    }
    (width, height, pixels)
}

#[test]
fn test_decode_to_string() {
    let (width, height, pixels) = pixel_grid(&[TEST_QR]);
    assert_eq!(decode_to_string(width, height, &pixels), Ok("test".into()));
}

#[test]
fn test_decode_to_string_not_a_qr_code() {
    let pixels = vec![255u8; 96 * 96];
    assert_eq!(
        decode_to_string(96, 96, &pixels),
        Err(DecodingError::NoQRCodeFound)
    );
}

#[test]
fn test_decode_to_string_two_qr_codes() {
    let (width, height, pixels) = pixel_grid(&[TEST_QR, NON_UTF8_QR]);
    assert_eq!(
        decode_to_string(width, height, &pixels),
        Err(DecodingError::MultipleQRCodesFound)
    );
}

#[test]
fn test_decode_to_string_non_utf8_qr_code() {
    let (width, height, pixels) = pixel_grid(&[NON_UTF8_QR]);
    assert_eq!(
        decode_to_string(width, height, &pixels),
        Err(DecodingError::InvalidUtf8)
    );
}
