use voxel_tunnel::color::pack_rgb;
use voxel_tunnel::terminal::Terminal;

#[test]
fn unpack_rgb_splits_the_channels() {
    let terminal = Terminal::new(1, 1);
    assert_eq!(terminal.unpack_rgb(0x123456), (0x12, 0x34, 0x56));
    assert_eq!(terminal.unpack_rgb(0), (0, 0, 0));
    assert_eq!(terminal.unpack_rgb(0xFFFFFF), (255, 255, 255));
    assert_eq!(terminal.unpack_rgb(0xFF0000), (255, 0, 0));
    assert_eq!(terminal.unpack_rgb(0x0000FF), (0, 0, 255));
    // Bits above the three channels are dropped.
    assert_eq!(terminal.unpack_rgb(0xAB123456), (0x12, 0x34, 0x56));
}

#[test]
fn pack_rgb_is_the_inverse_of_unpack_rgb() {
    let terminal = Terminal::new(1, 1);
    assert_eq!(pack_rgb(0x12, 0x34, 0x56), 0x123456);
    assert_eq!(pack_rgb(0, 0, 0), 0);
    assert_eq!(pack_rgb(255, 255, 255), 0xFFFFFF);
    for color in [0u32, 1, 0x010203, 0x7F80FF, 0xFFFFFF] {
        let (r, g, b) = terminal.unpack_rgb(color);
        assert_eq!(pack_rgb(r as u32, g as u32, b as u32), color);
    }
}

#[test]
fn half_block_row_pairs_a_row_with_the_one_below() {
    let terminal = Terminal::new(3, 2);
    let frame = vec![0x010000, 0x020000, 0x030000, 0x000100, 0x000200, 0x000300];
    let cells = terminal.half_block_row(&frame, 0);
    assert_eq!(cells.len(), 3);
    for col in 0..3 {
        assert_eq!(cells[col].top, (col as u8 + 1, 0, 0));
        assert_eq!(cells[col].bottom, (0, col as u8 + 1, 0));
    }
}

#[test]
fn half_block_row_below_the_frame_is_black() {
    let terminal = Terminal::new(2, 3);
    let frame = vec![0x111111, 0x222222, 0x333333, 0x444444, 0x555555, 0x666666];
    let cells = terminal.half_block_row(&frame, 2);
    assert_eq!(cells.len(), 2);
    assert_eq!(cells[0].top, (0x55, 0x55, 0x55));
    assert_eq!(cells[1].top, (0x66, 0x66, 0x66));
    assert_eq!(cells[0].bottom, (0, 0, 0));
    assert_eq!(cells[1].bottom, (0, 0, 0));
    // A frame that ends in the middle of the lower row.
    let frame = vec![1, 2, 3];
    let cells = Terminal::new(2, 2).half_block_row(&frame, 0);
    assert_eq!(cells[0].bottom, (0, 0, 3));
    assert_eq!(cells[1].bottom, (0, 0, 0));
}

#[test]
fn half_blocks_take_two_rows_to_a_line() {
    let frame: Vec<u32> = (0..20).collect();
    let picture = Terminal::new(4, 5).half_blocks(&frame);
    assert_eq!(picture.len(), 3);
    for (line, cells) in picture.iter().enumerate() {
        assert_eq!(cells.len(), 4);
        for (col, cell) in cells.iter().enumerate() {
            assert_eq!(cell.top, (0, 0, (line * 8 + col) as u8));
            if line < 2 {
                assert_eq!(cell.bottom, (0, 0, (line * 8 + 4 + col) as u8));
            } else {
                assert_eq!(cell.bottom, (0, 0, 0));
            }
        }
    }
    let even = Terminal::new(4, 4).half_blocks(&frame);
    assert_eq!(even.len(), 2);
    assert_eq!(even[1][3].bottom, (0, 0, 15));
}

#[test]
fn half_blocks_of_nothing() {
    assert!(Terminal::new(4, 0).half_blocks(&Vec::new()).is_empty());
    let picture = Terminal::new(0, 4).half_blocks(&Vec::new());
    assert_eq!(picture.len(), 2);
    assert!(picture.iter().all(|line| line.is_empty()));
    let one = Terminal::new(1, 1).half_blocks(&vec![0xFFFFFF]);
    assert_eq!(one.len(), 1);
    assert_eq!(one[0][0].top, (255, 255, 255));
    assert_eq!(one[0][0].bottom, (0, 0, 0));
}

#[test]
fn atlas_row_reads_one_row_of_a_texture() {
    let textures: Vec<u32> = (0..12288).collect();
    let terminal = Terminal::new(1, 1);
    let row = terminal.atlas_row(&textures, 0, 0);
    assert_eq!(row.len(), 16);
    for x in 0..16 {
        assert_eq!(row[x], (0, 0, x as u8));
    }
    let row = terminal.atlas_row(&textures, 9, 47);
    for x in 0..16usize {
        let i = (x + 47 * 16 + 9 * 768) as u32;
        assert_eq!(row[x], ((i >> 16) as u8, (i >> 8) as u8, i as u8));
    }
}

#[test]
fn a_frame_fits_when_it_reaches_every_upper_pixel() {
    let terminal = Terminal::new(4, 5);
    // Rows 0, 2 and 4 are upper rows: the frame must reach the end of row 4.
    assert!(terminal.fits_frame(20));
    assert!(terminal.fits_frame(1000));
    assert!(!terminal.fits_frame(19));
    assert!(!terminal.fits_frame(0));
    let even = Terminal::new(4, 4);
    // Row 3 is a lower row and may be missing.
    assert!(even.fits_frame(12));
    assert!(!even.fits_frame(11));
    assert!(Terminal::new(0, 9).fits_frame(0));
    assert!(Terminal::new(9, 0).fits_frame(0));
    assert!(Terminal::new(1, 1).fits_frame(1));
    assert!(!Terminal::new(1, 1).fits_frame(0));
    assert!(!Terminal::new(usize::MAX, usize::MAX).fits_frame(usize::MAX));
}
