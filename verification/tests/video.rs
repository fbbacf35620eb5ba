use gameboy::cpu::MEM_SIZE;
use gameboy::memory::{boot_image, boot_rom_unmap_requested, power_on, unmap_boot_rom};
use gameboy::video::{
    begin_frame, cleared_frame, decode_tile_row, end_frame, line_at, render_background,
    render_view, set_line, tile_pixel_shade, view_source_index, BG_PIXELS, VIEW_PIXELS,
};

#[test]
fn tile_row_decoding() {
    assert_eq!(decode_tile_row(0x00), 0x0000);
    assert_eq!(decode_tile_row(0xFF), 0xFFFF);
    assert_eq!(decode_tile_row(0x80), 0xC000);
    assert_eq!(decode_tile_row(0x01), 0x0003);
    assert_eq!(decode_tile_row(0x3C), 0x0FF0);
    assert_eq!(tile_pixel_shade(0x80, 0), 0);
    assert_eq!(tile_pixel_shade(0x80, 1), 255);
    assert_eq!(tile_pixel_shade(0x01, 7), 0);
    assert_eq!(tile_pixel_shade(0x01, 6), 255);
}

#[test]
fn background_from_tiles() {
    let mut mem = vec![0u8; MEM_SIZE];
    // LCDC bit 4 clear: tile data at 0x8800; tile 0's first row is 0x81
    mem[0x8800] = 0x81;
    // tile map entry 1 names tile 2, whose row 3 is 0xFF
    mem[0x9801] = 2;
    mem[0x8800 + 2 * 16 + 3 * 2] = 0xFF;
    let bg = render_background(&mem);
    assert_eq!(bg.len(), 4 * BG_PIXELS);
    let px = |x: usize, y: usize| &bg[4 * (y * 256 + x)..4 * (y * 256 + x) + 4];
    assert_eq!(px(0, 0), &[0, 0, 0, 255]);
    assert_eq!(px(1, 0), &[255, 255, 255, 255]);
    assert_eq!(px(7, 0), &[0, 0, 0, 255]);
    assert_eq!(px(0, 1), &[255, 255, 255, 255]);
    // every tile of the map is tile 0 except the second
    assert_eq!(px(16, 0), &[0, 0, 0, 255]);
    assert_eq!(px(8, 3), &[0, 0, 0, 255]);
    assert_eq!(px(12, 3), &[0, 0, 0, 255]);
    assert_eq!(px(8, 2), &[255, 255, 255, 255]);
    assert!(bg.iter().all(|b| *b == 0 || *b == 255));
    // LCDC bit 4 set: tile data at 0x8000
    mem[0xFF40] = 0x10;
    mem[0x8000] = 0x40;
    let bg = render_background(&mem);
    assert_eq!(&bg[0..8], &[255, 255, 255, 255, 0, 0, 0, 255]);
}

#[test]
fn window_positions() {
    assert_eq!(view_source_index(0, 0, 0), 0);
    assert_eq!(view_source_index(143, 0, 0), 143);
    assert_eq!(view_source_index(144, 0, 0), 256);
    assert_eq!(view_source_index(VIEW_PIXELS - 1, 0, 0), 159 * 256 + 143);
    assert_eq!(view_source_index(0, 10, 0), 10);
    // past the right edge of the background the window wraps to the left edge
    assert_eq!(view_source_index(100, 200, 0), 44);
    // the window starts at the scroll position
    assert_eq!(view_source_index(0, 0, 1), 256);
    assert_eq!(view_source_index(144 + 5, 3, 7), 8 * 256 + 8);
    // past the bottom edge of the background the window wraps to the top
    assert_eq!(view_source_index(144 * 100, 0, 200), 44 * 256);
    assert_eq!(view_source_index(143, 255, 255), 142 + 255 * 256);
    for i in 0..VIEW_PIXELS {
        assert!(view_source_index(i, 255, 255) < BG_PIXELS);
    }
}

#[test]
fn window_copies_background_pixels() {
    let mut bg = vec![0u8; 4 * BG_PIXELS];
    for (j, b) in bg.iter_mut().enumerate() {
        *b = (j / 4 % 251) as u8;
    }
    let out = render_view(&bg, 3, 2);
    assert_eq!(out.len(), 4 * VIEW_PIXELS);
    for i in [0usize, 1, 143, 144, 5000, VIEW_PIXELS - 1] {
        let src = view_source_index(i, 3, 2);
        assert_eq!(&out[4 * i..4 * i + 4], &bg[4 * src..4 * src + 4]);
    }
}

#[test]
fn line_register_and_vblank_request() {
    assert_eq!(line_at(0), 0);
    assert_eq!(line_at(143), 0);
    assert_eq!(line_at(144), 1);
    assert_eq!(line_at(VIEW_PIXELS - 1), 159);
    let mut mem = vec![0u8; MEM_SIZE];
    set_line(&mut mem, 300);
    assert_eq!(mem[0xFF44], 2);
    mem[0xFF0F] = 0x09;
    begin_frame(&mut mem);
    assert_eq!(mem[0xFF0F], 0x08);
    end_frame(&mut mem);
    assert_eq!(mem[0xFF0F], 0x09);
}

#[test]
fn clear_colour() {
    assert_eq!(cleared_frame(2), vec![0x99, 0x99, 0x00, 0xFF, 0x99, 0x99, 0x00, 0xFF]);
    assert_eq!(cleared_frame(0), Vec::<u8>::new());
    assert_eq!(cleared_frame(144 * 160), cleared_frame(144 * 160));
}

#[test]
fn boot_image_layout() {
    let rom: Vec<u8> = (0..0x200usize).map(|i| (i % 256) as u8 ^ 0x5A).collect();
    let boot: Vec<u8> = vec![0xB0; 0x100];
    let mem = boot_image(rom.clone(), &boot);
    assert_eq!(mem.len(), MEM_SIZE);
    assert!(mem[..0x100].iter().all(|b| *b == 0xB0));
    assert_eq!(&mem[0x100..0x200], &rom[0x100..0x200]);
    assert!(mem[0x200..].iter().all(|b| *b == 0));
    // a cartridge longer than the address space is cut
    let big = vec![7u8; MEM_SIZE + 10];
    let mem = boot_image(big, &boot);
    assert_eq!(mem.len(), MEM_SIZE);
    assert_eq!(mem[MEM_SIZE - 1], 7);
}

#[test]
fn power_on_and_unmap() {
    let boot: Vec<u8> = vec![0xB0; 0x100];
    let rom: Vec<u8> = vec![0x11; 0x300];
    let mut mem = boot_image(rom.clone(), &boot);
    power_on(&mut mem);
    assert_eq!(mem[0xFF44], 0x90);
    assert!(!boot_rom_unmap_requested(&mem));
    mem[0xFF50] = 1;
    assert!(boot_rom_unmap_requested(&mem));
    unmap_boot_rom(&mut mem, &rom);
    assert!(mem[..0x100].iter().all(|b| *b == 0x11));
    assert_eq!(mem[0xFF50], 0);
    assert_eq!(mem[0xFF44], 0x90);
    assert!(!boot_rom_unmap_requested(&mem));
}
