use render_service::png::{encode_png, PngError};
use render_service::readback::{strip_row_padding, ReadbackLayout, HEIGHT, WIDTH};

fn pattern(len: usize) -> Vec<u8> {
    (0..len).map(|i| (i * 31 % 251) as u8).collect()
}

#[test]
fn rows_are_stripped_of_padding() {
    let data = [1u8, 2, 3, 0, 0, 4, 5, 6, 0, 0];
    assert_eq!(strip_row_padding(&data, 5, 3), vec![1, 2, 3, 4, 5, 6]);
    assert_eq!(strip_row_padding(&data, 5, 5), data.to_vec());
    assert_eq!(strip_row_padding(&data, 5, 0), Vec::<u8>::new());
    assert_eq!(strip_row_padding(&[], 5, 3), Vec::<u8>::new());
}

#[test]
fn a_short_last_row_is_kept() {
    let data = [1u8, 2, 3, 0, 0, 4, 5, 6];
    assert_eq!(strip_row_padding(&data, 5, 3), vec![1, 2, 3, 4, 5, 6]);
}

#[test]
fn rendered_pictures_need_no_padding() {
    let layout = ReadbackLayout::rendered();
    assert_eq!((layout.width, layout.height), (WIDTH, HEIGHT));
    assert_eq!((WIDTH, HEIGHT), (1024, 1024));
    assert_eq!(layout.unpadded_bytes_per_row, 4096);
    assert_eq!(layout.padded_bytes_per_row, 4096);
    assert_eq!(layout.buffer_size, 4096 * 1024);
}

#[test]
fn rows_are_padded_to_the_alignment() {
    let narrow = ReadbackLayout::new(1, 3);
    assert_eq!(narrow.unpadded_bytes_per_row, 4);
    assert_eq!(narrow.padded_bytes_per_row, 256);
    assert_eq!(narrow.buffer_size, 768);

    assert_eq!(ReadbackLayout::new(64, 1).padded_bytes_per_row, 256);
    assert_eq!(ReadbackLayout::new(65, 1).padded_bytes_per_row, 512);
    assert_eq!(ReadbackLayout::new(0, 7).padded_bytes_per_row, 0);
    assert_eq!(ReadbackLayout::new(1_073_741_760, 1).padded_bytes_per_row, 4_294_967_040);
}

#[test]
fn encoding_a_readback_drops_the_padding() {
    let layout = ReadbackLayout::new(3, 2);
    let pixels = pattern(3 * 2 * 4);
    let mut data = vec![0xeeu8; layout.buffer_size as usize];
    for y in 0..2 {
        data[y * 256..y * 256 + 12].copy_from_slice(&pixels[y * 12..y * 12 + 12]);
    }
    let png = layout.encode(&data).unwrap();
    let decoded = image::load_from_memory(&png).unwrap().into_rgba8();
    assert_eq!(decoded.dimensions(), (3, 2));
    assert_eq!(decoded.into_raw(), pixels);
    assert_eq!(png, encode_png(3, 2, pixels).unwrap());
}

#[test]
fn a_full_picture_is_encoded() {
    let layout = ReadbackLayout::rendered();
    let pixels = pattern(layout.buffer_size as usize);
    let png = layout.encode(&pixels).unwrap();
    let decoded = image::load_from_memory(&png).unwrap().into_rgba8();
    assert_eq!(decoded.dimensions(), (1024, 1024));
    assert_eq!(decoded.into_raw(), pixels);
}

#[test]
fn encoded_pictures_are_png_files() {
    let png = encode_png(1, 1, vec![1, 2, 3, 4]).unwrap();
    assert_eq!(png[..8], [137, 80, 78, 71, 13, 10, 26, 10]);
    assert_eq!(image::guess_format(&png).unwrap(), image::ImageFormat::Png);
}

#[test]
fn bytes_past_the_last_pixel_are_left_out() {
    let exact = encode_png(2, 1, vec![1, 2, 3, 4, 5, 6, 7, 8]).unwrap();
    let longer = encode_png(2, 1, vec![1, 2, 3, 4, 5, 6, 7, 8, 9, 10]).unwrap();
    assert_eq!(exact, longer);
}

#[test]
fn too_few_bytes_are_no_picture() {
    assert_eq!(encode_png(2, 1, vec![0; 7]), Err(PngError::ImageBuffer));
    assert_eq!(encode_png(0x4000_0000, 1, vec![0; 7]), Err(PngError::ImageBuffer));
    assert_eq!(encode_png(u32::MAX, u32::MAX, vec![0; 7]), Err(PngError::ImageBuffer));
}

#[test]
fn an_empty_picture_is_refused() {
    assert_eq!(encode_png(0, 5, vec![]), Err(PngError::Encoder));
    assert_eq!(encode_png(5, 0, vec![]), Err(PngError::Encoder));
    assert_eq!(ReadbackLayout::new(5, 0).encode(&[]), Err(PngError::Encoder));
}
