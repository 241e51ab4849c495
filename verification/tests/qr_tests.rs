use factura_pdf::qr::{
    convert_image_for_pdf, encode_qr_grid, generate_qr_code_image, margin_qr_grid, scale_qr_grid,
    try_generate_qr_code_image, try_generate_qr_code_image2, GrayImage, PdfColorSpace, QrError,
    QrGrid,
};
use qrcodegen::{QrCode, QrCodeEcc};

fn reference_modules(text: &str) -> (u32, Vec<bool>) {
    let qr = QrCode::encode_text(text, QrCodeEcc::Medium).unwrap();
    let size = qr.size();
    let mut dark = Vec::new();
    for y in 0..size {
        for x in 0..size {
            dark.push(qr.get_module(x, y));
        }
    }
    (size as u32, dark)
}

#[test]
fn grid_matches_qrcodegen() {
    let url = "https://admin.factura.gob.sv/consultaPublica?ambiente=01&codGen=X&fechaEmi=2024-05-01";
    let grid = encode_qr_grid(url).unwrap();
    let (side, dark) = reference_modules(url);
    assert_eq!(grid.side, side);
    assert_eq!(grid.dark, dark);
    // The finder pattern in the top-left corner: a dark top row of seven modules.
    assert!((0..7).all(|x| grid.dark[x]));
    assert!(!grid.dark[7]);
}

#[test]
fn text_too_long_for_a_code() {
    let text = "x".repeat(5000);
    assert_eq!(encode_qr_grid(&text).err(), Some(QrError::DataTooLong));
    assert!(try_generate_qr_code_image(&text, 7).is_none());
    assert!(try_generate_qr_code_image2(&text, 100).is_none());
}

#[test]
fn scaled_grid_pixels() {
    let grid = QrGrid { side: 2, dark: vec![true, false, false, true] };
    let img = scale_qr_grid(&grid, 2);
    assert_eq!((img.width, img.height), (4, 4));
    assert_eq!(
        img.pixels,
        vec![
            0, 0, 255, 255,
            0, 0, 255, 255,
            255, 255, 0, 0,
            255, 255, 0, 0,
        ]
    );
    let empty = scale_qr_grid(&grid, 0);
    assert_eq!((empty.width, empty.height), (0, 0));
    assert!(empty.pixels.is_empty());
}

#[test]
fn one_pixel_per_module_is_the_grid() {
    let grid = QrGrid { side: 3, dark: vec![true, false, true, false, true, false, true, true, false] };
    let img = scale_qr_grid(&grid, 1);
    let expected: Vec<u8> = grid.dark.iter().map(|d| if *d { 0 } else { 255 }).collect();
    assert_eq!(img.pixels, expected);
}

#[test]
fn margin_grid_pixels() {
    let grid = QrGrid { side: 2, dark: vec![true, false, false, true] };
    let img = margin_qr_grid(&grid);
    assert_eq!((img.width, img.height), (4, 4));
    assert_eq!(
        img.pixels,
        vec![
            255, 255, 255, 255,
            255, 255, 255, 255,
            255, 255, 0, 255,
            255, 255, 255, 0,
        ]
    );
}

#[test]
fn generated_image_scales_the_code() {
    let url = "hola";
    let img = generate_qr_code_image(url, 7);
    let (side, dark) = reference_modules(url);
    assert_eq!(img.width, side * 7);
    assert_eq!(img.height, side * 7);
    let w = (side * 7) as usize;
    for py in 0..w {
        for px in 0..w {
            let m = dark[(py / 7) * side as usize + px / 7];
            assert_eq!(img.pixels[py * w + px], if m { 0 } else { 255 });
        }
    }
    let again = try_generate_qr_code_image(url, 7).unwrap();
    assert_eq!(again.pixels, img.pixels);
}

#[test]
fn generated_image_with_margin() {
    let url = "hola";
    let img = try_generate_qr_code_image2(url, 300).unwrap();
    let (side, dark) = reference_modules(url);
    assert_eq!(img.width, side + 2);
    let w = (side + 2) as usize;
    for y in 0..side as usize {
        for x in 0..side as usize {
            let m = dark[y * side as usize + x];
            assert_eq!(img.pixels[(y + 2) * w + x + 2], if m { 0 } else { 255 });
        }
    }
    assert!(img.pixels[..2 * w].iter().all(|p| *p == 255));
}

#[test]
fn pdf_image_keeps_pixels() {
    let img = GrayImage { width: 2, height: 1, pixels: vec![0, 255] };
    let pdf = convert_image_for_pdf(&img);
    assert_eq!((pdf.width, pdf.height), (2, 1));
    assert_eq!(pdf.color_space, PdfColorSpace::Greyscale);
    assert_eq!(pdf.bits_per_component, 8);
    assert!(!pdf.interpolate);
    assert_eq!(pdf.image_data, vec![0, 255]);
}
