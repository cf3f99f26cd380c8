use artefact::jpeg::{DecodedComponent, DecodedImage, Jpeg, JpegSource, SampFactor};

fn comp(px_w: u32, px_h: u32, ws: u32, hs: u32, ncoef: usize, q: u16) -> DecodedComponent {
    DecodedComponent {
        px_w,
        px_h,
        w_sampling: ws,
        h_sampling: hs,
        dct_coefs: vec![0i16; ncoef],
        quant_table: vec![q; 64],
    }
}

#[test]
fn samp_factor_values() {
    assert_eq!(SampFactor::One.usize(), 1);
    assert_eq!(SampFactor::Two.usize(), 2);
}

#[test]
fn jpeg_source_holds_its_bytes() {
    let src = JpegSource::Buffer(vec![1u8, 2, 3]);
    match src {
        JpegSource::Buffer(b) => assert_eq!(b, vec![1u8, 2, 3]),
        JpegSource::File(_) => panic!("expected a buffer"),
    }
    let src = JpegSource::File("image".to_string());
    assert!(matches!(src, JpegSource::File(_)));
}

#[test]
fn from_builds_rounded_geometry() {
    let img = DecodedImage {
        real_px_w: 10,
        real_px_h: 10,
        components: vec![comp(10, 10, 2, 2, 256, 16), comp(5, 5, 1, 1, 64, 17)],
    };
    let jpeg = Jpeg::from(img).unwrap();
    assert_eq!(jpeg.chan_count, 2);
    assert_eq!(jpeg.real_px_w, 10);
    assert_eq!(jpeg.real_px_h, 10);
    assert_eq!(jpeg.coefs.len(), 2);

    let y = &jpeg.coefs[0];
    assert_eq!(y.rounded_px_w, 16);
    assert_eq!(y.rounded_px_h, 16);
    assert_eq!(y.rounded_px_count, 256);
    assert_eq!(y.block_w, 2);
    assert_eq!(y.block_h, 2);
    assert_eq!(y.block_count, 4);
    assert!(matches!(y.w_samp_factor, SampFactor::One));
    assert!(matches!(y.h_samp_factor, SampFactor::One));
    assert_eq!(y.dct_coefs.len(), 256);
    assert_eq!(y.quant_table, vec![16u16; 64]);

    let c = &jpeg.coefs[1];
    assert_eq!(c.rounded_px_w, 8);
    assert_eq!(c.rounded_px_h, 8);
    assert_eq!(c.block_count, 1);
    assert!(matches!(c.w_samp_factor, SampFactor::Two));
    assert!(matches!(c.h_samp_factor, SampFactor::Two));
    assert_eq!(c.quant_table, vec![17u16; 64]);
}

#[test]
fn from_accepts_no_channels() {
    let img = DecodedImage { real_px_w: 0, real_px_h: 0, components: vec![] };
    let jpeg = Jpeg::from(img).unwrap();
    assert_eq!(jpeg.chan_count, 0);
    assert_eq!(jpeg.coefs.len(), 0);
}

#[test]
fn from_rejects_horizontal_ratio() {
    // widest channel samples 3 per unit, the other 1: ratio 3 is not 1 or 2
    let img = DecodedImage {
        real_px_w: 8,
        real_px_h: 8,
        components: vec![comp(8, 8, 1, 1, 64, 1), comp(8, 8, 3, 1, 64, 1)],
    };
    let err = Jpeg::from(img).unwrap_err();
    assert_eq!(err, "Invalid horizontal sample factor");
}

#[test]
fn from_rejects_vertical_ratio() {
    let img = DecodedImage {
        real_px_w: 8,
        real_px_h: 8,
        components: vec![comp(8, 8, 1, 1, 64, 1), comp(8, 8, 1, 4, 64, 1)],
    };
    let err = Jpeg::from(img).unwrap_err();
    assert_eq!(err, "Invalid vertical sample factor");
}

#[test]
fn from_rejects_short_quant_table() {
    let mut bad = comp(8, 8, 1, 1, 64, 1);
    bad.quant_table.pop();
    let img = DecodedImage { real_px_w: 8, real_px_h: 8, components: vec![bad] };
    let err = Jpeg::from(img).unwrap_err();
    assert_eq!(err, "Failed to convert quantization table");
}

#[test]
fn from_checks_ratios_before_quant_table() {
    // the second channel fails both ways: the ratio check runs first
    let mut bad = comp(8, 8, 1, 1, 64, 1);
    bad.quant_table.pop();
    let img = DecodedImage {
        real_px_w: 8,
        real_px_h: 8,
        components: vec![comp(8, 8, 1, 4, 64, 1), bad],
    };
    let err = Jpeg::from(img).unwrap_err();
    assert_eq!(err, "Invalid vertical sample factor");
}
