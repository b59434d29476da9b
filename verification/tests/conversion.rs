use ndi_camera::bgr::BgrStream;
use ndi_camera::canonical::{concluded, layout, Layout};
use ndi_camera::converter::convert;
use ndi_camera::error::ConversionError;
use ndi_camera::format::{ColorMatrix, ColorRange, FrameInfo, SourceEncoding, StreamConfiguration, VideoType};
use ndi_camera::geometry::Size;
use ndi_camera::mjpeg::MjpegStream;
use ndi_camera::rgb::RgbStream;
use ndi_camera::yuyv::YuyvStream;

fn config(encoding: SourceEncoding, width: u32, height: u32, stride: u32) -> StreamConfiguration {
    StreamConfiguration { encoding, size: Size::new(width, height), stride, range: None }
}

fn counting(len: usize) -> Vec<u8> {
    let mut bytes: Vec<u8> = Vec::new();
    for i in 0..len {
        bytes.push((i % 251) as u8 + 1);
    }
    bytes
}

fn expanded(source: &[u8], pixels: usize, before: &[u8]) -> Vec<u8> {
    let mut expected: Vec<u8> = before.to_vec();
    for p in 0..pixels {
        expected[4 * p] = source[3 * p];
        expected[4 * p + 1] = source[3 * p + 1];
        expected[4 * p + 2] = source[3 * p + 2];
        expected[4 * p + 3] = 255;
    }
    expected
}

#[test]
fn rgb_zero_frame_4x2_is_opaque_black() {
    let cfg = config(SourceEncoding::Rgb, 4, 2, 12);
    let frame: Vec<u8> = vec![0u8; 24];
    let mut target: Vec<u8> = vec![7u8; 32];
    let info = RgbStream.capture_frame(&cfg, &frame, &mut target).unwrap();
    assert_eq!(info, FrameInfo { video_type: VideoType::Rgbx, stride: 16, bytes_used: 32 });
    assert_eq!(target.len(), 32);
    for pixel in target.chunks(4) {
        assert_eq!(pixel, &[0u8, 0, 0, 255]);
    }
}

#[test]
fn bgr_zero_frame_4x2_is_opaque_black() {
    let cfg = config(SourceEncoding::Bgr, 4, 2, 12);
    let frame: Vec<u8> = vec![0u8; 24];
    let mut target: Vec<u8> = vec![9u8; 32];
    let info = BgrStream.convert_frame(&cfg, &frame, &mut target).unwrap();
    assert_eq!(info, FrameInfo { video_type: VideoType::Bgrx, stride: 16, bytes_used: 32 });
    for pixel in target.chunks(4) {
        assert_eq!(pixel, &[0u8, 0, 0, 255]);
    }
}

#[test]
fn rgb_keeps_colour_bytes_in_order() {
    let cfg = config(SourceEncoding::Rgb, 2, 1, 6);
    let frame: Vec<u8> = vec![1, 2, 3, 4, 5, 6];
    let mut target: Vec<u8> = vec![0u8; 8];
    let info = RgbStream.capture_frame(&cfg, &frame, &mut target).unwrap();
    assert_eq!(info.video_type, VideoType::Rgbx);
    assert_eq!(target, vec![1, 2, 3, 255, 4, 5, 6, 255]);
}

#[test]
fn bgr_keeps_colour_bytes_in_order() {
    let cfg = config(SourceEncoding::Bgr, 2, 1, 6);
    let frame: Vec<u8> = vec![10, 20, 30, 40, 50, 60];
    let mut target: Vec<u8> = vec![0u8; 8];
    let info = BgrStream.convert_frame(&cfg, &frame, &mut target).unwrap();
    assert_eq!(info.video_type, VideoType::Bgrx);
    assert_eq!(target, vec![10, 20, 30, 255, 40, 50, 60, 255]);
}

#[test]
fn rgb_wide_rows_match_the_pixel_formula() {
    let width: u32 = 70;
    let height: u32 = 3;
    let cfg = config(SourceEncoding::Rgb, width, height, width * 3);
    let frame = counting(70 * 3 * 3);
    let before: Vec<u8> = vec![0u8; 70 * 3 * 4];
    let mut target = before.clone();
    let info = RgbStream.capture_frame(&cfg, &frame, &mut target).unwrap();
    assert_eq!(info.stride, 280);
    assert_eq!(info.bytes_used, 840);
    assert_eq!(target, expanded(&frame, 210, &before));
}

#[test]
fn bgr_wide_rows_match_the_pixel_formula() {
    let width: u32 = 133;
    let height: u32 = 2;
    let cfg = config(SourceEncoding::Bgr, width, height, width * 3);
    let frame = counting(133 * 2 * 3);
    let before: Vec<u8> = vec![0u8; 133 * 2 * 4];
    let mut target = before.clone();
    BgrStream.convert_frame(&cfg, &frame, &mut target).unwrap();
    assert_eq!(target, expanded(&frame, 266, &before));
}

#[test]
fn bytes_behind_the_frame_are_left_alone() {
    let cfg = config(SourceEncoding::Rgb, 2, 2, 6);
    let mut frame = counting(12);
    frame.extend_from_slice(&[200, 201, 202, 203, 204, 205]);
    let before: Vec<u8> = vec![42u8; 16 + 8];
    let mut target = before.clone();
    let info = RgbStream.capture_frame(&cfg, &frame, &mut target).unwrap();
    assert_eq!(info.bytes_used, 16);
    assert_eq!(target, expanded(&frame, 4, &before));
    assert_eq!(&target[16..], &[42u8; 8]);
}

#[test]
fn uncompressed_output_is_height_rows_of_four_bytes_per_pixel() {
    let sizes: Vec<(u32, u32)> = vec![(1, 1), (2, 3), (5, 4), (16, 9), (65, 2)];
    for (width, height) in sizes {
        let pixels = (width * height) as usize;
        let expected = height as usize * (width as usize * 4);
        let mut target: Vec<u8> = vec![0u8; expected];

        let rgb = config(SourceEncoding::Rgb, width, height, width * 3);
        let info = convert(&rgb, &vec![0u8; pixels * 3], &mut target).unwrap();
        assert_eq!(info.bytes_used, expected);
        assert_eq!(info.stride, width * 4);

        let bgr = config(SourceEncoding::Bgr, width, height, width * 3);
        let info = convert(&bgr, &vec![0u8; pixels * 3], &mut target).unwrap();
        assert_eq!(info.bytes_used, expected);

        let row = 2 * (width + width % 2);
        let yuyv = config(SourceEncoding::Yuyv, width, height, row);
        let info = convert(&yuyv, &vec![0u8; (row * height) as usize], &mut target).unwrap();
        assert_eq!(info.bytes_used, expected);
        assert_eq!(info.stride, width * 4);
    }
}

#[test]
fn converting_twice_gives_the_same_bytes() {
    let encodings: Vec<SourceEncoding> =
        vec![SourceEncoding::Bgr, SourceEncoding::Rgb, SourceEncoding::Yuyv];
    for encoding in encodings {
        let stride: u32 = if encoding == SourceEncoding::Yuyv { 12 } else { 18 };
        let cfg = config(encoding, 6, 5, stride);
        let frame = counting((stride * 5) as usize);
        let mut first: Vec<u8> = vec![0u8; 120];
        let mut second: Vec<u8> = vec![255u8; 120];
        let one = convert(&cfg, &frame, &mut first).unwrap();
        let two = convert(&cfg, &frame, &mut second).unwrap();
        assert_eq!(one, two);
        assert_eq!(first, second);
    }
}

#[test]
fn layout_of_a_frame() {
    assert_eq!(layout(&Size::new(4, 2)), Ok(Layout { stride: 16, len: 32 }));
    assert_eq!(layout(&Size::new(1920, 1080)), Ok(Layout { stride: 7680, len: 8294400 }));
    assert_eq!(layout(&Size::new(0, 2)), Err(ConversionError::EmptyFrame));
    assert_eq!(layout(&Size::new(2, 0)), Err(ConversionError::EmptyFrame));
    assert_eq!(layout(&Size::new(0x4000_0000, 1)), Err(ConversionError::GeometryOverflow));
    assert_eq!(layout(&Size::new(0x3fff_ffff, 1)), Ok(Layout { stride: 0xffff_fffc, len: 0xffff_fffc }));
    assert_eq!(
        Layout { stride: 16, len: 32 }.frame_info(VideoType::Bgrx),
        FrameInfo { video_type: VideoType::Bgrx, stride: 16, bytes_used: 32 }
    );
}

#[test]
fn refusal_by_the_routine_is_reported() {
    let info = FrameInfo { video_type: VideoType::Rgbx, stride: 16, bytes_used: 32 };
    assert_eq!(concluded(Ok(()), info), Ok(info));
    assert_eq!(
        concluded(Err(yuvutils_rs::YuvError::ZeroBaseSize), info),
        Err(ConversionError::Rejected)
    );
    assert_eq!(
        concluded(Err(yuvutils_rs::YuvError::PointerOverflow), info),
        Err(ConversionError::Rejected)
    );
}

#[test]
fn empty_frame_is_refused() {
    let mut target: Vec<u8> = vec![5u8; 16];
    let no_width = config(SourceEncoding::Rgb, 0, 4, 0);
    assert_eq!(
        RgbStream.capture_frame(&no_width, &[0u8; 12], &mut target),
        Err(ConversionError::EmptyFrame)
    );
    let no_height = config(SourceEncoding::Bgr, 4, 0, 12);
    assert_eq!(
        BgrStream.convert_frame(&no_height, &[0u8; 12], &mut target),
        Err(ConversionError::EmptyFrame)
    );
    let yuyv = config(SourceEncoding::Yuyv, 0, 0, 0);
    assert_eq!(
        YuyvStream.capture_frame(&yuyv, &[0u8; 12], &mut target),
        Err(ConversionError::EmptyFrame)
    );
    assert_eq!(target, vec![5u8; 16]);
}

#[test]
fn oversized_geometry_is_refused() {
    let mut target: Vec<u8> = vec![5u8; 16];
    let cfg = config(SourceEncoding::Rgb, 0x4000_0000, 1, 0);
    assert_eq!(
        RgbStream.capture_frame(&cfg, &[0u8; 12], &mut target),
        Err(ConversionError::GeometryOverflow)
    );
    let cfg = config(SourceEncoding::Yuyv, u32::MAX, u32::MAX, 0);
    assert_eq!(
        YuyvStream.capture_frame(&cfg, &[0u8; 12], &mut target),
        Err(ConversionError::GeometryOverflow)
    );
    let cfg = config(SourceEncoding::Mjpeg, 0x4000_0000, 1, 0);
    assert_eq!(
        MjpegStream.convert_frame(&cfg, Some(&[0u8; 4]), &mut target),
        Err(ConversionError::GeometryOverflow)
    );
    assert_eq!(target, vec![5u8; 16]);
}

#[test]
fn short_source_is_refused() {
    let cfg = config(SourceEncoding::Rgb, 4, 2, 12);
    let mut target: Vec<u8> = vec![3u8; 32];
    assert_eq!(
        RgbStream.capture_frame(&cfg, &[0u8; 23], &mut target),
        Err(ConversionError::SourceTooShort { expected: 24, received: 23 })
    );
    let cfg = config(SourceEncoding::Yuyv, 4, 2, 8);
    assert_eq!(
        YuyvStream.capture_frame(&cfg, &[0u8; 15], &mut target),
        Err(ConversionError::SourceTooShort { expected: 16, received: 15 })
    );
    assert_eq!(target, vec![3u8; 32]);
}

#[test]
fn short_destination_is_refused() {
    let cfg = config(SourceEncoding::Bgr, 4, 2, 12);
    let mut target: Vec<u8> = vec![3u8; 31];
    assert_eq!(
        BgrStream.convert_frame(&cfg, &[0u8; 24], &mut target),
        Err(ConversionError::DestinationTooShort { expected: 32, received: 31 })
    );
    let cfg = config(SourceEncoding::Yuyv, 4, 2, 8);
    assert_eq!(
        YuyvStream.capture_frame(&cfg, &[0u8; 16], &mut target),
        Err(ConversionError::DestinationTooShort { expected: 32, received: 31 })
    );
    assert_eq!(target, vec![3u8; 31]);
}

#[test]
fn yuyv_stride_must_be_that_of_packed_rows() {
    let mut target: Vec<u8> = vec![3u8; 32];
    let cfg = config(SourceEncoding::Yuyv, 4, 2, 16);
    assert_eq!(
        YuyvStream.capture_frame(&cfg, &[0u8; 32], &mut target),
        Err(ConversionError::StrideMismatch { packed: 8, reported: 16 })
    );
    let odd = config(SourceEncoding::Yuyv, 3, 1, 6);
    assert_eq!(
        YuyvStream.capture_frame(&odd, &[0u8; 8], &mut target),
        Err(ConversionError::StrideMismatch { packed: 8, reported: 6 })
    );
    assert_eq!(target, vec![3u8; 32]);
}

#[test]
fn yuyv_zero_frame_is_opaque() {
    let cfg = config(SourceEncoding::Yuyv, 4, 2, 8);
    let mut target: Vec<u8> = vec![0u8; 32 + 4];
    let info = YuyvStream.capture_frame(&cfg, &[0u8; 16], &mut target).unwrap();
    assert_eq!(info, FrameInfo { video_type: VideoType::Rgbx, stride: 16, bytes_used: 32 });
    for pixel in target[..32].chunks(4) {
        assert_eq!(pixel[3], 255);
        assert_eq!(pixel[0], 0);
        assert_eq!(pixel[2], 0);
    }
    assert_eq!(&target[32..], &[0u8; 4]);
}

#[test]
fn yuyv_odd_width_writes_every_pixel() {
    let cfg = config(SourceEncoding::Yuyv, 3, 2, 8);
    let mut target: Vec<u8> = vec![0u8; 24];
    let info = YuyvStream.capture_frame(&cfg, &[128u8; 16], &mut target).unwrap();
    assert_eq!(info.bytes_used, 24);
    for pixel in target.chunks(4) {
        assert_eq!(pixel[3], 255);
    }
}

#[test]
fn yuyv_wide_rows_are_opaque_and_stay_in_the_frame() {
    let width: u32 = 131;
    let height: u32 = 3;
    let row: u32 = 2 * (width + 1);
    let cfg = config(SourceEncoding::Yuyv, width, height, row);
    let frame = counting((row * height) as usize);
    let frame_len = (width * height * 4) as usize;
    let mut target: Vec<u8> = vec![17u8; frame_len + 5];
    let info = YuyvStream.capture_frame(&cfg, &frame, &mut target).unwrap();
    assert_eq!(info.stride, 524);
    assert_eq!(info.bytes_used, frame_len);
    for pixel in target[..frame_len].chunks(4) {
        assert_eq!(pixel[3], 255);
    }
    assert_eq!(&target[frame_len..], &[17u8; 5]);
}

#[test]
fn yuyv_wide_zero_frame_has_no_red_and_no_blue() {
    let width: u32 = 131;
    let height: u32 = 2;
    let cfg = config(SourceEncoding::Yuyv, width, height, 2 * (width + 1));
    let frame: Vec<u8> = vec![0u8; (2 * (width + 1) * height) as usize];
    let mut target: Vec<u8> = vec![17u8; (width * height * 4) as usize];
    YuyvStream.capture_frame(&cfg, &frame, &mut target).unwrap();
    for pixel in target.chunks(4) {
        assert_eq!(pixel[0], 0);
        assert_eq!(pixel[2], 0);
        assert_eq!(pixel[3], 255);
    }
}

#[test]
fn yuyv_limited_range_maps_black_and_white() {
    let cfg = config(SourceEncoding::Yuyv, 2, 1, 4);
    let mut target: Vec<u8> = vec![9u8; 8];
    YuyvStream.capture_frame(&cfg, &[16, 128, 235, 128], &mut target).unwrap();
    assert_eq!(target, vec![0, 0, 0, 255, 255, 255, 255, 255]);
}

#[test]
fn yuyv_range_follows_the_configuration() {
    let frame: Vec<u8> = vec![16, 128, 255, 128];
    let mut full = config(SourceEncoding::Yuyv, 2, 1, 4);
    full.range = Some(ColorRange::Full);
    let mut target: Vec<u8> = vec![9u8; 8];
    YuyvStream.capture_frame(&full, &frame, &mut target).unwrap();
    assert_eq!(target, vec![16, 16, 16, 255, 255, 255, 255, 255]);

    let mut limited = config(SourceEncoding::Yuyv, 2, 1, 4);
    limited.range = Some(ColorRange::Limited);
    let mut explicit: Vec<u8> = vec![9u8; 8];
    YuyvStream.capture_frame(&limited, &frame, &mut explicit).unwrap();
    let unnamed = config(SourceEncoding::Yuyv, 2, 1, 4);
    let mut defaulted: Vec<u8> = vec![1u8; 8];
    YuyvStream.capture_frame(&unnamed, &frame, &mut defaulted).unwrap();
    assert_eq!(explicit, defaulted);
    assert_eq!(&explicit[..4], &[0, 0, 0, 255]);
    assert_eq!(limited.range_or_default(), ColorRange::Limited);
    assert_eq!(unnamed.range_or_default(), ColorRange::Limited);
    assert_eq!(full.range_or_default(), ColorRange::Full);
    assert_eq!(YuyvStream.matrix(), ColorMatrix::Bt709);
}

#[test]
fn mjpeg_places_decoded_pixels_at_the_head() {
    let cfg = config(SourceEncoding::Mjpeg, 2, 2, 0);
    let pixels: Vec<u8> = vec![1, 2, 3, 255, 4, 5, 6, 255, 7, 8, 9, 255];
    let mut target: Vec<u8> = vec![77u8; 16];
    let info = MjpegStream.convert_frame(&cfg, Some(&pixels), &mut target).unwrap();
    assert_eq!(info, FrameInfo { video_type: VideoType::Rgbx, stride: 8, bytes_used: 12 });
    assert_eq!(target, vec![1, 2, 3, 255, 4, 5, 6, 255, 7, 8, 9, 255, 77, 77, 77, 77]);
}

#[test]
fn mjpeg_full_frame_fills_the_destination() {
    let cfg = config(SourceEncoding::Mjpeg, 2, 2, 0);
    let pixels = counting(16);
    let mut target: Vec<u8> = vec![0u8; 16];
    let info = convert(&cfg, &pixels, &mut target).unwrap();
    assert_eq!(info.bytes_used, 16);
    assert_eq!(target, pixels);
}

#[test]
fn mjpeg_corrupt_payload_is_refused() {
    let cfg = config(SourceEncoding::Mjpeg, 2, 2, 0);
    let mut target: Vec<u8> = vec![77u8; 16];
    assert_eq!(MjpegStream.convert_frame(&cfg, None, &mut target), Err(ConversionError::Corrupt));
    assert_eq!(target, vec![77u8; 16]);
}

#[test]
fn mjpeg_oversized_image_is_refused() {
    let cfg = config(SourceEncoding::Mjpeg, 2, 2, 0);
    let mut target: Vec<u8> = vec![77u8; 16];
    assert_eq!(
        MjpegStream.convert_frame(&cfg, Some(&[0u8; 17]), &mut target),
        Err(ConversionError::DestinationTooShort { expected: 17, received: 16 })
    );
    assert_eq!(target, vec![77u8; 16]);
}

#[test]
fn convert_picks_the_converter_by_encoding() {
    let frame: Vec<u8> = vec![1, 2, 3, 4, 5, 6];
    let mut target: Vec<u8> = vec![0u8; 8];
    let info = convert(&config(SourceEncoding::Rgb, 2, 1, 6), &frame, &mut target).unwrap();
    assert_eq!(info.video_type, VideoType::Rgbx);
    assert_eq!(target, vec![1, 2, 3, 255, 4, 5, 6, 255]);
    let info = convert(&config(SourceEncoding::Bgr, 2, 1, 6), &frame, &mut target).unwrap();
    assert_eq!(info.video_type, VideoType::Bgrx);
    let info = convert(&config(SourceEncoding::Yuyv, 2, 1, 4), &frame[..4], &mut target).unwrap();
    assert_eq!(info.video_type, VideoType::Rgbx);
    assert_eq!(target[3], 255);
    assert_eq!(target[7], 255);
}

#[test]
fn converter_names() {
    assert_eq!(BgrStream.name(), "bgr");
    assert_eq!(RgbStream.name(), "rgb");
    assert_eq!(YuyvStream.name(), "yuyv");
    assert_eq!(MjpegStream.name(), "mjpeg");
    assert_eq!(BgrStream.pixel_format_name(), "BGR888");
    assert_eq!(RgbStream.pixel_format_name(), "RGB888");
    assert_eq!(YuyvStream.pixel_format_name(), "YUYV");
    assert_eq!(MjpegStream.pixel_format_name(), "MJPEG");
    assert_eq!(SourceEncoding::Bgr.name(), BgrStream.name());
    assert_eq!(SourceEncoding::Rgb.name(), RgbStream.name());
    assert_eq!(SourceEncoding::Yuyv.name(), YuyvStream.name());
    assert_eq!(SourceEncoding::Mjpeg.name(), MjpegStream.name());
    assert_eq!(SourceEncoding::Bgr.pixel_format_name(), "BGR888");
    assert_eq!(SourceEncoding::Mjpeg.pixel_format_name(), "MJPEG");
}
