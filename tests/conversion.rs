use camera_stream::convert::{
    color_matrix_for, convert_frame, nv12_to_i420, nv12_to_rgba, yuv_nv12_to_h264, yuv_to_rgba,
    ColorMatrix, ConvertedFrame, OutputFormat, PixelFormat,
};
use camera_stream::models::FrameEvent;
use camera_stream::{Error, ErrorKind};
use std::time::Instant;

#[test]
fn test_yuv_to_rgba_buffer_size() {
    let width = 640u32;
    let height = 480u32;
    let yuv_size = (width * height * 3 / 2) as usize;
    let yuv_data = vec![0u8; yuv_size];

    let result = yuv_to_rgba(&yuv_data, width, height);
    assert!(result.is_ok());

    let rgb_data = result.unwrap();
    assert_eq!(rgb_data.len(), (width * height * 4) as usize);
}

#[test]
fn test_yuv_to_rgb_invalid_size() {
    let width = 640u32;
    let height = 480u32;
    let yuv_data = vec![0u8; 100];

    let result = yuv_to_rgba(&yuv_data, width, height);
    assert!(result.is_err());
}

#[test]
fn test_nv12_to_rgba_buffer_size() {
    let width = 640u32;
    let height = 480u32;
    let nv12_size = (width * height * 3 / 2) as usize;
    let nv12_data = vec![0u8; nv12_size];

    let result = nv12_to_rgba(&nv12_data, width, height);
    assert!(result.is_ok());

    let rgb_data = result.unwrap();
    assert_eq!(rgb_data.len(), (width * height * 4) as usize);
}

#[test]
fn test_nv12_to_rgba_invalid_size() {
    let width = 640u32;
    let height = 480u32;
    let nv12_data = vec![0u8; 100];

    let result = nv12_to_rgba(&nv12_data, width, height);
    assert!(result.is_err());
}

#[test]
fn test_nv12_to_rgba_known_values() {
    let width = 4u32;
    let height = 4u32;
    let mut nv12_data = vec![0u8; 24];
    for i in 0..16 {
        nv12_data[i] = 235;
    }
    for i in 16..24 {
        nv12_data[i] = 128;
    }

    let result = nv12_to_rgba(&nv12_data, width, height);
    assert!(result.is_ok(), "Conversion should succeed");

    let rgba_data = result.unwrap();
    assert_eq!(rgba_data.len(), 64, "RGBA data should be 64 bytes (4x4x4)");
    println!(
        "\nFirst pixel RGBA: [{}, {}, {}, {}]",
        rgba_data[0], rgba_data[1], rgba_data[2], rgba_data[3]
    );
    assert!(rgba_data[0] > 200, "R should be high for white (got {})", rgba_data[0]);
    assert!(rgba_data[1] > 200, "G should be high for white (got {})", rgba_data[1]);
    assert!(rgba_data[2] > 200, "B should be high for white (got {})", rgba_data[2]);
    assert_eq!(rgba_data[3], 255, "Alpha should be 255");
}

#[test]
fn test_nv12_to_rgba_black() {
    let width = 4u32;
    let height = 4u32;
    let mut nv12_data = vec![0u8; 24];
    for i in 0..16 {
        nv12_data[i] = 16;
    }
    for i in 16..24 {
        nv12_data[i] = 128;
    }

    let result = nv12_to_rgba(&nv12_data, width, height);
    assert!(result.is_ok());

    let rgba_data = result.unwrap();
    assert_eq!(rgba_data.len(), 64);
    println!(
        "\nBlack pixel RGBA: [{}, {}, {}, {}]",
        rgba_data[0], rgba_data[1], rgba_data[2], rgba_data[3]
    );
    assert!(rgba_data[0] < 50, "R should be low for black (got {})", rgba_data[0]);
    assert!(rgba_data[1] < 50, "G should be low for black (got {})", rgba_data[1]);
    assert!(rgba_data[2] < 50, "B should be low for black (got {})", rgba_data[2]);
    assert_eq!(rgba_data[3], 255, "Alpha should be 255");
}

#[test]
fn test_nv12_to_rgba_red() {
    let width = 4u32;
    let height = 4u32;
    let mut nv12_data = vec![0u8; 24];
    for i in 0..16 {
        nv12_data[i] = 82;
    }
    for i in 0..4 {
        nv12_data[16 + i * 2] = 90;
        nv12_data[16 + i * 2 + 1] = 240;
    }

    let result = nv12_to_rgba(&nv12_data, width, height);
    assert!(result.is_ok());

    let rgba_data = result.unwrap();
    println!(
        "\nRed pixel RGBA: [{}, {}, {}, {}]",
        rgba_data[0], rgba_data[1], rgba_data[2], rgba_data[3]
    );
    assert!(rgba_data[0] > 200, "R should be high for red (got {})", rgba_data[0]);
    assert!(rgba_data[1] < 100, "G should be low for red (got {})", rgba_data[1]);
    assert!(rgba_data[2] < 100, "B should be low for red (got {})", rgba_data[2]);
    assert_eq!(rgba_data[3], 255, "Alpha should be 255");
}

#[test]
fn bench_nv12_to_rgba_hd() {
    let width = 1920u32;
    let height = 1080u32;
    let nv12_size = (width * height * 3 / 2) as usize;
    let mut nv12_data = vec![128u8; nv12_size];
    for i in 0..nv12_data.len() {
        nv12_data[i] = ((i % 256) as u8).wrapping_add(100);
    }

    let warmup = 5;
    let iterations = 50;

    println!("\nWarmup ({} iterations)...", warmup);
    for _ in 0..warmup {
        let _ = nv12_to_rgba(&nv12_data, width, height).unwrap();
    }

    println!("Benchmarking NV12->RGB conversion ({}x{})...", width, height);
    println!("Running {} iterations...\n", iterations);

    let start = Instant::now();
    for _ in 0..iterations {
        let _ = nv12_to_rgba(&nv12_data, width, height).unwrap();
    }
    let elapsed = start.elapsed();

    let avg_ms = elapsed.as_micros() as f64 / iterations as f64 / 1000.0;
    let fps = 1000.0 / avg_ms;

    println!("NV12->RGB performance results");
    println!(" Resolution:      {}x{}", width, height);
    println!(" Average time:    {:.2} ms", avg_ms);
    println!(" Min time:        ~{:.2} ms", avg_ms * 0.9);
    println!(" Max time:        ~{:.2} ms", avg_ms * 1.1);
    println!(" Theoretical FPS: {:.1} FPS\n", fps);

    if avg_ms > 50.0 {
        println!("WARNING: Conversion is slow (>50ms)");
    } else if avg_ms > 20.0 {
        println!("Performance could be better");
    } else if avg_ms > 10.0 {
        println!("Good performance");
    } else {
        println!("Excellent performance");
    }
}

#[test]
fn bench_nv12_to_rgba_720p() {
    let width = 1280u32;
    let height = 720u32;
    let nv12_size = (width * height * 3 / 2) as usize;
    let nv12_data = vec![128u8; nv12_size];

    let iterations = 100;
    let start = Instant::now();
    for _ in 0..iterations {
        let _ = nv12_to_rgba(&nv12_data, width, height).unwrap();
    }
    let elapsed = start.elapsed();
    let avg_ms = elapsed.as_micros() as f64 / iterations as f64 / 1000.0;
    let fps = 1000.0 / avg_ms;

    println!("\n720p Performance:");
    println!("   Average: {:.2}ms", avg_ms);
    println!("   FPS: {:.1}", fps);
}

#[test]
fn bench_yuv_to_rgb_hd() {
    let width = 1920u32;
    let height = 1080u32;
    let yuv_size = (width * height * 3 / 2) as usize;
    let yuv_data = vec![128u8; yuv_size];

    let iterations = 50;

    println!("\nWarmup (YUV420)...");
    for _ in 0..5 {
        let _ = yuv_to_rgba(&yuv_data, width, height).unwrap();
    }

    println!("Benchmarking YUV420->RGB conversion...\n");
    let start = Instant::now();
    for _ in 0..iterations {
        let _ = yuv_to_rgba(&yuv_data, width, height).unwrap();
    }
    let elapsed = start.elapsed();

    let avg_ms = elapsed.as_micros() as f64 / iterations as f64 / 1000.0;
    let fps = 1000.0 / avg_ms;

    println!("YUV420->RGB performance results");
    println!(" Resolution:      {}x{}", width, height);
    println!(" Average time:    {:.2} ms", avg_ms);
    println!(" Theoretical FPS: {:.1} FPS\n", fps);
}

#[test]
fn nv12_scenario_rgba_length_and_undersized_error() {
    let data = vec![0u8; 460800];
    let rgba = nv12_to_rgba(&data, 640, 480).unwrap();
    assert_eq!(rgba.len(), 640 * 480 * 4);

    let err = nv12_to_rgba(&[0u8; 100], 640, 480).unwrap_err();
    assert_eq!(err.kind(), ErrorKind::Conversion);
    assert_eq!(err, Error::InvalidBufferSize { expected: 460800, received: 100 });
}

#[test]
fn yuv_undersized_reports_expected_size() {
    let err = yuv_to_rgba(&[0u8; 10], 4, 4).unwrap_err();
    assert_eq!(err, Error::InvalidBufferSize { expected: 24, received: 10 });
}

#[test]
fn zero_sized_frame_is_refused_by_converter() {
    let err = nv12_to_rgba(&[], 0, 0).unwrap_err();
    assert_eq!(err, Error::ConversionFailed);
}

#[test]
fn i420_deinterleaves_chroma() {
    // 4x2 frame: 8 luma bytes, then UVUV for the two chroma samples.
    let nv12: Vec<u8> = vec![1, 2, 3, 4, 5, 6, 7, 8, 10, 20, 11, 21];
    let i420 = nv12_to_i420(&nv12, 4, 2).unwrap();
    assert_eq!(i420, vec![1, 2, 3, 4, 5, 6, 7, 8, 10, 11, 20, 21]);
}

#[test]
fn i420_ignores_trailing_bytes_and_refuses_short_input() {
    let nv12: Vec<u8> = vec![9, 9, 9, 9, 1, 2, 77];
    assert_eq!(nv12_to_i420(&nv12, 2, 2).unwrap(), vec![9, 9, 9, 9, 1, 2]);
    let err = nv12_to_i420(&[0u8; 5], 2, 2).unwrap_err();
    assert_eq!(err, Error::InvalidBufferSize { expected: 6, received: 5 });
}

#[test]
fn h264_encodes_even_frame() {
    let data = vec![128u8; 16 * 16 * 3 / 2];
    let access_unit = yuv_nv12_to_h264(&data, 16, 16).unwrap();
    assert!(!access_unit.is_empty());
    // Annex B start code.
    assert_eq!(&access_unit[0..4], &[0u8, 0, 0, 1]);
}

#[test]
fn h264_refuses_odd_or_short_frames() {
    let data = vec![0u8; 64];
    assert_eq!(yuv_nv12_to_h264(&data, 3, 3).unwrap_err(), Error::EncodingFailed);
    let err = yuv_nv12_to_h264(&[0u8; 4], 16, 16).unwrap_err();
    assert_eq!(err, Error::InvalidBufferSize { expected: 384, received: 4 });
}

#[test]
fn matrix_follows_resolution() {
    assert_eq!(color_matrix_for(640, 480), ColorMatrix::Bt601);
    assert_eq!(color_matrix_for(1280, 480), ColorMatrix::Bt709);
    assert_eq!(color_matrix_for(640, 720), ColorMatrix::Bt709);
}

#[test]
fn format_tags() {
    assert_eq!(PixelFormat::from_tag(&"NV12".to_string()), Some(PixelFormat::Nv12));
    assert_eq!(PixelFormat::from_tag(&"RGB8".to_string()), Some(PixelFormat::Rgb8));
    assert_eq!(PixelFormat::from_tag(&"YUV".to_string()), Some(PixelFormat::Yuv420));
    assert_eq!(PixelFormat::from_tag(&"nv12".to_string()), None);
    assert_eq!(OutputFormat::Rgba.tag(), "RGBA");
    assert_eq!(OutputFormat::Rgb8.tag(), "RGB8");
}

#[test]
fn convert_frame_dispatches_on_tag() {
    let rgb = vec![1u8, 2, 3];
    let out = convert_frame(&"RGB8".to_string(), rgb.clone(), 1, 1).unwrap();
    assert_eq!(out, ConvertedFrame { data: rgb, format: OutputFormat::Rgb8 });

    let out = convert_frame(&"NV12".to_string(), vec![16u8; 24], 4, 4).unwrap();
    assert_eq!(out.format, OutputFormat::Rgba);
    assert_eq!(out.data.len(), 64);

    let out = convert_frame(&"YUV".to_string(), vec![16u8; 24], 4, 4).unwrap();
    assert_eq!(out.format, OutputFormat::Rgba);
    assert_eq!(out.data.len(), 64);

    let err = convert_frame(&"BGRA".to_string(), vec![0u8; 4], 1, 1).unwrap_err();
    assert_eq!(err, Error::UnsupportedPixelFormat("BGRA".to_string()));
    assert_eq!(err.kind(), ErrorKind::Conversion);

    let err = convert_frame(&"NV12".to_string(), vec![0u8; 100], 640, 480).unwrap_err();
    assert_eq!(err.kind(), ErrorKind::Conversion);
}

#[test]
fn frame_event_carries_output_tag() {
    let converted = ConvertedFrame { data: vec![1, 2, 3, 4], format: OutputFormat::Rgba };
    let ev = FrameEvent::from_converted(7, converted, 1, 1, 1234);
    assert_eq!(ev.frame_id, 7);
    assert_eq!(ev.format, "RGBA");
    assert_eq!(ev.data, vec![1, 2, 3, 4]);
    assert_eq!(ev.timestamp_ms, 1234);
}

#[test]
fn odd_width_frames_are_refused_by_converter() {
    let data = vec![16u8; 64];
    assert_eq!(nv12_to_rgba(&data, 3, 2).unwrap_err(), Error::ConversionFailed);
    assert_eq!(yuv_to_rgba(&data, 3, 2).unwrap_err(), Error::ConversionFailed);
}

#[test]
fn even_frames_convert_to_four_bytes_per_pixel() {
    let data = vec![0u8; 6 * 4 * 3 / 2];
    assert_eq!(nv12_to_rgba(&data, 6, 4).unwrap().len(), 6 * 4 * 4);
    assert_eq!(yuv_to_rgba(&data, 6, 4).unwrap().len(), 6 * 4 * 4);
}

#[test]
fn converted_pixels_are_opaque() {
    let rgba = nv12_to_rgba(&vec![70u8; 8 * 4 * 3 / 2], 8, 4).unwrap();
    assert!(rgba.chunks(4).all(|p| p[3] == 255));
    let rgba = yuv_to_rgba(&vec![70u8; 8 * 4 * 3 / 2], 8, 4).unwrap();
    assert!(rgba.chunks(4).all(|p| p[3] == 255));
}
