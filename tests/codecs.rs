use saorsa_webrtc::codec::{
    CodecError, OpenH264Decoder, OpenH264Encoder, VideoDecoder, VideoEncoder, VideoFrame,
};

#[test]
fn test_openh264_encoder_creation() {
    let result = OpenH264Encoder::new();
    assert!(result.is_ok());
    let encoder = result.unwrap();
    assert_eq!(encoder.width(), 640);
    assert_eq!(encoder.height(), 480);
}

#[test]
fn test_openh264_decoder_creation() {
    let result = OpenH264Decoder::new();
    assert!(result.is_ok());
}

#[test]
fn test_encoder_basic_functionality() {
    let mut encoder = OpenH264Encoder::new().unwrap();

    let frame = VideoFrame {
        data: vec![128; 640 * 480 * 3],
        width: 640,
        height: 480,
        timestamp: 12345,
    };

    let result = encoder.encode(&frame);
    assert!(result.is_ok());

    let compressed = result.unwrap();
    assert!(compressed.len() > 0);
    assert!(compressed.len() < frame.data.len());
}

#[test]
fn test_decoder_basic_functionality() {
    let mut encoder = OpenH264Encoder::new().unwrap();
    let mut decoder = OpenH264Decoder::new().unwrap();

    let original_frame = VideoFrame {
        data: vec![200; 640 * 480 * 3],
        width: 640,
        height: 480,
        timestamp: 67890,
    };

    let compressed = encoder.encode(&original_frame).unwrap();

    let decoded_frame = decoder.decode(&compressed).unwrap();

    assert_eq!(decoded_frame.width, original_frame.width);
    assert_eq!(decoded_frame.height, original_frame.height);
    assert_eq!(decoded_frame.timestamp, original_frame.timestamp);

    assert_eq!(decoded_frame.data.len(), original_frame.data.len());
}

#[test]
fn test_encoder_invalid_frame_size() {
    let mut encoder = OpenH264Encoder::new().unwrap();

    let frame = VideoFrame {
        data: vec![0; 320 * 240 * 3],
        width: 320,
        height: 240,
        timestamp: 0,
    };

    let result = encoder.encode(&frame);
    assert!(result.is_err());
    assert!(matches!(result, Err(CodecError::DimensionMismatch { .. })));
}

#[test]
fn encoder_writes_header_and_runs() {
    let encoder = OpenH264Encoder::with_dimensions(4, 4);
    let mut data = vec![7u8; 40];
    data.extend(vec![9u8; 8]);
    let frame = VideoFrame { data, width: 4, height: 4, timestamp: 0x0102_0304 };
    let out = encoder.encode_frame(&frame).unwrap();
    assert_eq!(
        out,
        vec![4, 0, 0, 0, 4, 0, 0, 0, 4, 3, 2, 1]
    );
    let big = VideoFrame { data: vec![5u8; 300], width: 4, height: 4, timestamp: 1 };
    let out = encoder.encode_frame(&big).unwrap();
    assert_eq!(&out[12..], &[255, 5, 45, 5]);
}

#[test]
fn decoder_expands_pairs_and_fills_with_zeros() {
    let decoder = OpenH264Decoder::new().unwrap();
    let mut data = vec![2, 0, 0, 0, 1, 0, 0, 0, 9, 0, 0, 0];
    data.extend([3, 7, 1, 8]);
    let frame = decoder.decode_frame(&data).unwrap();
    assert_eq!(frame.width, 2);
    assert_eq!(frame.height, 1);
    assert_eq!(frame.timestamp, 9);
    assert_eq!(frame.data, vec![7, 7, 7, 8, 0, 0]);
}

#[test]
fn decoder_rejects_bad_input() {
    let decoder = OpenH264Decoder::new().unwrap();
    assert!(matches!(decoder.decode_frame(&[1, 2, 3]), Err(CodecError::InvalidData(_))));
    let zero = [0u8; 12];
    assert_eq!(decoder.decode_frame(&zero), Err(CodecError::InvalidDimensions(0, 0)));
    let big = [0, 32, 0, 0, 0, 32, 0, 0, 0, 0, 0, 0];
    assert_eq!(
        decoder.decode_frame(&big),
        Err(CodecError::SizeExceeded { actual: 8192 * 8192 * 3, max: 104857600 })
    );
}
