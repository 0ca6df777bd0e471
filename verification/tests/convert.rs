use jxr2uhdr::convert::{f32_channel_words, CastFailure, ConvertError};

#[test]
fn rejects_input_that_cannot_be_cast_to_f32_values() {
    let error = match f32_channel_words(&[0, 1, 2]) {
        Ok(_) => panic!("input length that is not a multiple of f32 size should be rejected"),
        Err(error) => error,
    };

    assert!(
        error
            .message()
            .contains("Failed to interpret 128bpp RGBA f32 bytes as f32 values"),
        "unexpected error: {}",
        error.message()
    );
}

#[test]
fn convert_test_empty_input() {
    let output = f32_channel_words(&[]).expect("empty input should convert to empty output");
    assert!(output.is_empty());
}

#[test]
fn aligned_words_are_the_f32_bits() {
    let values = [1.0f32, 0.0, 0.5, 0.25];
    let bytes: &[u8] = bytemuck::cast_slice(&values);
    let words = f32_channel_words(bytes).expect("aligned f32 bytes should cast");
    let expected: Vec<u32> = values.iter().map(|v| v.to_bits()).collect();
    assert_eq!(words, expected.as_slice());
}

#[test]
fn cast_error_message_names_the_failure() {
    let error = ConvertError::Cast(CastFailure::OutputSliceWouldHaveSlop);
    assert_eq!(
        error.message(),
        "Failed to interpret 128bpp RGBA f32 bytes as f32 values: OutputSliceWouldHaveSlop"
    );
}
