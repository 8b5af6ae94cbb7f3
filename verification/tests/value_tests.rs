use gpu_layout::{IVec2, IVec4, Mat3, Mat4, Std140Bytes, Std430Bytes, UVec2, UVec3, UVec4};

#[test]
fn scalar_words_encode_little_endian() {
    let mut buf = Std140Bytes::new();

    buf.write(&0x0403_0201u32);

    assert_eq!(buf.as_slice(), &[0x01, 0x02, 0x03, 0x04]);
}

#[test]
fn signed_scalars_encode_twos_complement() {
    let mut buf = Std430Bytes::new();

    buf.write(&-1i32);
    buf.write(&i32::MIN);

    assert_eq!(
        buf.as_slice(),
        &[
            0xFF, 0xFF, 0xFF, 0xFF, // -1
            0x00, 0x00, 0x00, 0x80, // the most negative word
        ]
    );
}

#[test]
fn vectors_encode_components_in_order() {
    let mut buf = Std140Bytes::new();

    buf.write(&UVec4::new(1, 2, 3, 4));
    buf.write(&UVec2::new(5, 6));

    assert_eq!(
        buf.as_slice(),
        &[
            1, 0, 0, 0, // x
            2, 0, 0, 0, // y
            3, 0, 0, 0, // z
            4, 0, 0, 0, // w
            5, 0, 0, 0, // x
            6, 0, 0, 0, // y
        ]
    );
}

#[test]
fn signed_vectors_encode_componentwise() {
    let mut buf = Std430Bytes::new();

    buf.write(&IVec2::new(-1, 1));
    buf.write(&IVec4::new(-2, 2, -3, 3));

    assert_eq!(
        buf.as_slice(),
        &[
            0xFF, 0xFF, 0xFF, 0xFF, // -1
            1, 0, 0, 0, // 1
            0, 0, 0, 0, // padding: the 4-vector starts on a 16-byte boundary
            0, 0, 0, 0, // padding
            0xFE, 0xFF, 0xFF, 0xFF, // -2
            2, 0, 0, 0, // 2
            0xFD, 0xFF, 0xFF, 0xFF, // -3
            3, 0, 0, 0, // 3
        ]
    );
}

#[test]
fn mat3_encodes_three_padded_columns_in_order() {
    let m = Mat3::from_cols(
        UVec3::new(1, 2, 3),
        UVec3::new(4, 5, 6),
        UVec3::new(7, 8, 9),
    );
    let mut buf = Std140Bytes::new();

    buf.write(&m);
    buf.align();

    assert_eq!(
        buf.as_slice(),
        &[
            1, 0, 0, 0, // column 0, x
            2, 0, 0, 0, // column 0, y
            3, 0, 0, 0, // column 0, z
            0, 0, 0, 0, // padding to the 16-byte column boundary
            4, 0, 0, 0, // column 1, x
            5, 0, 0, 0, // column 1, y
            6, 0, 0, 0, // column 1, z
            0, 0, 0, 0, // padding
            7, 0, 0, 0, // column 2, x
            8, 0, 0, 0, // column 2, y
            9, 0, 0, 0, // column 2, z
            0, 0, 0, 0, // padding from the final align
        ]
    );
}

#[test]
fn mat4_encodes_four_columns_back_to_back() {
    let m = Mat4::from_cols(
        UVec4::new(1, 2, 3, 4),
        UVec4::new(5, 6, 7, 8),
        UVec4::new(9, 10, 11, 12),
        UVec4::new(13, 14, 15, 16),
    );
    let mut buf = Std430Bytes::new();

    buf.write(&m);

    let mut expected = Vec::new();
    for word in 1u8..=16u8 {
        expected.extend_from_slice(&[word, 0, 0, 0]);
    }
    assert_eq!(buf.as_slice(), expected.as_slice());
}

#[test]
fn gpu_bytes_accumulator_is_usable_directly() {
    let mut buf = gpu_layout::GpuBytes::new(gpu_layout::Layout::Std140);
    let mut elem = gpu_layout::GpuBytes::new(gpu_layout::Layout::Std140);

    elem.align_to(4);
    let empty: &[u8] = &[];
    assert_eq!(elem.as_slice(), empty);

    buf.write(&elem);
    buf.write_array(&[elem]);
    assert_eq!(buf.as_slice().len(), 0);
    buf.align();
    assert_eq!(buf.as_slice().len(), 0);
}
