use gpu_layout::{Std140Bytes, Std430Bytes, UVec3};

#[test]
fn std140_vec3_and_scalar() {
    let mut buf = Std140Bytes::new();

    buf.write(&UVec3::splat(u32::MAX));
    buf.write(&u32::MAX);
    buf.align();

    assert_eq!(
        buf.as_slice(),
        &[
            // x
            u8::MAX, u8::MAX, u8::MAX, u8::MAX,
            // y
            u8::MAX, u8::MAX, u8::MAX, u8::MAX,
            // z
            u8::MAX, u8::MAX, u8::MAX, u8::MAX,
            // scalar
            u8::MAX, u8::MAX, u8::MAX, u8::MAX,
        ]
    );
}

#[test]
fn std140_vec3_and_vec3() {
    let mut buf = Std140Bytes::new();

    buf.write(&UVec3::splat(u32::MAX));
    buf.write(&UVec3::splat(u32::MAX));
    buf.align();

    assert_eq!(
        buf.as_slice(),
        &[
            // x
            u8::MAX, u8::MAX, u8::MAX, u8::MAX,
            // y
            u8::MAX, u8::MAX, u8::MAX, u8::MAX,
            // z
            u8::MAX, u8::MAX, u8::MAX, u8::MAX,
            // padding
            0, 0, 0, 0,
            // x
            u8::MAX, u8::MAX, u8::MAX, u8::MAX,
            // y
            u8::MAX, u8::MAX, u8::MAX, u8::MAX,
            // z
            u8::MAX, u8::MAX, u8::MAX, u8::MAX,
            // padding
            0, 0, 0, 0,
        ]
    );
}

#[test]
fn std140_scalar_and_vec3() {
    let mut buf = Std140Bytes::new();

    buf.write(&u32::MAX);
    buf.write(&UVec3::splat(u32::MAX));
    buf.align();

    assert_eq!(
        buf.as_slice(),
        &[
            // scalar
            u8::MAX, u8::MAX, u8::MAX, u8::MAX,
            // padding
            0, 0, 0, 0,
            // padding
            0, 0, 0, 0,
            // padding
            0, 0, 0, 0,
            // x
            u8::MAX, u8::MAX, u8::MAX, u8::MAX,
            // y
            u8::MAX, u8::MAX, u8::MAX, u8::MAX,
            // z
            u8::MAX, u8::MAX, u8::MAX, u8::MAX,
            // padding
            0, 0, 0, 0,
        ]
    );
}

#[test]
fn std140_scalar_array() {
    let mut buf = Std140Bytes::new();

    buf.write_array(&[u32::MAX, u32::MAX]);
    buf.align();

    assert_eq!(
        buf.as_slice(),
        &[
            // scalar
            u8::MAX, u8::MAX, u8::MAX, u8::MAX,
            // padding
            0, 0, 0, 0,
            // padding
            0, 0, 0, 0,
            // padding
            0, 0, 0, 0,
            // scalar
            u8::MAX, u8::MAX, u8::MAX, u8::MAX,
            // padding
            0, 0, 0, 0,
            // padding
            0, 0, 0, 0,
            // padding
            0, 0, 0, 0,
        ]
    );
}

#[test]
fn std430_scalar_array() {
    let mut buf = Std430Bytes::new();

    buf.write_array(&[u32::MAX, u32::MAX]);
    buf.align();

    assert_eq!(
        buf.as_slice(),
        &[
            // scalar
            u8::MAX, u8::MAX, u8::MAX, u8::MAX,
            // scalar
            u8::MAX, u8::MAX, u8::MAX, u8::MAX,
        ]
    );
}

#[test]
fn std140_align_pads_to_running_alignment() {
    // After align(), the buffer length is an exact multiple of the
    // running alignment (here 8, raised by the 2-component vector).
    let mut buf = Std140Bytes::new();

    buf.write(&7u32);
    buf.write(&gpu_layout::UVec2::new(1, 2));
    buf.align();

    assert_eq!(buf.as_slice().len() % 8, 0);
    assert_eq!(
        buf.as_slice(),
        &[
            7, 0, 0, 0, // scalar
            0, 0, 0, 0, // padding up to the vector's 8-byte boundary
            1, 0, 0, 0, // x
            2, 0, 0, 0, // y
        ]
    );
}

#[test]
fn std140_align_to_forces_explicit_boundary() {
    let mut buf = Std140Bytes::new();

    buf.write(&1u32);
    buf.align_to(32);
    buf.write(&2u32);
    buf.align();

    // align_to(32) is a hard reset: the final align() pads to 32.
    assert_eq!(buf.as_slice().len(), 64);
    assert_eq!(buf.as_slice()[0], 1);
    assert_eq!(buf.as_slice()[32], 2);
}

#[test]
fn std430_vec3_array_strides_by_own_alignment() {
    // A 3-component vector has a 16-byte base alignment, so even under
    // std430 each array element occupies a 16-byte stride.
    let mut buf = Std430Bytes::new();

    buf.write_array(&[UVec3::new(1, 2, 3), UVec3::new(4, 5, 6)]);
    buf.align();

    assert_eq!(
        buf.as_slice(),
        &[
            1, 0, 0, 0, // x
            2, 0, 0, 0, // y
            3, 0, 0, 0, // z
            0, 0, 0, 0, // padding out to the element's own 16-byte stride
            4, 0, 0, 0, // x
            5, 0, 0, 0, // y
            6, 0, 0, 0, // z
            0, 0, 0, 0, // padding
        ]
    );
}

#[test]
fn std140_nested_buffer_writes_as_a_unit() {
    // A finished std140 buffer is itself encodable: a user composite type
    // encodes its fields into a fresh buffer and writes that whole.
    let mut inner = Std140Bytes::new();
    inner.write(&5u32);
    inner.write(&6u32);

    let mut outer = Std140Bytes::new();
    outer.write(&1u32);
    outer.write(&inner);
    outer.align();

    assert_eq!(
        outer.as_slice(),
        &[
            1, 0, 0, 0, // leading scalar
            5, 0, 0, 0, // nested buffer, first field
            6, 0, 0, 0, // nested buffer, second field
        ]
    );
}
