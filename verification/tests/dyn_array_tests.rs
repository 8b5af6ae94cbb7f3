use gpu_layout::{DynArray, Std140Bytes, UVec3};

#[test]
fn std140_dyn_array_reserves_declared_capacity() {
    // Reserved length = stride x declared capacity, independent of how
    // many elements are populated.
    let mut arr: DynArray<u32> = DynArray::with_capacity(4);
    arr.push(0x0403_0201);
    arr.push(5);

    let enc = arr.as_std140();

    assert_eq!(enc.as_slice().len(), 16 * 4);
    assert_eq!(
        &enc.as_slice()[..32],
        &[
            0x01, 0x02, 0x03, 0x04, // first element
            0, 0, 0, 0, // padding out to the 16-byte slot
            0, 0, 0, 0, // padding
            0, 0, 0, 0, // padding
            5, 0, 0, 0, // second element
            0, 0, 0, 0, // padding
            0, 0, 0, 0, // padding
            0, 0, 0, 0, // padding
        ]
    );
    assert!(enc.as_slice()[32..].iter().all(|b| *b == 0));
}

#[test]
fn std430_dyn_array_packs_scalars_tightly() {
    let mut arr: DynArray<u32> = DynArray::with_capacity(4);
    arr.push(1);
    arr.push(2);

    let enc = arr.as_std430();

    assert_eq!(
        enc.as_slice(),
        &[
            1, 0, 0, 0, // first element
            2, 0, 0, 0, // second element
            0, 0, 0, 0, // reserved, unpopulated
            0, 0, 0, 0, // reserved, unpopulated
        ]
    );
}

#[test]
fn dyn_array_with_no_elements_is_all_reservation() {
    let arr: DynArray<UVec3> = DynArray::with_capacity(3);

    let enc140 = arr.as_std140();
    let enc430 = arr.as_std430();

    assert_eq!(enc140.as_slice().len(), 16 * 3);
    assert_eq!(enc430.as_slice().len(), 16 * 3);
    assert!(enc140.as_slice().iter().all(|b| *b == 0));
    assert!(enc430.as_slice().iter().all(|b| *b == 0));
}

#[test]
fn dyn_array_encodes_as_a_value_in_a_buffer() {
    let mut arr: DynArray<u32> = DynArray::with_capacity(2);
    arr.push(9);

    let mut buf = Std140Bytes::new();
    buf.write(&1u32);
    buf.write(&arr.as_std140());
    buf.align();

    // The scalar is padded out to the array's 16-byte alignment, then the
    // full 32-byte reservation follows.
    assert_eq!(buf.as_slice().len(), 48);
    assert_eq!(buf.as_slice()[0], 1);
    assert_eq!(buf.as_slice()[16], 9);
    assert!(buf.as_slice()[17..].iter().all(|b| *b == 0));
}
