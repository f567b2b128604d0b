use conflux_residency::residency_core::{
    ElementType, F32Bits, F64Bits, Generation, PodElement, ResourceId, ResourceLayout, TypedPatch,
    ViewResult, ViewSelector,
};

fn result(bytes: Vec<u8>) -> ViewResult {
    ViewResult {
        resource: ResourceId::from("r"),
        selector: ViewSelector::Full,
        served_generation: Generation(0),
        bytes,
    }
}

#[test]
fn typed_patch_bytes_are_the_native_encoding_of_the_values() {
    let patch = TypedPatch::new(ResourceId::from("r"), 1, vec![7_u32, 0x0102_0304]).into_patch().unwrap();
    let mut expected = 7_u32.to_ne_bytes().to_vec();
    expected.extend_from_slice(&0x0102_0304_u32.to_ne_bytes());
    assert_eq!(patch.bytes, expected);
    assert_eq!(patch.byte_offset, 4);
    assert_eq!(<i32 as PodElement>::encode(&[-1]), (-1_i32).to_ne_bytes().to_vec());
    assert_eq!(<F64Bits as PodElement>::encode(&[F64Bits(2.5_f64.to_bits())]), 2.5_f64.to_ne_bytes().to_vec());
}

#[test]
fn decoded_views_are_the_values_their_bytes_encode() {
    let mut bytes = 1.5_f32.to_ne_bytes().to_vec();
    bytes.extend_from_slice(&(-3.0_f32).to_ne_bytes());
    let values = result(bytes).as_slice::<F32Bits>().unwrap();
    assert_eq!(values, vec![F32Bits(1.5_f32.to_bits()), F32Bits((-3.0_f32).to_bits())]);
    let one = result(0xdead_beef_u32.to_ne_bytes().to_vec()).as_struct::<u32>().unwrap();
    assert_eq!(one, 0xdead_beef);
    assert!(result(vec![1, 2, 3]).as_struct::<u32>().is_err());
    assert_eq!(<i32 as PodElement>::decode(&(-5_i32).to_ne_bytes()), vec![-5]);
}

#[test]
fn byte_size_agrees_with_checked_byte_size() {
    let layout = ResourceLayout::Dense2D { element: ElementType::F64, width: 3, height: 2 };
    assert_eq!(layout.checked_byte_size().unwrap(), 48);
    assert_eq!(layout.byte_size(), 48);
    let huge = ResourceLayout::Dense1D { element: ElementType::F64, len: usize::MAX };
    assert!(huge.checked_byte_size().is_err());
}
