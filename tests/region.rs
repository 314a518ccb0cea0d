use memguar::mapper::{check_alignment, fill, MapError, RegionLayout};

#[test]
fn layout_of_sixteen_thousand() {
    let layout = RegionLayout::for_elements::<i32>(16_000).unwrap();
    assert_eq!(layout.byte_length(), 64_000);
    assert_eq!(layout.element_count(), 16_000);
}

#[test]
fn layout_of_single_byte() {
    let layout = RegionLayout::for_elements::<u8>(1).unwrap();
    assert_eq!(layout.byte_length(), 1);
    assert_eq!(layout.element_count(), 1);
}

#[test]
fn empty_region_refused() {
    assert_eq!(RegionLayout::for_elements::<i32>(0), Err(MapError::EmptyBuffer));
    assert_eq!(RegionLayout::for_elements::<()>(5), Err(MapError::EmptyBuffer));
}

#[test]
fn oversized_region_refused() {
    assert_eq!(RegionLayout::for_elements::<u64>(usize::MAX), Err(MapError::TooLarge));
    assert_eq!(RegionLayout::for_elements::<u16>(usize::MAX / 2 + 1), Err(MapError::TooLarge));
}

#[test]
fn alignment_policy() {
    assert_eq!(check_alignment::<u64>(4096), Ok(()));
    assert_eq!(check_alignment::<u8>(4097), Ok(()));
    assert_eq!(check_alignment::<u32>(4098), Err(MapError::Misaligned));
}

#[test]
fn fill_round_trip() {
    let data: Vec<i32> = (0..1000).map(|i| i * 7 - 3).collect();
    let mut dst = vec![0i32; 1000];
    fill(&mut dst, &data);
    assert_eq!(dst, data);
}

#[test]
fn uniform_fill_sixteen_thousand() {
    let data = [420i32; 16_000];
    let layout = RegionLayout::for_elements::<i32>(data.len()).unwrap();
    let mut dst = vec![0i32; layout.element_count()];
    fill(&mut dst, &data);
    assert_eq!(dst.len(), 16_000);
    assert_eq!(dst[0], dst[1]);
    assert_eq!(dst[15_999], 420);
}
