use spin_win::catalog::ItemRewardMints;
use spin_win::catalog::SpinItemList;
use spin_win::wheel::resolve_slot;
use spin_win::wheel::SampleTransform;

fn catalog_with(weights: &[u32]) -> SpinItemList {
    let mut catalog = SpinItemList::default();
    for w in weights {
        assert_eq!(catalog.add_spinitem(ItemRewardMints::default(), 0, *w, 1), Ok(()));
    }
    catalog
}

#[test]
fn three_slot_scenario_by_identity() {
    let mut catalog = catalog_with(&[10, 20, 70]);
    assert_eq!(catalog.spin(5, SampleTransform::Identity), 0);
    assert_eq!(catalog.last_spinindex(), 0);
    assert_eq!(catalog.spin(15, SampleTransform::Identity), 1);
    assert_eq!(catalog.last_spinindex(), 1);
    assert_eq!(catalog.spin(50, SampleTransform::Identity), 2);
    assert_eq!(catalog.last_spinindex(), 2);
    assert_eq!(catalog.spin(99, SampleTransform::Identity), 2);
    assert_eq!(catalog.last_spinindex(), 2);
    assert_eq!(catalog.spin(100, SampleTransform::Identity), 0);
    assert_eq!(catalog.last_spinindex(), 0);
    assert_eq!(catalog.count(), 3);
}

#[test]
fn three_slot_scenario_on_the_resolver() {
    let weights = [10u32, 20, 70];
    assert_eq!(resolve_slot(&weights, 5), 0);
    assert_eq!(resolve_slot(&weights, 15), 1);
    assert_eq!(resolve_slot(&weights, 50), 2);
    assert_eq!(resolve_slot(&weights, 99), 2);
    assert_eq!(resolve_slot(&weights, 100), 0);
}

#[test]
fn interval_bounds_are_half_open() {
    let weights = [10u32, 20, 70];
    assert_eq!(resolve_slot(&weights, 0), 0);
    assert_eq!(resolve_slot(&weights, 9), 0);
    assert_eq!(resolve_slot(&weights, 10), 1);
    assert_eq!(resolve_slot(&weights, 29), 1);
    assert_eq!(resolve_slot(&weights, 30), 2);
    assert_eq!(resolve_slot(&weights, 101), 0);
    assert_eq!(resolve_slot(&weights, u128::MAX), 0);
}

#[test]
fn every_sample_lies_in_the_interval_of_its_slot() {
    let weights = [3u32, 0, 17, 30, 0, 0, 49, 1];
    let mut sample = 0u128;
    while sample < 100 {
        let slot = resolve_slot(&weights, sample);
        let mut start = 0u128;
        let mut i = 0;
        while i < slot {
            start += weights[i] as u128;
            i += 1;
        }
        assert!(start <= sample && sample < start + weights[slot] as u128);
        let mut others = 0;
        let mut cursor = 0u128;
        let mut j = 0;
        while j < weights.len() {
            let end = cursor + weights[j] as u128;
            if cursor <= sample && sample < end {
                others += 1;
            }
            cursor = end;
            j += 1;
        }
        assert_eq!(others, 1);
        sample += 1;
    }
}

#[test]
fn zero_weights_resolve_to_the_first_slot() {
    let weights = [0u32; 15];
    assert_eq!(resolve_slot(&weights, 0), 0);
    assert_eq!(resolve_slot(&weights, 57), 0);
    assert_eq!(resolve_slot(&weights, 99), 0);
    let mut catalog = SpinItemList::default();
    assert_eq!(catalog.spin(0, SampleTransform::Identity), 0);
    assert_eq!(catalog.spin(99, SampleTransform::Cubic), 0);
    assert_eq!(catalog.last_spinindex(), 0);
}

#[test]
fn no_weights_resolve_to_zero() {
    let weights: [u32; 0] = [];
    assert_eq!(resolve_slot(&weights, 0), 0);
    assert_eq!(resolve_slot(&weights, 12), 0);
}

#[test]
fn zero_weight_slots_are_passed_over() {
    let weights = [0u32, 0, 5, 0, 5];
    assert_eq!(resolve_slot(&weights, 0), 2);
    assert_eq!(resolve_slot(&weights, 4), 2);
    assert_eq!(resolve_slot(&weights, 5), 4);
    assert_eq!(resolve_slot(&weights, 9), 4);
    assert_eq!(resolve_slot(&weights, 10), 0);
}

#[test]
fn fallback_overwrites_an_earlier_choice() {
    let mut catalog = catalog_with(&[10, 20, 70]);
    assert_eq!(catalog.spin(50, SampleTransform::Identity), 2);
    assert_eq!(catalog.spin(1000, SampleTransform::Identity), 0);
    assert_eq!(catalog.last_spinindex(), 0);
}

#[test]
fn stale_weights_behind_the_active_range_still_count() {
    let mut catalog = catalog_with(&[10, 20, 70]);
    catalog.clear_spinitem();
    assert_eq!(catalog.count(), 0);
    assert_eq!(catalog.spin(50, SampleTransform::Identity), 2);
}

#[test]
fn transforms_map_samples_to_points() {
    assert_eq!(SampleTransform::Identity.apply(0), 0);
    assert_eq!(SampleTransform::Identity.apply(99), 99);
    assert_eq!(SampleTransform::Identity.apply(u32::MAX), 4294967295);
    assert_eq!(SampleTransform::Cubic.apply(0), 0);
    assert_eq!(SampleTransform::Cubic.apply(1), 1);
    assert_eq!(SampleTransform::Cubic.apply(5), 125);
    assert_eq!(SampleTransform::Cubic.apply(99), 970299);
    assert_eq!(SampleTransform::Cubic.apply(100), 1000000);
    assert_eq!(SampleTransform::Cubic.apply(u32::MAX), 79228162458924105385300197375);
}

#[test]
fn cubic_spin_reads_weights_on_the_stretched_scale() {
    let mut catalog = catalog_with(&[1000, 124000, 875000]);
    assert_eq!(catalog.spin(0, SampleTransform::Cubic), 0);
    assert_eq!(catalog.spin(9, SampleTransform::Cubic), 0);
    assert_eq!(catalog.spin(10, SampleTransform::Cubic), 1);
    assert_eq!(catalog.spin(49, SampleTransform::Cubic), 1);
    assert_eq!(catalog.spin(50, SampleTransform::Cubic), 2);
    assert_eq!(catalog.spin(99, SampleTransform::Cubic), 2);
    assert_eq!(catalog.spin(100, SampleTransform::Cubic), 0);
}

#[test]
fn cubic_spin_on_plain_weights_falls_back_early() {
    let mut catalog = catalog_with(&[10, 20, 70]);
    assert_eq!(catalog.spin(2, SampleTransform::Cubic), 0);
    assert_eq!(catalog.spin(3, SampleTransform::Cubic), 1);
    assert_eq!(catalog.spin(4, SampleTransform::Cubic), 2);
    assert_eq!(catalog.spin(5, SampleTransform::Cubic), 0);
}

#[test]
fn large_weights_do_not_wrap() {
    let weights = [u32::MAX; 15];
    let max = u32::MAX as u128;
    assert_eq!(resolve_slot(&weights, max - 1), 0);
    assert_eq!(resolve_slot(&weights, max), 1);
    assert_eq!(resolve_slot(&weights, 15 * max - 1), 14);
    assert_eq!(resolve_slot(&weights, 15 * max), 0);
    let mut catalog = catalog_with(&weights);
    assert_eq!(catalog.spin(u32::MAX, SampleTransform::Identity), 1);
    assert_eq!(catalog.spin(u32::MAX, SampleTransform::Cubic), 0);
    assert_eq!(catalog.spin(1625, SampleTransform::Cubic), 0);
    assert_eq!(catalog.spin(1626, SampleTransform::Cubic), 1);
}
