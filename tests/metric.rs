use acv::bitarray::BitArray;
use acv::metric::{Hamming, Jaccard, Overlap};

fn jaccard_distance(o: Overlap) -> f32 {
    if o.union == 0 {
        0.0
    } else {
        1.0 - o.intersection as f32 / o.union as f32
    }
}

#[test]
fn hamming_metric_counts_differing_bits() {
    let a = BitArray::new([0xAA; 65]);
    let b = BitArray::new([0x55; 65]);
    assert_eq!(Hamming.distance(&a, &b), 8 * 65);
    assert_eq!(Hamming.distance(&a, &a), 0);
    assert_eq!(Hamming.distance(&a, &BitArray::new([0xAB; 65])), 65);
}

#[test]
fn jaccard_of_identical_nonzero_arrays_is_zero() {
    let a = BitArray::new([0x3C, 0x01, 0x80]);
    let o = Jaccard.overlap(&a, &a);
    assert_eq!(o, Overlap { intersection: 6, union: 6 });
    assert_eq!(jaccard_distance(o), 0.0);
}

#[test]
fn jaccard_of_two_zero_arrays_is_zero() {
    let z = BitArray::<12>::zeros();
    let o = Jaccard.overlap(&z, &z);
    assert_eq!(o, Overlap { intersection: 0, union: 0 });
    assert_eq!(jaccard_distance(o), 0.0);
}

#[test]
fn jaccard_of_disjoint_arrays_is_one() {
    let a = BitArray::new([0xF0, 0x00]);
    let b = BitArray::new([0x0F, 0x01]);
    let o = Jaccard.overlap(&a, &b);
    assert_eq!(o, Overlap { intersection: 0, union: 9 });
    assert_eq!(jaccard_distance(o), 1.0);
}

#[test]
fn jaccard_of_partial_overlap() {
    let a = BitArray::new([0b0000_1111]);
    let b = BitArray::new([0b0011_1100]);
    let o = Jaccard.overlap(&a, &b);
    assert_eq!(o, Overlap { intersection: 2, union: 6 });
    let d = jaccard_distance(o);
    assert!((d - 2.0 / 3.0).abs() < 1e-6);
    assert!((0.0..=1.0).contains(&d));
}

#[test]
fn jaccard_stays_in_unit_range() {
    let mut state = 12345u64;
    for _ in 0..50 {
        let mut a = [0u8; 9];
        let mut b = [0u8; 9];
        for k in 0..9 {
            state = state.wrapping_mul(6364136223846793005).wrapping_add(1);
            a[k] = (state >> 40) as u8;
            b[k] = (state >> 48) as u8;
        }
        let o = Jaccard.overlap(&BitArray::new(a), &BitArray::new(b));
        assert!(o.intersection <= o.union);
        let d = jaccard_distance(o);
        assert!((0.0..=1.0).contains(&d));
        assert_eq!(d == 0.0, a == b || o.union == 0);
    }
}
