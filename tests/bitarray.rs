use acv::bitarray::{BitArray, TruncatedInput};

fn ones_by_bits(bytes: &[u8]) -> u32 {
    let mut n = 0u32;
    for &b in bytes {
        for k in 0..8 {
            if (b >> k) & 1 == 1 {
                n += 1;
            }
        }
    }
    n
}

fn pseudo_random_bytes<const B: usize>(seed: u64) -> [u8; B] {
    let mut state = seed.wrapping_mul(6364136223846793005).wrapping_add(1442695040888963407);
    let mut out = [0u8; B];
    for b in out.iter_mut() {
        state = state.wrapping_mul(6364136223846793005).wrapping_add(1442695040888963407);
        *b = (state >> 33) as u8;
    }
    out
}

fn check_size<const B: usize>() {
    for seed in 0..20u64 {
        let a = BitArray::<B>::new(pseudo_random_bytes::<B>(seed));
        let b = BitArray::<B>::new(pseudo_random_bytes::<B>(seed + 1000));
        assert_eq!(a.weight(), ones_by_bits(a.bytes()));
        assert_eq!(a.distance(&b), ones_by_bits((a ^ b).bytes()));
        assert_eq!(a.distance(&b), b.distance(&a));
        assert_eq!(a.distance(&a), 0);
    }
}

#[test]
fn weight_of_alternating_bits() {
    let array = BitArray::new([0xAA; 83]);
    assert_eq!(array.weight(), 4 * 83);
}

#[test]
fn distance_of_complementary_arrays() {
    let a = BitArray::new([0xAA; 65]);
    let b = BitArray::new([0x55; 65]);
    assert_eq!(a.distance(&b), 8 * 65);
}

#[test]
fn distance_of_equal_arrays() {
    let a = BitArray::new([0xAA; 65]);
    let b = BitArray::new([0xAA; 65]);
    assert_eq!(a.distance(&b), 0);
}

#[test]
fn zeros_equals_new_of_zero_bytes() {
    assert_eq!(BitArray::<1>::zeros(), BitArray::new([0]));
    assert_eq!(BitArray::<77>::zeros(), BitArray::new([0; 77]));
    assert_eq!(*BitArray::<1>::zeros(), [0]);
}

#[test]
fn and_or_of_full_and_empty() {
    let full = BitArray::new([0xFF; 19]);
    assert_eq!(full & BitArray::new([0xFF; 19]), BitArray::new([0xFF; 19]));
    assert_eq!(full | BitArray::zeros(), BitArray::new([0xFF; 19]));
}

#[test]
fn bitwise_operators_act_byte_by_byte() {
    let a = BitArray::new([0b1100_1010, 0x0F, 0xFF]);
    let b = BitArray::new([0b1010_0110, 0xF0, 0x00]);
    assert_eq!(*(a & b).bytes(), [0b1000_0010, 0x00, 0x00]);
    assert_eq!(*(a | b).bytes(), [0b1110_1110, 0xFF, 0xFF]);
    assert_eq!(*(a ^ b).bytes(), [0b0110_1100, 0xFF, 0xFF]);
}

#[test]
fn new_keeps_bytes() {
    let array = BitArray::new([0]);
    assert_eq!(*array.bytes(), [0]);
    let array = BitArray::new([1, 2]);
    assert_eq!(*array, [1, 2]);
}

#[test]
fn bytes_mut_changes_in_place() {
    let mut array = BitArray::new([1, 2]);
    array.bytes_mut()[0] = 3;
    assert_eq!(*array, [3, 2]);
    assert_eq!(array.weight(), 3);
}

#[test]
fn deref_mut_changes_in_place() {
    let mut array = BitArray::zeros();
    array[0] = 1;
    array[1] = 2;
    assert_eq!(*array, [1, 2]);
}

#[test]
fn equality_is_byte_wise() {
    assert_eq!(BitArray::new([1, 2, 3]), BitArray::new([1, 2, 3]));
    assert_ne!(BitArray::new([1, 2, 3]), BitArray::new([1, 2, 4]));
    assert_ne!(BitArray::new([1, 2, 3]), BitArray::new([3, 2, 1]));
}

#[test]
fn weight_of_empty_and_full() {
    assert_eq!(BitArray::<0>::zeros().weight(), 0);
    assert_eq!(BitArray::<64>::zeros().weight(), 0);
    assert_eq!(BitArray::new([0xFF; 64]).weight(), 512);
    assert_eq!(BitArray::new([0xFF; 7]).weight(), 56);
    assert_eq!(BitArray::new([1, 2, 4, 8, 16, 32, 64, 128, 3]).weight(), 10);
}

#[test]
fn word_path_matches_bit_by_bit_count_on_many_sizes() {
    check_size::<1>();
    check_size::<7>();
    check_size::<8>();
    check_size::<9>();
    check_size::<15>();
    check_size::<16>();
    check_size::<63>();
    check_size::<64>();
    check_size::<65>();
    check_size::<83>();
    check_size::<130>();
    check_size::<257>();
}

#[test]
fn distance_obeys_triangle_inequality() {
    for seed in 0..30u64 {
        let a = BitArray::<37>::new(pseudo_random_bytes::<37>(seed));
        let b = BitArray::<37>::new(pseudo_random_bytes::<37>(seed + 100));
        let c = BitArray::<37>::new(pseudo_random_bytes::<37>(seed + 200));
        assert!(a.distance(&c) <= a.distance(&b) + b.distance(&c));
    }
}

#[test]
fn distance_counts_single_differing_bit() {
    let a = BitArray::new([0u8; 20]);
    let mut b = a;
    b.bytes_mut()[17] = 0x10;
    assert_eq!(a.distance(&b), 1);
    assert_eq!((a ^ b).weight(), 1);
}

#[test]
fn to_bytes_is_raw_bytes() {
    let array = BitArray::new([9, 8, 7]);
    assert_eq!(array.to_bytes(), vec![9, 8, 7]);
}

#[test]
fn from_bytes_round_trips() {
    let array = BitArray::new([9, 8, 7, 6]);
    assert_eq!(BitArray::<4>::from_bytes(&array.to_bytes()), Ok(array));
}

#[test]
fn from_bytes_takes_leading_bytes() {
    assert_eq!(BitArray::<2>::from_bytes(&[5, 6, 7]), Ok(BitArray::new([5, 6])));
}

#[test]
fn from_bytes_rejects_truncated_input() {
    assert_eq!(
        BitArray::<4>::from_bytes(&[1, 2, 3]),
        Err(TruncatedInput { needed: 4, available: 3 })
    );
    assert_eq!(
        BitArray::<1>::from_bytes(&[]),
        Err(TruncatedInput { needed: 1, available: 0 })
    );
}
