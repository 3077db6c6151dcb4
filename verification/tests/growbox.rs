use growbox::Grow;
use growbox::Value;

/// Encode integers as their little-endian bytes, the payload a sequence of
/// `i32` occupies in memory.
fn le_bytes(vals: &[i32]) -> Vec<u8> {
    let mut bytes: Vec<u8> = Vec::new();
    for v in vals {
        bytes.extend_from_slice(&v.to_le_bytes());
    }
    bytes
}

/// Decode the box's current payload back into integers.
fn ints_of(g: &Grow) -> Vec<i32> {
    let bytes = g.value_bytes();
    let mut vals: Vec<i32> = Vec::new();
    let mut i = 0;
    while i + 4 <= bytes.len() {
        let mut word = [0u8; 4];
        word.copy_from_slice(&bytes[i..i + 4]);
        vals.push(i32::from_le_bytes(word));
        i += 4;
    }
    vals
}

#[test]
fn set() {
    // A three-element integer sequence behind a wide reference: 12 bytes of
    // payload, element count 3 beside the address.
    let mut g = Grow::new(Value::wide(le_bytes(&[7, 8, 9]), 4, 3));
    g.set(Value::wide(le_bytes(&[1, 2, 3, 4, 5, 6]), 4, 6));

    assert_eq!(g.metadata_word(), Some(6));
    let x = ints_of(&g);
    assert_eq!(x.len(), 6);
    for (i, v) in x.iter().enumerate() {
        assert_eq!(
            *v,
            match i {
                0 => 1,
                1 => 2,
                2 => 3,
                3 => 4,
                4 => 5,
                5 => 6,
                _ => unreachable!(),
            }
        );
    }

    // A callable capturing nothing: zero footprint behind a wide reference
    // whose metadata word stands for the implementation descriptor.
    let word = std::mem::size_of::<&mut i32>();
    let mut g = Grow::new(Value::wide(Vec::new(), 1, 10));
    assert_eq!(g.capacity_bytes(), 0);
    // Replace it with a callable capturing one reference-sized word.
    g.set(Value::wide(vec![0xABu8; word], std::mem::align_of::<&mut i32>(), 11));
    assert_eq!(g.capacity_bytes(), word);
    assert_eq!(g.metadata_word(), Some(11));
    // The empty callable was destroyed exactly once.
    assert_eq!(g.destructions(), 1);
}

#[test]
fn grow() {
    // A fixed three-element array behind a thin reference: footprint 12.
    let mut g = Grow::new(Value::thin(le_bytes(&[1, 2, 3]), 4));
    assert_eq!(g.capacity_bytes(), 12);
    g.grow(64);
    assert_eq!(g.capacity_bytes(), 64);
}

#[test]
fn with_capacity() {
    let g = Grow::with_capacity(Value::thin(le_bytes(&[1, 2, 3]), 4), 64);
    assert_eq!(g.capacity_bytes(), 64);
}

#[test]
fn zero_footprint_never_allocates() {
    // A zero-footprint value gets the sentinel and a recorded capacity of
    // zero, thin or wide.
    let g = Grow::new(Value::thin(Vec::new(), 1));
    assert_eq!(g.capacity_bytes(), 0);
    assert_eq!(g.value_bytes().len(), 0);
    assert_eq!(g.metadata_word(), None);

    let g = Grow::new(Value::wide(Vec::new(), 8, 0));
    assert_eq!(g.capacity_bytes(), 0);
    assert_eq!(g.metadata_word(), Some(0));
}

#[test]
fn new_capacity_is_footprint_and_view_is_value() {
    let g = Grow::new(Value::thin(le_bytes(&[5, -6, 7]), 4));
    assert_eq!(g.capacity_bytes(), 12);
    assert_eq!(ints_of(&g), vec![5, -6, 7]);
    assert_eq!(g.destructions(), 0);
}

#[test]
fn with_capacity_takes_the_larger_of_the_two() {
    // Requested capacity below the footprint: the footprint wins.
    let g = Grow::with_capacity(Value::thin(le_bytes(&[1, 2, 3]), 4), 4);
    assert_eq!(g.capacity_bytes(), 12);
    // Requested capacity of zero behaves as plain construction.
    let g = Grow::with_capacity(Value::thin(le_bytes(&[1, 2, 3]), 4), 0);
    assert_eq!(g.capacity_bytes(), 12);
}

#[test]
fn grow_is_idempotent_at_or_below_capacity() {
    let mut g = Grow::new(Value::thin(le_bytes(&[1, 2, 3]), 4));
    g.grow(12);
    assert_eq!(g.capacity_bytes(), 12);
    g.grow(4);
    assert_eq!(g.capacity_bytes(), 12);
    assert_eq!(ints_of(&g), vec![1, 2, 3]);
    g.grow(64);
    g.grow(64);
    assert_eq!(g.capacity_bytes(), 64);
}

#[test]
fn grow_preserves_value_and_metadata() {
    let mut g = Grow::new(Value::wide(le_bytes(&[1, 2, 3]), 4, 3));
    g.grow(64);
    assert_eq!(g.capacity_bytes(), 64);
    assert_eq!(ints_of(&g), vec![1, 2, 3]);
    assert_eq!(g.metadata_word(), Some(3));
    assert_eq!(g.destructions(), 0);
}

#[test]
fn set_yields_the_new_view_at_any_footprint() {
    let mut g = Grow::new(Value::wide(le_bytes(&[7, 8, 9]), 4, 3));
    // Larger footprint than the stored value's.
    g.set(Value::wide(le_bytes(&[1, 2, 3, 4, 5, 6]), 4, 6));
    assert_eq!(ints_of(&g), vec![1, 2, 3, 4, 5, 6]);
    assert_eq!(g.metadata_word(), Some(6));
    // Smaller footprint: capacity stays, the view shrinks.
    g.set(Value::wide(le_bytes(&[42]), 4, 1));
    assert_eq!(ints_of(&g), vec![42]);
    assert_eq!(g.metadata_word(), Some(1));
    assert_eq!(g.capacity_bytes(), 24);
    // Equal footprint.
    g.set(Value::wide(le_bytes(&[-1]), 4, 1));
    assert_eq!(ints_of(&g), vec![-1]);
    assert_eq!(g.capacity_bytes(), 24);
}

#[test]
fn grow_from_the_sentinel_allocates() {
    // A zero-footprint value leaves the box on the sentinel; growing it
    // performs the first real allocation, and the (empty) value survives.
    let mut g = Grow::new(Value::thin(Vec::new(), 1));
    assert_eq!(g.capacity_bytes(), 0);
    g.grow(8);
    assert_eq!(g.capacity_bytes(), 8);
    assert_eq!(g.value_bytes().len(), 0);
}

#[test]
fn set_destroys_the_previous_value_exactly_once() {
    let mut g = Grow::new(Value::thin(le_bytes(&[1]), 4));
    assert_eq!(g.destructions(), 0);
    g.set(Value::thin(le_bytes(&[2]), 4));
    assert_eq!(g.destructions(), 1);
    g.set(Value::thin(le_bytes(&[3, 4]), 4));
    assert_eq!(g.destructions(), 2);
    assert_eq!(ints_of(&g), vec![3, 4]);
}

#[test]
fn footprint_is_captured_from_the_concrete_value() {
    let v = Value::wide(le_bytes(&[7, 8, 9]), 4, 3);
    let f = v.footprint();
    assert_eq!(f.size, 12);
    assert_eq!(f.align, 4);
    assert!(v.is_wide());
    let v = Value::thin(Vec::new(), 2);
    let f = v.footprint();
    assert_eq!(f.size, 0);
    assert_eq!(f.align, 2);
    assert!(!v.is_wide());
}

#[test]
fn in_place_writes_show_through_the_view() {
    let mut g = Grow::new(Value::thin(le_bytes(&[1, 2]), 4));
    // Overwrite the first stored integer byte by byte.
    let replacement = 9i32.to_le_bytes();
    for (i, b) in replacement.iter().enumerate() {
        g.set_value_byte(i, *b);
    }
    assert_eq!(ints_of(&g), vec![9, 2]);
    assert_eq!(g.destructions(), 0);
    assert_eq!(g.capacity_bytes(), 8);
}
