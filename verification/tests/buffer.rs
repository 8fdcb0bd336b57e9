use mps_backend::buffer::{read_elements, Buffer, ELEMENT_BYTES};

#[test]
fn an_element_has_four_bytes() {
    assert_eq!(ELEMENT_BYTES, 4);
    assert_eq!(ELEMENT_BYTES as usize, std::mem::size_of::<f32>());
}

#[test]
fn for_elements_multiplies_by_the_element_size() {
    assert_eq!(Buffer::for_elements(0), Buffer { length: 0 });
    assert_eq!(Buffer::for_elements(1), Buffer { length: 4 });
    assert_eq!(Buffer::for_elements(1000), Buffer { length: 4000 });
}

#[test]
fn holds_compares_against_whole_elements() {
    let buffer = Buffer { length: 10 };
    assert!(buffer.holds(0));
    assert!(buffer.holds(1));
    assert!(buffer.holds(2));
    assert!(!buffer.holds(3));
    assert!(!buffer.holds(usize::MAX));
    assert!(Buffer { length: 0 }.holds(0));
    assert!(!Buffer { length: 3 }.holds(1));
    assert!(Buffer::for_elements(7).holds(7));
    assert!(!Buffer::for_elements(7).holds(8));
}

#[test]
fn read_elements_puts_the_low_byte_first() {
    let bytes = [0x78u8, 0x56, 0x34, 0x12, 0xff, 0xff, 0xff, 0xff, 0, 0, 0, 0x80];
    assert_eq!(
        read_elements(&bytes, 3),
        Some(vec![0x1234_5678u32, 0xffff_ffff, 0x8000_0000])
    );
}

#[test]
fn read_elements_may_stop_before_the_end() {
    let bytes = [1u8, 0, 0, 0, 2, 0, 0, 0, 3, 0];
    assert_eq!(read_elements(&bytes, 0), Some(vec![]));
    assert_eq!(read_elements(&bytes, 1), Some(vec![1]));
    assert_eq!(read_elements(&bytes, 2), Some(vec![1, 2]));
}

#[test]
fn read_elements_refuses_to_leave_the_buffer() {
    let bytes = [1u8, 0, 0, 0, 2, 0, 0, 0, 3, 0];
    assert_eq!(read_elements(&bytes, 3), None);
    assert_eq!(read_elements(&bytes, usize::MAX), None);
    assert_eq!(read_elements(&[], 1), None);
    assert_eq!(read_elements(&[], 0), Some(vec![]));
}

#[test]
fn read_elements_gives_back_the_floats_that_were_stored() {
    let values = [0.0f32, -0.0, 1.5, -2.25, f32::MAX, f32::MIN_POSITIVE, f32::INFINITY];
    let mut bytes: Vec<u8> = Vec::new();
    for value in values {
        bytes.extend_from_slice(&value.to_le_bytes());
    }
    let words = read_elements(&bytes, values.len()).unwrap();
    assert_eq!(words.len(), values.len());
    for (word, value) in words.iter().zip(values.iter()) {
        assert_eq!(*word, value.to_bits());
        assert_eq!(f32::from_bits(*word).to_bits(), value.to_bits());
    }
}
