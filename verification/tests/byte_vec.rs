use heapless_sink::ByteVec;

#[test]
fn new_vector_is_empty() {
    let v = ByteVec::<5>::new();
    assert_eq!(v.len(), 0);
    assert_eq!(v.capacity(), 5);
    assert!(v.as_slice().is_empty());
    let d = ByteVec::<5>::default();
    assert_eq!(d.len(), 0);
}

#[test]
fn push_hands_the_byte_back_when_full() {
    let mut v = ByteVec::<2>::new();
    assert_eq!(v.push(1), Ok(()));
    assert_eq!(v.push(2), Ok(()));
    assert_eq!(v.push(3), Err(3));
    assert_eq!(v.as_slice(), &[1, 2]);
    assert_eq!(v.len(), 2);
}

#[test]
fn extend_from_slice_is_all_or_nothing() {
    let mut v = ByteVec::<4>::new();
    assert_eq!(v.extend_from_slice(&[1, 2, 3]), Ok(()));
    assert_eq!(v.extend_from_slice(&[4, 5]), Err(()));
    assert_eq!(v.as_slice(), &[1, 2, 3]);
    assert_eq!(v.extend_from_slice(&[4]), Ok(()));
    assert_eq!(v.extend_from_slice(&[]), Ok(()));
    assert_eq!(v.extend_from_slice(&[5]), Err(()));
    assert_eq!(v.as_slice(), &[1, 2, 3, 4]);
}

#[test]
fn bytes_are_read_and_written_by_index() {
    let mut v = ByteVec::<4>::new();
    v.extend_from_slice(&[10, 20, 30]).unwrap();
    assert_eq!(v[0], 10);
    assert_eq!(v[2], 30);
    v[1] = 21;
    assert_eq!(v[1], 21);
    assert_eq!(v.as_slice(), &[10, 21, 30]);
    assert_eq!(v.len(), 3);
}

#[test]
fn behaves_as_a_heapless_vec() {
    let mut ours = ByteVec::<37>::new();
    let mut theirs = heapless::Vec::<u8, 37>::new();
    let mut state: u32 = 0x2545_F491;
    for _ in 0..400 {
        // A linear congruential generator picks the next move.
        state = state.wrapping_mul(1_664_525).wrapping_add(1_013_904_223);
        let byte = (state >> 24) as u8;
        match (state >> 8) % 3 {
            0 => {
                assert_eq!(ours.push(byte), theirs.push(byte));
            }
            1 => {
                let chunk = [byte; 6];
                let take = ((state >> 16) % 7) as usize;
                assert_eq!(
                    ours.extend_from_slice(&chunk[..take]),
                    theirs.extend_from_slice(&chunk[..take])
                );
            }
            _ => {
                if !theirs.is_empty() {
                    let at = ((state >> 16) as usize) % theirs.len();
                    ours[at] = byte;
                    theirs[at] = byte;
                    assert_eq!(ours[at], theirs[at]);
                }
            }
        }
        assert_eq!(ours.len(), theirs.len());
        assert_eq!(ours.as_slice(), theirs.as_slice());
    }
    assert_eq!(ours.len(), 37);
}
