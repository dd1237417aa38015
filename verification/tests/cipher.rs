use rqsrv::rc4::CustomRc4;

#[test]
pub fn rc4_roundtrip() {
    let data: [u8; 243] = core::array::from_fn(|i| i as u8);
    let mut data_rd = data.clone();

    let mut rc4 = CustomRc4::new();
    rc4.setup_rand();
    let mut enc = rc4.clone();
    let mut dec = rc4;

    enc.xor_in_place(&mut data_rd);
    dec.xor_in_place(&mut data_rd);

    assert_eq!(data, data_rd);
}

#[test]
fn rc4_new_is_all_zero() {
    let rc4 = CustomRc4::new();
    assert_eq!(rc4.as_bytes(), vec![0u8; 264]);
}

#[test]
fn rc4_bytes_roundtrip() {
    let mut bytes: Vec<u8> = (0..=255u8).collect();
    bytes.extend_from_slice(&[7, 0, 0, 0, 9, 0, 0, 0]);
    let rc4 = CustomRc4::from_bytes(&bytes);
    assert_eq!(rc4.as_bytes(), bytes);
}

#[test]
fn rc4_from_bytes_takes_low_bytes_of_indices() {
    let mut bytes = vec![0u8; 256];
    bytes.extend_from_slice(&[0x34, 0x12, 0, 0, 0x78, 0x56, 0, 0]);
    let rc4 = CustomRc4::from_bytes(&bytes);
    let back = rc4.as_bytes();
    assert_eq!(back[256], 0x34);
    assert_eq!(back[257], 0);
    assert_eq!(back[260], 0x78);
}

#[test]
fn rc4_identity_box_keystream() {
    // Identity box, i = j = 0: step 1 gives i = 1, j = 1, s[1] = 1 and the
    // keystream byte is s[2] = 2.
    let mut bytes: Vec<u8> = (0..=255u8).collect();
    bytes.extend_from_slice(&[0; 8]);
    let mut rc4 = CustomRc4::from_bytes(&bytes);
    let mut data = [0u8; 1];
    rc4.xor_in_place(&mut data);
    assert_eq!(data, [2]);
    let state = rc4.as_bytes();
    assert_eq!(state[256], 1);
    assert_eq!(state[260], 1);
}

#[test]
fn rc4_split_stream_matches_whole() {
    let mut rc4 = CustomRc4::new();
    rc4.setup(&[5u8; 256]);
    let mut whole = rc4.clone();
    let mut parts = rc4;
    let mut a = [1u8; 100];
    whole.xor_in_place(&mut a);
    let mut b1 = [1u8; 40];
    let mut b2 = [1u8; 60];
    parts.xor_in_place(&mut b1);
    parts.xor_in_place(&mut b2);
    assert_eq!(&a[..40], &b1[..]);
    assert_eq!(&a[40..], &b2[..]);
    assert_eq!(whole.as_bytes(), parts.as_bytes());
}

#[test]
fn rc4_dummy_advance_matches_xor_state() {
    let mut rc4 = CustomRc4::new();
    rc4.setup(&[3u8; 256]);
    let mut a = rc4.clone();
    let mut b = rc4;
    a.dummy_advance(17);
    let mut data = [0u8; 17];
    b.xor_in_place(&mut data);
    assert_eq!(a.as_bytes(), b.as_bytes());
}

#[test]
fn rc4_setup_is_deterministic() {
    let mut a = CustomRc4::new();
    let mut b = CustomRc4::new();
    a.setup(&[9u8; 256]);
    b.setup(&[9u8; 256]);
    assert_eq!(a.as_bytes(), b.as_bytes());
    let state = a.as_bytes();
    // 1000 steps: i = 1000 mod 256
    assert_eq!(state[256], (1000 % 256) as u8);
    let mut sorted: Vec<u8> = state[..256].to_vec();
    sorted.sort();
    assert_eq!(sorted, (0..=255u8).collect::<Vec<u8>>());
}

#[test]
fn rc4_steps_keep_box_a_permutation() {
    let mut rc4 = CustomRc4::new();
    rc4.setup(&[7u8; 256]);
    let i0 = rc4.as_bytes()[256] as usize;
    let mut data = [0u8; 300];
    rc4.xor_in_place(&mut data);
    let state = rc4.as_bytes();
    assert_eq!(state.len(), 264);
    assert_eq!(state[256] as usize, (i0 + 300) % 256);
    let mut sorted: Vec<u8> = state[..256].to_vec();
    sorted.sort();
    assert_eq!(sorted, (0..=255u8).collect::<Vec<u8>>());
    assert_eq!(CustomRc4::from_bytes(&state).as_bytes(), state);
}
