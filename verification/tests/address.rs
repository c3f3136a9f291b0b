use escrow::address::Address;

#[test]
fn addresses_are_equal_when_their_bytes_are() {
    let mut bytes = [3u8; 32];
    let one = Address::new_from_array(bytes);
    let same = Address::new_from_array(bytes);
    bytes[31] = 4;
    let last_differs = Address::new_from_array(bytes);
    bytes[31] = 3;
    bytes[0] = 4;
    let first_differs = Address::new_from_array(bytes);
    assert!(one == same);
    assert!(one != last_differs);
    assert!(one != first_differs);
    assert_eq!(one.to_bytes(), [3u8; 32]);
}

#[test]
fn read_takes_32_bytes_from_the_offset() {
    let src: Vec<u8> = (0u8..40).collect();
    let address = Address::read(&src, 5);
    let expected: Vec<u8> = (5u8..37).collect();
    assert_eq!(address.to_bytes().to_vec(), expected);
}

#[test]
fn write_changes_32_bytes_only() {
    let mut dst = [9u8; 36];
    Address::new_from_array([1u8; 32]).write(&mut dst, 2);
    let mut expected = [1u8; 36];
    expected[0] = 9;
    expected[1] = 9;
    expected[34] = 9;
    expected[35] = 9;
    assert_eq!(dst, expected);
}
