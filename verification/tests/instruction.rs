use escrow::error::EscrowError;
use escrow::instruction::EscrowInstruction;

#[test]
fn unpack_reads_tag_and_amount() {
    let input = [0u8, 232, 3, 0, 0, 0, 0, 0, 0];
    assert_eq!(
        EscrowInstruction::unpack(&input),
        Ok(EscrowInstruction::InitEscrow { amount: 1000 })
    );
}

#[test]
fn unpack_reads_the_amount_least_significant_byte_first() {
    let input = [0u8, 1, 2, 3, 4, 5, 6, 7, 8];
    assert_eq!(
        EscrowInstruction::unpack(&input),
        Ok(EscrowInstruction::InitEscrow { amount: 0x0807_0605_0403_0201 })
    );
}

#[test]
fn unpack_reads_the_largest_amount() {
    let input = [0u8, 255, 255, 255, 255, 255, 255, 255, 255];
    assert_eq!(
        EscrowInstruction::unpack(&input),
        Ok(EscrowInstruction::InitEscrow { amount: u64::MAX })
    );
}

#[test]
fn unpack_ignores_bytes_after_the_amount() {
    let input = [0u8, 7, 0, 0, 0, 0, 0, 0, 0, 99, 98, 97];
    assert_eq!(
        EscrowInstruction::unpack(&input),
        Ok(EscrowInstruction::InitEscrow { amount: 7 })
    );
}

#[test]
fn unpack_rejects_an_empty_buffer() {
    assert_eq!(EscrowInstruction::unpack(&[]), Err(EscrowError::InvalidInstruction));
}

#[test]
fn unpack_rejects_an_unknown_tag() {
    assert_eq!(EscrowInstruction::unpack(&[5u8]), Err(EscrowError::InvalidInstruction));
    let long = [1u8, 232, 3, 0, 0, 0, 0, 0, 0];
    assert_eq!(EscrowInstruction::unpack(&long), Err(EscrowError::InvalidInstruction));
}

#[test]
fn unpack_rejects_a_short_amount() {
    assert_eq!(EscrowInstruction::unpack(&[0u8]), Err(EscrowError::InvalidInstruction));
    let seven = [0u8, 1, 2, 3, 4, 5, 6, 7];
    assert_eq!(EscrowInstruction::unpack(&seven), Err(EscrowError::InvalidInstruction));
}

#[test]
fn unpack_amount_needs_eight_bytes() {
    assert_eq!(EscrowInstruction::unpack_amount(&[232, 3, 0, 0, 0, 0, 0, 0]), Ok(1000));
    assert_eq!(
        EscrowInstruction::unpack_amount(&[232, 3, 0, 0, 0, 0, 0]),
        Err(EscrowError::InvalidInstruction)
    );
    assert_eq!(EscrowInstruction::unpack_amount(&[]), Err(EscrowError::InvalidInstruction));
}

#[test]
fn unpack_agrees_with_the_standard_library() {
    let amounts = [0u64, 1, 255, 256, 1000, 0xdead_beef, u64::MAX - 1, u64::MAX];
    for amount in amounts {
        let mut input = vec![0u8];
        input.extend_from_slice(&amount.to_le_bytes());
        assert_eq!(
            EscrowInstruction::unpack(&input),
            Ok(EscrowInstruction::InitEscrow { amount })
        );
    }
}
