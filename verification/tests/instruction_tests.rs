use magic_trade::instruction::{
    create_account_instruction_data, ProgramInstructions, TokenProgramType,
};
use pinocchio::program_error::ProgramError;

#[test]
fn create_account_data_is_52_bytes() {
    let owner = [9u8; 32];
    let data = create_account_instruction_data(1, 82, &owner);
    assert_eq!(data.len(), 52);
    assert_eq!(&data[0..4], &[0, 0, 0, 0]);
    assert_eq!(&data[4..12], &[1, 0, 0, 0, 0, 0, 0, 0]);
    assert_eq!(&data[12..20], &[82, 0, 0, 0, 0, 0, 0, 0]);
    assert_eq!(&data[20..52], &owner);
}

#[test]
fn create_account_data_is_little_endian() {
    let mut owner = [0u8; 32];
    for (i, byte) in owner.iter_mut().enumerate() {
        *byte = i as u8;
    }
    let data = create_account_instruction_data(0x0102_0304_0506_0708, u64::MAX, &owner);
    let mut expected: Vec<u8> = vec![0, 0, 0, 0, 8, 7, 6, 5, 4, 3, 2, 1];
    expected.extend_from_slice(&[255; 8]);
    expected.extend_from_slice(&owner);
    assert_eq!(data, expected);
}

#[test]
fn create_account_data_matches_the_integer_encoding() {
    let owner = [0xEE; 32];
    for (lamports, space) in [(0u64, 0u64), (2_039_280, 165), (1_461_600, 82), (u64::MAX, 1 << 40)] {
        let data = create_account_instruction_data(lamports, space, &owner);
        let mut expected: Vec<u8> = Vec::new();
        expected.extend_from_slice(&0u32.to_le_bytes());
        expected.extend_from_slice(&lamports.to_le_bytes());
        expected.extend_from_slice(&space.to_le_bytes());
        expected.extend_from_slice(&owner);
        assert_eq!(data, expected);
    }
}

#[test]
fn instructions_are_read_from_their_tags() {
    assert_eq!(ProgramInstructions::try_from(&0), Ok(ProgramInstructions::InitializeLiquidityPool));
    assert_eq!(
        ProgramInstructions::try_from(&1),
        Ok(ProgramInstructions::InitializeLiquidityProvider)
    );
    assert_eq!(ProgramInstructions::try_from(&2), Ok(ProgramInstructions::ProvideLiquidity));
    assert_eq!(ProgramInstructions::try_from(&3), Ok(ProgramInstructions::BorrowFunds));
    assert_eq!(ProgramInstructions::try_from(&4), Ok(ProgramInstructions::RepayFunds));
    assert_eq!(ProgramInstructions::try_from(&5), Ok(ProgramInstructions::LiquidateCollateral));
}

#[test]
fn unknown_tags_are_refused() {
    for tag in 6..=255u8 {
        assert_eq!(
            ProgramInstructions::try_from(&tag),
            Err(ProgramError::InvalidInstructionData)
        );
    }
}

#[test]
fn token_program_types_differ() {
    assert_ne!(TokenProgramType::PToken, TokenProgramType::Token2022);
    assert_eq!(TokenProgramType::PToken.clone(), TokenProgramType::PToken);
}
