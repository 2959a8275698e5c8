use vstd::prelude::*;
use pinocchio::program_error::ProgramError;

verus! {

#[verifier::external_type_specification]
pub struct ExProgramError(ProgramError);

/// The token program that an instruction is meant for.
#[derive(Clone, Copy, Debug, PartialEq, Eq, Structural)]
pub enum TokenProgramType {
    PToken,
    Token2022,
}

/// The instructions of the lending program, in the order of their tags.
#[derive(Clone, Copy, Debug, PartialEq, Eq, Structural)]
pub enum ProgramInstructions {
    InitializeLiquidityPool,
    InitializeLiquidityProvider,
    ProvideLiquidity,
    BorrowFunds,
    RepayFunds,
    LiquidateCollateral,
}

impl ProgramInstructions {
    /// The instruction that a tag byte stands for.
    pub open spec fn of_tag(tag: u8) -> Option<ProgramInstructions> {
        if tag == 0 {
            Some(ProgramInstructions::InitializeLiquidityPool)
        } else if tag == 1 {
            Some(ProgramInstructions::InitializeLiquidityProvider)
        } else if tag == 2 {
            Some(ProgramInstructions::ProvideLiquidity)
        } else if tag == 3 {
            Some(ProgramInstructions::BorrowFunds)
        } else if tag == 4 {
            Some(ProgramInstructions::RepayFunds)
        } else if tag == 5 {
            Some(ProgramInstructions::LiquidateCollateral)
        } else {
            None
        }
    }

    /// Reads an instruction from its tag byte; a byte over 5 is invalid
    /// instruction data.
    pub fn try_from(value: &u8) -> (r: Result<ProgramInstructions, ProgramError>)
        ensures
            r == match Self::of_tag(*value) {
                Some(instruction) => Ok::<ProgramInstructions, ProgramError>(instruction),
                None => Err::<ProgramInstructions, ProgramError>(
                    ProgramError::InvalidInstructionData,
                ),
            },
            r is Ok <==> *value <= 5,
    {
        match *value {
            0 => Ok(ProgramInstructions::InitializeLiquidityPool),
            1 => Ok(ProgramInstructions::InitializeLiquidityProvider),
            2 => Ok(ProgramInstructions::ProvideLiquidity),
            3 => Ok(ProgramInstructions::BorrowFunds),
            4 => Ok(ProgramInstructions::RepayFunds),
            5 => Ok(ProgramInstructions::LiquidateCollateral),
            _ => Err(ProgramError::InvalidInstructionData),
        }
    }
}

/// The `count` lowest bytes of `value`, lowest first.
pub open spec fn le_bytes(value: nat, count: nat) -> Seq<u8>
    decreases count,
{
    if count == 0 {
        Seq::empty()
    } else {
        seq![(value % 256) as u8] + le_bytes(value / 256, (count - 1) as nat)
    }
}

/// The data of the system program's instruction that creates an account:
/// the tag 0 in four bytes, the lamports and the space in eight bytes each, all
/// lowest byte first, then the 32 bytes of the owner.
pub open spec fn create_account_data(lamports: u64, space: u64, owner: Seq<u8>) -> Seq<u8> {
    le_bytes(0, 4) + le_bytes(lamports as nat, 8) + le_bytes(space as nat, 8) + owner
}

/// Taking one more byte of a number adds its next byte at the end.
pub proof fn lemma_le_bytes_grow(value: nat, count: nat, power: nat)
    requires
        power == crate::math::pow(256, count),
    ensures
        le_bytes(value, count + 1) == le_bytes(value, count).push(((value / power) % 256) as u8),
    decreases count,
{
    if count == 0 {
        assert(le_bytes(value, 0) =~= Seq::<u8>::empty());
        assert(le_bytes(value / 256, 0) =~= Seq::<u8>::empty());
        assert(le_bytes(value, 1) =~= seq![(value % 256) as u8]);
        assert(value / 1 == value);
        assert(le_bytes(value, 1) =~= le_bytes(value, 0).push(((value / power) % 256) as u8));
    } else {
        let lower = crate::math::pow(256, (count - 1) as nat);
        assert(power == 256 * lower);
        lemma_le_bytes_grow(value / 256, (count - 1) as nat, lower);
        crate::math::lemma_pow_positive(256, (count - 1) as nat);
        assert((value / 256) / lower == value / power) by (nonlinear_arith)
            requires
                power == 256 * lower,
                lower >= 1,
        ;
        assert(le_bytes(value, count + 1) =~= le_bytes(value, count).push(
            ((value / power) % 256) as u8,
        ));
    }
}

/// Appends the 8 bytes of `value` to `data`, lowest first.
fn push_u64_le(data: &mut Vec<u8>, value: u64)
    ensures
        final(data)@ == old(data)@ + le_bytes(value as nat, 8),
{
    let mut rest: u64 = value;
    let mut i: usize = 0;
    let ghost mut power: nat = 1;
    assert(le_bytes(value as nat, 0) =~= Seq::<u8>::empty());
    assert(data@ =~= old(data)@ + le_bytes(value as nat, 0));
    while i < 8
        invariant
            i <= 8,
            power == crate::math::pow(256, i as nat),
            power >= 1,
            rest == value as nat / power,
            data@ == old(data)@ + le_bytes(value as nat, i as nat),
        decreases 8 - i,
    {
        proof {
            lemma_le_bytes_grow(value as nat, i as nat, power);
        }
        data.push((rest % 256) as u8);
        proof {
            assert((value as nat / power) / 256 == value as nat / (256 * power))
                by (nonlinear_arith)
                requires
                    power >= 1,
            ;
            assert(data@ =~= old(data)@ + le_bytes(value as nat, (i + 1) as nat));
            power = 256 * power;
        }
        rest = rest / 256;
        i = i + 1;
    }
}

/// Builds the data of the system program's instruction that creates an
/// account with `lamports` lamports and `space` bytes for the program `owner`.
pub fn create_account_instruction_data(lamports: u64, space: u64, owner: &[u8; 32]) -> (data: Vec<
    u8,
>)
    ensures
        data@ == create_account_data(lamports, space, owner@),
        data@.len() == 52,
{
    let mut data: Vec<u8> = Vec::with_capacity(52);
    data.push(0);
    data.push(0);
    data.push(0);
    data.push(0);
    proof {
        reveal_with_fuel(le_bytes, 5);
        assert(data@ =~= le_bytes(0, 4));
    }
    push_u64_le(&mut data, lamports);
    push_u64_le(&mut data, space);
    let ghost head = data@;
    let mut i: usize = 0;
    while i < 32
        invariant
            i <= 32,
            head == le_bytes(0, 4) + le_bytes(lamports as nat, 8) + le_bytes(space as nat, 8),
            data@ == head + owner@.subrange(0, i as int),
        decreases 32 - i,
    {
        data.push(owner[i]);
        proof {
            assert(data@ =~= head + owner@.subrange(0, (i + 1) as int));
        }
        i = i + 1;
    }
    proof {
        assert(owner@.subrange(0, 32) =~= owner@);
        lemma_le_bytes_len(0, 4);
        lemma_le_bytes_len(lamports as nat, 8);
        lemma_le_bytes_len(space as nat, 8);
    }
    data
}

/// `le_bytes` gives as many bytes as it is asked for.
pub proof fn lemma_le_bytes_len(value: nat, count: nat)
    ensures
        le_bytes(value, count).len() == count,
    decreases count,
{
    if count > 0 {
        lemma_le_bytes_len(value / 256, (count - 1) as nat);
    }
}

} // verus!
