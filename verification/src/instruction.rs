//! Wire format of instructions: a one-byte opcode and a fixed-width payload.
//!
//! Little-endian throughout. Unknown tags and truncated payloads fail with
//! `MalformedInstruction`; bytes past a payload's declared width are ignored.

use vstd::prelude::*;

use crate::error::StepError;
use crate::keys::{read_key, PubkeyData};
use crate::state::{read_u64_le, UnixTimestamp};
use vstd::bytes::spec_u64_from_le_bytes;

verus! {

/// The closed set of operations, each with its decoded payload.
pub enum StepInstruction {
    /// One-time initialization of the singleton program state.
    InitProgram {},
    /// One-time initialization of a pool addressed by the given seed.
    InitPool { pda_seed: PubkeyData },
    /// Deposit of the given amount into a pool's custody account.
    Deposit { amount: u64 },
    /// Registration of a recurring swap order.
    CreateStream {
        input_token_pubkey: PubkeyData,
        output_token_pubkey: PubkeyData,
        interval_days: UnixTimestamp,
        amount: u64,
    },
    /// Execution of a trade for the pool addressed by the given seed.
    Execute { pda_seed: PubkeyData },
}

/// Mathematical value of a [`StepInstruction`].
#[verifier::ext_equal]
pub enum StepInstructionV {
    InitProgram,
    InitPool { pda_seed: Seq<u8> },
    Deposit { amount: u64 },
    CreateStream {
        input_token_pubkey: Seq<u8>,
        output_token_pubkey: Seq<u8>,
        interval_days: i64,
        amount: u64,
    },
    Execute { pda_seed: Seq<u8> },
}

impl View for StepInstruction {
    type V = StepInstructionV;

    open spec fn view(&self) -> StepInstructionV {
        match self {
            StepInstruction::InitProgram {  } => StepInstructionV::InitProgram,
            StepInstruction::InitPool { pda_seed } => StepInstructionV::InitPool { pda_seed: pda_seed@ },
            StepInstruction::Deposit { amount } => StepInstructionV::Deposit { amount: *amount },
            StepInstruction::CreateStream { input_token_pubkey, output_token_pubkey, interval_days, amount } => {
                StepInstructionV::CreateStream {
                    input_token_pubkey: input_token_pubkey@,
                    output_token_pubkey: output_token_pubkey@,
                    interval_days: *interval_days,
                    amount: *amount,
                }
            },
            StepInstruction::Execute { pda_seed } => StepInstructionV::Execute { pda_seed: pda_seed@ },
        }
    }
}

/// Meaning of an instruction buffer: the opcode table and each opcode's
/// fixed-width payload. `Err` exactly on an empty buffer, an unknown tag, or
/// a payload shorter than the opcode demands.
pub open spec fn spec_unpack(s: Seq<u8>) -> Result<StepInstructionV, StepError> {
    if s.len() == 0 {
        Err(StepError::MalformedInstruction)
    } else {
        let tag = s[0];
        let rest = s.skip(1);
        if tag == 0 {
            Ok(StepInstructionV::InitProgram)
        } else if tag == 1 {
            if rest.len() >= 32 {
                Ok(StepInstructionV::InitPool { pda_seed: rest.subrange(0, 32) })
            } else {
                Err(StepError::MalformedInstruction)
            }
        } else if tag == 2 {
            if rest.len() >= 8 {
                Ok(StepInstructionV::Deposit { amount: spec_u64_from_le_bytes(rest.subrange(0, 8)) })
            } else {
                Err(StepError::MalformedInstruction)
            }
        } else if tag == 3 {
            if rest.len() >= 80 {
                Ok(
                    StepInstructionV::CreateStream {
                        input_token_pubkey: rest.subrange(0, 32),
                        output_token_pubkey: rest.subrange(32, 64),
                        interval_days: spec_u64_from_le_bytes(rest.subrange(64, 72)) as i64,
                        amount: spec_u64_from_le_bytes(rest.subrange(72, 80)),
                    },
                )
            } else {
                Err(StepError::MalformedInstruction)
            }
        } else if tag == 4 {
            if rest.len() >= 32 {
                Ok(StepInstructionV::Execute { pda_seed: rest.subrange(0, 32) })
            } else {
                Err(StepError::MalformedInstruction)
            }
        } else {
            Err(StepError::MalformedInstruction)
        }
    }
}

impl StepInstruction {
    /// Decodes an instruction buffer into an operation.
    pub fn unpack(input: &[u8]) -> (r: Result<StepInstruction, StepError>)
        ensures
            match r {
                Ok(v) => spec_unpack(input@) == Ok::<StepInstructionV, StepError>(v@),
                Err(e) => spec_unpack(input@) == Err::<StepInstructionV, StepError>(e),
            },
    {
        let n = input.len();
        if n == 0 {
            return Err(StepError::MalformedInstruction);
        }
        let tag = *vstd::slice::slice_index_get(input, 0);
        let rest = vstd::slice::slice_subrange(input, 1, n);
        proof {
            assert(rest@ =~= input@.skip(1));
        }
        if tag == 0 {
            let v = StepInstruction::InitProgram {  };
            proof {
                assert(spec_unpack(input@) =~= Ok::<StepInstructionV, StepError>(v@));
            }
            Ok(v)
        } else if tag == 1 {
            let pda_seed = Self::unpack_pda_seed(rest)?;
            let v = StepInstruction::InitPool { pda_seed };
            proof {
                assert(spec_unpack(input@) =~= Ok::<StepInstructionV, StepError>(v@));
            }
            Ok(v)
        } else if tag == 2 {
            let amount = Self::unpack_amount(rest)?;
            let v = StepInstruction::Deposit { amount };
            proof {
                assert(spec_unpack(input@) =~= Ok::<StepInstructionV, StepError>(v@));
            }
            Ok(v)
        } else if tag == 3 {
            let m = rest.len();
            if m < 80 {
                return Err(StepError::MalformedInstruction);
            }
            let interval_bits = read_u64_le(rest, 64);
            let v = StepInstruction::CreateStream {
                input_token_pubkey: read_key(rest, 0),
                output_token_pubkey: read_key(rest, 32),
                interval_days: interval_bits as i64,
                amount: read_u64_le(rest, 72),
            };
            proof {
                assert(spec_unpack(input@) =~= Ok::<StepInstructionV, StepError>(v@));
            }
            Ok(v)
        } else if tag == 4 {
            let pda_seed = Self::unpack_pda_seed(rest)?;
            let v = StepInstruction::Execute { pda_seed };
            proof {
                assert(spec_unpack(input@) =~= Ok::<StepInstructionV, StepError>(v@));
            }
            Ok(v)
        } else {
            Err(StepError::MalformedInstruction)
        }
    }

    /// Reads an 8-byte little-endian amount payload.
    fn unpack_amount(input: &[u8]) -> (r: Result<u64, StepError>)
        ensures
            match r {
                Ok(a) => input@.len() >= 8 && a == spec_u64_from_le_bytes(input@.subrange(0, 8)),
                Err(e) => input@.len() < 8 && e == StepError::MalformedInstruction,
            },
    {
        let n = input.len();
        if n < 8 {
            return Err(StepError::MalformedInstruction);
        }
        Ok(read_u64_le(input, 0))
    }

    /// Reads a 32-byte seed payload.
    fn unpack_pda_seed(input: &[u8]) -> (r: Result<PubkeyData, StepError>)
        ensures
            match r {
                Ok(k) => input@.len() >= 32 && k@ == input@.subrange(0, 32),
                Err(e) => input@.len() < 32 && e == StepError::MalformedInstruction,
            },
    {
        let n = input.len();
        if n < 32 {
            return Err(StepError::MalformedInstruction);
        }
        Ok(read_key(input, 0))
    }
}

} // verus!
