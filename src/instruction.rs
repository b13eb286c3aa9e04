use vstd::prelude::*;
use crate::address::Address;
use crate::bytes::{be_value, read_address, read_u64_be};
use crate::error::{NFTError, ProcessError};

verus! {

/// Set up the platform record.
#[derive(Clone, Copy, Debug)]
pub struct Initialize {
    pub authority: Address,
    pub platform_fee: u64,
}

/// Hand the platform to a new authority.
#[derive(Clone, Copy, Debug)]
pub struct ChangeAuthority {
    pub authority: Address,
}

/// Set the platform's fee rate.
#[derive(Clone, Copy, Debug)]
pub struct ChangeFee {
    pub platform_fee: u64,
}

/// Offer one asset unit at an asking price.
#[derive(Clone, Copy, Debug)]
pub struct List {
    pub amount: u64,
}

/// Withdraw an unsettled listing.
#[derive(Clone, Copy, Debug)]
pub struct DeList {}

/// Deposit currency against an asset.
#[derive(Clone, Copy, Debug)]
pub struct Bid {
    pub amount: u64,
}

/// Take back one's own bid.
#[derive(Clone, Copy, Debug)]
pub struct WithdrawBid {}

/// Settle a listing with a given bid.
#[derive(Clone, Copy, Debug)]
pub struct AcceptBid {}

/// The winning bidder collects the asset.
#[derive(Clone, Copy, Debug)]
pub struct WithdrawNFTOnSuccess {}

/// The platform authority returns a bid to its bidder.
#[derive(Clone, Copy, Debug)]
pub struct RefundUser {}

/// One decoded request.
#[derive(Clone, Copy, Debug)]
pub enum NFTInstruction {
    Initialize(Initialize),
    ChangeAuthority(ChangeAuthority),
    ChangeFee(ChangeFee),
    List(List),
    DeList(DeList),
    Bid(Bid),
    WithdrawBid(WithdrawBid),
    AcceptBid(AcceptBid),
    WithdrawNFTOnSuccess(WithdrawNFTOnSuccess),
    RefundUser(RefundUser),
}

/// A request as mathematical values.
pub enum InstructionModel {
    Initialize { authority: Seq<u8>, platform_fee: u64 },
    ChangeAuthority { authority: Seq<u8> },
    ChangeFee { platform_fee: u64 },
    List { amount: u64 },
    DeList,
    Bid { amount: u64 },
    WithdrawBid,
    AcceptBid,
    WithdrawNFTOnSuccess,
    RefundUser,
}

impl View for NFTInstruction {
    type V = InstructionModel;

    open spec fn view(&self) -> InstructionModel {
        match *self {
            NFTInstruction::Initialize(i) => InstructionModel::Initialize {
                authority: i.authority.bytes@,
                platform_fee: i.platform_fee,
            },
            NFTInstruction::ChangeAuthority(i) => InstructionModel::ChangeAuthority { authority: i.authority.bytes@ },
            NFTInstruction::ChangeFee(i) => InstructionModel::ChangeFee { platform_fee: i.platform_fee },
            NFTInstruction::List(i) => InstructionModel::List { amount: i.amount },
            NFTInstruction::DeList(_) => InstructionModel::DeList,
            NFTInstruction::Bid(i) => InstructionModel::Bid { amount: i.amount },
            NFTInstruction::WithdrawBid(_) => InstructionModel::WithdrawBid,
            NFTInstruction::AcceptBid(_) => InstructionModel::AcceptBid,
            NFTInstruction::WithdrawNFTOnSuccess(_) => InstructionModel::WithdrawNFTOnSuccess,
            NFTInstruction::RefundUser(_) => InstructionModel::RefundUser,
        }
    }
}

pub open spec fn decode_error(e: NFTError) -> Result<InstructionModel, ProcessError> {
    Err(ProcessError::Custom(e))
}

/// An opcode without fields: accepted only with nothing after it.
pub open spec fn bare(rest: Seq<u8>, m: InstructionModel) -> Result<InstructionModel, ProcessError> {
    if rest.len() == 0 {
        Ok(m)
    } else {
        decode_error(NFTError::InvalidInstructionData)
    }
}

/// The request that a byte buffer encodes: an opcode, then that opcode's
/// fixed-width big-endian fields and nothing more.
pub open spec fn unpack_spec(s: Seq<u8>) -> Result<InstructionModel, ProcessError> {
    if s.len() == 0 {
        decode_error(NFTError::InvalidInstruction)
    } else {
        let tag = s[0];
        let rest = s.drop_first();
        if tag == 0 {
            if rest.len() < 32 {
                decode_error(NFTError::InvalidAuthority)
            } else if rest.len() != 40 {
                decode_error(NFTError::InvalidPlatformFee)
            } else {
                Ok(InstructionModel::Initialize {
                    authority: rest.subrange(0, 32),
                    platform_fee: be_value(rest.subrange(32, 40)),
                })
            }
        } else if tag == 1 {
            if rest.len() == 32 {
                Ok(InstructionModel::ChangeAuthority { authority: rest })
            } else {
                decode_error(NFTError::InvalidAuthority)
            }
        } else if tag == 2 || tag == 3 || tag == 5 {
            if rest.len() != 8 {
                decode_error(NFTError::InvalidInstructionData)
            } else if tag == 2 {
                Ok(InstructionModel::ChangeFee { platform_fee: be_value(rest) })
            } else if tag == 3 {
                Ok(InstructionModel::List { amount: be_value(rest) })
            } else {
                Ok(InstructionModel::Bid { amount: be_value(rest) })
            }
        } else if tag == 4 {
            bare(rest, InstructionModel::DeList)
        } else if tag == 6 {
            bare(rest, InstructionModel::WithdrawBid)
        } else if tag == 7 {
            bare(rest, InstructionModel::AcceptBid)
        } else if tag == 8 {
            bare(rest, InstructionModel::WithdrawNFTOnSuccess)
        } else if tag == 9 {
            bare(rest, InstructionModel::RefundUser)
        } else {
            decode_error(NFTError::InvalidInstruction)
        }
    }
}

pub open spec fn unpack_matches(r: Result<NFTInstruction, ProcessError>, m: Result<InstructionModel, ProcessError>) -> bool {
    match m {
        Ok(v) => r matches Ok(i) && i@ == v,
        Err(e) => r == Err::<NFTInstruction, ProcessError>(e),
    }
}

impl NFTInstruction {
    /// Decodes a request.
    pub fn unpack(input: &[u8]) -> (r: Result<Self, ProcessError>)
        ensures
            unpack_matches(r, unpack_spec(input@)),
    {
        if input.len() == 0 {
            return Err(ProcessError::Custom(NFTError::InvalidInstruction));
        }
        let tag = input[0];
        let n = input.len() - 1;
        let ghost rest = input@.drop_first();
        assert(rest.len() == n);
        if tag == 0 {
            if n < 32 {
                return Err(ProcessError::Custom(NFTError::InvalidAuthority));
            }
            if n != 40 {
                return Err(ProcessError::Custom(NFTError::InvalidPlatformFee));
            }
            let authority = read_address(input, 1);
            assert(authority.bytes@ =~= rest.subrange(0, 32));
            let platform_fee = match Self::unpack_amount(input, 33) {
                Ok(v) => v,
                Err(e) => return Err(e),
            };
            assert(input@.subrange(33, 41) =~= rest.subrange(32, 40));
            return Ok(NFTInstruction::Initialize(Initialize { authority, platform_fee }));
        }
        if tag == 1 {
            if n != 32 {
                return Err(ProcessError::Custom(NFTError::InvalidAuthority));
            }
            let authority = read_address(input, 1);
            assert(authority.bytes@ =~= rest);
            return Ok(NFTInstruction::ChangeAuthority(ChangeAuthority { authority }));
        }
        if tag == 2 || tag == 3 || tag == 5 {
            if n != 8 {
                return Err(ProcessError::Custom(NFTError::InvalidInstructionData));
            }
            let amount = match Self::unpack_amount(input, 1) {
                Ok(v) => v,
                Err(e) => return Err(e),
            };
            assert(input@.subrange(1, 9) =~= rest);
            if tag == 2 {
                return Ok(NFTInstruction::ChangeFee(ChangeFee { platform_fee: amount }));
            } else if tag == 3 {
                return Ok(NFTInstruction::List(List { amount }));
            } else {
                return Ok(NFTInstruction::Bid(Bid { amount }));
            }
        }
        if tag > 9 {
            return Err(ProcessError::Custom(NFTError::InvalidInstruction));
        }
        if n != 0 {
            return Err(ProcessError::Custom(NFTError::InvalidInstructionData));
        }
        if tag == 4 {
            Ok(NFTInstruction::DeList(DeList {}))
        } else if tag == 6 {
            Ok(NFTInstruction::WithdrawBid(WithdrawBid {}))
        } else if tag == 7 {
            Ok(NFTInstruction::AcceptBid(AcceptBid {}))
        } else if tag == 8 {
            Ok(NFTInstruction::WithdrawNFTOnSuccess(WithdrawNFTOnSuccess {}))
        } else {
            Ok(NFTInstruction::RefundUser(RefundUser {}))
        }
    }

    /// Reads the big-endian amount at `off`, or fails where fewer than eight
    /// bytes remain.
    fn unpack_amount(input: &[u8], off: usize) -> (r: Result<u64, ProcessError>)
        requires
            off <= input@.len(),
        ensures
            off + 8 <= input@.len() ==> r == Ok::<u64, ProcessError>(be_value(input@.subrange(off as int, off + 8))),
            off + 8 > input@.len() ==> r == Err::<u64, ProcessError>(ProcessError::Custom(NFTError::FailedToUnpackU64)),
    {
        if input.len() - off < 8 {
            return Err(ProcessError::Custom(NFTError::FailedToUnpackU64));
        }
        Ok(read_u64_be(input, off))
    }
}

} // verus!
