use nft_escrow::address::Address;
use nft_escrow::error::{NFTError, ProcessError};
use nft_escrow::instruction::NFTInstruction;
use nft_escrow::state::{BidEscrowState, ListEscrowState, PlatformState};

fn addr(b: u8) -> Address {
    Address::new_from_array([b; 32])
}

fn unpack_err(data: &[u8]) -> ProcessError {
    match NFTInstruction::unpack(data) {
        Err(e) => e,
        Ok(i) => panic!("decoded {:?}", i),
    }
}

#[test]
fn unpack_initialize_reads_authority_and_big_endian_fee() {
    let mut data = vec![0u8];
    data.extend_from_slice(&[7u8; 32]);
    data.extend_from_slice(&[0, 0, 0, 0, 0, 0, 1, 2]);
    match NFTInstruction::unpack(&data).unwrap() {
        NFTInstruction::Initialize(i) => {
            assert_eq!(i.authority, addr(7));
            assert_eq!(i.platform_fee, 258);
        }
        other => panic!("unexpected {:?}", other),
    }
}

#[test]
fn unpack_amount_operations() {
    let amount = [0u8, 0, 0, 0, 0, 0, 0, 100];
    let mut list = vec![3u8];
    list.extend_from_slice(&amount);
    assert!(matches!(NFTInstruction::unpack(&list).unwrap(), NFTInstruction::List(l) if l.amount == 100));
    let mut bid = vec![5u8];
    bid.extend_from_slice(&[1, 0, 0, 0, 0, 0, 0, 0]);
    assert!(matches!(NFTInstruction::unpack(&bid).unwrap(), NFTInstruction::Bid(b) if b.amount == 1u64 << 56));
    let mut fee = vec![2u8];
    fee.extend_from_slice(&amount);
    assert!(matches!(NFTInstruction::unpack(&fee).unwrap(), NFTInstruction::ChangeFee(f) if f.platform_fee == 100));
    let mut auth = vec![1u8];
    auth.extend_from_slice(&[9u8; 32]);
    assert!(matches!(NFTInstruction::unpack(&auth).unwrap(), NFTInstruction::ChangeAuthority(a) if a.authority == addr(9)));
}

#[test]
fn unpack_bare_operations() {
    assert!(matches!(NFTInstruction::unpack(&[4]).unwrap(), NFTInstruction::DeList(_)));
    assert!(matches!(NFTInstruction::unpack(&[6]).unwrap(), NFTInstruction::WithdrawBid(_)));
    assert!(matches!(NFTInstruction::unpack(&[7]).unwrap(), NFTInstruction::AcceptBid(_)));
    assert!(matches!(NFTInstruction::unpack(&[8]).unwrap(), NFTInstruction::WithdrawNFTOnSuccess(_)));
    assert!(matches!(NFTInstruction::unpack(&[9]).unwrap(), NFTInstruction::RefundUser(_)));
}

#[test]
fn unpack_errors() {
    assert_eq!(unpack_err(&[]), ProcessError::Custom(NFTError::InvalidInstruction));
    assert_eq!(unpack_err(&[10]), ProcessError::Custom(NFTError::InvalidInstruction));
    assert_eq!(unpack_err(&[0, 1, 2]), ProcessError::Custom(NFTError::InvalidAuthority));
    let mut short_fee = vec![0u8];
    short_fee.extend_from_slice(&[1u8; 35]);
    assert_eq!(unpack_err(&short_fee), ProcessError::Custom(NFTError::InvalidPlatformFee));
    assert_eq!(unpack_err(&[1, 1]), ProcessError::Custom(NFTError::InvalidAuthority));
    assert_eq!(unpack_err(&[3, 0, 0, 0, 0, 0, 0, 1]), ProcessError::Custom(NFTError::InvalidInstructionData));
    assert_eq!(unpack_err(&[5, 0, 0, 0, 0, 0, 0, 0, 1, 2]), ProcessError::Custom(NFTError::InvalidInstructionData));
    assert_eq!(unpack_err(&[4, 0]), ProcessError::Custom(NFTError::InvalidInstructionData));
    assert_eq!(unpack_err(&[9, 1, 2]), ProcessError::Custom(NFTError::InvalidInstructionData));
}

#[test]
fn error_codes_are_stable() {
    assert_eq!(NFTError::InvalidAuthority.code(), 0);
    assert_eq!(NFTError::InvalidInstructionData.code(), 1);
    assert_eq!(NFTError::InvalidPlatformFee.code(), 2);
    assert_eq!(NFTError::InvalidInstruction.code(), 3);
    assert_eq!(NFTError::FailedToUnpackU64.code(), 4);
    assert_eq!(NFTError::InvalidAuthority.message(), "Invalid Authority");
}

#[test]
fn platform_record_layout_and_round_trip() {
    let rec = PlatformState { is_initialized: true, authority: addr(3), platform_fee: 258, nonce: 1 };
    let mut buf = vec![0u8; 49];
    PlatformState::pack(rec, &mut buf).unwrap();
    assert_eq!(buf[0], 1);
    assert_eq!(&buf[1..33], &[3u8; 32]);
    assert_eq!(&buf[33..41], &[0, 0, 0, 0, 0, 0, 1, 2]);
    assert_eq!(&buf[41..49], &[0, 0, 0, 0, 0, 0, 0, 1]);
    let back = PlatformState::unpack_from_slice(&buf).unwrap();
    assert!(back.is_initialized());
    assert_eq!(back.authority, addr(3));
    assert_eq!(back.platform_fee, 258);
    assert_eq!(back.nonce, 1);
}

#[test]
fn platform_record_rejects_bad_flag_and_length() {
    let mut buf = vec![0u8; 49];
    buf[0] = 2;
    assert_eq!(PlatformState::unpack_from_slice(&buf).unwrap_err(), ProcessError::InvalidAccountData);
    assert_eq!(PlatformState::unpack_from_slice(&[0u8; 48]).unwrap_err(), ProcessError::InvalidAccountData);
    let rec = PlatformState { is_initialized: false, authority: addr(1), platform_fee: 0, nonce: 0 };
    let mut small = vec![0u8; 10];
    assert_eq!(PlatformState::pack(rec, &mut small), Err(ProcessError::InvalidAccountData));
    assert_eq!(small, vec![0u8; 10]);
}

#[test]
fn listing_record_round_trip() {
    let rec = ListEscrowState { lister: addr(1), mint: addr(2), amount: 80, success: true, successful_buyer: addr(4) };
    let mut buf = vec![0u8; 105];
    ListEscrowState::pack(rec, &mut buf).unwrap();
    assert_eq!(buf[72], 1);
    assert_eq!(buf[71], 80);
    let back = ListEscrowState::unpack_from_slice(&buf).unwrap();
    assert_eq!(back.lister, addr(1));
    assert_eq!(back.mint, addr(2));
    assert_eq!(back.amount, 80);
    assert!(back.success);
    assert_eq!(back.successful_buyer, addr(4));
    buf[72] = 7;
    assert_eq!(ListEscrowState::unpack_from_slice(&buf).unwrap_err(), ProcessError::InvalidAccountData);
    assert_eq!(ListEscrowState::unpack_from_slice(&[0u8; 106]).unwrap_err(), ProcessError::InvalidAccountData);
}

#[test]
fn bid_record_round_trip() {
    let rec = BidEscrowState { bidder: addr(5), mint: addr(6), amount: u64::MAX };
    let mut buf = vec![0u8; 72];
    BidEscrowState::pack(rec, &mut buf).unwrap();
    assert_eq!(&buf[64..72], &[255u8; 8]);
    let back = BidEscrowState::unpack_from_slice(&buf).unwrap();
    assert_eq!(back.bidder, addr(5));
    assert_eq!(back.mint, addr(6));
    assert_eq!(back.amount, u64::MAX);
    assert_eq!(BidEscrowState::unpack_from_slice(&buf[..71]).unwrap_err(), ProcessError::InvalidAccountData);
}
