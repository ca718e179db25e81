use coindrip::claim::{compute_segment_value, ClaimModule};
use coindrip::create_stream::validate_stream_segments;
use coindrip::errors::Error;
use coindrip::status::StatusModule;
use coindrip::storage::{
    Action, Address, AggregatorStep, BalancesAfterCancel, BrokerFee, EsdtPayment, PaymentToken,
    Segment, Status, StorageModule, TokenAmount, TokenPayment,
};
use coindrip::CoinDrip;

const T0: u64 = 1_700_000_000;
const NFT_ID: &[u8] = b"STRM-123456";

fn addr(b: u8) -> Address {
    [b; 32]
}

fn sender() -> Address {
    addr(11)
}

fn recipient() -> Address {
    addr(12)
}

fn contract() -> CoinDrip {
    let mut c = CoinDrip::init(addr(10), addr(9), T0, b"https://x".to_vec(), addr(8), b"WEGLD-1".to_vec(), addr(7));
    c.set_stream_nft_token(NFT_ID.to_vec()).unwrap();
    c
}

fn tok() -> PaymentToken {
    PaymentToken::Esdt(b"USDC-1".to_vec())
}

fn nft(nonce: u64) -> Vec<EsdtPayment> {
    vec![EsdtPayment { token_identifier: NFT_ID.to_vec(), token_nonce: nonce, amount: 1 }]
}

fn stream(c: &mut CoinDrip, deposit: u128, start: u64, segments: Vec<Segment>) -> u64 {
    let p = TokenPayment { token: tok(), nonce: 0, amount: deposit };
    c.create_stream(&sender(), p, &recipient(), start, segments, None, None, None).unwrap().0
}

fn seg(amount: u128, exponent: u32, duration: u64) -> Segment {
    Segment { amount, exponent, duration }
}

fn paid(actions: &[Action], to: &Address) -> u128 {
    actions
        .iter()
        .map(|a| match a {
            Action::Send { to: t, amount, .. } if t == to => *amount,
            _ => 0,
        })
        .sum()
}

#[test]
fn linear_claims_then_removal() {
    let mut c = contract();
    let id = stream(&mut c, 3000, T0, vec![seg(3000, 1, 7200)]);
    c.set_block_timestamp(T0 + 2400);
    let a = c.claim_from_stream(id, &recipient(), &nft(id)).unwrap();
    assert_eq!(paid(&a, &recipient()), 1000);
    assert!(a.contains(&Action::UpdateRemainingBalance { nonce: id, remaining_balance: 2000 }));
    c.set_block_timestamp(T0 + 7200);
    let a = c.claim_from_stream(id, &recipient(), &nft(id)).unwrap();
    assert_eq!(paid(&a, &recipient()), 2000);
    assert!(c.get_stream(id).is_err());
    assert_eq!(c.status_of(id), Ok(Status::Finished));
    assert_eq!(c.claim_from_stream(id, &recipient(), &nft(id)).unwrap_err(), Error::InvalidStream);
}

#[test]
fn tiny_deposit_rounds_down() {
    let mut c = contract();
    let id = stream(&mut c, 2, T0, vec![seg(2, 1, 1800)]);
    c.set_block_timestamp(T0 + 300);
    assert_eq!(c.claim_from_stream(id, &recipient(), &nft(id)).unwrap_err(), Error::ZeroClaim);
    c.set_block_timestamp(T0 + 1560);
    let a = c.claim_from_stream(id, &recipient(), &nft(id)).unwrap();
    assert_eq!(paid(&a, &recipient()), 1);
    c.set_block_timestamp(T0 + 1920);
    let a = c.claim_from_stream(id, &recipient(), &nft(id)).unwrap();
    assert_eq!(paid(&a, &recipient()), 1);
    assert!(c.get_stream(id).is_err());
}

#[test]
fn cancel_at_half_then_both_settle() {
    let mut c = contract();
    let id = stream(&mut c, 3000, T0, vec![seg(3000, 1, 7200)]);
    c.set_block_timestamp(T0 + 3600);
    let a = c.cancel_stream(id, Some(false), &sender(), &Vec::new()).unwrap();
    assert!(a.is_empty());
    assert_eq!(
        c.get_stream(id).unwrap().balances_after_cancel,
        Some(BalancesAfterCancel { sender_balance: 1500, recipient_balance: 1500 })
    );
    assert_eq!(c.status_of(id), Ok(Status::Canceled));

    let a = c.claim_from_stream_after_cancel(id, &recipient(), &nft(id)).unwrap();
    assert_eq!(paid(&a, &recipient()), 1500);
    assert!(a.contains(&Action::BurnStreamNft { nonce: id }));
    assert_eq!(
        c.get_stream(id).unwrap().balances_after_cancel,
        Some(BalancesAfterCancel { sender_balance: 1500, recipient_balance: 0 })
    );
    let r = c.claim_from_stream_after_cancel(id, &recipient(), &nft(id));
    assert_eq!(r.unwrap_err(), Error::ZeroClaim);

    let a = c.claim_from_stream_after_cancel(id, &sender(), &Vec::new()).unwrap();
    assert_eq!(paid(&a, &sender()), 1500);
    assert!(c.get_stream(id).is_err());
}

#[test]
fn frozen_balances_ignore_time() {
    let mut early = contract();
    let mut late = contract();
    for c in [&mut early, &mut late] {
        let id = stream(c, 3000, T0, vec![seg(3000, 1, 7200)]);
        c.set_block_timestamp(T0 + 1000);
        c.cancel_stream(id, Some(false), &sender(), &Vec::new()).unwrap();
    }
    early.set_block_timestamp(T0 + 1001);
    late.set_block_timestamp(T0 + 1000 + 1_000_000);
    let a = early.claim_from_stream_after_cancel(1, &recipient(), &nft(1)).unwrap();
    let b = late.claim_from_stream_after_cancel(1, &recipient(), &nft(1)).unwrap();
    assert_eq!(paid(&a, &recipient()), 416);
    assert_eq!(paid(&b, &recipient()), 416);
    assert_eq!(
        early.get_stream(1).unwrap().balances_after_cancel,
        late.get_stream(1).unwrap().balances_after_cancel
    );
}

#[test]
fn conservation_at_several_times() {
    let mut c = contract();
    let id = stream(&mut c, 1000, T0 + 10, vec![seg(400, 2, 100), seg(600, 1, 50)]);
    for t in [T0, T0 + 10, T0 + 50, T0 + 110, T0 + 130, T0 + 160, T0 + 1000] {
        c.set_block_timestamp(t);
        let s = c.get_stream(id).unwrap();
        let r = c.recipient_balance(id).unwrap();
        let snd = c.sender_balance(id).unwrap();
        assert_eq!(s.claimed_amount + r + snd, s.deposit);
    }
}

#[test]
fn recipient_balance_never_decreases() {
    let mut c = contract();
    let id = stream(&mut c, 1000, T0 + 10, vec![seg(400, 3, 100), seg(0, 1, 20), seg(600, 2, 50)]);
    let mut last = 0;
    for t in (T0..T0 + 200).step_by(7) {
        c.set_block_timestamp(t);
        let r = c.recipient_balance(id).unwrap();
        assert!(r >= last);
        last = r;
    }
    assert_eq!(last, 1000);
}

#[test]
fn cliff_holds_back_everything() {
    let mut c = contract();
    let p = TokenPayment { token: tok(), nonce: 0, amount: 1000 };
    let (id, _) = c.create_stream(&sender(), p, &recipient(), T0, vec![seg(1000, 0, 100)], Some(50), None, None).unwrap();
    c.set_block_timestamp(T0 + 49);
    assert_eq!(c.recipient_balance(id), Ok(0));
    // The curve itself is not gated: a step segment has released everything.
    assert_eq!(c.streamed_amount(id), Ok(1000));
    assert_eq!(c.sender_balance(id), Ok(1000));
    c.set_block_timestamp(T0 + 50);
    assert_eq!(c.recipient_balance(id), Ok(1000));
}

#[test]
fn zero_balance_claim_changes_nothing() {
    let mut c = contract();
    let id = stream(&mut c, 1000, T0 + 100, vec![seg(1000, 1, 100)]);
    let before = c.get_stream(id).unwrap().claimed_amount;
    assert_eq!(c.claim_from_stream(id, &recipient(), &nft(id)).unwrap_err(), Error::ZeroClaim);
    assert_eq!(c.get_stream(id).unwrap().claimed_amount, before);
    assert_eq!(c.get_last_stream_id(), 1);
}

#[test]
fn segment_values_exact() {
    let linear = seg(3000, 1, 7200);
    assert_eq!(compute_segment_value(100, &linear, 99), 0);
    assert_eq!(compute_segment_value(100, &linear, 100), 0);
    assert_eq!(compute_segment_value(100, &linear, 2500), 1000);
    assert_eq!(compute_segment_value(100, &linear, 7300), 3000);
    assert_eq!(compute_segment_value(100, &linear, 9000), 3000);
    let square = seg(1000, 2, 100);
    assert_eq!(compute_segment_value(0, &square, 50), 250);
    assert_eq!(compute_segment_value(0, &square, 30), 90);
    let step = seg(1000, 0, 100);
    assert_eq!(compute_segment_value(0, &step, 0), 1000);
    // Intermediate products far beyond 128 bits are computed exactly.
    assert_eq!(compute_segment_value(0, &seg(1000, 100, 1000), 999), 904);
    let cubic = seg(100_000_000_000_000_000_000, 3, 2_592_000);
    assert_eq!(compute_segment_value(0, &cubic, 1_296_000), 12_500_000_000_000_000_000);
    let widest = seg(u128::MAX, 9, 9);
    assert_eq!(compute_segment_value(0, &widest, 7), 35443713726140464465174111640958807731);
    assert_eq!(compute_segment_value(0, &widest, 9), u128::MAX);
}

#[test]
fn streamed_amount_stops_at_unreached_segment() {
    let mut c = contract();
    let id = stream(&mut c, 1000, T0, vec![seg(500, 1, 100), seg(500, 1, 100)]);
    c.set_block_timestamp(T0 + 150);
    assert_eq!(c.streamed_amount(id), Ok(750));
    c.set_block_timestamp(T0 + 100);
    assert_eq!(c.streamed_amount(id), Ok(500));
}

#[test]
fn segment_validation_errors() {
    let many: Vec<Segment> = (0..26).map(|_| seg(1, 1, 1)).collect();
    assert_eq!(validate_stream_segments(26, &many), Err(Error::TooManySegments));
    assert_eq!(validate_stream_segments(2, &vec![seg(1, 1, 1), seg(1, 1, 0)]), Err(Error::InvalidSegmentsDuration));
    assert_eq!(validate_stream_segments(2, &vec![seg(1, 1, 1), seg(1, 1, 1)]), Ok(2));
    assert_eq!(validate_stream_segments(3, &vec![seg(1, 1, 1), seg(1, 1, 1)]), Err(Error::InvalidSegmentsDeposit));
    assert_eq!(validate_stream_segments(5, &vec![seg(5, 40, 1000)]), Ok(1000));
    assert_eq!(validate_stream_segments(100_000_000_000_000_000_000, &vec![seg(100_000_000_000_000_000_000, 3, 2_592_000)]), Ok(2_592_000));
    assert_eq!(validate_stream_segments(u128::MAX, &vec![seg(u128::MAX, 1, 1), seg(1, 1, 1)]), Err(Error::InvalidSegmentsDeposit));
}

#[test]
fn fees_are_taken_from_the_deposit() {
    let mut c = contract();
    assert_eq!(c.set_protocol_fee(&sender(), tok(), 100), Err(Error::OnlyOwner));
    assert_eq!(c.set_protocol_fee(&addr(10), tok(), 0), Err(Error::ProtocolFeeZero));
    assert_eq!(c.set_protocol_fee(&addr(10), tok(), 10001), Err(Error::ProtocolFeeTooBig));
    c.set_protocol_fee(&addr(10), tok(), 100).unwrap();
    assert_eq!(c.protocol_fee(&tok()), Some(100));
    assert_eq!(c.protocol_fee(&PaymentToken::Egld), None);

    let p = TokenPayment { token: tok(), nonce: 0, amount: 10_000 };
    let broker = BrokerFee { address: addr(20), fee: 500 };
    let (id, a) = c.create_stream(&sender(), p, &recipient(), T0, vec![seg(9405, 1, 100)], None, None, Some(broker)).unwrap();
    assert_eq!(paid(&a, &addr(10)), 100);
    assert_eq!(paid(&a, &addr(20)), 495);
    assert_eq!(c.get_stream(id).unwrap().deposit, 9405);

    let p = TokenPayment { token: tok(), nonce: 0, amount: 10_000 };
    let broker = BrokerFee { address: addr(20), fee: 1001 };
    let r = c.create_stream(&sender(), p, &recipient(), T0, vec![seg(9900, 1, 100)], None, None, Some(broker));
    assert_eq!(r.unwrap_err(), Error::BrokerFeeTooBig);

    c.remove_protocol_fee(&addr(10), &tok()).unwrap();
    assert_eq!(c.protocol_fee(&tok()), None);
}

#[test]
fn role_errors() {
    let mut c = contract();
    let id = stream(&mut c, 1000, T0, vec![seg(1000, 1, 100)]);
    c.set_block_timestamp(T0 + 50);
    let two = vec![nft(id).remove(0), nft(id).remove(0)];
    assert_eq!(c.claim_from_stream(id, &recipient(), &two).unwrap_err(), Error::SendOneStreamNft);
    let wrong = vec![EsdtPayment { token_identifier: b"OTHER-1".to_vec(), token_nonce: id, amount: 1 }];
    assert_eq!(c.claim_from_stream(id, &recipient(), &wrong).unwrap_err(), Error::InvalidNftToken);
    assert_eq!(c.claim_from_stream(id, &recipient(), &nft(id + 1)).unwrap_err(), Error::InvalidNftToken);
    assert_eq!(c.claim_from_stream(id, &sender(), &Vec::new()).unwrap_err(), Error::InvalidRole);
}

#[test]
fn renounce_and_cancel_rules() {
    let mut c = contract();
    let id = stream(&mut c, 1000, T0 + 10, vec![seg(1000, 1, 100)]);
    assert_eq!(c.renounce_cancel_stream(id, &recipient()), Err(Error::CancelOnlySender));
    assert_eq!(c.renounce_cancel_stream(id + 1, &sender()), Err(Error::InvalidStream));
    c.renounce_cancel_stream(id, &sender()).unwrap();
    assert!(!c.get_stream(id).unwrap().can_cancel);
    assert_eq!(c.renounce_cancel_stream(id, &sender()), Err(Error::CannotCancel));
    assert_eq!(c.cancel_stream(id, None, &sender(), &Vec::new()).unwrap_err(), Error::CannotCancel);

    let id2 = stream(&mut c, 1000, T0 + 10, vec![seg(1000, 1, 100)]);
    c.set_block_timestamp(T0 + 60);
    c.cancel_stream(id2, Some(false), &sender(), &Vec::new()).unwrap();
    assert_eq!(c.claim_from_stream(id2, &recipient(), &nft(id2)).unwrap_err(), Error::CannotClaim);
    assert_eq!(c.cancel_stream(id2, None, &sender(), &Vec::new()).unwrap_err(), Error::CannotCancel);
}

#[test]
fn status_follows_time() {
    let mut c = contract();
    let id = stream(&mut c, 1000, T0 + 10, vec![seg(1000, 1, 100)]);
    assert_eq!(c.status_of(id), Ok(Status::Pending));
    assert_eq!(c.is_warm(id), Ok(true));
    c.set_block_timestamp(T0 + 10);
    assert_eq!(c.status_of(id), Ok(Status::InProgress));
    c.set_block_timestamp(T0 + 110);
    assert_eq!(c.status_of(id), Ok(Status::Settled));
    assert_eq!(c.is_warm(id), Ok(false));
    assert_eq!(c.is_stream_finalized(id), Ok(true));
    assert_eq!(c.status_of(id + 5), Err(Error::InvalidStream));
}

#[test]
fn swap_claim_debits_first() {
    let mut c = contract();
    let id = stream(&mut c, 1000, T0, vec![seg(1000, 1, 100)]);
    c.set_block_timestamp(T0 + 50);
    let step = |amount_in: u128| AggregatorStep {
        token_in: b"USDC-1".to_vec(),
        token_out: b"WEGLD-1".to_vec(),
        amount_in,
        pool_address: addr(30),
        function_name: b"swap".to_vec(),
        arguments: Vec::new(),
    };
    let limit = || TokenAmount { token: b"WEGLD-1".to_vec(), amount: 1 };
    let r = c.claim_from_stream_swap(id, Vec::new(), vec![limit()], &recipient(), &nft(id));
    assert_eq!(r.unwrap_err(), Error::InvalidStepsLength);
    let r = c.claim_from_stream_swap(id, vec![step(10)], vec![limit()], &recipient(), &nft(id));
    assert_eq!(r.unwrap_err(), Error::InvalidLimitsStepsLength);
    let r = c.claim_from_stream_swap(id, vec![step(501)], vec![limit(), limit()], &recipient(), &nft(id));
    assert_eq!(r.unwrap_err(), Error::InvalidClaimAmount);
    let a = c.claim_from_stream_swap(id, vec![step(200)], vec![limit(), limit()], &recipient(), &nft(id)).unwrap();
    assert!(matches!(a.last(), Some(Action::Aggregate { amount: 200, .. })));
    assert_eq!(c.get_stream(id).unwrap().claimed_amount, 200);
    assert_eq!(c.recipient_balance(id), Ok(300));
}

#[test]
fn creation_limits() {
    let mut c = CoinDrip::init(addr(10), addr(9), T0, Vec::new(), addr(8), Vec::new(), addr(7));
    let p = TokenPayment { token: tok(), nonce: 0, amount: 10 };
    let r = c.create_stream(&sender(), p, &recipient(), T0, vec![seg(10, 1, 10)], None, None, None);
    assert_eq!(r.unwrap_err(), Error::TokenNotIssued);
    assert_eq!(c.issue_token(&sender(), 5).unwrap_err(), Error::OnlyOwner);
    assert!(matches!(c.issue_token(&addr(10), 5), Ok(Action::IssueStreamNftToken { issue_cost: 5, num_decimals: 18, .. })));
    c.set_stream_nft_token(NFT_ID.to_vec()).unwrap();
    assert_eq!(c.issue_token(&addr(10), 5).unwrap_err(), Error::TokenAlreadyIssued);
    assert_eq!(c.set_stream_nft_token(NFT_ID.to_vec()), Err(Error::TokenAlreadyIssued));
    c.last_stream_id = u64::MAX;
    let p = TokenPayment { token: tok(), nonce: 0, amount: 10 };
    let r = c.create_stream(&sender(), p, &recipient(), T0, vec![seg(10, 1, 10)], None, None, None);
    assert_eq!(r.unwrap_err(), Error::StreamIdExhausted);
}

#[test]
fn loading_checks_consistency() {
    let mut source = contract();
    let id = stream(&mut source, 1000, T0, vec![seg(1000, 1, 100)]);
    source.set_block_timestamp(T0 + 50);
    source.claim_from_stream(id, &recipient(), &nft(id)).unwrap();
    let stored = source.streams.remove(&id).unwrap();

    let mut fresh = contract();
    fresh.set_block_timestamp(T0 + 50);
    let broken = coindrip::storage::Stream { deposit: 999, ..copy(&stored) };
    assert_eq!(fresh.load_stream(copy(&stored)), Err(Error::InvalidStream));
    fresh.set_last_stream_id(1);
    assert_eq!(fresh.load_stream(broken), Err(Error::InvalidStream));
    assert_eq!(fresh.load_stream(copy(&stored)), Ok(()));
    assert_eq!(fresh.load_stream(copy(&stored)), Err(Error::InvalidStream));
    assert_eq!(fresh.recipient_balance(id), Ok(0));

    let mut early = contract();
    early.set_last_stream_id(1);
    assert_eq!(early.load_stream(stored), Err(Error::InvalidStream));
}

fn copy(s: &coindrip::storage::Stream) -> coindrip::storage::Stream {
    coindrip::storage::Stream {
        sender: s.sender,
        nft_nonce: s.nft_nonce,
        payment_token: match &s.payment_token {
            PaymentToken::Egld => PaymentToken::Egld,
            PaymentToken::Esdt(id) => PaymentToken::Esdt(id.clone()),
        },
        payment_nonce: s.payment_nonce,
        deposit: s.deposit,
        claimed_amount: s.claimed_amount,
        can_cancel: s.can_cancel,
        start_time: s.start_time,
        end_time: s.end_time,
        cliff: s.cliff,
        segments: s.segments.clone(),
        balances_after_cancel: s.balances_after_cancel,
    }
}

#[test]
fn native_coin_is_wrapped_before_swap() {
    let mut c = contract();
    let p = TokenPayment { token: PaymentToken::Egld, nonce: 0, amount: 1000 };
    let (id, _) = c.create_stream(&sender(), p, &recipient(), T0, vec![seg(1000, 1, 100)], None, None, None).unwrap();
    c.set_block_timestamp(T0 + 100);
    let step = AggregatorStep {
        token_in: b"WEGLD-1".to_vec(),
        token_out: b"USDC-1".to_vec(),
        amount_in: 1000,
        pool_address: addr(30),
        function_name: b"swap".to_vec(),
        arguments: Vec::new(),
    };
    let limits = vec![TokenAmount { token: b"USDC-1".to_vec(), amount: 1 }, TokenAmount { token: b"USDC-1".to_vec(), amount: 1 }];
    let a = c.claim_from_stream_swap(id, vec![step], limits, &recipient(), &nft(id)).unwrap();
    assert_eq!(a[0], Action::BurnStreamNft { nonce: id });
    assert_eq!(a[1], Action::WrapEgld { amount: 1000 });
    assert!(matches!(&a[2], Action::Aggregate { token: PaymentToken::Esdt(t), nonce: 0, amount: 1000, to, .. } if t.as_slice() == b"WEGLD-1" && *to == recipient()));
    assert!(c.get_stream(id).is_err());
}

#[test]
fn large_cubic_stream_is_accepted() {
    let mut c = contract();
    let deposit: u128 = 100_000_000_000_000_000_000;
    let id = stream(&mut c, deposit, T0, vec![seg(deposit, 3, 2_592_000)]);
    c.set_block_timestamp(T0 + 1_296_000);
    assert_eq!(c.recipient_balance(id), Ok(12_500_000_000_000_000_000));
}

#[test]
fn cancel_owed_nothing_still_cancels() {
    let mut c = contract();
    let p = TokenPayment { token: tok(), nonce: 0, amount: 1000 };
    let (id, _) = c.create_stream(&sender(), p, &recipient(), T0, vec![seg(1000, 1, 100)], Some(50), None, None).unwrap();
    c.set_block_timestamp(T0 + 10);
    let a = c.cancel_stream(id, None, &recipient(), &nft(id)).unwrap();
    assert_eq!(a, vec![Action::SendStreamNft { to: recipient(), nonce: id }]);
    assert_eq!(
        c.get_stream(id).unwrap().balances_after_cancel,
        Some(BalancesAfterCancel { sender_balance: 1000, recipient_balance: 0 })
    );
    let a = c.claim_from_stream_after_cancel(id, &sender(), &Vec::new()).unwrap();
    assert_eq!(paid(&a, &sender()), 1000);
    assert!(c.get_stream(id).is_err());
}
