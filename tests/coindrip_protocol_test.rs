use coindrip::claim::{compute_segment_value, ClaimModule};
use coindrip::errors::Error;
use coindrip::storage::{
    Action, Address, BrokerFee, EsdtPayment, PaymentToken, Segment, Status, StorageModule,
    TokenPayment,
};
use coindrip::CoinDrip;

const NOW: u64 = 1668518731;
const STREAM_NFT_TOKEN_ID: &[u8] = b"STRM-abcdef";
const TOKEN_ID: &[u8] = b"COINDRIP-abcdef";

fn addr(b: u8) -> Address {
    [b; 32]
}

fn owner() -> Address {
    addr(1)
}

fn sc() -> Address {
    addr(2)
}

fn first_user() -> Address {
    addr(3)
}

fn second_user() -> Address {
    addr(4)
}

fn setup() -> CoinDrip {
    let mut c = CoinDrip::init(
        owner(),
        sc(),
        NOW,
        b"https://coindrip.finance".to_vec(),
        addr(5),
        b"WEGLD-abcdef".to_vec(),
        addr(6),
    );
    c.set_stream_nft_token(STREAM_NFT_TOKEN_ID.to_vec()).unwrap();
    c
}

fn token() -> PaymentToken {
    PaymentToken::Esdt(TOKEN_ID.to_vec())
}

fn pay(amount: u128) -> TokenPayment {
    TokenPayment { token: token(), nonce: 0, amount }
}

fn linear(amount: u128, duration: u64) -> Vec<Segment> {
    vec![Segment { amount, exponent: 1, duration }]
}

fn nft(nonce: u64) -> Vec<EsdtPayment> {
    vec![EsdtPayment { token_identifier: STREAM_NFT_TOKEN_ID.to_vec(), token_nonce: nonce, amount: 1 }]
}

fn none() -> Vec<EsdtPayment> {
    Vec::new()
}

/// The old-style stream: one linear segment from `start` to `end`.
fn create(
    c: &mut CoinDrip,
    amount: u128,
    start: u64,
    end: u64,
    cliff: Option<u64>,
    can_cancel: Option<bool>,
) -> Result<(u64, Vec<Action>), Error> {
    let duration = end.saturating_sub(start);
    c.create_stream(&owner(), pay(amount), &first_user(), start, linear(amount, duration), cliff, can_cancel, None)
}

fn sent_to(actions: &[Action], to: &Address) -> u128 {
    actions
        .iter()
        .map(|a| match a {
            Action::Send { to: t, amount, .. } if t == to => *amount,
            _ => 0,
        })
        .sum()
}

fn burns(actions: &[Action]) -> usize {
    actions.iter().filter(|a| matches!(a, Action::BurnStreamNft { .. })).count()
}

fn nft_returned(actions: &[Action], to: &Address) -> bool {
    actions.iter().any(|a| matches!(a, Action::SendStreamNft { to: t, .. } if t == to))
}

#[test]
fn deploy_test() {
    let c = CoinDrip::init(owner(), sc(), NOW, Vec::new(), addr(5), Vec::new(), addr(6));
    assert_eq!(c.get_last_stream_id(), 0);
    assert!(c.streams.is_empty());
}

#[test]
fn create_stream_test() {
    let mut c = setup();
    let (id, actions) = create(&mut c, 3_000, NOW + 60, NOW + 60 * 60, None, None).unwrap();
    assert_eq!(id, 1);
    assert!(c.get_stream(id).is_ok());
    match &actions[actions.len() - 2] {
        Action::MintStreamNft { nonce, name, uri, attributes, .. } => {
            assert_eq!(*nonce, 1);
            assert_eq!(name.as_slice(), b"CoinDrip Stream #1");
            assert_eq!(uri.as_slice(), b"https://coindrip.finance/api/stream/1/nft");
            assert_eq!(attributes.sender, owner());
            assert_eq!(attributes.deposit, 3000);
            assert_eq!(attributes.remaining_balance, 3000);
            assert!(attributes.can_cancel);
            assert_eq!(attributes.start_time, NOW + 60);
            assert_eq!(attributes.end_time, NOW + 60 * 60);
            assert_eq!(attributes.cliff, 0);
            assert!(!attributes.is_canceled);
        }
        other => panic!("expected a mint, got {:?}", other),
    }
    assert!(nft_returned(&actions, &first_user()));

    assert_eq!(create(&mut c, 0, NOW + 60, NOW + 60 * 60, None, None).unwrap_err(), Error::ZeroDeposit);
    let r = c.create_stream(&owner(), pay(3000), &sc(), NOW + 60, linear(3000, 3540), None, None, None);
    assert_eq!(r.unwrap_err(), Error::StreamToContract);
    let r = c.create_stream(&owner(), pay(3000), &owner(), NOW + 60, linear(3000, 3540), None, None, None);
    assert_eq!(r.unwrap_err(), Error::StreamToCaller);
    assert_eq!(create(&mut c, 3_000, NOW - 60, NOW + 60 * 60, None, None).unwrap_err(), Error::StartTime);
    // An end time before the start cannot be written with segments, whose
    // durations are never negative; the end time is refused here because it
    // lies past the last representable instant.
    let r = c.create_stream(&owner(), pay(3000), &first_user(), u64::MAX - 60, linear(3000, 3600), None, None, None);
    assert_eq!(r.unwrap_err(), Error::EndTime);
    assert_eq!(c.get_last_stream_id(), 1);
}

#[test]
fn stream_cliff_test() {
    let mut c = setup();
    let r = create(&mut c, 3_000, NOW + 60, NOW + 60 * 60, Some(60 * 80), None);
    assert_eq!(r.unwrap_err(), Error::CliffTooBig);
    create(&mut c, 3_000, NOW + 60, NOW + 60 * 11, Some(60 * 3), None).unwrap();

    c.set_block_timestamp(NOW + 60 * 2);
    assert_eq!(c.claim_from_stream(1, &first_user(), &nft(1)).unwrap_err(), Error::ZeroClaim);

    c.set_block_timestamp(NOW + 60 * 6);
    let actions = c.claim_from_stream(1, &first_user(), &nft(1)).unwrap();
    assert_eq!(sent_to(&actions, &first_user()), 1500);
}

#[test]
fn claim_from_stream_test() {
    let mut c = setup();
    create(&mut c, 3_000, NOW + 60, NOW + 60 * 3, None, None).unwrap();

    // The sender holds no certificate and may not claim.
    assert_eq!(c.claim_from_stream(1, &owner(), &none()).unwrap_err(), Error::InvalidRole);
    assert_eq!(c.claim_from_stream(1, &first_user(), &nft(1)).unwrap_err(), Error::ZeroClaim);

    c.set_block_timestamp(NOW + 60 * 2);
    let actions = c.claim_from_stream(1, &first_user(), &nft(1)).unwrap();
    assert_eq!(sent_to(&actions, &first_user()), 1500);
    assert!(nft_returned(&actions, &first_user()));
    assert_eq!(burns(&actions), 0);

    c.set_block_timestamp(NOW + 60 * 5);
    let actions = c.claim_from_stream(1, &first_user(), &nft(1)).unwrap();
    assert_eq!(sent_to(&actions, &first_user()), 1500);
    assert!(!nft_returned(&actions, &first_user()));
    assert_eq!(burns(&actions), 1);

    assert_eq!(c.claim_from_stream(1, &first_user(), &none()).unwrap_err(), Error::InvalidStream);
}

#[test]
fn cancel_stream_test() {
    let mut c = setup();
    create(&mut c, 3_000, NOW + 60, NOW + 60 * 3, None, None).unwrap();

    assert_eq!(c.cancel_stream(1, None, &second_user(), &none()).unwrap_err(), Error::InvalidRole);

    c.set_block_timestamp(NOW + 60 * 2);
    let actions = c.cancel_stream(1, None, &first_user(), &nft(1)).unwrap();
    assert_eq!(sent_to(&actions, &first_user()), 1500);
    assert_eq!(sent_to(&actions, &owner()), 0);
    assert_eq!(burns(&actions), 1);
    assert!(!nft_returned(&actions, &first_user()));

    create(&mut c, 3_000, NOW + 60 * 3, NOW + 60 * 5, None, Some(false)).unwrap();
    assert_eq!(c.cancel_stream(2, None, &first_user(), &nft(2)).unwrap_err(), Error::CannotCancel);
}

#[test]
fn claim_from_stream_after_cancel_test() {
    let mut c = setup();
    create(&mut c, 3_000, NOW + 60, NOW + 60 * 3, None, None).unwrap();

    c.set_block_timestamp(NOW + 60 * 2);
    let r = c.claim_from_stream_after_cancel(1, &first_user(), &nft(1));
    assert_eq!(r.unwrap_err(), Error::StreamIsNotCancelled);

    let actions = c.cancel_stream(1, Some(false), &first_user(), &nft(1)).unwrap();
    assert_eq!(sent_to(&actions, &first_user()), 0);
    assert_eq!(sent_to(&actions, &owner()), 0);
    assert!(nft_returned(&actions, &first_user()));

    c.set_block_timestamp(NOW + 60 * 6);
    let r = c.claim_from_stream_after_cancel(1, &second_user(), &none());
    assert_eq!(r.unwrap_err(), Error::InvalidRole);

    let actions = c.claim_from_stream_after_cancel(1, &first_user(), &nft(1)).unwrap();
    assert!(c.get_stream(1).is_ok());
    assert_eq!(sent_to(&actions, &first_user()), 1500);
    assert_eq!(burns(&actions), 1);

    let actions = c.claim_from_stream_after_cancel(1, &owner(), &none()).unwrap();
    assert!(c.get_stream(1).is_err());
    assert_eq!(sent_to(&actions, &owner()), 1500);
    assert_eq!(burns(&actions), 0);
}

#[test]
fn streamed_so_far_test() {
    let mut c = setup();
    create(&mut c, 3_000, NOW + 60, NOW + 60 * 3, None, None).unwrap();
    assert_eq!(c.recipient_balance(1), Ok(0));
    c.set_block_timestamp(NOW + 60 * 2);
    assert_eq!(c.recipient_balance(1), Ok(1500));
    c.set_block_timestamp(NOW + 60 * 6);
    assert_eq!(c.recipient_balance(1), Ok(3000));
}

#[test]
fn claim_from_stream_rounding_test() {
    let mut c = setup();
    create(&mut c, 2, NOW + 60, NOW + 60 * 31, None, None).unwrap();

    c.set_block_timestamp(NOW + 60 * 5);
    assert_eq!(c.claim_from_stream(1, &first_user(), &nft(1)).unwrap_err(), Error::ZeroClaim);

    c.set_block_timestamp(NOW + 60 * 26);
    let actions = c.claim_from_stream(1, &first_user(), &nft(1)).unwrap();
    assert_eq!(sent_to(&actions, &first_user()), 1);

    c.set_block_timestamp(NOW + 60 * 31 + 60);
    let actions = c.claim_from_stream(1, &first_user(), &nft(1)).unwrap();
    assert_eq!(sent_to(&actions, &first_user()), 1);

    assert_eq!(c.claim_from_stream(1, &first_user(), &none()).unwrap_err(), Error::InvalidStream);
}

#[test]
fn claim_from_stream_egld_test() {
    let mut c = setup();
    let payment = TokenPayment { token: PaymentToken::Egld, nonce: 0, amount: 100 };
    c.create_stream(&owner(), payment, &first_user(), NOW + 60, linear(100, 120), None, None, None).unwrap();

    assert_eq!(c.claim_from_stream(1, &first_user(), &nft(1)).unwrap_err(), Error::ZeroClaim);

    c.set_block_timestamp(NOW + 60 * 2);
    let actions = c.claim_from_stream(1, &first_user(), &nft(1)).unwrap();
    assert!(matches!(actions.last(), Some(Action::Send { token: PaymentToken::Egld, amount: 50, .. })));

    c.set_block_timestamp(NOW + 60 * 5);
    let actions = c.claim_from_stream(1, &first_user(), &nft(1)).unwrap();
    assert!(matches!(actions.last(), Some(Action::Send { token: PaymentToken::Egld, amount: 50, .. })));
}
