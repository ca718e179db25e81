use coindrip::storage::{PaymentToken, Segment, StorageModule, TokenPayment};
use coindrip::svg::SvgModule;
use coindrip::CoinDrip;

fn contract() -> CoinDrip {
    let mut c = CoinDrip::init([1; 32], [2; 32], 1_000, Vec::new(), [3; 32], Vec::new(), [4; 32]);
    c.set_stream_nft_token(b"STRM-1".to_vec()).unwrap();
    c
}

#[test]
fn base64_pads_short_groups() {
    let c = contract();
    assert_eq!(c.base64(b"Man"), b"TWFu".to_vec());
    assert_eq!(c.base64(b"Ma"), b"TWE=".to_vec());
    assert_eq!(c.base64(b"M"), b"TQ==".to_vec());
    assert_eq!(c.base64(b""), Vec::<u8>::new());
    assert_eq!(c.base64(b"hello world"), b"aGVsbG8gd29ybGQ=".to_vec());
    assert_eq!(c.base64(&[0xff, 0xfe, 0xfd, 0x3e]), b"//79Pg==".to_vec());
}

#[test]
fn character_bits() {
    let c = contract();
    assert_eq!(c.extract_first_character_bits(0b1011_0110), 0b10_1101);
    assert_eq!(c.extract_second_character_bits(0b0000_0010, 0b1101_0000), 0b10_1101);
    assert_eq!(c.extract_third_character_bits(0b0000_1011, 0b0100_0000), 0b10_1101);
    assert_eq!(c.encode_chunks(&[77, 97, 110]), b"TWFu".to_vec());
}

#[test]
fn text_boxes() {
    let c = contract();
    assert_eq!(
        c.generate_cancelable_svg(false),
        br#"<text x="674" y="815" font-size="22" class="B F">No</text>"#.to_vec()
    );
    assert_eq!(
        c.generate_duration_svg(0),
        br#"<text x="409" y="815" font-size="22" class="B F">&lt; 1 Day</text>"#.to_vec()
    );
    assert_eq!(
        c.generate_duration_svg(42),
        br#"<text x="409" y="815" font-size="22" class="B F">42 Days</text>"#.to_vec()
    );
    assert_eq!(
        c.generate_token_svg(&PaymentToken::Egld),
        br#"<text x="140" y="815" font-size="22" class="B F">EGLD</text>"#.to_vec()
    );
    let banner = String::from_utf8(c.generate_stream_id_svg(907)).unwrap();
    assert_eq!(banner.matches("Token Stream #907</textPath>").count(), 4);
}

#[test]
fn stream_image_is_base64_of_svg() {
    let mut c = contract();
    let payment = TokenPayment { token: PaymentToken::Esdt(b"USDC-1".to_vec()), nonce: 0, amount: 10 };
    let segments = vec![Segment { amount: 10, exponent: 1, duration: 3 * 86_400 }];
    let (id, _) = c
        .create_stream(&[1; 32], payment, &[5; 32], 1_000, segments, None, Some(false), None)
        .unwrap();
    let s = c.get_stream(id).unwrap();
    let token = c.generate_token_svg(&s.payment_token);
    let cancel = c.generate_cancelable_svg(false);
    let days = c.generate_duration_svg(3);
    let banner = c.generate_stream_id_svg(id);
    let svg = c.generate_svg(&token, &cancel, &days, &banner);
    let text = String::from_utf8(svg.clone()).unwrap();
    assert!(text.starts_with("<svg xmlns="));
    assert!(text.ends_with("</text></svg>"));
    assert!(text.contains("USDC-1</text>"));
    assert!(text.contains(">3 Days</text>"));
    assert_eq!(c.generate_svg_from_stream(s), c.base64(&svg));
}
