use openrtb::error::DecodeError;
use openrtb::v2_5::ad_position::AdPosition;
use openrtb::v2_5::auction_type::AuctionType;
use openrtb::v2_5::banner_ad_type::BannerAdType;
use openrtb::wire_enum::decode_enum;
use openrtb::wire_enum::encode_enum;
use openrtb::wire_enum::WireEnum;

#[test]
fn ad_position_serialize_good() {
    let x = AdPosition::AboveTheFold;
    let expected: u64 = 1;
    let serialized = x.wire_code();

    assert_eq!(expected, serialized)
}

#[test]
fn ad_position_deserialize_good() {
    let serialized: u64 = 1;
    let expected = AdPosition::AboveTheFold;
    let x: AdPosition = decode_enum(serialized).unwrap();

    assert_eq!(expected, x)
}

#[test]
fn ad_position_deserialize_bad() {
    let serialized: u64 = 8;
    let res: Result<AdPosition, DecodeError> = decode_enum(serialized);

    assert!(res.is_err())
}

#[test]
fn banner_ad_type_serialize_good() {
    let x = BannerAdType::XHTMLText;
    let expected: u64 = 1;
    let serialized = x.wire_code();

    assert_eq!(expected, serialized)
}

#[test]
fn banner_ad_type_deserialize_good() {
    let serialized: u64 = 1;
    let expected = BannerAdType::XHTMLText;
    let x: BannerAdType = decode_enum(serialized).unwrap();

    assert_eq!(expected, x)
}

#[test]
fn banner_ad_type_deserialize_bad() {
    let serialized: u64 = 0;
    let res: Result<BannerAdType, DecodeError> = decode_enum(serialized);

    assert!(res.is_err())
}

#[test]
fn ad_position_round_trip_all_variants() {
    let variants = vec![
        AdPosition::Unknown,
        AdPosition::AboveTheFold,
        AdPosition::Deprecated,
        AdPosition::BelowTheFold,
        AdPosition::Header,
        AdPosition::Footer,
        AdPosition::Sidebar,
        AdPosition::FullScreen,
    ];
    for v in variants {
        let code = encode_enum(&v);
        let back: AdPosition = decode_enum(code).unwrap();
        assert_eq!(back, v);
    }
}

#[test]
fn banner_ad_type_round_trip_all_variants() {
    let variants = vec![
        BannerAdType::XHTMLText,
        BannerAdType::XHTMLBanner,
        BannerAdType::JavaScript,
        BannerAdType::IFrame,
    ];
    for v in variants {
        let code = encode_enum(&v);
        let back: BannerAdType = decode_enum(code).unwrap();
        assert_eq!(back, v);
    }
}

#[test]
fn ad_position_codes_as_declared() {
    assert_eq!(encode_enum(&AdPosition::Unknown), 0);
    assert_eq!(encode_enum(&AdPosition::Footer), 5);
    assert_eq!(encode_enum(&AdPosition::FullScreen), 7);
    assert_eq!(encode_enum(&BannerAdType::IFrame), 4);
}

#[test]
fn unknown_code_error_names_type_and_code() {
    let res: Result<AdPosition, DecodeError> = decode_enum(8);
    assert_eq!(
        res,
        Err(DecodeError::UnknownEnumerationCode { enum_name: "AdPosition".to_string(), code: 8 })
    );

    let res: Result<BannerAdType, DecodeError> = decode_enum(999);
    assert_eq!(
        res,
        Err(DecodeError::UnknownEnumerationCode {
            enum_name: "BannerAdType".to_string(),
            code: 999,
        })
    );
}

#[test]
fn decode_error_messages() {
    let e = DecodeError::UnknownEnumerationCode { enum_name: "AdPosition".to_string(), code: 8 };
    assert_eq!(e.message(), "AdPosition has no variant with value 8");

    let e = DecodeError::InvalidBooleanCode { code: 2 };
    assert_eq!(e.message(), "a bool value must be 0 or 1: 2");
}

#[test]
fn auction_type_codes() {
    assert_eq!(AuctionType::FirstPrice.wire_code(), 1);
    assert_eq!(AuctionType::SecondPricePlus.wire_code(), 2);
    assert_eq!(AuctionType::ExchangeSpecific(501).wire_code(), 501);

    assert_eq!(AuctionType::from_wire_code(1), AuctionType::FirstPrice);
    assert_eq!(AuctionType::from_wire_code(2), AuctionType::SecondPricePlus);
    assert_eq!(AuctionType::from_wire_code(501), AuctionType::ExchangeSpecific(501));
}

#[test]
fn auction_type_code_round_trip() {
    for code in [0u32, 1, 2, 3, 500, 501, u32::MAX] {
        assert_eq!(AuctionType::from_wire_code(code).wire_code(), code);
    }
}
