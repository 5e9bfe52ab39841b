use openrtb::v2_5::category::subcategory_count;
use openrtb::v2_5::Category;

#[test]
fn test_mods() {
    let _c = Category::Parent(2);
}

#[test]
fn serialize_parent() {
    let c = Category::Parent(1);
    let expected = "IAB1";
    let serialized = c.encode();

    assert_eq!(expected, serialized)
}

#[test]
fn deserialize_parent() {
    let serialized = "IAB1";
    let expected = Category::Parent(1);
    let c = Category::decode(serialized);

    assert_eq!(expected, c)
}

#[test]
fn serialize_sub() {
    let c = Category::Subcategory(1, 1);
    let expected = "IAB1-1";
    let serialized = c.encode();

    assert_eq!(expected, serialized)
}

#[test]
fn deserialize_sub() {
    let serialized = "IAB1-1";
    let expected = Category::Subcategory(1, 1);
    let c = Category::decode(serialized);

    assert_eq!(expected, c)
}

#[test]
fn serialize_unknown() {
    let c = Category::Unknown("1234".to_string());
    let expected = "1234";
    let serialized = c.encode();

    assert_eq!(expected, serialized)
}

#[test]
fn deserialize_unknown() {
    let serialized = "1234";
    let expected = Category::Unknown("1234".to_string());
    let c = Category::decode(serialized);

    assert_eq!(expected, c)
}

#[test]
fn every_declared_code_round_trips() {
    for parent in 1u32..=26 {
        let p = Category::Parent(parent);
        let code = p.encode();
        assert_eq!(Category::decode(&code), p);

        for sub in 1u32..=subcategory_count(parent) {
            let c = Category::Subcategory(parent, sub);
            let code = c.encode();
            assert_eq!(Category::decode(&code), c);
            assert_eq!(Category::decode(&code).encode(), code);
        }
    }
}

#[test]
fn book_and_literature_scenario() {
    // The Books & Literature subcategory of the Arts & Entertainment
    // parent category.
    let c = Category::decode("IAB1-1");
    assert_eq!(c, Category::Subcategory(1, 1));
    assert_eq!(c.encode(), "IAB1-1");
}

#[test]
fn undeclared_codes_pass_through_verbatim() {
    let misses = vec![
        "IAB999", "IAB0", "IAB27", "IAB01", "IAB1-0", "IAB1-8", "IAB24-1", "IAB1-01", "IAB1-",
        "IAB-1", "IAB", "iab1", "IAB1-1-1", "", " IAB1", "IAB1 ", "IAB1--1", "IAB123", "IAB2-24",
    ];
    for s in misses {
        let c = Category::decode(s);
        assert_eq!(c, Category::Unknown(s.to_string()));
        assert_eq!(c.encode(), s);
    }
}

#[test]
fn boundary_codes_are_declared() {
    assert_eq!(Category::decode("IAB26"), Category::Parent(26));
    assert_eq!(Category::decode("IAB26-4"), Category::Subcategory(26, 4));
    assert_eq!(Category::decode("IAB7-45"), Category::Subcategory(7, 45));
    assert_eq!(Category::decode("IAB17-44"), Category::Subcategory(17, 44));
    assert_eq!(Category::decode("IAB24"), Category::Parent(24));
    assert_eq!(Category::decode("IAB2-23"), Category::Subcategory(2, 23));
}

#[test]
fn unknown_holding_a_declared_code_reencodes_to_it() {
    // An unknown category holds its string verbatim, even one that spells
    // a declared code; encoding yields that string unchanged.
    let c = Category::Unknown("IAB1".to_string());
    assert_eq!(c.encode(), "IAB1");
}
