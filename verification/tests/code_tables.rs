use osenc::s57_attribute::S57Attribute;
use osenc::s57_type::S57Type;

#[test]
fn feature_code_resolves_to_its_class() {
    assert_eq!(S57Type::from_type_code(1), S57Type::ADMARE);
    assert_eq!(S57Type::from_type_code(42), S57Type::DEPARE);
    assert_eq!(S57Type::from_type_code(136), S57Type::TS_PRH);
    assert_eq!(S57Type::from_type_code(137), S57Type::TS_PNH);
    assert_eq!(S57Type::from_type_code(159), S57Type::WRECKS);
    assert_eq!(S57Type::from_type_code(160), S57Type::TS_FEB);
    assert_eq!(S57Type::from_type_code(300), S57Type::M_ACCY);
    assert_eq!(S57Type::from_type_code(312), S57Type::M_VDAT);
    assert_eq!(S57Type::from_type_code(402), S57Type::C_STAC);
    assert_eq!(S57Type::from_type_code(500), S57Type::AREAS);
    assert_eq!(S57Type::from_type_code(504), S57Type::TEXTS);
}

#[test]
fn attribute_code_resolves_to_its_attribute() {
    assert_eq!(S57Attribute::from_type_code(1), S57Attribute::AGENCY);
    assert_eq!(S57Attribute::from_type_code(29), S57Attribute::CATGAT);
    assert_eq!(S57Attribute::from_type_code(32), S57Attribute::CATICE);
    assert_eq!(S57Attribute::from_type_code(116), S57Attribute::OBJNAM);
    assert_eq!(S57Attribute::from_type_code(165), S57Attribute::T_TINT);
    assert_eq!(S57Attribute::from_type_code(187), S57Attribute::WATLEV);
    assert_eq!(S57Attribute::from_type_code(188), S57Attribute::CAT_TS);
    assert_eq!(S57Attribute::from_type_code(189), S57Attribute::PUNITS);
    assert_eq!(S57Attribute::from_type_code(300), S57Attribute::NINFOM);
    assert_eq!(S57Attribute::from_type_code(304), S57Attribute::NTXTDS);
    assert_eq!(S57Attribute::from_type_code(400), S57Attribute::HORDAT);
    assert_eq!(S57Attribute::from_type_code(402), S57Attribute::QUAPOS);
}

#[test]
fn unlisted_feature_codes_are_unknown() {
    for code in [0, -1, 161, 162, 299, 313, 399, 403, 499, 505, 1000, i32::MAX, i32::MIN] {
        assert_eq!(S57Type::from_type_code(code), S57Type::Unknown);
    }
    assert_eq!(S57Type::Unknown.type_code(), 0);
}

#[test]
fn unlisted_attribute_codes_are_unknown() {
    for code in [0, -1, 30, 31, 41, 72, 92, 150, 190, 299, 305, 399, 403, i32::MAX, i32::MIN] {
        assert_eq!(S57Attribute::from_type_code(code), S57Attribute::Unknown);
    }
    assert_eq!(S57Attribute::Unknown.type_code(), 0);
}

#[test]
fn feature_table_is_its_own_inverse() {
    let mut listed = 0;
    for code in -10..=600 {
        let class = S57Type::from_type_code(code);
        if class == S57Type::Unknown {
            assert_eq!(class.type_code(), 0);
        } else {
            assert_eq!(class.type_code(), code);
            assert_eq!(S57Type::from_type_code(class.type_code()), class);
            listed += 1;
        }
    }
    assert_eq!(listed, 181);
}

#[test]
fn attribute_table_is_its_own_inverse() {
    let mut listed = 0;
    for code in -10..=600 {
        let attribute = S57Attribute::from_type_code(code);
        if attribute == S57Attribute::Unknown {
            assert_eq!(attribute.type_code(), 0);
        } else {
            assert_eq!(attribute.type_code(), code);
            assert_eq!(S57Attribute::from_type_code(attribute.type_code()), attribute);
            listed += 1;
        }
    }
    assert_eq!(listed, 191);
}
