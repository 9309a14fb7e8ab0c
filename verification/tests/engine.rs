use rsbar_img::{ZbarConfig, ZbarSymbolType};

const SYMBOLOGIES: [(ZbarSymbolType, u32); 25] = [
    (ZbarSymbolType::ZbarNone, 0),
    (ZbarSymbolType::ZbarPartial, 1),
    (ZbarSymbolType::ZbarEan2, 2),
    (ZbarSymbolType::ZbarEan5, 5),
    (ZbarSymbolType::ZbarEan8, 8),
    (ZbarSymbolType::ZbarUpce, 9),
    (ZbarSymbolType::ZbarIsbn10, 10),
    (ZbarSymbolType::ZbarUpca, 12),
    (ZbarSymbolType::ZbarEan13, 13),
    (ZbarSymbolType::ZbarIsbn13, 14),
    (ZbarSymbolType::ZbarComposite, 15),
    (ZbarSymbolType::ZbarI25, 25),
    (ZbarSymbolType::ZbarDatabar, 34),
    (ZbarSymbolType::ZbarDatabarExp, 35),
    (ZbarSymbolType::ZbarCodabar, 38),
    (ZbarSymbolType::ZbarCode39, 39),
    (ZbarSymbolType::ZbarPdf417, 57),
    (ZbarSymbolType::ZbarQrcode, 64),
    (ZbarSymbolType::ZbarSqcode, 80),
    (ZbarSymbolType::ZbarCode93, 93),
    (ZbarSymbolType::ZbarCode128, 128),
    (ZbarSymbolType::ZbarSymbol, 0x00ff),
    (ZbarSymbolType::ZbarAddon2, 0x0200),
    (ZbarSymbolType::ZbarAddon5, 0x0500),
    (ZbarSymbolType::ZbarAddon, 0x0700),
];

const SETTINGS: [(ZbarConfig, u32); 13] = [
    (ZbarConfig::Enable, 0),
    (ZbarConfig::AddCheck, 1),
    (ZbarConfig::EmitCheck, 2),
    (ZbarConfig::Ascii, 3),
    (ZbarConfig::Binary, 4),
    (ZbarConfig::Num, 5),
    (ZbarConfig::MinLen, 0x20),
    (ZbarConfig::MaxLen, 0x21),
    (ZbarConfig::Uncertainty, 0x40),
    (ZbarConfig::Position, 0x80),
    (ZbarConfig::TestInverted, 0x81),
    (ZbarConfig::XDensity, 0x100),
    (ZbarConfig::YDensity, 0x101),
];

#[test]
fn symbologies_have_the_numbers_of_the_engine() {
    for (symbology, code) in SYMBOLOGIES {
        assert_eq!(symbology.code(), code);
        assert_eq!(ZbarSymbolType::from_code(code), Some(symbology));
    }
}

#[test]
fn numbers_that_name_no_symbology_give_none() {
    let known: Vec<u32> = SYMBOLOGIES.iter().map(|entry| entry.1).collect();
    for code in (0..0x0800u32).chain([u32::MAX, 0x0701, 0xffff]) {
        if !known.contains(&code) {
            assert_eq!(ZbarSymbolType::from_code(code), None);
        }
    }
}

#[test]
fn settings_have_the_numbers_of_the_engine() {
    for (setting, code) in SETTINGS {
        assert_eq!(setting.code(), code);
        assert_eq!(ZbarConfig::from_code(code), Some(setting));
    }
}

#[test]
fn numbers_that_name_no_setting_give_none() {
    let known: Vec<u32> = SETTINGS.iter().map(|entry| entry.1).collect();
    for code in (0..0x0200u32).chain([u32::MAX]) {
        if !known.contains(&code) {
            assert_eq!(ZbarConfig::from_code(code), None);
        }
    }
}

#[test]
fn partial_is_told_from_none() {
    assert_ne!(ZbarSymbolType::ZbarPartial, ZbarSymbolType::ZbarNone);
    assert_ne!(ZbarSymbolType::ZbarPartial.code(), ZbarSymbolType::ZbarNone.code());
}

#[test]
fn unknown_numbers_stand_for_no_symbol() {
    assert_eq!(ZbarSymbolType::of_code(64), ZbarSymbolType::ZbarQrcode);
    assert_eq!(ZbarSymbolType::of_code(1), ZbarSymbolType::ZbarPartial);
    assert_eq!(ZbarSymbolType::of_code(0), ZbarSymbolType::ZbarNone);
    assert_eq!(ZbarSymbolType::of_code(3), ZbarSymbolType::ZbarNone);
    assert_eq!(ZbarSymbolType::of_code(u32::MAX), ZbarSymbolType::ZbarNone);
}
