//! The values exchanged with the decoding engine.

use vstd::prelude::*;

verus! {

/// The symbologies the engine tells apart, and the masks it defines beside
/// them.
#[derive(Clone, Copy, Debug, PartialEq, Eq, Structural)]
pub enum ZbarSymbolType {
    /// No symbol decoded.
    ZbarNone,
    /// Intermediate status: an incomplete result.
    ZbarPartial,
    /// GS1 2-digit add-on.
    ZbarEan2,
    /// GS1 5-digit add-on.
    ZbarEan5,
    /// EAN-8.
    ZbarEan8,
    /// UPC-E.
    ZbarUpce,
    /// ISBN-10 (from EAN-13).
    ZbarIsbn10,
    /// UPC-A.
    ZbarUpca,
    /// EAN-13.
    ZbarEan13,
    /// ISBN-13 (from EAN-13).
    ZbarIsbn13,
    /// EAN/UPC composite.
    ZbarComposite,
    /// Interleaved 2 of 5.
    ZbarI25,
    /// GS1 DataBar (RSS).
    ZbarDatabar,
    /// GS1 DataBar Expanded.
    ZbarDatabarExp,
    /// Codabar.
    ZbarCodabar,
    /// Code 39.
    ZbarCode39,
    /// PDF417.
    ZbarPdf417,
    /// QR Code.
    ZbarQrcode,
    /// SQ Code.
    ZbarSqcode,
    /// Code 93.
    ZbarCode93,
    /// Code 128.
    ZbarCode128,
    /// Mask for the base symbol type.
    ZbarSymbol,
    /// 2-digit add-on flag.
    ZbarAddon2,
    /// 5-digit add-on flag.
    ZbarAddon5,
    /// Add-on flag mask.
    ZbarAddon,
}

impl ZbarSymbolType {
    /// The number the engine uses for this symbology.
    pub open spec fn spec_code(self) -> u32 {
        match self {
            ZbarSymbolType::ZbarNone => 0,
            ZbarSymbolType::ZbarPartial => 1,
            ZbarSymbolType::ZbarEan2 => 2,
            ZbarSymbolType::ZbarEan5 => 5,
            ZbarSymbolType::ZbarEan8 => 8,
            ZbarSymbolType::ZbarUpce => 9,
            ZbarSymbolType::ZbarIsbn10 => 10,
            ZbarSymbolType::ZbarUpca => 12,
            ZbarSymbolType::ZbarEan13 => 13,
            ZbarSymbolType::ZbarIsbn13 => 14,
            ZbarSymbolType::ZbarComposite => 15,
            ZbarSymbolType::ZbarI25 => 25,
            ZbarSymbolType::ZbarDatabar => 34,
            ZbarSymbolType::ZbarDatabarExp => 35,
            ZbarSymbolType::ZbarCodabar => 38,
            ZbarSymbolType::ZbarCode39 => 39,
            ZbarSymbolType::ZbarPdf417 => 57,
            ZbarSymbolType::ZbarQrcode => 64,
            ZbarSymbolType::ZbarSqcode => 80,
            ZbarSymbolType::ZbarCode93 => 93,
            ZbarSymbolType::ZbarCode128 => 128,
            ZbarSymbolType::ZbarSymbol => 0x00ff,
            ZbarSymbolType::ZbarAddon2 => 0x0200,
            ZbarSymbolType::ZbarAddon5 => 0x0500,
            ZbarSymbolType::ZbarAddon => 0x0700,
        }
    }

    /// The number the engine uses for this symbology.
    pub fn code(self) -> (code: u32)
        ensures
            code == self.spec_code(),
    {
        match self {
            ZbarSymbolType::ZbarNone => 0,
            ZbarSymbolType::ZbarPartial => 1,
            ZbarSymbolType::ZbarEan2 => 2,
            ZbarSymbolType::ZbarEan5 => 5,
            ZbarSymbolType::ZbarEan8 => 8,
            ZbarSymbolType::ZbarUpce => 9,
            ZbarSymbolType::ZbarIsbn10 => 10,
            ZbarSymbolType::ZbarUpca => 12,
            ZbarSymbolType::ZbarEan13 => 13,
            ZbarSymbolType::ZbarIsbn13 => 14,
            ZbarSymbolType::ZbarComposite => 15,
            ZbarSymbolType::ZbarI25 => 25,
            ZbarSymbolType::ZbarDatabar => 34,
            ZbarSymbolType::ZbarDatabarExp => 35,
            ZbarSymbolType::ZbarCodabar => 38,
            ZbarSymbolType::ZbarCode39 => 39,
            ZbarSymbolType::ZbarPdf417 => 57,
            ZbarSymbolType::ZbarQrcode => 64,
            ZbarSymbolType::ZbarSqcode => 80,
            ZbarSymbolType::ZbarCode93 => 93,
            ZbarSymbolType::ZbarCode128 => 128,
            ZbarSymbolType::ZbarSymbol => 0x00ff,
            ZbarSymbolType::ZbarAddon2 => 0x0200,
            ZbarSymbolType::ZbarAddon5 => 0x0500,
            ZbarSymbolType::ZbarAddon => 0x0700,
        }
    }

    /// The symbology the engine means by `code`, if it means one.
    pub open spec fn spec_from_code(code: u32) -> Option<ZbarSymbolType> {
        if exists|s: ZbarSymbolType| s.spec_code() == code {
            Some(choose|s: ZbarSymbolType| s.spec_code() == code)
        } else {
            None
        }
    }

    /// The symbology the engine means by `code`; where it means none, the
    /// one that stands for no symbol.
    pub open spec fn spec_of_code(code: u32) -> ZbarSymbolType {
        match ZbarSymbolType::spec_from_code(code) {
            Some(s) => s,
            None => ZbarSymbolType::ZbarNone,
        }
    }

    /// The symbology the engine means by `code`, if it means one.
    pub fn from_code(code: u32) -> (symbology: Option<ZbarSymbolType>)
        ensures
            symbology == ZbarSymbolType::spec_from_code(code),
            match symbology {
                Some(s) => s.spec_code() == code,
                None => forall|s: ZbarSymbolType| s.spec_code() != code,
            },
    {
        let symbology = match code {
            0 => Some(ZbarSymbolType::ZbarNone),
            1 => Some(ZbarSymbolType::ZbarPartial),
            2 => Some(ZbarSymbolType::ZbarEan2),
            5 => Some(ZbarSymbolType::ZbarEan5),
            8 => Some(ZbarSymbolType::ZbarEan8),
            9 => Some(ZbarSymbolType::ZbarUpce),
            10 => Some(ZbarSymbolType::ZbarIsbn10),
            12 => Some(ZbarSymbolType::ZbarUpca),
            13 => Some(ZbarSymbolType::ZbarEan13),
            14 => Some(ZbarSymbolType::ZbarIsbn13),
            15 => Some(ZbarSymbolType::ZbarComposite),
            25 => Some(ZbarSymbolType::ZbarI25),
            34 => Some(ZbarSymbolType::ZbarDatabar),
            35 => Some(ZbarSymbolType::ZbarDatabarExp),
            38 => Some(ZbarSymbolType::ZbarCodabar),
            39 => Some(ZbarSymbolType::ZbarCode39),
            57 => Some(ZbarSymbolType::ZbarPdf417),
            64 => Some(ZbarSymbolType::ZbarQrcode),
            80 => Some(ZbarSymbolType::ZbarSqcode),
            93 => Some(ZbarSymbolType::ZbarCode93),
            128 => Some(ZbarSymbolType::ZbarCode128),
            0x00ff => Some(ZbarSymbolType::ZbarSymbol),
            0x0200 => Some(ZbarSymbolType::ZbarAddon2),
            0x0500 => Some(ZbarSymbolType::ZbarAddon5),
            0x0700 => Some(ZbarSymbolType::ZbarAddon),
            _ => None,
        };
        proof {
            ZbarSymbolType::lemma_from_code(code);
            if let Some(s) = symbology {
                assert(s.spec_code() == code);
            }
        }
        symbology
    }

    /// The symbology the engine means by `code`; where it means none, the
    /// one that stands for no symbol.
    pub fn of_code(code: u32) -> (symbology: ZbarSymbolType)
        ensures
            symbology == ZbarSymbolType::spec_of_code(code),
    {
        match ZbarSymbolType::from_code(code) {
            Some(symbology) => symbology,
            None => ZbarSymbolType::ZbarNone,
        }
    }

    /// No two symbologies share a number, so a symbology is found again by
    /// its number.
    pub proof fn lemma_code_injective(a: ZbarSymbolType, b: ZbarSymbolType)
        requires
            a.spec_code() == b.spec_code(),
        ensures
            a == b,
    {
    }

    /// A number names the one symbology that has it, or none.
    pub proof fn lemma_from_code(code: u32)
        ensures
            match ZbarSymbolType::spec_from_code(code) {
                Some(s) => s.spec_code() == code,
                None => forall|s: ZbarSymbolType| s.spec_code() != code,
            },
            forall|s: ZbarSymbolType|
                s.spec_code() == code ==> ZbarSymbolType::spec_from_code(code) == Some(s),
    {
        if exists|s: ZbarSymbolType| s.spec_code() == code {
            let found = choose|s: ZbarSymbolType| s.spec_code() == code;
            assert forall|s: ZbarSymbolType| s.spec_code() == code implies found == s by {
                ZbarSymbolType::lemma_code_injective(found, s);
            }
        }
    }
}

/// The settings the engine can be given.
#[derive(Clone, Copy, Debug, PartialEq, Eq, Structural)]
pub enum ZbarConfig {
    /// Enable symbology/feature.
    Enable,
    /// Enable check digit when optional.
    AddCheck,
    /// Return check digit when present.
    EmitCheck,
    /// Enable full ASCII character set.
    Ascii,
    /// Don't convert binary data to text.
    Binary,
    /// Number of boolean decoder configs.
    Num,
    /// Minimum data length for valid decode.
    MinLen,
    /// Maximum data length for valid decode.
    MaxLen,
    /// Required video consistency frames.
    Uncertainty,
    /// Enable scanner to collect position data.
    Position,
    /// If fails to decode, test inverted.
    TestInverted,
    /// Image scanner vertical scan density.
    XDensity,
    /// Image scanner horizontal scan density.
    YDensity,
}

impl ZbarConfig {
    /// The number the engine uses for this setting.
    pub open spec fn spec_code(self) -> u32 {
        match self {
            ZbarConfig::Enable => 0,
            ZbarConfig::AddCheck => 1,
            ZbarConfig::EmitCheck => 2,
            ZbarConfig::Ascii => 3,
            ZbarConfig::Binary => 4,
            ZbarConfig::Num => 5,
            ZbarConfig::MinLen => 0x20,
            ZbarConfig::MaxLen => 0x21,
            ZbarConfig::Uncertainty => 0x40,
            ZbarConfig::Position => 0x80,
            ZbarConfig::TestInverted => 0x81,
            ZbarConfig::XDensity => 0x100,
            ZbarConfig::YDensity => 0x101,
        }
    }

    /// The number the engine uses for this setting.
    pub fn code(self) -> (code: u32)
        ensures
            code == self.spec_code(),
    {
        match self {
            ZbarConfig::Enable => 0,
            ZbarConfig::AddCheck => 1,
            ZbarConfig::EmitCheck => 2,
            ZbarConfig::Ascii => 3,
            ZbarConfig::Binary => 4,
            ZbarConfig::Num => 5,
            ZbarConfig::MinLen => 0x20,
            ZbarConfig::MaxLen => 0x21,
            ZbarConfig::Uncertainty => 0x40,
            ZbarConfig::Position => 0x80,
            ZbarConfig::TestInverted => 0x81,
            ZbarConfig::XDensity => 0x100,
            ZbarConfig::YDensity => 0x101,
        }
    }

    /// The setting the engine means by `code`, if it means one.
    pub open spec fn spec_from_code(code: u32) -> Option<ZbarConfig> {
        if exists|c: ZbarConfig| c.spec_code() == code {
            Some(choose|c: ZbarConfig| c.spec_code() == code)
        } else {
            None
        }
    }

    /// The setting the engine means by `code`, if it means one.
    pub fn from_code(code: u32) -> (config: Option<ZbarConfig>)
        ensures
            config == ZbarConfig::spec_from_code(code),
            match config {
                Some(c) => c.spec_code() == code,
                None => forall|c: ZbarConfig| c.spec_code() != code,
            },
    {
        let config = match code {
            0 => Some(ZbarConfig::Enable),
            1 => Some(ZbarConfig::AddCheck),
            2 => Some(ZbarConfig::EmitCheck),
            3 => Some(ZbarConfig::Ascii),
            4 => Some(ZbarConfig::Binary),
            5 => Some(ZbarConfig::Num),
            0x20 => Some(ZbarConfig::MinLen),
            0x21 => Some(ZbarConfig::MaxLen),
            0x40 => Some(ZbarConfig::Uncertainty),
            0x80 => Some(ZbarConfig::Position),
            0x81 => Some(ZbarConfig::TestInverted),
            0x100 => Some(ZbarConfig::XDensity),
            0x101 => Some(ZbarConfig::YDensity),
            _ => None,
        };
        proof {
            ZbarConfig::lemma_from_code(code);
            if let Some(c) = config {
                assert(c.spec_code() == code);
            }
        }
        config
    }

    /// No two settings share a number, so a setting is found again by its
    /// number.
    pub proof fn lemma_code_injective(a: ZbarConfig, b: ZbarConfig)
        requires
            a.spec_code() == b.spec_code(),
        ensures
            a == b,
    {
    }

    /// A number names the one setting that has it, or none.
    pub proof fn lemma_from_code(code: u32)
        ensures
            match ZbarConfig::spec_from_code(code) {
                Some(c) => c.spec_code() == code,
                None => forall|c: ZbarConfig| c.spec_code() != code,
            },
            forall|c: ZbarConfig|
                c.spec_code() == code ==> ZbarConfig::spec_from_code(code) == Some(c),
    {
        if exists|c: ZbarConfig| c.spec_code() == code {
            let found = choose|c: ZbarConfig| c.spec_code() == code;
            assert forall|c: ZbarConfig| c.spec_code() == code implies found == c by {
                ZbarConfig::lemma_code_injective(found, c);
            }
        }
    }
}

/// A vertex of the polygon around a symbol, in image coordinates.
#[derive(Clone, Copy, Debug, PartialEq, Eq, Structural)]
pub struct Point {
    pub x: i32,
    pub y: i32,
}

/// One entry of the list the engine fills for an image.
#[derive(Clone, Debug)]
pub struct Symbol {
    /// The symbology; `ZbarPartial` marks an incomplete result.
    pub kind: ZbarSymbolType,
    /// The engine's name for the symbology.
    pub name: Vec<u8>,
    /// The decoded payload: arbitrary bytes.
    pub data: Vec<u8>,
    /// The polygon around the symbol; may be empty.
    pub polygon: Vec<Point>,
    /// The engine's serialized form of the symbol, where it gave one.
    pub xml: Option<Vec<u8>>,
}

/// What a [`Symbol`] holds.
pub struct SymbolView {
    pub kind: ZbarSymbolType,
    pub name: Seq<u8>,
    pub data: Seq<u8>,
    pub polygon: Seq<Point>,
    pub xml: Option<Seq<u8>>,
}

impl View for Symbol {
    type V = SymbolView;

    open spec fn view(&self) -> SymbolView {
        SymbolView {
            kind: self.kind,
            name: self.name@,
            data: self.data@,
            polygon: self.polygon@,
            xml: match self.xml {
                Some(x) => Some(x@),
                None => None,
            },
        }
    }
}

impl SymbolView {
    /// An incomplete result: the engine may still be working on it.
    pub open spec fn is_partial(self) -> bool {
        self.kind == ZbarSymbolType::ZbarPartial
    }
}

/// What a list of symbols holds.
pub open spec fn symbols_view(symbols: Seq<Symbol>) -> Seq<SymbolView> {
    symbols.map_values(|s: Symbol| s@)
}

} // verus!
