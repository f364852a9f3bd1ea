use vstd::prelude::*;

use crate::co::consts_ab::ACCESS_RIGHTS;
use crate::co::consts_st::STANDARD_RIGHTS;
use crate::co::consts_st::SUBLANG;

verus! {

/// Access right asked for when a registry key is opened.
#[derive(Clone, Copy, Debug, PartialEq, Eq, Structural)]
pub struct KEY(pub u32);

impl KEY {
    pub const QUERY_VALUE: u32 = 0x0001;
    pub const SET_VALUE: u32 = 0x0002;
    pub const CREATE_SUB_KEY: u32 = 0x0004;
    pub const ENUMERATE_SUB_KEYS: u32 = 0x0008;
    pub const NOTIFY: u32 = 0x0010;
    pub const CREATE_LINK: u32 = 0x0020;
    pub const WOW64_32KEY: u32 = 0x0200;
    pub const WOW64_64KEY: u32 = 0x0100;
    pub const WOW64_RES: u32 = 0x0300;
    pub const READ: u32 = (STANDARD_RIGHTS::READ
        | Self::QUERY_VALUE
        | Self::ENUMERATE_SUB_KEYS
        | Self::NOTIFY) & !ACCESS_RIGHTS::SYNCHRONIZE;
    pub const WRITE: u32 = (STANDARD_RIGHTS::WRITE
        | Self::SET_VALUE
        | Self::CREATE_SUB_KEY) & !ACCESS_RIGHTS::SYNCHRONIZE;
    pub const EXECUTE: u32 = Self::READ & !ACCESS_RIGHTS::SYNCHRONIZE;
    pub const ALL_ACCESS: u32 = (STANDARD_RIGHTS::ALL
        | Self::QUERY_VALUE
        | Self::SET_VALUE
        | Self::CREATE_SUB_KEY
        | Self::ENUMERATE_SUB_KEYS
        | Self::NOTIFY
        | Self::CREATE_LINK) & !ACCESS_RIGHTS::SYNCHRONIZE;
}

/// Primary language identifier.
#[derive(Clone, Copy, Debug, PartialEq, Eq, Structural)]
pub struct LANG(pub u16);

impl LANG {
    pub const NEUTRAL: u16 = 0x00;
    pub const INVARIANT: u16 = 0x7f;
    pub const AFRIKAANS: u16 = 0x36;
    pub const ALBANIAN: u16 = 0x1c;
    pub const ALSATIAN: u16 = 0x84;
    pub const AMHARIC: u16 = 0x5e;
    pub const ARABIC: u16 = 0x01;
    pub const ARMENIAN: u16 = 0x2b;
    pub const ASSAMESE: u16 = 0x4d;
    pub const AZERI: u16 = 0x2c;
    pub const AZERBAIJANI: u16 = 0x2c;
    pub const BANGLA: u16 = 0x45;
    pub const BASHKIR: u16 = 0x6d;
    pub const BASQUE: u16 = 0x2d;
    pub const BELARUSIAN: u16 = 0x23;
    pub const BENGALI: u16 = 0x45;
    pub const BRETON: u16 = 0x7e;
    pub const BOSNIAN: u16 = 0x1a;
    pub const BOSNIAN_NEUTRAL: u16 = 0x781a;
    pub const BULGARIAN: u16 = 0x02;
    pub const CATALAN: u16 = 0x03;
    pub const CENTRAL_KURDISH: u16 = 0x92;
    pub const CHEROKEE: u16 = 0x5c;
    pub const CHINESE: u16 = 0x04;
    pub const CHINESE_SIMPLIFIED: u16 = 0x04;
    pub const CHINESE_TRADITIONAL: u16 = 0x7c04;
    pub const CORSICAN: u16 = 0x83;
    pub const CROATIAN: u16 = 0x1a;
    pub const CZECH: u16 = 0x05;
    pub const DANISH: u16 = 0x06;
    pub const DARI: u16 = 0x8c;
    pub const DIVEHI: u16 = 0x65;
    pub const DUTCH: u16 = 0x13;
    pub const ENGLISH: u16 = 0x09;
    pub const ESTONIAN: u16 = 0x25;
    pub const FAEROESE: u16 = 0x38;
    pub const FARSI: u16 = 0x29;
    pub const FILIPINO: u16 = 0x64;
    pub const FINNISH: u16 = 0x0b;
    pub const FRENCH: u16 = 0x0c;
    pub const FRISIAN: u16 = 0x62;
    pub const FULAH: u16 = 0x67;
    pub const GALICIAN: u16 = 0x56;
    pub const GEORGIAN: u16 = 0x37;
    pub const GERMAN: u16 = 0x07;
    pub const GREEK: u16 = 0x08;
    pub const GREENLANDIC: u16 = 0x6f;
    pub const GUJARATI: u16 = 0x47;
    pub const HAUSA: u16 = 0x68;
    pub const HAWAIIAN: u16 = 0x75;
    pub const HEBREW: u16 = 0x0d;
    pub const HINDI: u16 = 0x39;
    pub const HUNGARIAN: u16 = 0x0e;
    pub const ICELANDIC: u16 = 0x0f;
    pub const IGBO: u16 = 0x70;
    pub const INDONESIAN: u16 = 0x21;
    pub const INUKTITUT: u16 = 0x5d;
    pub const IRISH: u16 = 0x3c;
    pub const ITALIAN: u16 = 0x10;
    pub const JAPANESE: u16 = 0x11;
    pub const KANNADA: u16 = 0x4b;
    pub const KASHMIRI: u16 = 0x60;
    pub const KAZAK: u16 = 0x3f;
    pub const KHMER: u16 = 0x53;
    pub const KICHE: u16 = 0x86;
    pub const KINYARWANDA: u16 = 0x87;
    pub const KONKANI: u16 = 0x57;
    pub const KOREAN: u16 = 0x12;
    pub const KYRGYZ: u16 = 0x40;
    pub const LAO: u16 = 0x54;
    pub const LATVIAN: u16 = 0x26;
    pub const LITHUANIAN: u16 = 0x27;
    pub const LOWER_SORBIAN: u16 = 0x2e;
    pub const LUXEMBOURGISH: u16 = 0x6e;
    pub const MACEDONIAN: u16 = 0x2f;
    pub const MALAY: u16 = 0x3e;
    pub const MALAYALAM: u16 = 0x4c;
    pub const MALTESE: u16 = 0x3a;
    pub const MANIPURI: u16 = 0x58;
    pub const MAORI: u16 = 0x81;
    pub const MAPUDUNGUN: u16 = 0x7a;
    pub const MARATHI: u16 = 0x4e;
    pub const MOHAWK: u16 = 0x7c;
    pub const MONGOLIAN: u16 = 0x50;
    pub const NEPALI: u16 = 0x61;
    pub const NORWEGIAN: u16 = 0x14;
    pub const OCCITAN: u16 = 0x82;
    pub const ODIA: u16 = 0x48;
    pub const ORIYA: u16 = 0x48;
    pub const PASHTO: u16 = 0x63;
    pub const PERSIAN: u16 = 0x29;
    pub const POLISH: u16 = 0x15;
    pub const PORTUGUESE: u16 = 0x16;
    pub const PULAR: u16 = 0x67;
    pub const PUNJABI: u16 = 0x46;
    pub const QUECHUA: u16 = 0x6b;
    pub const ROMANIAN: u16 = 0x18;
    pub const ROMANSH: u16 = 0x17;
    pub const RUSSIAN: u16 = 0x19;
    pub const SAKHA: u16 = 0x85;
    pub const SAMI: u16 = 0x3b;
    pub const SANSKRIT: u16 = 0x4f;
    pub const SCOTTISH_GAELIC: u16 = 0x91;
    pub const SERBIAN: u16 = 0x1a;
    pub const SERBIAN_NEUTRAL: u16 = 0x7c1a;
    pub const SINDHI: u16 = 0x59;
    pub const SINHALESE: u16 = 0x5b;
    pub const SLOVAK: u16 = 0x1b;
    pub const SLOVENIAN: u16 = 0x24;
    pub const SOTHO: u16 = 0x6c;
    pub const SPANISH: u16 = 0x0a;
    pub const SWAHILI: u16 = 0x41;
    pub const SWEDISH: u16 = 0x1d;
    pub const SYRIAC: u16 = 0x5a;
    pub const TAJIK: u16 = 0x28;
    pub const TAMAZIGHT: u16 = 0x5f;
    pub const TAMIL: u16 = 0x49;
    pub const TATAR: u16 = 0x44;
    pub const TELUGU: u16 = 0x4a;
    pub const THAI: u16 = 0x1e;
    pub const TIBETAN: u16 = 0x51;
    pub const TIGRIGNA: u16 = 0x73;
    pub const TIGRINYA: u16 = 0x73;
    pub const TSWANA: u16 = 0x32;
    pub const TURKISH: u16 = 0x1f;
    pub const TURKMEN: u16 = 0x42;
    pub const UIGHUR: u16 = 0x80;
    pub const UKRAINIAN: u16 = 0x22;
    pub const UPPER_SORBIAN: u16 = 0x2e;
    pub const URDU: u16 = 0x20;
    pub const UZBEK: u16 = 0x43;
    pub const VALENCIAN: u16 = 0x03;
    pub const VIETNAMESE: u16 = 0x2a;
    pub const WELSH: u16 = 0x52;
    pub const WOLOF: u16 = 0x88;
    pub const XHOSA: u16 = 0x34;
    pub const YAKUT: u16 = 0x85;
    pub const YI: u16 = 0x78;
    pub const YORUBA: u16 = 0x6a;
    pub const ZULU: u16 = 0x35;

    /// The language identifier made of `sublang`, moved up by ten bits within
    /// sixteen, and this primary language below it.
    pub open spec fn spec_makelangid(self, sublang: SUBLANG) -> u32 {
        ((sublang.0 << 10u16) | self.0) as u32
    }

    /// Builds a language identifier from this primary language and `sublang`.
    pub fn MAKELANGID(self, sublang: SUBLANG) -> (id: u32)
        ensures
            id == self.spec_makelangid(sublang),
    {
        let id: u16 = (sublang.0 << 10u16) | self.0;
        id as u32
    }
}

/// Weight of a logical font.
#[derive(Clone, Copy, Debug, PartialEq, Eq, Structural)]
pub struct FW(pub u32);

impl FW {
    pub const DONTCARE: u32 = 0;
    pub const THIN: u32 = 100;
    pub const EXTRALIGHT: u32 = 200;
    pub const ULTRALIGHT: u32 = Self::EXTRALIGHT;
    pub const LIGHT: u32 = 300;
    pub const NORMAL: u32 = 400;
    pub const REGULAR: u32 = 400;
    pub const MEDIUM: u32 = 500;
    pub const SEMIBOLD: u32 = 600;
    pub const DEMIBOLD: u32 = Self::SEMIBOLD;
    pub const BOLD: u32 = 700;
    pub const EXTRABOLD: u32 = 800;
    pub const ULTRABOLD: u32 = Self::EXTRABOLD;
    pub const HEAVY: u32 = 900;
    pub const BLACK: u32 = Self::HEAVY;
}

/// Which fields of a list view column hold something.
#[derive(Clone, Copy, Debug, PartialEq, Eq, Structural)]
pub struct LVCF(pub u32);

impl LVCF {
    pub const FMT: u32 = 0x0001;
    pub const WIDTH: u32 = 0x0002;
    pub const TEXT: u32 = 0x0004;
    pub const SUBITEM: u32 = 0x0008;
    pub const IMAGE: u32 = 0x0010;
    pub const ORDER: u32 = 0x0020;
    pub const MINWIDTH: u32 = 0x0040;
    pub const DEFAULTWIDTH: u32 = 0x0080;
    pub const IDEALWIDTH: u32 = 0x0100;
}

/// The composed access rights of a registry key, as numbers.
pub proof fn lemma_key_rights()
    ensures
        KEY::READ == 0x0002_0019,
        KEY::WRITE == 0x0002_0006,
        KEY::EXECUTE == 0x0002_0019,
        KEY::ALL_ACCESS == 0x000f_003f,
{
    assert(KEY::READ == 0x0002_0019) by (bit_vector);
    assert(KEY::WRITE == 0x0002_0006) by (bit_vector);
    assert(KEY::EXECUTE == 0x0002_0019) by (bit_vector);
    assert(KEY::ALL_ACCESS == 0x000f_003f) by (bit_vector);
}

/// A language identifier gives back its two parts, as long as the primary
/// language fits in ten bits and the sublanguage in six.
pub proof fn lemma_makelangid_parts(lang: LANG, sublang: SUBLANG)
    requires
        lang.0 < 0x400,
        sublang.0 < 0x40,
    ensures
        lang.spec_makelangid(sublang) & 0x3ff == lang.0,
        lang.spec_makelangid(sublang) >> 10 == sublang.0,
        lang.spec_makelangid(sublang) == sublang.0 * 0x400 + lang.0,
{
    let l: u16 = lang.0;
    let s: u16 = sublang.0;
    assert((((s << 10u16) | l) as u32) & 0x3ff == l && (((s << 10u16) | l) as u32) >> 10 == s
        && (((s << 10u16) | l) as u32) == s * 0x400 + l) by (bit_vector)
        requires
            l < 0x400,
            s < 0x40,
    ;
}

} // verus!
