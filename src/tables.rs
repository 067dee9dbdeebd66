//! The Script property for the code points assigned in Unicode 12.1, as
//! maximal runs of code points that share one script.
use vstd::prelude::*;

verus! {

/// The Unicode Script property value of a code point.
///
/// `Unknown` stands for code points that no script claims, among them every
/// unassigned one.
#[derive(Clone, Copy, Debug, PartialEq, Eq, Structural, PartialOrd, Ord, Hash)]
pub enum Script {
    Adlam,
    Ahom,
    AnatolianHieroglyphs,
    Arabic,
    Armenian,
    Avestan,
    Balinese,
    Bamum,
    BassaVah,
    Batak,
    Bengali,
    Bhaiksuki,
    Bopomofo,
    Brahmi,
    Braille,
    Buginese,
    Buhid,
    CanadianAboriginal,
    Carian,
    CaucasianAlbanian,
    Chakma,
    Cham,
    Cherokee,
    Common,
    Coptic,
    Cuneiform,
    Cypriot,
    Cyrillic,
    Deseret,
    Devanagari,
    Dogra,
    Duployan,
    EgyptianHieroglyphs,
    Elbasan,
    Elymaic,
    Ethiopic,
    Georgian,
    Glagolitic,
    Gothic,
    Grantha,
    Greek,
    Gujarati,
    GunjalaGondi,
    Gurmukhi,
    Han,
    Hangul,
    HanifiRohingya,
    Hanunoo,
    Hatran,
    Hebrew,
    Hiragana,
    ImperialAramaic,
    Inherited,
    InscriptionalPahlavi,
    InscriptionalParthian,
    Javanese,
    Kaithi,
    Kannada,
    Katakana,
    KayahLi,
    Kharoshthi,
    Khmer,
    Khojki,
    Khudawadi,
    Lao,
    Latin,
    Lepcha,
    Limbu,
    LinearA,
    LinearB,
    Lisu,
    Lycian,
    Lydian,
    Mahajani,
    Makasar,
    Malayalam,
    Mandaic,
    Manichaean,
    Marchen,
    MasaramGondi,
    Medefaidrin,
    MeeteiMayek,
    MendeKikakui,
    MeroiticCursive,
    MeroiticHieroglyphs,
    Miao,
    Modi,
    Mongolian,
    Mro,
    Multani,
    Myanmar,
    Nabataean,
    Nandinagari,
    NewTaiLue,
    Newa,
    Nko,
    Nushu,
    NyiakengPuachueHmong,
    Ogham,
    OlChiki,
    OldHungarian,
    OldItalic,
    OldNorthArabian,
    OldPermic,
    OldPersian,
    OldSogdian,
    OldSouthArabian,
    OldTurkic,
    Oriya,
    Osage,
    Osmanya,
    PahawhHmong,
    Palmyrene,
    PauCinHau,
    PhagsPa,
    Phoenician,
    PsalterPahlavi,
    Rejang,
    Runic,
    Samaritan,
    Saurashtra,
    Sharada,
    Shavian,
    Siddham,
    Signwriting,
    Sinhala,
    Sogdian,
    SoraSompeng,
    Soyombo,
    Sundanese,
    SylotiNagri,
    Syriac,
    Tagalog,
    Tagbanwa,
    TaiLe,
    TaiTham,
    TaiViet,
    Takri,
    Tamil,
    Tangut,
    Telugu,
    Thaana,
    Thai,
    Tibetan,
    Tifinagh,
    Tirhuta,
    Ugaritic,
    Unknown,
    Vai,
    Wancho,
    WarangCiti,
    Yi,
    ZanabazarSquare,
}

/// Maximal runs of code points that share one script, as inclusive
/// `(low, high, script)` triples in ascending order. Code points outside
/// every run are unassigned and have the script `Unknown`.
pub const SCRIPT: [(u32, u32, Script); 895] = [
    (0x0, 0x40, Script::Common),
    (0x41, 0x5a, Script::Latin),
    (0x5b, 0x60, Script::Common),
    (0x61, 0x7a, Script::Latin),
    (0x7b, 0xa9, Script::Common),
    (0xaa, 0xaa, Script::Latin),
    (0xab, 0xb9, Script::Common),
    (0xba, 0xba, Script::Latin),
    (0xbb, 0xbf, Script::Common),
    (0xc0, 0xd6, Script::Latin),
    (0xd7, 0xd7, Script::Common),
    (0xd8, 0xf6, Script::Latin),
    (0xf7, 0xf7, Script::Common),
    (0xf8, 0x2b8, Script::Latin),
    (0x2b9, 0x2df, Script::Common),
    (0x2e0, 0x2e4, Script::Latin),
    (0x2e5, 0x2e9, Script::Common),
    (0x2ea, 0x2eb, Script::Bopomofo),
    (0x2ec, 0x2ff, Script::Common),
    (0x300, 0x36f, Script::Inherited),
    (0x370, 0x373, Script::Greek),
    (0x374, 0x374, Script::Common),
    (0x375, 0x377, Script::Greek),
    (0x37a, 0x37d, Script::Greek),
    (0x37e, 0x37e, Script::Common),
    (0x37f, 0x37f, Script::Greek),
    (0x384, 0x384, Script::Greek),
    (0x385, 0x385, Script::Common),
    (0x386, 0x386, Script::Greek),
    (0x387, 0x387, Script::Common),
    (0x388, 0x38a, Script::Greek),
    (0x38c, 0x38c, Script::Greek),
    (0x38e, 0x3a1, Script::Greek),
    (0x3a3, 0x3e1, Script::Greek),
    (0x3e2, 0x3ef, Script::Coptic),
    (0x3f0, 0x3ff, Script::Greek),
    (0x400, 0x484, Script::Cyrillic),
    (0x485, 0x486, Script::Inherited),
    (0x487, 0x52f, Script::Cyrillic),
    (0x531, 0x556, Script::Armenian),
    (0x559, 0x58a, Script::Armenian),
    (0x58d, 0x58f, Script::Armenian),
    (0x591, 0x5c7, Script::Hebrew),
    (0x5d0, 0x5ea, Script::Hebrew),
    (0x5ef, 0x5f4, Script::Hebrew),
    (0x600, 0x604, Script::Arabic),
    (0x605, 0x605, Script::Common),
    (0x606, 0x60b, Script::Arabic),
    (0x60c, 0x60c, Script::Common),
    (0x60d, 0x61a, Script::Arabic),
    (0x61b, 0x61b, Script::Common),
    (0x61c, 0x61c, Script::Arabic),
    (0x61e, 0x61e, Script::Arabic),
    (0x61f, 0x61f, Script::Common),
    (0x620, 0x63f, Script::Arabic),
    (0x640, 0x640, Script::Common),
    (0x641, 0x64a, Script::Arabic),
    (0x64b, 0x655, Script::Inherited),
    (0x656, 0x66f, Script::Arabic),
    (0x670, 0x670, Script::Inherited),
    (0x671, 0x6dc, Script::Arabic),
    (0x6dd, 0x6dd, Script::Common),
    (0x6de, 0x6ff, Script::Arabic),
    (0x700, 0x70d, Script::Syriac),
    (0x70f, 0x74a, Script::Syriac),
    (0x74d, 0x74f, Script::Syriac),
    (0x750, 0x77f, Script::Arabic),
    (0x780, 0x7b1, Script::Thaana),
    (0x7c0, 0x7fa, Script::Nko),
    (0x7fd, 0x7ff, Script::Nko),
    (0x800, 0x82d, Script::Samaritan),
    (0x830, 0x83e, Script::Samaritan),
    (0x840, 0x85b, Script::Mandaic),
    (0x85e, 0x85e, Script::Mandaic),
    (0x860, 0x86a, Script::Syriac),
    (0x8a0, 0x8b4, Script::Arabic),
    (0x8b6, 0x8bd, Script::Arabic),
    (0x8d3, 0x8e1, Script::Arabic),
    (0x8e2, 0x8e2, Script::Common),
    (0x8e3, 0x8ff, Script::Arabic),
    (0x900, 0x950, Script::Devanagari),
    (0x951, 0x954, Script::Inherited),
    (0x955, 0x963, Script::Devanagari),
    (0x964, 0x965, Script::Common),
    (0x966, 0x97f, Script::Devanagari),
    (0x980, 0x983, Script::Bengali),
    (0x985, 0x98c, Script::Bengali),
    (0x98f, 0x990, Script::Bengali),
    (0x993, 0x9a8, Script::Bengali),
    (0x9aa, 0x9b0, Script::Bengali),
    (0x9b2, 0x9b2, Script::Bengali),
    (0x9b6, 0x9b9, Script::Bengali),
    (0x9bc, 0x9c4, Script::Bengali),
    (0x9c7, 0x9c8, Script::Bengali),
    (0x9cb, 0x9ce, Script::Bengali),
    (0x9d7, 0x9d7, Script::Bengali),
    (0x9dc, 0x9dd, Script::Bengali),
    (0x9df, 0x9e3, Script::Bengali),
    (0x9e6, 0x9fe, Script::Bengali),
    (0xa01, 0xa03, Script::Gurmukhi),
    (0xa05, 0xa0a, Script::Gurmukhi),
    (0xa0f, 0xa10, Script::Gurmukhi),
    (0xa13, 0xa28, Script::Gurmukhi),
    (0xa2a, 0xa30, Script::Gurmukhi),
    (0xa32, 0xa33, Script::Gurmukhi),
    (0xa35, 0xa36, Script::Gurmukhi),
    (0xa38, 0xa39, Script::Gurmukhi),
    (0xa3c, 0xa3c, Script::Gurmukhi),
    (0xa3e, 0xa42, Script::Gurmukhi),
    (0xa47, 0xa48, Script::Gurmukhi),
    (0xa4b, 0xa4d, Script::Gurmukhi),
    (0xa51, 0xa51, Script::Gurmukhi),
    (0xa59, 0xa5c, Script::Gurmukhi),
    (0xa5e, 0xa5e, Script::Gurmukhi),
    (0xa66, 0xa76, Script::Gurmukhi),
    (0xa81, 0xa83, Script::Gujarati),
    (0xa85, 0xa8d, Script::Gujarati),
    (0xa8f, 0xa91, Script::Gujarati),
    (0xa93, 0xaa8, Script::Gujarati),
    (0xaaa, 0xab0, Script::Gujarati),
    (0xab2, 0xab3, Script::Gujarati),
    (0xab5, 0xab9, Script::Gujarati),
    (0xabc, 0xac5, Script::Gujarati),
    (0xac7, 0xac9, Script::Gujarati),
    (0xacb, 0xacd, Script::Gujarati),
    (0xad0, 0xad0, Script::Gujarati),
    (0xae0, 0xae3, Script::Gujarati),
    (0xae6, 0xaf1, Script::Gujarati),
    (0xaf9, 0xaff, Script::Gujarati),
    (0xb01, 0xb03, Script::Oriya),
    (0xb05, 0xb0c, Script::Oriya),
    (0xb0f, 0xb10, Script::Oriya),
    (0xb13, 0xb28, Script::Oriya),
    (0xb2a, 0xb30, Script::Oriya),
    (0xb32, 0xb33, Script::Oriya),
    (0xb35, 0xb39, Script::Oriya),
    (0xb3c, 0xb44, Script::Oriya),
    (0xb47, 0xb48, Script::Oriya),
    (0xb4b, 0xb4d, Script::Oriya),
    (0xb56, 0xb57, Script::Oriya),
    (0xb5c, 0xb5d, Script::Oriya),
    (0xb5f, 0xb63, Script::Oriya),
    (0xb66, 0xb77, Script::Oriya),
    (0xb82, 0xb83, Script::Tamil),
    (0xb85, 0xb8a, Script::Tamil),
    (0xb8e, 0xb90, Script::Tamil),
    (0xb92, 0xb95, Script::Tamil),
    (0xb99, 0xb9a, Script::Tamil),
    (0xb9c, 0xb9c, Script::Tamil),
    (0xb9e, 0xb9f, Script::Tamil),
    (0xba3, 0xba4, Script::Tamil),
    (0xba8, 0xbaa, Script::Tamil),
    (0xbae, 0xbb9, Script::Tamil),
    (0xbbe, 0xbc2, Script::Tamil),
    (0xbc6, 0xbc8, Script::Tamil),
    (0xbca, 0xbcd, Script::Tamil),
    (0xbd0, 0xbd0, Script::Tamil),
    (0xbd7, 0xbd7, Script::Tamil),
    (0xbe6, 0xbfa, Script::Tamil),
    (0xc00, 0xc0c, Script::Telugu),
    (0xc0e, 0xc10, Script::Telugu),
    (0xc12, 0xc28, Script::Telugu),
    (0xc2a, 0xc39, Script::Telugu),
    (0xc3d, 0xc44, Script::Telugu),
    (0xc46, 0xc48, Script::Telugu),
    (0xc4a, 0xc4d, Script::Telugu),
    (0xc55, 0xc56, Script::Telugu),
    (0xc58, 0xc5a, Script::Telugu),
    (0xc60, 0xc63, Script::Telugu),
    (0xc66, 0xc6f, Script::Telugu),
    (0xc77, 0xc7f, Script::Telugu),
    (0xc80, 0xc8c, Script::Kannada),
    (0xc8e, 0xc90, Script::Kannada),
    (0xc92, 0xca8, Script::Kannada),
    (0xcaa, 0xcb3, Script::Kannada),
    (0xcb5, 0xcb9, Script::Kannada),
    (0xcbc, 0xcc4, Script::Kannada),
    (0xcc6, 0xcc8, Script::Kannada),
    (0xcca, 0xccd, Script::Kannada),
    (0xcd5, 0xcd6, Script::Kannada),
    (0xcde, 0xcde, Script::Kannada),
    (0xce0, 0xce3, Script::Kannada),
    (0xce6, 0xcef, Script::Kannada),
    (0xcf1, 0xcf2, Script::Kannada),
    (0xd00, 0xd03, Script::Malayalam),
    (0xd05, 0xd0c, Script::Malayalam),
    (0xd0e, 0xd10, Script::Malayalam),
    (0xd12, 0xd44, Script::Malayalam),
    (0xd46, 0xd48, Script::Malayalam),
    (0xd4a, 0xd4f, Script::Malayalam),
    (0xd54, 0xd63, Script::Malayalam),
    (0xd66, 0xd7f, Script::Malayalam),
    (0xd82, 0xd83, Script::Sinhala),
    (0xd85, 0xd96, Script::Sinhala),
    (0xd9a, 0xdb1, Script::Sinhala),
    (0xdb3, 0xdbb, Script::Sinhala),
    (0xdbd, 0xdbd, Script::Sinhala),
    (0xdc0, 0xdc6, Script::Sinhala),
    (0xdca, 0xdca, Script::Sinhala),
    (0xdcf, 0xdd4, Script::Sinhala),
    (0xdd6, 0xdd6, Script::Sinhala),
    (0xdd8, 0xddf, Script::Sinhala),
    (0xde6, 0xdef, Script::Sinhala),
    (0xdf2, 0xdf4, Script::Sinhala),
    (0xe01, 0xe3a, Script::Thai),
    (0xe3f, 0xe3f, Script::Common),
    (0xe40, 0xe5b, Script::Thai),
    (0xe81, 0xe82, Script::Lao),
    (0xe84, 0xe84, Script::Lao),
    (0xe86, 0xe8a, Script::Lao),
    (0xe8c, 0xea3, Script::Lao),
    (0xea5, 0xea5, Script::Lao),
    (0xea7, 0xebd, Script::Lao),
    (0xec0, 0xec4, Script::Lao),
    (0xec6, 0xec6, Script::Lao),
    (0xec8, 0xecd, Script::Lao),
    (0xed0, 0xed9, Script::Lao),
    (0xedc, 0xedf, Script::Lao),
    (0xf00, 0xf47, Script::Tibetan),
    (0xf49, 0xf6c, Script::Tibetan),
    (0xf71, 0xf97, Script::Tibetan),
    (0xf99, 0xfbc, Script::Tibetan),
    (0xfbe, 0xfcc, Script::Tibetan),
    (0xfce, 0xfd4, Script::Tibetan),
    (0xfd5, 0xfd8, Script::Common),
    (0xfd9, 0xfda, Script::Tibetan),
    (0x1000, 0x109f, Script::Myanmar),
    (0x10a0, 0x10c5, Script::Georgian),
    (0x10c7, 0x10c7, Script::Georgian),
    (0x10cd, 0x10cd, Script::Georgian),
    (0x10d0, 0x10fa, Script::Georgian),
    (0x10fb, 0x10fb, Script::Common),
    (0x10fc, 0x10ff, Script::Georgian),
    (0x1100, 0x11ff, Script::Hangul),
    (0x1200, 0x1248, Script::Ethiopic),
    (0x124a, 0x124d, Script::Ethiopic),
    (0x1250, 0x1256, Script::Ethiopic),
    (0x1258, 0x1258, Script::Ethiopic),
    (0x125a, 0x125d, Script::Ethiopic),
    (0x1260, 0x1288, Script::Ethiopic),
    (0x128a, 0x128d, Script::Ethiopic),
    (0x1290, 0x12b0, Script::Ethiopic),
    (0x12b2, 0x12b5, Script::Ethiopic),
    (0x12b8, 0x12be, Script::Ethiopic),
    (0x12c0, 0x12c0, Script::Ethiopic),
    (0x12c2, 0x12c5, Script::Ethiopic),
    (0x12c8, 0x12d6, Script::Ethiopic),
    (0x12d8, 0x1310, Script::Ethiopic),
    (0x1312, 0x1315, Script::Ethiopic),
    (0x1318, 0x135a, Script::Ethiopic),
    (0x135d, 0x137c, Script::Ethiopic),
    (0x1380, 0x1399, Script::Ethiopic),
    (0x13a0, 0x13f5, Script::Cherokee),
    (0x13f8, 0x13fd, Script::Cherokee),
    (0x1400, 0x167f, Script::CanadianAboriginal),
    (0x1680, 0x169c, Script::Ogham),
    (0x16a0, 0x16ea, Script::Runic),
    (0x16eb, 0x16ed, Script::Common),
    (0x16ee, 0x16f8, Script::Runic),
    (0x1700, 0x170c, Script::Tagalog),
    (0x170e, 0x1714, Script::Tagalog),
    (0x1720, 0x1734, Script::Hanunoo),
    (0x1735, 0x1736, Script::Common),
    (0x1740, 0x1753, Script::Buhid),
    (0x1760, 0x176c, Script::Tagbanwa),
    (0x176e, 0x1770, Script::Tagbanwa),
    (0x1772, 0x1773, Script::Tagbanwa),
    (0x1780, 0x17dd, Script::Khmer),
    (0x17e0, 0x17e9, Script::Khmer),
    (0x17f0, 0x17f9, Script::Khmer),
    (0x1800, 0x1801, Script::Mongolian),
    (0x1802, 0x1803, Script::Common),
    (0x1804, 0x1804, Script::Mongolian),
    (0x1805, 0x1805, Script::Common),
    (0x1806, 0x180e, Script::Mongolian),
    (0x1810, 0x1819, Script::Mongolian),
    (0x1820, 0x1878, Script::Mongolian),
    (0x1880, 0x18aa, Script::Mongolian),
    (0x18b0, 0x18f5, Script::CanadianAboriginal),
    (0x1900, 0x191e, Script::Limbu),
    (0x1920, 0x192b, Script::Limbu),
    (0x1930, 0x193b, Script::Limbu),
    (0x1940, 0x1940, Script::Limbu),
    (0x1944, 0x194f, Script::Limbu),
    (0x1950, 0x196d, Script::TaiLe),
    (0x1970, 0x1974, Script::TaiLe),
    (0x1980, 0x19ab, Script::NewTaiLue),
    (0x19b0, 0x19c9, Script::NewTaiLue),
    (0x19d0, 0x19da, Script::NewTaiLue),
    (0x19de, 0x19df, Script::NewTaiLue),
    (0x19e0, 0x19ff, Script::Khmer),
    (0x1a00, 0x1a1b, Script::Buginese),
    (0x1a1e, 0x1a1f, Script::Buginese),
    (0x1a20, 0x1a5e, Script::TaiTham),
    (0x1a60, 0x1a7c, Script::TaiTham),
    (0x1a7f, 0x1a89, Script::TaiTham),
    (0x1a90, 0x1a99, Script::TaiTham),
    (0x1aa0, 0x1aad, Script::TaiTham),
    (0x1ab0, 0x1abe, Script::Inherited),
    (0x1b00, 0x1b4b, Script::Balinese),
    (0x1b50, 0x1b7c, Script::Balinese),
    (0x1b80, 0x1bbf, Script::Sundanese),
    (0x1bc0, 0x1bf3, Script::Batak),
    (0x1bfc, 0x1bff, Script::Batak),
    (0x1c00, 0x1c37, Script::Lepcha),
    (0x1c3b, 0x1c49, Script::Lepcha),
    (0x1c4d, 0x1c4f, Script::Lepcha),
    (0x1c50, 0x1c7f, Script::OlChiki),
    (0x1c80, 0x1c88, Script::Cyrillic),
    (0x1c90, 0x1cba, Script::Georgian),
    (0x1cbd, 0x1cbf, Script::Georgian),
    (0x1cc0, 0x1cc7, Script::Sundanese),
    (0x1cd0, 0x1cd2, Script::Inherited),
    (0x1cd3, 0x1cd3, Script::Common),
    (0x1cd4, 0x1ce0, Script::Inherited),
    (0x1ce1, 0x1ce1, Script::Common),
    (0x1ce2, 0x1ce8, Script::Inherited),
    (0x1ce9, 0x1cec, Script::Common),
    (0x1ced, 0x1ced, Script::Inherited),
    (0x1cee, 0x1cf3, Script::Common),
    (0x1cf4, 0x1cf4, Script::Inherited),
    (0x1cf5, 0x1cf7, Script::Common),
    (0x1cf8, 0x1cf9, Script::Inherited),
    (0x1cfa, 0x1cfa, Script::Common),
    (0x1d00, 0x1d25, Script::Latin),
    (0x1d26, 0x1d2a, Script::Greek),
    (0x1d2b, 0x1d2b, Script::Cyrillic),
    (0x1d2c, 0x1d5c, Script::Latin),
    (0x1d5d, 0x1d61, Script::Greek),
    (0x1d62, 0x1d65, Script::Latin),
    (0x1d66, 0x1d6a, Script::Greek),
    (0x1d6b, 0x1d77, Script::Latin),
    (0x1d78, 0x1d78, Script::Cyrillic),
    (0x1d79, 0x1dbe, Script::Latin),
    (0x1dbf, 0x1dbf, Script::Greek),
    (0x1dc0, 0x1df9, Script::Inherited),
    (0x1dfb, 0x1dff, Script::Inherited),
    (0x1e00, 0x1eff, Script::Latin),
    (0x1f00, 0x1f15, Script::Greek),
    (0x1f18, 0x1f1d, Script::Greek),
    (0x1f20, 0x1f45, Script::Greek),
    (0x1f48, 0x1f4d, Script::Greek),
    (0x1f50, 0x1f57, Script::Greek),
    (0x1f59, 0x1f59, Script::Greek),
    (0x1f5b, 0x1f5b, Script::Greek),
    (0x1f5d, 0x1f5d, Script::Greek),
    (0x1f5f, 0x1f7d, Script::Greek),
    (0x1f80, 0x1fb4, Script::Greek),
    (0x1fb6, 0x1fc4, Script::Greek),
    (0x1fc6, 0x1fd3, Script::Greek),
    (0x1fd6, 0x1fdb, Script::Greek),
    (0x1fdd, 0x1fef, Script::Greek),
    (0x1ff2, 0x1ff4, Script::Greek),
    (0x1ff6, 0x1ffe, Script::Greek),
    (0x2000, 0x200b, Script::Common),
    (0x200c, 0x200d, Script::Inherited),
    (0x200e, 0x2064, Script::Common),
    (0x2066, 0x2070, Script::Common),
    (0x2071, 0x2071, Script::Latin),
    (0x2074, 0x207e, Script::Common),
    (0x207f, 0x207f, Script::Latin),
    (0x2080, 0x208e, Script::Common),
    (0x2090, 0x209c, Script::Latin),
    (0x20a0, 0x20bf, Script::Common),
    (0x20d0, 0x20f0, Script::Inherited),
    (0x2100, 0x2125, Script::Common),
    (0x2126, 0x2126, Script::Greek),
    (0x2127, 0x2129, Script::Common),
    (0x212a, 0x212b, Script::Latin),
    (0x212c, 0x2131, Script::Common),
    (0x2132, 0x2132, Script::Latin),
    (0x2133, 0x214d, Script::Common),
    (0x214e, 0x214e, Script::Latin),
    (0x214f, 0x215f, Script::Common),
    (0x2160, 0x2188, Script::Latin),
    (0x2189, 0x218b, Script::Common),
    (0x2190, 0x2426, Script::Common),
    (0x2440, 0x244a, Script::Common),
    (0x2460, 0x27ff, Script::Common),
    (0x2800, 0x28ff, Script::Braille),
    (0x2900, 0x2b73, Script::Common),
    (0x2b76, 0x2b95, Script::Common),
    (0x2b98, 0x2bff, Script::Common),
    (0x2c00, 0x2c2e, Script::Glagolitic),
    (0x2c30, 0x2c5e, Script::Glagolitic),
    (0x2c60, 0x2c7f, Script::Latin),
    (0x2c80, 0x2cf3, Script::Coptic),
    (0x2cf9, 0x2cff, Script::Coptic),
    (0x2d00, 0x2d25, Script::Georgian),
    (0x2d27, 0x2d27, Script::Georgian),
    (0x2d2d, 0x2d2d, Script::Georgian),
    (0x2d30, 0x2d67, Script::Tifinagh),
    (0x2d6f, 0x2d70, Script::Tifinagh),
    (0x2d7f, 0x2d7f, Script::Tifinagh),
    (0x2d80, 0x2d96, Script::Ethiopic),
    (0x2da0, 0x2da6, Script::Ethiopic),
    (0x2da8, 0x2dae, Script::Ethiopic),
    (0x2db0, 0x2db6, Script::Ethiopic),
    (0x2db8, 0x2dbe, Script::Ethiopic),
    (0x2dc0, 0x2dc6, Script::Ethiopic),
    (0x2dc8, 0x2dce, Script::Ethiopic),
    (0x2dd0, 0x2dd6, Script::Ethiopic),
    (0x2dd8, 0x2dde, Script::Ethiopic),
    (0x2de0, 0x2dff, Script::Cyrillic),
    (0x2e00, 0x2e4f, Script::Common),
    (0x2e80, 0x2e99, Script::Han),
    (0x2e9b, 0x2ef3, Script::Han),
    (0x2f00, 0x2fd5, Script::Han),
    (0x2ff0, 0x2ffb, Script::Common),
    (0x3000, 0x3004, Script::Common),
    (0x3005, 0x3005, Script::Han),
    (0x3006, 0x3006, Script::Common),
    (0x3007, 0x3007, Script::Han),
    (0x3008, 0x3020, Script::Common),
    (0x3021, 0x3029, Script::Han),
    (0x302a, 0x302d, Script::Inherited),
    (0x302e, 0x302f, Script::Hangul),
    (0x3030, 0x3037, Script::Common),
    (0x3038, 0x303b, Script::Han),
    (0x303c, 0x303f, Script::Common),
    (0x3041, 0x3096, Script::Hiragana),
    (0x3099, 0x309a, Script::Inherited),
    (0x309b, 0x309c, Script::Common),
    (0x309d, 0x309f, Script::Hiragana),
    (0x30a0, 0x30a0, Script::Common),
    (0x30a1, 0x30fa, Script::Katakana),
    (0x30fb, 0x30fc, Script::Common),
    (0x30fd, 0x30ff, Script::Katakana),
    (0x3105, 0x312f, Script::Bopomofo),
    (0x3131, 0x318e, Script::Hangul),
    (0x3190, 0x319f, Script::Common),
    (0x31a0, 0x31ba, Script::Bopomofo),
    (0x31c0, 0x31e3, Script::Common),
    (0x31f0, 0x31ff, Script::Katakana),
    (0x3200, 0x321e, Script::Hangul),
    (0x3220, 0x325f, Script::Common),
    (0x3260, 0x327e, Script::Hangul),
    (0x327f, 0x32cf, Script::Common),
    (0x32d0, 0x32fe, Script::Katakana),
    (0x32ff, 0x32ff, Script::Common),
    (0x3300, 0x3357, Script::Katakana),
    (0x3358, 0x33ff, Script::Common),
    (0x3400, 0x4db5, Script::Han),
    (0x4dc0, 0x4dff, Script::Common),
    (0x4e00, 0x9fef, Script::Han),
    (0xa000, 0xa48c, Script::Yi),
    (0xa490, 0xa4c6, Script::Yi),
    (0xa4d0, 0xa4ff, Script::Lisu),
    (0xa500, 0xa62b, Script::Vai),
    (0xa640, 0xa69f, Script::Cyrillic),
    (0xa6a0, 0xa6f7, Script::Bamum),
    (0xa700, 0xa721, Script::Common),
    (0xa722, 0xa787, Script::Latin),
    (0xa788, 0xa78a, Script::Common),
    (0xa78b, 0xa7bf, Script::Latin),
    (0xa7c2, 0xa7c6, Script::Latin),
    (0xa7f7, 0xa7ff, Script::Latin),
    (0xa800, 0xa82b, Script::SylotiNagri),
    (0xa830, 0xa839, Script::Common),
    (0xa840, 0xa877, Script::PhagsPa),
    (0xa880, 0xa8c5, Script::Saurashtra),
    (0xa8ce, 0xa8d9, Script::Saurashtra),
    (0xa8e0, 0xa8ff, Script::Devanagari),
    (0xa900, 0xa92d, Script::KayahLi),
    (0xa92e, 0xa92e, Script::Common),
    (0xa92f, 0xa92f, Script::KayahLi),
    (0xa930, 0xa953, Script::Rejang),
    (0xa95f, 0xa95f, Script::Rejang),
    (0xa960, 0xa97c, Script::Hangul),
    (0xa980, 0xa9cd, Script::Javanese),
    (0xa9cf, 0xa9cf, Script::Common),
    (0xa9d0, 0xa9d9, Script::Javanese),
    (0xa9de, 0xa9df, Script::Javanese),
    (0xa9e0, 0xa9fe, Script::Myanmar),
    (0xaa00, 0xaa36, Script::Cham),
    (0xaa40, 0xaa4d, Script::Cham),
    (0xaa50, 0xaa59, Script::Cham),
    (0xaa5c, 0xaa5f, Script::Cham),
    (0xaa60, 0xaa7f, Script::Myanmar),
    (0xaa80, 0xaac2, Script::TaiViet),
    (0xaadb, 0xaadf, Script::TaiViet),
    (0xaae0, 0xaaf6, Script::MeeteiMayek),
    (0xab01, 0xab06, Script::Ethiopic),
    (0xab09, 0xab0e, Script::Ethiopic),
    (0xab11, 0xab16, Script::Ethiopic),
    (0xab20, 0xab26, Script::Ethiopic),
    (0xab28, 0xab2e, Script::Ethiopic),
    (0xab30, 0xab5a, Script::Latin),
    (0xab5b, 0xab5b, Script::Common),
    (0xab5c, 0xab64, Script::Latin),
    (0xab65, 0xab65, Script::Greek),
    (0xab66, 0xab67, Script::Latin),
    (0xab70, 0xabbf, Script::Cherokee),
    (0xabc0, 0xabed, Script::MeeteiMayek),
    (0xabf0, 0xabf9, Script::MeeteiMayek),
    (0xac00, 0xd7a3, Script::Hangul),
    (0xd7b0, 0xd7c6, Script::Hangul),
    (0xd7cb, 0xd7fb, Script::Hangul),
    (0xf900, 0xfa6d, Script::Han),
    (0xfa70, 0xfad9, Script::Han),
    (0xfb00, 0xfb06, Script::Latin),
    (0xfb13, 0xfb17, Script::Armenian),
    (0xfb1d, 0xfb36, Script::Hebrew),
    (0xfb38, 0xfb3c, Script::Hebrew),
    (0xfb3e, 0xfb3e, Script::Hebrew),
    (0xfb40, 0xfb41, Script::Hebrew),
    (0xfb43, 0xfb44, Script::Hebrew),
    (0xfb46, 0xfb4f, Script::Hebrew),
    (0xfb50, 0xfbc1, Script::Arabic),
    (0xfbd3, 0xfd3d, Script::Arabic),
    (0xfd3e, 0xfd3f, Script::Common),
    (0xfd50, 0xfd8f, Script::Arabic),
    (0xfd92, 0xfdc7, Script::Arabic),
    (0xfdf0, 0xfdfd, Script::Arabic),
    (0xfe00, 0xfe0f, Script::Inherited),
    (0xfe10, 0xfe19, Script::Common),
    (0xfe20, 0xfe2d, Script::Inherited),
    (0xfe2e, 0xfe2f, Script::Cyrillic),
    (0xfe30, 0xfe52, Script::Common),
    (0xfe54, 0xfe66, Script::Common),
    (0xfe68, 0xfe6b, Script::Common),
    (0xfe70, 0xfe74, Script::Arabic),
    (0xfe76, 0xfefc, Script::Arabic),
    (0xfeff, 0xfeff, Script::Common),
    (0xff01, 0xff20, Script::Common),
    (0xff21, 0xff3a, Script::Latin),
    (0xff3b, 0xff40, Script::Common),
    (0xff41, 0xff5a, Script::Latin),
    (0xff5b, 0xff65, Script::Common),
    (0xff66, 0xff6f, Script::Katakana),
    (0xff70, 0xff70, Script::Common),
    (0xff71, 0xff9d, Script::Katakana),
    (0xff9e, 0xff9f, Script::Common),
    (0xffa0, 0xffbe, Script::Hangul),
    (0xffc2, 0xffc7, Script::Hangul),
    (0xffca, 0xffcf, Script::Hangul),
    (0xffd2, 0xffd7, Script::Hangul),
    (0xffda, 0xffdc, Script::Hangul),
    (0xffe0, 0xffe6, Script::Common),
    (0xffe8, 0xffee, Script::Common),
    (0xfff9, 0xfffd, Script::Common),
    (0x10000, 0x1000b, Script::LinearB),
    (0x1000d, 0x10026, Script::LinearB),
    (0x10028, 0x1003a, Script::LinearB),
    (0x1003c, 0x1003d, Script::LinearB),
    (0x1003f, 0x1004d, Script::LinearB),
    (0x10050, 0x1005d, Script::LinearB),
    (0x10080, 0x100fa, Script::LinearB),
    (0x10100, 0x10102, Script::Common),
    (0x10107, 0x10133, Script::Common),
    (0x10137, 0x1013f, Script::Common),
    (0x10140, 0x1018e, Script::Greek),
    (0x10190, 0x1019b, Script::Common),
    (0x101a0, 0x101a0, Script::Greek),
    (0x101d0, 0x101fc, Script::Common),
    (0x101fd, 0x101fd, Script::Inherited),
    (0x10280, 0x1029c, Script::Lycian),
    (0x102a0, 0x102d0, Script::Carian),
    (0x102e0, 0x102e0, Script::Inherited),
    (0x102e1, 0x102fb, Script::Common),
    (0x10300, 0x10323, Script::OldItalic),
    (0x1032d, 0x1032f, Script::OldItalic),
    (0x10330, 0x1034a, Script::Gothic),
    (0x10350, 0x1037a, Script::OldPermic),
    (0x10380, 0x1039d, Script::Ugaritic),
    (0x1039f, 0x1039f, Script::Ugaritic),
    (0x103a0, 0x103c3, Script::OldPersian),
    (0x103c8, 0x103d5, Script::OldPersian),
    (0x10400, 0x1044f, Script::Deseret),
    (0x10450, 0x1047f, Script::Shavian),
    (0x10480, 0x1049d, Script::Osmanya),
    (0x104a0, 0x104a9, Script::Osmanya),
    (0x104b0, 0x104d3, Script::Osage),
    (0x104d8, 0x104fb, Script::Osage),
    (0x10500, 0x10527, Script::Elbasan),
    (0x10530, 0x10563, Script::CaucasianAlbanian),
    (0x1056f, 0x1056f, Script::CaucasianAlbanian),
    (0x10600, 0x10736, Script::LinearA),
    (0x10740, 0x10755, Script::LinearA),
    (0x10760, 0x10767, Script::LinearA),
    (0x10800, 0x10805, Script::Cypriot),
    (0x10808, 0x10808, Script::Cypriot),
    (0x1080a, 0x10835, Script::Cypriot),
    (0x10837, 0x10838, Script::Cypriot),
    (0x1083c, 0x1083c, Script::Cypriot),
    (0x1083f, 0x1083f, Script::Cypriot),
    (0x10840, 0x10855, Script::ImperialAramaic),
    (0x10857, 0x1085f, Script::ImperialAramaic),
    (0x10860, 0x1087f, Script::Palmyrene),
    (0x10880, 0x1089e, Script::Nabataean),
    (0x108a7, 0x108af, Script::Nabataean),
    (0x108e0, 0x108f2, Script::Hatran),
    (0x108f4, 0x108f5, Script::Hatran),
    (0x108fb, 0x108ff, Script::Hatran),
    (0x10900, 0x1091b, Script::Phoenician),
    (0x1091f, 0x1091f, Script::Phoenician),
    (0x10920, 0x10939, Script::Lydian),
    (0x1093f, 0x1093f, Script::Lydian),
    (0x10980, 0x1099f, Script::MeroiticHieroglyphs),
    (0x109a0, 0x109b7, Script::MeroiticCursive),
    (0x109bc, 0x109cf, Script::MeroiticCursive),
    (0x109d2, 0x109ff, Script::MeroiticCursive),
    (0x10a00, 0x10a03, Script::Kharoshthi),
    (0x10a05, 0x10a06, Script::Kharoshthi),
    (0x10a0c, 0x10a13, Script::Kharoshthi),
    (0x10a15, 0x10a17, Script::Kharoshthi),
    (0x10a19, 0x10a35, Script::Kharoshthi),
    (0x10a38, 0x10a3a, Script::Kharoshthi),
    (0x10a3f, 0x10a48, Script::Kharoshthi),
    (0x10a50, 0x10a58, Script::Kharoshthi),
    (0x10a60, 0x10a7f, Script::OldSouthArabian),
    (0x10a80, 0x10a9f, Script::OldNorthArabian),
    (0x10ac0, 0x10ae6, Script::Manichaean),
    (0x10aeb, 0x10af6, Script::Manichaean),
    (0x10b00, 0x10b35, Script::Avestan),
    (0x10b39, 0x10b3f, Script::Avestan),
    (0x10b40, 0x10b55, Script::InscriptionalParthian),
    (0x10b58, 0x10b5f, Script::InscriptionalParthian),
    (0x10b60, 0x10b72, Script::InscriptionalPahlavi),
    (0x10b78, 0x10b7f, Script::InscriptionalPahlavi),
    (0x10b80, 0x10b91, Script::PsalterPahlavi),
    (0x10b99, 0x10b9c, Script::PsalterPahlavi),
    (0x10ba9, 0x10baf, Script::PsalterPahlavi),
    (0x10c00, 0x10c48, Script::OldTurkic),
    (0x10c80, 0x10cb2, Script::OldHungarian),
    (0x10cc0, 0x10cf2, Script::OldHungarian),
    (0x10cfa, 0x10cff, Script::OldHungarian),
    (0x10d00, 0x10d27, Script::HanifiRohingya),
    (0x10d30, 0x10d39, Script::HanifiRohingya),
    (0x10e60, 0x10e7e, Script::Arabic),
    (0x10f00, 0x10f27, Script::OldSogdian),
    (0x10f30, 0x10f59, Script::Sogdian),
    (0x10fe0, 0x10ff6, Script::Elymaic),
    (0x11000, 0x1104d, Script::Brahmi),
    (0x11052, 0x1106f, Script::Brahmi),
    (0x1107f, 0x1107f, Script::Brahmi),
    (0x11080, 0x110c1, Script::Kaithi),
    (0x110cd, 0x110cd, Script::Kaithi),
    (0x110d0, 0x110e8, Script::SoraSompeng),
    (0x110f0, 0x110f9, Script::SoraSompeng),
    (0x11100, 0x11134, Script::Chakma),
    (0x11136, 0x11146, Script::Chakma),
    (0x11150, 0x11176, Script::Mahajani),
    (0x11180, 0x111cd, Script::Sharada),
    (0x111d0, 0x111df, Script::Sharada),
    (0x111e1, 0x111f4, Script::Sinhala),
    (0x11200, 0x11211, Script::Khojki),
    (0x11213, 0x1123e, Script::Khojki),
    (0x11280, 0x11286, Script::Multani),
    (0x11288, 0x11288, Script::Multani),
    (0x1128a, 0x1128d, Script::Multani),
    (0x1128f, 0x1129d, Script::Multani),
    (0x1129f, 0x112a9, Script::Multani),
    (0x112b0, 0x112ea, Script::Khudawadi),
    (0x112f0, 0x112f9, Script::Khudawadi),
    (0x11300, 0x11303, Script::Grantha),
    (0x11305, 0x1130c, Script::Grantha),
    (0x1130f, 0x11310, Script::Grantha),
    (0x11313, 0x11328, Script::Grantha),
    (0x1132a, 0x11330, Script::Grantha),
    (0x11332, 0x11333, Script::Grantha),
    (0x11335, 0x11339, Script::Grantha),
    (0x1133b, 0x1133b, Script::Inherited),
    (0x1133c, 0x11344, Script::Grantha),
    (0x11347, 0x11348, Script::Grantha),
    (0x1134b, 0x1134d, Script::Grantha),
    (0x11350, 0x11350, Script::Grantha),
    (0x11357, 0x11357, Script::Grantha),
    (0x1135d, 0x11363, Script::Grantha),
    (0x11366, 0x1136c, Script::Grantha),
    (0x11370, 0x11374, Script::Grantha),
    (0x11400, 0x11459, Script::Newa),
    (0x1145b, 0x1145b, Script::Newa),
    (0x1145d, 0x1145f, Script::Newa),
    (0x11480, 0x114c7, Script::Tirhuta),
    (0x114d0, 0x114d9, Script::Tirhuta),
    (0x11580, 0x115b5, Script::Siddham),
    (0x115b8, 0x115dd, Script::Siddham),
    (0x11600, 0x11644, Script::Modi),
    (0x11650, 0x11659, Script::Modi),
    (0x11660, 0x1166c, Script::Mongolian),
    (0x11680, 0x116b8, Script::Takri),
    (0x116c0, 0x116c9, Script::Takri),
    (0x11700, 0x1171a, Script::Ahom),
    (0x1171d, 0x1172b, Script::Ahom),
    (0x11730, 0x1173f, Script::Ahom),
    (0x11800, 0x1183b, Script::Dogra),
    (0x118a0, 0x118f2, Script::WarangCiti),
    (0x118ff, 0x118ff, Script::WarangCiti),
    (0x119a0, 0x119a7, Script::Nandinagari),
    (0x119aa, 0x119d7, Script::Nandinagari),
    (0x119da, 0x119e4, Script::Nandinagari),
    (0x11a00, 0x11a47, Script::ZanabazarSquare),
    (0x11a50, 0x11aa2, Script::Soyombo),
    (0x11ac0, 0x11af8, Script::PauCinHau),
    (0x11c00, 0x11c08, Script::Bhaiksuki),
    (0x11c0a, 0x11c36, Script::Bhaiksuki),
    (0x11c38, 0x11c45, Script::Bhaiksuki),
    (0x11c50, 0x11c6c, Script::Bhaiksuki),
    (0x11c70, 0x11c8f, Script::Marchen),
    (0x11c92, 0x11ca7, Script::Marchen),
    (0x11ca9, 0x11cb6, Script::Marchen),
    (0x11d00, 0x11d06, Script::MasaramGondi),
    (0x11d08, 0x11d09, Script::MasaramGondi),
    (0x11d0b, 0x11d36, Script::MasaramGondi),
    (0x11d3a, 0x11d3a, Script::MasaramGondi),
    (0x11d3c, 0x11d3d, Script::MasaramGondi),
    (0x11d3f, 0x11d47, Script::MasaramGondi),
    (0x11d50, 0x11d59, Script::MasaramGondi),
    (0x11d60, 0x11d65, Script::GunjalaGondi),
    (0x11d67, 0x11d68, Script::GunjalaGondi),
    (0x11d6a, 0x11d8e, Script::GunjalaGondi),
    (0x11d90, 0x11d91, Script::GunjalaGondi),
    (0x11d93, 0x11d98, Script::GunjalaGondi),
    (0x11da0, 0x11da9, Script::GunjalaGondi),
    (0x11ee0, 0x11ef8, Script::Makasar),
    (0x11fc0, 0x11ff1, Script::Tamil),
    (0x11fff, 0x11fff, Script::Tamil),
    (0x12000, 0x12399, Script::Cuneiform),
    (0x12400, 0x1246e, Script::Cuneiform),
    (0x12470, 0x12474, Script::Cuneiform),
    (0x12480, 0x12543, Script::Cuneiform),
    (0x13000, 0x1342e, Script::EgyptianHieroglyphs),
    (0x13430, 0x13438, Script::EgyptianHieroglyphs),
    (0x14400, 0x14646, Script::AnatolianHieroglyphs),
    (0x16800, 0x16a38, Script::Bamum),
    (0x16a40, 0x16a5e, Script::Mro),
    (0x16a60, 0x16a69, Script::Mro),
    (0x16a6e, 0x16a6f, Script::Mro),
    (0x16ad0, 0x16aed, Script::BassaVah),
    (0x16af0, 0x16af5, Script::BassaVah),
    (0x16b00, 0x16b45, Script::PahawhHmong),
    (0x16b50, 0x16b59, Script::PahawhHmong),
    (0x16b5b, 0x16b61, Script::PahawhHmong),
    (0x16b63, 0x16b77, Script::PahawhHmong),
    (0x16b7d, 0x16b8f, Script::PahawhHmong),
    (0x16e40, 0x16e9a, Script::Medefaidrin),
    (0x16f00, 0x16f4a, Script::Miao),
    (0x16f4f, 0x16f87, Script::Miao),
    (0x16f8f, 0x16f9f, Script::Miao),
    (0x16fe0, 0x16fe0, Script::Tangut),
    (0x16fe1, 0x16fe1, Script::Nushu),
    (0x16fe2, 0x16fe3, Script::Han),
    (0x17000, 0x187f7, Script::Tangut),
    (0x18800, 0x18af2, Script::Tangut),
    (0x1b000, 0x1b000, Script::Katakana),
    (0x1b001, 0x1b11e, Script::Hiragana),
    (0x1b150, 0x1b152, Script::Hiragana),
    (0x1b164, 0x1b167, Script::Katakana),
    (0x1b170, 0x1b2fb, Script::Nushu),
    (0x1bc00, 0x1bc6a, Script::Duployan),
    (0x1bc70, 0x1bc7c, Script::Duployan),
    (0x1bc80, 0x1bc88, Script::Duployan),
    (0x1bc90, 0x1bc99, Script::Duployan),
    (0x1bc9c, 0x1bc9f, Script::Duployan),
    (0x1bca0, 0x1bca3, Script::Common),
    (0x1d000, 0x1d0f5, Script::Common),
    (0x1d100, 0x1d126, Script::Common),
    (0x1d129, 0x1d166, Script::Common),
    (0x1d167, 0x1d169, Script::Inherited),
    (0x1d16a, 0x1d17a, Script::Common),
    (0x1d17b, 0x1d182, Script::Inherited),
    (0x1d183, 0x1d184, Script::Common),
    (0x1d185, 0x1d18b, Script::Inherited),
    (0x1d18c, 0x1d1a9, Script::Common),
    (0x1d1aa, 0x1d1ad, Script::Inherited),
    (0x1d1ae, 0x1d1e8, Script::Common),
    (0x1d200, 0x1d245, Script::Greek),
    (0x1d2e0, 0x1d2f3, Script::Common),
    (0x1d300, 0x1d356, Script::Common),
    (0x1d360, 0x1d378, Script::Common),
    (0x1d400, 0x1d454, Script::Common),
    (0x1d456, 0x1d49c, Script::Common),
    (0x1d49e, 0x1d49f, Script::Common),
    (0x1d4a2, 0x1d4a2, Script::Common),
    (0x1d4a5, 0x1d4a6, Script::Common),
    (0x1d4a9, 0x1d4ac, Script::Common),
    (0x1d4ae, 0x1d4b9, Script::Common),
    (0x1d4bb, 0x1d4bb, Script::Common),
    (0x1d4bd, 0x1d4c3, Script::Common),
    (0x1d4c5, 0x1d505, Script::Common),
    (0x1d507, 0x1d50a, Script::Common),
    (0x1d50d, 0x1d514, Script::Common),
    (0x1d516, 0x1d51c, Script::Common),
    (0x1d51e, 0x1d539, Script::Common),
    (0x1d53b, 0x1d53e, Script::Common),
    (0x1d540, 0x1d544, Script::Common),
    (0x1d546, 0x1d546, Script::Common),
    (0x1d54a, 0x1d550, Script::Common),
    (0x1d552, 0x1d6a5, Script::Common),
    (0x1d6a8, 0x1d7cb, Script::Common),
    (0x1d7ce, 0x1d7ff, Script::Common),
    (0x1d800, 0x1da8b, Script::Signwriting),
    (0x1da9b, 0x1da9f, Script::Signwriting),
    (0x1daa1, 0x1daaf, Script::Signwriting),
    (0x1e000, 0x1e006, Script::Glagolitic),
    (0x1e008, 0x1e018, Script::Glagolitic),
    (0x1e01b, 0x1e021, Script::Glagolitic),
    (0x1e023, 0x1e024, Script::Glagolitic),
    (0x1e026, 0x1e02a, Script::Glagolitic),
    (0x1e100, 0x1e12c, Script::NyiakengPuachueHmong),
    (0x1e130, 0x1e13d, Script::NyiakengPuachueHmong),
    (0x1e140, 0x1e149, Script::NyiakengPuachueHmong),
    (0x1e14e, 0x1e14f, Script::NyiakengPuachueHmong),
    (0x1e2c0, 0x1e2f9, Script::Wancho),
    (0x1e2ff, 0x1e2ff, Script::Wancho),
    (0x1e800, 0x1e8c4, Script::MendeKikakui),
    (0x1e8c7, 0x1e8d6, Script::MendeKikakui),
    (0x1e900, 0x1e94b, Script::Adlam),
    (0x1e950, 0x1e959, Script::Adlam),
    (0x1e95e, 0x1e95f, Script::Adlam),
    (0x1ec71, 0x1ecb4, Script::Common),
    (0x1ed01, 0x1ed3d, Script::Common),
    (0x1ee00, 0x1ee03, Script::Arabic),
    (0x1ee05, 0x1ee1f, Script::Arabic),
    (0x1ee21, 0x1ee22, Script::Arabic),
    (0x1ee24, 0x1ee24, Script::Arabic),
    (0x1ee27, 0x1ee27, Script::Arabic),
    (0x1ee29, 0x1ee32, Script::Arabic),
    (0x1ee34, 0x1ee37, Script::Arabic),
    (0x1ee39, 0x1ee39, Script::Arabic),
    (0x1ee3b, 0x1ee3b, Script::Arabic),
    (0x1ee42, 0x1ee42, Script::Arabic),
    (0x1ee47, 0x1ee47, Script::Arabic),
    (0x1ee49, 0x1ee49, Script::Arabic),
    (0x1ee4b, 0x1ee4b, Script::Arabic),
    (0x1ee4d, 0x1ee4f, Script::Arabic),
    (0x1ee51, 0x1ee52, Script::Arabic),
    (0x1ee54, 0x1ee54, Script::Arabic),
    (0x1ee57, 0x1ee57, Script::Arabic),
    (0x1ee59, 0x1ee59, Script::Arabic),
    (0x1ee5b, 0x1ee5b, Script::Arabic),
    (0x1ee5d, 0x1ee5d, Script::Arabic),
    (0x1ee5f, 0x1ee5f, Script::Arabic),
    (0x1ee61, 0x1ee62, Script::Arabic),
    (0x1ee64, 0x1ee64, Script::Arabic),
    (0x1ee67, 0x1ee6a, Script::Arabic),
    (0x1ee6c, 0x1ee72, Script::Arabic),
    (0x1ee74, 0x1ee77, Script::Arabic),
    (0x1ee79, 0x1ee7c, Script::Arabic),
    (0x1ee7e, 0x1ee7e, Script::Arabic),
    (0x1ee80, 0x1ee89, Script::Arabic),
    (0x1ee8b, 0x1ee9b, Script::Arabic),
    (0x1eea1, 0x1eea3, Script::Arabic),
    (0x1eea5, 0x1eea9, Script::Arabic),
    (0x1eeab, 0x1eebb, Script::Arabic),
    (0x1eef0, 0x1eef1, Script::Arabic),
    (0x1f000, 0x1f02b, Script::Common),
    (0x1f030, 0x1f093, Script::Common),
    (0x1f0a0, 0x1f0ae, Script::Common),
    (0x1f0b1, 0x1f0bf, Script::Common),
    (0x1f0c1, 0x1f0cf, Script::Common),
    (0x1f0d1, 0x1f0f5, Script::Common),
    (0x1f100, 0x1f10c, Script::Common),
    (0x1f110, 0x1f16c, Script::Common),
    (0x1f170, 0x1f1ac, Script::Common),
    (0x1f1e6, 0x1f1ff, Script::Common),
    (0x1f200, 0x1f200, Script::Hiragana),
    (0x1f201, 0x1f202, Script::Common),
    (0x1f210, 0x1f23b, Script::Common),
    (0x1f240, 0x1f248, Script::Common),
    (0x1f250, 0x1f251, Script::Common),
    (0x1f260, 0x1f265, Script::Common),
    (0x1f300, 0x1f6d5, Script::Common),
    (0x1f6e0, 0x1f6ec, Script::Common),
    (0x1f6f0, 0x1f6fa, Script::Common),
    (0x1f700, 0x1f773, Script::Common),
    (0x1f780, 0x1f7d8, Script::Common),
    (0x1f7e0, 0x1f7eb, Script::Common),
    (0x1f800, 0x1f80b, Script::Common),
    (0x1f810, 0x1f847, Script::Common),
    (0x1f850, 0x1f859, Script::Common),
    (0x1f860, 0x1f887, Script::Common),
    (0x1f890, 0x1f8ad, Script::Common),
    (0x1f900, 0x1f90b, Script::Common),
    (0x1f90d, 0x1f971, Script::Common),
    (0x1f973, 0x1f976, Script::Common),
    (0x1f97a, 0x1f9a2, Script::Common),
    (0x1f9a5, 0x1f9aa, Script::Common),
    (0x1f9ae, 0x1f9ca, Script::Common),
    (0x1f9cd, 0x1fa53, Script::Common),
    (0x1fa60, 0x1fa6d, Script::Common),
    (0x1fa70, 0x1fa73, Script::Common),
    (0x1fa78, 0x1fa7a, Script::Common),
    (0x1fa80, 0x1fa82, Script::Common),
    (0x1fa90, 0x1fa95, Script::Common),
    (0x20000, 0x2a6d6, Script::Han),
    (0x2a700, 0x2b734, Script::Han),
    (0x2b740, 0x2b81d, Script::Han),
    (0x2b820, 0x2cea1, Script::Han),
    (0x2ceb0, 0x2ebe0, Script::Han),
    (0x2f800, 0x2fa1d, Script::Han),
    (0xe0001, 0xe0001, Script::Common),
    (0xe0020, 0xe007f, Script::Common),
    (0xe0100, 0xe01ef, Script::Inherited),
];

/// The shipped table as a sequence of ranges. It is opaque so that proofs
/// about lookups see its contents only where they reveal it.
#[verifier::opaque]
pub open spec fn script_table() -> Seq<(u32, u32, Script)> {
    SCRIPT@
}

/// Range `i` of the shipped table is ordered against its successor and is a
/// maximal run.
spec fn entry_valid(i: int) -> bool {
    &&& crate::ordered_at(SCRIPT@, i)
    &&& crate::maximal_run_at(SCRIPT@, i)
}

proof fn lemma_entries_0_64()
    ensures
        forall|i: int| 0 <= i < 64 ==> #[trigger] entry_valid(i),
{
    assert forall|i: int| 0 <= i < 64 implies #[trigger] entry_valid(i) by {
        assert(i == 0 || i == 1 || i == 2 || i == 3 || i == 4 || i == 5 || i == 6 || i == 7 || i == 8 || i == 9 || i == 10 || i == 11 || i == 12 || i == 13 || i == 14 || i == 15 || i == 16 || i == 17 || i == 18 || i == 19 || i == 20 || i == 21 || i == 22 || i == 23 || i == 24 || i == 25 || i == 26 || i == 27 || i == 28 || i == 29 || i == 30 || i == 31 || i == 32 || i == 33 || i == 34 || i == 35 || i == 36 || i == 37 || i == 38 || i == 39 || i == 40 || i == 41 || i == 42 || i == 43 || i == 44 || i == 45 || i == 46 || i == 47 || i == 48 || i == 49 || i == 50 || i == 51 || i == 52 || i == 53 || i == 54 || i == 55 || i == 56 || i == 57 || i == 58 || i == 59 || i == 60 || i == 61 || i == 62 || i == 63);
    }
}

proof fn lemma_entries_64_128()
    ensures
        forall|i: int| 64 <= i < 128 ==> #[trigger] entry_valid(i),
{
    assert forall|i: int| 64 <= i < 128 implies #[trigger] entry_valid(i) by {
        assert(i == 64 || i == 65 || i == 66 || i == 67 || i == 68 || i == 69 || i == 70 || i == 71 || i == 72 || i == 73 || i == 74 || i == 75 || i == 76 || i == 77 || i == 78 || i == 79 || i == 80 || i == 81 || i == 82 || i == 83 || i == 84 || i == 85 || i == 86 || i == 87 || i == 88 || i == 89 || i == 90 || i == 91 || i == 92 || i == 93 || i == 94 || i == 95 || i == 96 || i == 97 || i == 98 || i == 99 || i == 100 || i == 101 || i == 102 || i == 103 || i == 104 || i == 105 || i == 106 || i == 107 || i == 108 || i == 109 || i == 110 || i == 111 || i == 112 || i == 113 || i == 114 || i == 115 || i == 116 || i == 117 || i == 118 || i == 119 || i == 120 || i == 121 || i == 122 || i == 123 || i == 124 || i == 125 || i == 126 || i == 127);
    }
}

proof fn lemma_entries_128_192()
    ensures
        forall|i: int| 128 <= i < 192 ==> #[trigger] entry_valid(i),
{
    assert forall|i: int| 128 <= i < 192 implies #[trigger] entry_valid(i) by {
        assert(i == 128 || i == 129 || i == 130 || i == 131 || i == 132 || i == 133 || i == 134 || i == 135 || i == 136 || i == 137 || i == 138 || i == 139 || i == 140 || i == 141 || i == 142 || i == 143 || i == 144 || i == 145 || i == 146 || i == 147 || i == 148 || i == 149 || i == 150 || i == 151 || i == 152 || i == 153 || i == 154 || i == 155 || i == 156 || i == 157 || i == 158 || i == 159 || i == 160 || i == 161 || i == 162 || i == 163 || i == 164 || i == 165 || i == 166 || i == 167 || i == 168 || i == 169 || i == 170 || i == 171 || i == 172 || i == 173 || i == 174 || i == 175 || i == 176 || i == 177 || i == 178 || i == 179 || i == 180 || i == 181 || i == 182 || i == 183 || i == 184 || i == 185 || i == 186 || i == 187 || i == 188 || i == 189 || i == 190 || i == 191);
    }
}

proof fn lemma_entries_192_256()
    ensures
        forall|i: int| 192 <= i < 256 ==> #[trigger] entry_valid(i),
{
    assert forall|i: int| 192 <= i < 256 implies #[trigger] entry_valid(i) by {
        assert(i == 192 || i == 193 || i == 194 || i == 195 || i == 196 || i == 197 || i == 198 || i == 199 || i == 200 || i == 201 || i == 202 || i == 203 || i == 204 || i == 205 || i == 206 || i == 207 || i == 208 || i == 209 || i == 210 || i == 211 || i == 212 || i == 213 || i == 214 || i == 215 || i == 216 || i == 217 || i == 218 || i == 219 || i == 220 || i == 221 || i == 222 || i == 223 || i == 224 || i == 225 || i == 226 || i == 227 || i == 228 || i == 229 || i == 230 || i == 231 || i == 232 || i == 233 || i == 234 || i == 235 || i == 236 || i == 237 || i == 238 || i == 239 || i == 240 || i == 241 || i == 242 || i == 243 || i == 244 || i == 245 || i == 246 || i == 247 || i == 248 || i == 249 || i == 250 || i == 251 || i == 252 || i == 253 || i == 254 || i == 255);
    }
}

proof fn lemma_entries_256_320()
    ensures
        forall|i: int| 256 <= i < 320 ==> #[trigger] entry_valid(i),
{
    assert forall|i: int| 256 <= i < 320 implies #[trigger] entry_valid(i) by {
        assert(i == 256 || i == 257 || i == 258 || i == 259 || i == 260 || i == 261 || i == 262 || i == 263 || i == 264 || i == 265 || i == 266 || i == 267 || i == 268 || i == 269 || i == 270 || i == 271 || i == 272 || i == 273 || i == 274 || i == 275 || i == 276 || i == 277 || i == 278 || i == 279 || i == 280 || i == 281 || i == 282 || i == 283 || i == 284 || i == 285 || i == 286 || i == 287 || i == 288 || i == 289 || i == 290 || i == 291 || i == 292 || i == 293 || i == 294 || i == 295 || i == 296 || i == 297 || i == 298 || i == 299 || i == 300 || i == 301 || i == 302 || i == 303 || i == 304 || i == 305 || i == 306 || i == 307 || i == 308 || i == 309 || i == 310 || i == 311 || i == 312 || i == 313 || i == 314 || i == 315 || i == 316 || i == 317 || i == 318 || i == 319);
    }
}

proof fn lemma_entries_320_384()
    ensures
        forall|i: int| 320 <= i < 384 ==> #[trigger] entry_valid(i),
{
    assert forall|i: int| 320 <= i < 384 implies #[trigger] entry_valid(i) by {
        assert(i == 320 || i == 321 || i == 322 || i == 323 || i == 324 || i == 325 || i == 326 || i == 327 || i == 328 || i == 329 || i == 330 || i == 331 || i == 332 || i == 333 || i == 334 || i == 335 || i == 336 || i == 337 || i == 338 || i == 339 || i == 340 || i == 341 || i == 342 || i == 343 || i == 344 || i == 345 || i == 346 || i == 347 || i == 348 || i == 349 || i == 350 || i == 351 || i == 352 || i == 353 || i == 354 || i == 355 || i == 356 || i == 357 || i == 358 || i == 359 || i == 360 || i == 361 || i == 362 || i == 363 || i == 364 || i == 365 || i == 366 || i == 367 || i == 368 || i == 369 || i == 370 || i == 371 || i == 372 || i == 373 || i == 374 || i == 375 || i == 376 || i == 377 || i == 378 || i == 379 || i == 380 || i == 381 || i == 382 || i == 383);
    }
}

proof fn lemma_entries_384_448()
    ensures
        forall|i: int| 384 <= i < 448 ==> #[trigger] entry_valid(i),
{
    assert forall|i: int| 384 <= i < 448 implies #[trigger] entry_valid(i) by {
        assert(i == 384 || i == 385 || i == 386 || i == 387 || i == 388 || i == 389 || i == 390 || i == 391 || i == 392 || i == 393 || i == 394 || i == 395 || i == 396 || i == 397 || i == 398 || i == 399 || i == 400 || i == 401 || i == 402 || i == 403 || i == 404 || i == 405 || i == 406 || i == 407 || i == 408 || i == 409 || i == 410 || i == 411 || i == 412 || i == 413 || i == 414 || i == 415 || i == 416 || i == 417 || i == 418 || i == 419 || i == 420 || i == 421 || i == 422 || i == 423 || i == 424 || i == 425 || i == 426 || i == 427 || i == 428 || i == 429 || i == 430 || i == 431 || i == 432 || i == 433 || i == 434 || i == 435 || i == 436 || i == 437 || i == 438 || i == 439 || i == 440 || i == 441 || i == 442 || i == 443 || i == 444 || i == 445 || i == 446 || i == 447);
    }
}

proof fn lemma_entries_448_512()
    ensures
        forall|i: int| 448 <= i < 512 ==> #[trigger] entry_valid(i),
{
    assert forall|i: int| 448 <= i < 512 implies #[trigger] entry_valid(i) by {
        assert(i == 448 || i == 449 || i == 450 || i == 451 || i == 452 || i == 453 || i == 454 || i == 455 || i == 456 || i == 457 || i == 458 || i == 459 || i == 460 || i == 461 || i == 462 || i == 463 || i == 464 || i == 465 || i == 466 || i == 467 || i == 468 || i == 469 || i == 470 || i == 471 || i == 472 || i == 473 || i == 474 || i == 475 || i == 476 || i == 477 || i == 478 || i == 479 || i == 480 || i == 481 || i == 482 || i == 483 || i == 484 || i == 485 || i == 486 || i == 487 || i == 488 || i == 489 || i == 490 || i == 491 || i == 492 || i == 493 || i == 494 || i == 495 || i == 496 || i == 497 || i == 498 || i == 499 || i == 500 || i == 501 || i == 502 || i == 503 || i == 504 || i == 505 || i == 506 || i == 507 || i == 508 || i == 509 || i == 510 || i == 511);
    }
}

proof fn lemma_entries_512_576()
    ensures
        forall|i: int| 512 <= i < 576 ==> #[trigger] entry_valid(i),
{
    assert forall|i: int| 512 <= i < 576 implies #[trigger] entry_valid(i) by {
        assert(i == 512 || i == 513 || i == 514 || i == 515 || i == 516 || i == 517 || i == 518 || i == 519 || i == 520 || i == 521 || i == 522 || i == 523 || i == 524 || i == 525 || i == 526 || i == 527 || i == 528 || i == 529 || i == 530 || i == 531 || i == 532 || i == 533 || i == 534 || i == 535 || i == 536 || i == 537 || i == 538 || i == 539 || i == 540 || i == 541 || i == 542 || i == 543 || i == 544 || i == 545 || i == 546 || i == 547 || i == 548 || i == 549 || i == 550 || i == 551 || i == 552 || i == 553 || i == 554 || i == 555 || i == 556 || i == 557 || i == 558 || i == 559 || i == 560 || i == 561 || i == 562 || i == 563 || i == 564 || i == 565 || i == 566 || i == 567 || i == 568 || i == 569 || i == 570 || i == 571 || i == 572 || i == 573 || i == 574 || i == 575);
    }
}

proof fn lemma_entries_576_640()
    ensures
        forall|i: int| 576 <= i < 640 ==> #[trigger] entry_valid(i),
{
    assert forall|i: int| 576 <= i < 640 implies #[trigger] entry_valid(i) by {
        assert(i == 576 || i == 577 || i == 578 || i == 579 || i == 580 || i == 581 || i == 582 || i == 583 || i == 584 || i == 585 || i == 586 || i == 587 || i == 588 || i == 589 || i == 590 || i == 591 || i == 592 || i == 593 || i == 594 || i == 595 || i == 596 || i == 597 || i == 598 || i == 599 || i == 600 || i == 601 || i == 602 || i == 603 || i == 604 || i == 605 || i == 606 || i == 607 || i == 608 || i == 609 || i == 610 || i == 611 || i == 612 || i == 613 || i == 614 || i == 615 || i == 616 || i == 617 || i == 618 || i == 619 || i == 620 || i == 621 || i == 622 || i == 623 || i == 624 || i == 625 || i == 626 || i == 627 || i == 628 || i == 629 || i == 630 || i == 631 || i == 632 || i == 633 || i == 634 || i == 635 || i == 636 || i == 637 || i == 638 || i == 639);
    }
}

proof fn lemma_entries_640_704()
    ensures
        forall|i: int| 640 <= i < 704 ==> #[trigger] entry_valid(i),
{
    assert forall|i: int| 640 <= i < 704 implies #[trigger] entry_valid(i) by {
        assert(i == 640 || i == 641 || i == 642 || i == 643 || i == 644 || i == 645 || i == 646 || i == 647 || i == 648 || i == 649 || i == 650 || i == 651 || i == 652 || i == 653 || i == 654 || i == 655 || i == 656 || i == 657 || i == 658 || i == 659 || i == 660 || i == 661 || i == 662 || i == 663 || i == 664 || i == 665 || i == 666 || i == 667 || i == 668 || i == 669 || i == 670 || i == 671 || i == 672 || i == 673 || i == 674 || i == 675 || i == 676 || i == 677 || i == 678 || i == 679 || i == 680 || i == 681 || i == 682 || i == 683 || i == 684 || i == 685 || i == 686 || i == 687 || i == 688 || i == 689 || i == 690 || i == 691 || i == 692 || i == 693 || i == 694 || i == 695 || i == 696 || i == 697 || i == 698 || i == 699 || i == 700 || i == 701 || i == 702 || i == 703);
    }
}

proof fn lemma_entries_704_768()
    ensures
        forall|i: int| 704 <= i < 768 ==> #[trigger] entry_valid(i),
{
    assert forall|i: int| 704 <= i < 768 implies #[trigger] entry_valid(i) by {
        assert(i == 704 || i == 705 || i == 706 || i == 707 || i == 708 || i == 709 || i == 710 || i == 711 || i == 712 || i == 713 || i == 714 || i == 715 || i == 716 || i == 717 || i == 718 || i == 719 || i == 720 || i == 721 || i == 722 || i == 723 || i == 724 || i == 725 || i == 726 || i == 727 || i == 728 || i == 729 || i == 730 || i == 731 || i == 732 || i == 733 || i == 734 || i == 735 || i == 736 || i == 737 || i == 738 || i == 739 || i == 740 || i == 741 || i == 742 || i == 743 || i == 744 || i == 745 || i == 746 || i == 747 || i == 748 || i == 749 || i == 750 || i == 751 || i == 752 || i == 753 || i == 754 || i == 755 || i == 756 || i == 757 || i == 758 || i == 759 || i == 760 || i == 761 || i == 762 || i == 763 || i == 764 || i == 765 || i == 766 || i == 767);
    }
}

proof fn lemma_entries_768_832()
    ensures
        forall|i: int| 768 <= i < 832 ==> #[trigger] entry_valid(i),
{
    assert forall|i: int| 768 <= i < 832 implies #[trigger] entry_valid(i) by {
        assert(i == 768 || i == 769 || i == 770 || i == 771 || i == 772 || i == 773 || i == 774 || i == 775 || i == 776 || i == 777 || i == 778 || i == 779 || i == 780 || i == 781 || i == 782 || i == 783 || i == 784 || i == 785 || i == 786 || i == 787 || i == 788 || i == 789 || i == 790 || i == 791 || i == 792 || i == 793 || i == 794 || i == 795 || i == 796 || i == 797 || i == 798 || i == 799 || i == 800 || i == 801 || i == 802 || i == 803 || i == 804 || i == 805 || i == 806 || i == 807 || i == 808 || i == 809 || i == 810 || i == 811 || i == 812 || i == 813 || i == 814 || i == 815 || i == 816 || i == 817 || i == 818 || i == 819 || i == 820 || i == 821 || i == 822 || i == 823 || i == 824 || i == 825 || i == 826 || i == 827 || i == 828 || i == 829 || i == 830 || i == 831);
    }
}

proof fn lemma_entries_832_895()
    ensures
        forall|i: int| 832 <= i < 895 ==> #[trigger] entry_valid(i),
{
    assert forall|i: int| 832 <= i < 895 implies #[trigger] entry_valid(i) by {
        assert(i == 832 || i == 833 || i == 834 || i == 835 || i == 836 || i == 837 || i == 838 || i == 839 || i == 840 || i == 841 || i == 842 || i == 843 || i == 844 || i == 845 || i == 846 || i == 847 || i == 848 || i == 849 || i == 850 || i == 851 || i == 852 || i == 853 || i == 854 || i == 855 || i == 856 || i == 857 || i == 858 || i == 859 || i == 860 || i == 861 || i == 862 || i == 863 || i == 864 || i == 865 || i == 866 || i == 867 || i == 868 || i == 869 || i == 870 || i == 871 || i == 872 || i == 873 || i == 874 || i == 875 || i == 876 || i == 877 || i == 878 || i == 879 || i == 880 || i == 881 || i == 882 || i == 883 || i == 884 || i == 885 || i == 886 || i == 887 || i == 888 || i == 889 || i == 890 || i == 891 || i == 892 || i == 893 || i == 894);
    }
}

/// The shipped table is well formed and made of maximal runs.
pub proof fn lemma_script_table_valid()
    ensures
        crate::well_formed(script_table()),
        crate::maximal_runs(script_table()),
{
    lemma_entries_0_64();
    lemma_entries_64_128();
    lemma_entries_128_192();
    lemma_entries_192_256();
    lemma_entries_256_320();
    lemma_entries_320_384();
    lemma_entries_384_448();
    lemma_entries_448_512();
    lemma_entries_512_576();
    lemma_entries_576_640();
    lemma_entries_640_704();
    lemma_entries_704_768();
    lemma_entries_768_832();
    lemma_entries_832_895();
    let t = SCRIPT@;
    assert forall|i: int| 0 <= i < t.len() implies #[trigger] crate::ordered_at(t, i) by {
        assert(entry_valid(i));
    }
    assert forall|i: int| 0 <= i < t.len() implies #[trigger] crate::maximal_run_at(t, i) by {
        assert(entry_valid(i));
    }
    crate::lemma_valid_from_entries(t);
    assert(script_table() == t) by {
        reveal(script_table);
    }
}

} // verus!
