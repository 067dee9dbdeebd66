//! HarfBuzz script codes for the library's scripts.
use vstd::prelude::*;

use crate::tables::Script;

verus! {

/// The HarfBuzz script code (`hb_script_t`) that `s` maps to.
pub open spec fn hb_code(s: Script) -> u32 {
    match s {
        Script::Adlam => 1097100397,
        Script::Ahom => 1097363309,
        Script::AnatolianHieroglyphs => 1215067511,
        Script::Arabic => 1098015074,
        Script::Armenian => 1098018158,
        Script::Avestan => 1098281844,
        Script::Balinese => 1113681001,
        Script::Bamum => 1113681269,
        Script::BassaVah => 1113682803,
        Script::Batak => 1113683051,
        Script::Bengali => 1113943655,
        Script::Bhaiksuki => 1114139507,
        Script::Bopomofo => 1114599535,
        Script::Brahmi => 1114792296,
        Script::Braille => 1114792297,
        Script::Buginese => 1114990441,
        Script::Buhid => 1114990692,
        Script::CanadianAboriginal => 1130458739,
        Script::Carian => 1130459753,
        Script::CaucasianAlbanian => 1097295970,
        Script::Chakma => 1130457965,
        Script::Cham => 1130914157,
        Script::Cherokee => 1130915186,
        Script::Common => 1517910393,
        Script::Coptic => 1131376756,
        Script::Cuneiform => 1483961720,
        Script::Cypriot => 1131442804,
        Script::Cyrillic => 1132032620,
        Script::Deseret => 1148416628,
        Script::Devanagari => 1147500129,
        Script::Dogra => 1148151666,
        Script::Duployan => 1148547180,
        Script::EgyptianHieroglyphs => 1164409200,
        Script::Elbasan => 1164730977,
        Script::Elymaic => 1164736877,
        Script::Ethiopic => 1165256809,
        Script::Georgian => 1197830002,
        Script::Glagolitic => 1198285159,
        Script::Gothic => 1198486632,
        Script::Grantha => 1198678382,
        Script::Greek => 1198679403,
        Script::Gujarati => 1198877298,
        Script::GunjalaGondi => 1198485095,
        Script::Gurmukhi => 1198879349,
        Script::Han => 1214344809,
        Script::Hangul => 1214344807,
        Script::HanifiRohingya => 1383032935,
        Script::Hanunoo => 1214344815,
        Script::Hatran => 1214346354,
        Script::Hebrew => 1214603890,
        Script::Hiragana => 1214870113,
        Script::ImperialAramaic => 1098018153,
        Script::Inherited => 1516858984,
        Script::InscriptionalPahlavi => 1349020777,
        Script::InscriptionalParthian => 1349678185,
        Script::Javanese => 1247901281,
        Script::Kaithi => 1265920105,
        Script::Kannada => 1265525857,
        Script::Katakana => 1264676449,
        Script::KayahLi => 1264675945,
        Script::Kharoshthi => 1265131890,
        Script::Khmer => 1265134962,
        Script::Khojki => 1265135466,
        Script::Khudawadi => 1399418468,
        Script::Lao => 1281453935,
        Script::Latin => 1281455214,
        Script::Lepcha => 1281716323,
        Script::Limbu => 1281977698,
        Script::LinearA => 1281977953,
        Script::LinearB => 1281977954,
        Script::Lisu => 1281979253,
        Script::Lycian => 1283023721,
        Script::Lydian => 1283023977,
        Script::Mahajani => 1298229354,
        Script::Makasar => 1298230113,
        Script::Malayalam => 1298954605,
        Script::Mandaic => 1298230884,
        Script::Manichaean => 1298230889,
        Script::Marchen => 1298231907,
        Script::MasaramGondi => 1198485101,
        Script::Medefaidrin => 1298490470,
        Script::MeeteiMayek => 1299473769,
        Script::MendeKikakui => 1298493028,
        Script::MeroiticCursive => 1298494051,
        Script::MeroiticHieroglyphs => 1298494063,
        Script::Miao => 1349284452,
        Script::Modi => 1299145833,
        Script::Mongolian => 1299148391,
        Script::Mro => 1299345263,
        Script::Multani => 1299541108,
        Script::Myanmar => 1299803506,
        Script::Nabataean => 1315070324,
        Script::Nandinagari => 1315008100,
        Script::NewTaiLue => 1415670901,
        Script::Newa => 1315272545,
        Script::Nko => 1315663727,
        Script::Nushu => 1316186229,
        Script::NyiakengPuachueHmong => 1215131248,
        Script::Ogham => 1332175213,
        Script::OlChiki => 1332503403,
        Script::OldHungarian => 1215655527,
        Script::OldItalic => 1232363884,
        Script::OldNorthArabian => 1315009122,
        Script::OldPermic => 1348825709,
        Script::OldPersian => 1483761007,
        Script::OldSogdian => 1399809903,
        Script::OldSouthArabian => 1398895202,
        Script::OldTurkic => 1332898664,
        Script::Oriya => 1332902241,
        Script::Osage => 1332963173,
        Script::Osmanya => 1332964705,
        Script::PahawhHmong => 1215131239,
        Script::Palmyrene => 1348562029,
        Script::PauCinHau => 1348564323,
        Script::PhagsPa => 1349017959,
        Script::Phoenician => 1349021304,
        Script::PsalterPahlavi => 1349020784,
        Script::Rejang => 1382706791,
        Script::Runic => 1383427698,
        Script::Samaritan => 1398893938,
        Script::Saurashtra => 1398895986,
        Script::Sharada => 1399353956,
        Script::Shavian => 1399349623,
        Script::Siddham => 1399415908,
        Script::Signwriting => 1399287415,
        Script::Sinhala => 1399418472,
        Script::Sogdian => 1399809892,
        Script::SoraSompeng => 1399812705,
        Script::Soyombo => 1399814511,
        Script::Sundanese => 1400204900,
        Script::SylotiNagri => 1400466543,
        Script::Syriac => 1400468067,
        Script::Tagalog => 1416064103,
        Script::Tagbanwa => 1415669602,
        Script::TaiLe => 1415670885,
        Script::TaiTham => 1281453665,
        Script::TaiViet => 1415673460,
        Script::Takri => 1415670642,
        Script::Tamil => 1415671148,
        Script::Tangut => 1415671399,
        Script::Telugu => 1415933045,
        Script::Thaana => 1416126817,
        Script::Thai => 1416126825,
        Script::Tibetan => 1416192628,
        Script::Tifinagh => 1415999079,
        Script::Tirhuta => 1416196712,
        Script::Ugaritic => 1432838514,
        Script::Unknown => 1517976186,
        Script::Vai => 1449224553,
        Script::Wancho => 1466132591,
        Script::WarangCiti => 1466004065,
        Script::Yi => 1500080489,
        Script::ZanabazarSquare => 1516334690,
    }
}

/// The script whose HarfBuzz code is `code`, if any.
pub open spec fn script_of_hb_code(code: u32) -> Option<Script> {
    if code == 1097100397 {
        Some(Script::Adlam)
    } else if code == 1097363309 {
        Some(Script::Ahom)
    } else if code == 1215067511 {
        Some(Script::AnatolianHieroglyphs)
    } else if code == 1098015074 {
        Some(Script::Arabic)
    } else if code == 1098018158 {
        Some(Script::Armenian)
    } else if code == 1098281844 {
        Some(Script::Avestan)
    } else if code == 1113681001 {
        Some(Script::Balinese)
    } else if code == 1113681269 {
        Some(Script::Bamum)
    } else if code == 1113682803 {
        Some(Script::BassaVah)
    } else if code == 1113683051 {
        Some(Script::Batak)
    } else if code == 1113943655 {
        Some(Script::Bengali)
    } else if code == 1114139507 {
        Some(Script::Bhaiksuki)
    } else if code == 1114599535 {
        Some(Script::Bopomofo)
    } else if code == 1114792296 {
        Some(Script::Brahmi)
    } else if code == 1114792297 {
        Some(Script::Braille)
    } else if code == 1114990441 {
        Some(Script::Buginese)
    } else if code == 1114990692 {
        Some(Script::Buhid)
    } else if code == 1130458739 {
        Some(Script::CanadianAboriginal)
    } else if code == 1130459753 {
        Some(Script::Carian)
    } else if code == 1097295970 {
        Some(Script::CaucasianAlbanian)
    } else if code == 1130457965 {
        Some(Script::Chakma)
    } else if code == 1130914157 {
        Some(Script::Cham)
    } else if code == 1130915186 {
        Some(Script::Cherokee)
    } else if code == 1517910393 {
        Some(Script::Common)
    } else if code == 1131376756 {
        Some(Script::Coptic)
    } else if code == 1483961720 {
        Some(Script::Cuneiform)
    } else if code == 1131442804 {
        Some(Script::Cypriot)
    } else if code == 1132032620 {
        Some(Script::Cyrillic)
    } else if code == 1148416628 {
        Some(Script::Deseret)
    } else if code == 1147500129 {
        Some(Script::Devanagari)
    } else if code == 1148151666 {
        Some(Script::Dogra)
    } else if code == 1148547180 {
        Some(Script::Duployan)
    } else if code == 1164409200 {
        Some(Script::EgyptianHieroglyphs)
    } else if code == 1164730977 {
        Some(Script::Elbasan)
    } else if code == 1164736877 {
        Some(Script::Elymaic)
    } else if code == 1165256809 {
        Some(Script::Ethiopic)
    } else if code == 1197830002 {
        Some(Script::Georgian)
    } else if code == 1198285159 {
        Some(Script::Glagolitic)
    } else if code == 1198486632 {
        Some(Script::Gothic)
    } else if code == 1198678382 {
        Some(Script::Grantha)
    } else if code == 1198679403 {
        Some(Script::Greek)
    } else if code == 1198877298 {
        Some(Script::Gujarati)
    } else if code == 1198485095 {
        Some(Script::GunjalaGondi)
    } else if code == 1198879349 {
        Some(Script::Gurmukhi)
    } else if code == 1214344809 {
        Some(Script::Han)
    } else if code == 1214344807 {
        Some(Script::Hangul)
    } else if code == 1383032935 {
        Some(Script::HanifiRohingya)
    } else if code == 1214344815 {
        Some(Script::Hanunoo)
    } else if code == 1214346354 {
        Some(Script::Hatran)
    } else if code == 1214603890 {
        Some(Script::Hebrew)
    } else if code == 1214870113 {
        Some(Script::Hiragana)
    } else if code == 1098018153 {
        Some(Script::ImperialAramaic)
    } else if code == 1516858984 {
        Some(Script::Inherited)
    } else if code == 1349020777 {
        Some(Script::InscriptionalPahlavi)
    } else if code == 1349678185 {
        Some(Script::InscriptionalParthian)
    } else if code == 1247901281 {
        Some(Script::Javanese)
    } else if code == 1265920105 {
        Some(Script::Kaithi)
    } else if code == 1265525857 {
        Some(Script::Kannada)
    } else if code == 1264676449 {
        Some(Script::Katakana)
    } else if code == 1264675945 {
        Some(Script::KayahLi)
    } else if code == 1265131890 {
        Some(Script::Kharoshthi)
    } else if code == 1265134962 {
        Some(Script::Khmer)
    } else if code == 1265135466 {
        Some(Script::Khojki)
    } else if code == 1399418468 {
        Some(Script::Khudawadi)
    } else if code == 1281453935 {
        Some(Script::Lao)
    } else if code == 1281455214 {
        Some(Script::Latin)
    } else if code == 1281716323 {
        Some(Script::Lepcha)
    } else if code == 1281977698 {
        Some(Script::Limbu)
    } else if code == 1281977953 {
        Some(Script::LinearA)
    } else if code == 1281977954 {
        Some(Script::LinearB)
    } else if code == 1281979253 {
        Some(Script::Lisu)
    } else if code == 1283023721 {
        Some(Script::Lycian)
    } else if code == 1283023977 {
        Some(Script::Lydian)
    } else if code == 1298229354 {
        Some(Script::Mahajani)
    } else if code == 1298230113 {
        Some(Script::Makasar)
    } else if code == 1298954605 {
        Some(Script::Malayalam)
    } else if code == 1298230884 {
        Some(Script::Mandaic)
    } else if code == 1298230889 {
        Some(Script::Manichaean)
    } else if code == 1298231907 {
        Some(Script::Marchen)
    } else if code == 1198485101 {
        Some(Script::MasaramGondi)
    } else if code == 1298490470 {
        Some(Script::Medefaidrin)
    } else if code == 1299473769 {
        Some(Script::MeeteiMayek)
    } else if code == 1298493028 {
        Some(Script::MendeKikakui)
    } else if code == 1298494051 {
        Some(Script::MeroiticCursive)
    } else if code == 1298494063 {
        Some(Script::MeroiticHieroglyphs)
    } else if code == 1349284452 {
        Some(Script::Miao)
    } else if code == 1299145833 {
        Some(Script::Modi)
    } else if code == 1299148391 {
        Some(Script::Mongolian)
    } else if code == 1299345263 {
        Some(Script::Mro)
    } else if code == 1299541108 {
        Some(Script::Multani)
    } else if code == 1299803506 {
        Some(Script::Myanmar)
    } else if code == 1315070324 {
        Some(Script::Nabataean)
    } else if code == 1315008100 {
        Some(Script::Nandinagari)
    } else if code == 1415670901 {
        Some(Script::NewTaiLue)
    } else if code == 1315272545 {
        Some(Script::Newa)
    } else if code == 1315663727 {
        Some(Script::Nko)
    } else if code == 1316186229 {
        Some(Script::Nushu)
    } else if code == 1215131248 {
        Some(Script::NyiakengPuachueHmong)
    } else if code == 1332175213 {
        Some(Script::Ogham)
    } else if code == 1332503403 {
        Some(Script::OlChiki)
    } else if code == 1215655527 {
        Some(Script::OldHungarian)
    } else if code == 1232363884 {
        Some(Script::OldItalic)
    } else if code == 1315009122 {
        Some(Script::OldNorthArabian)
    } else if code == 1348825709 {
        Some(Script::OldPermic)
    } else if code == 1483761007 {
        Some(Script::OldPersian)
    } else if code == 1399809903 {
        Some(Script::OldSogdian)
    } else if code == 1398895202 {
        Some(Script::OldSouthArabian)
    } else if code == 1332898664 {
        Some(Script::OldTurkic)
    } else if code == 1332902241 {
        Some(Script::Oriya)
    } else if code == 1332963173 {
        Some(Script::Osage)
    } else if code == 1332964705 {
        Some(Script::Osmanya)
    } else if code == 1215131239 {
        Some(Script::PahawhHmong)
    } else if code == 1348562029 {
        Some(Script::Palmyrene)
    } else if code == 1348564323 {
        Some(Script::PauCinHau)
    } else if code == 1349017959 {
        Some(Script::PhagsPa)
    } else if code == 1349021304 {
        Some(Script::Phoenician)
    } else if code == 1349020784 {
        Some(Script::PsalterPahlavi)
    } else if code == 1382706791 {
        Some(Script::Rejang)
    } else if code == 1383427698 {
        Some(Script::Runic)
    } else if code == 1398893938 {
        Some(Script::Samaritan)
    } else if code == 1398895986 {
        Some(Script::Saurashtra)
    } else if code == 1399353956 {
        Some(Script::Sharada)
    } else if code == 1399349623 {
        Some(Script::Shavian)
    } else if code == 1399415908 {
        Some(Script::Siddham)
    } else if code == 1399287415 {
        Some(Script::Signwriting)
    } else if code == 1399418472 {
        Some(Script::Sinhala)
    } else if code == 1399809892 {
        Some(Script::Sogdian)
    } else if code == 1399812705 {
        Some(Script::SoraSompeng)
    } else if code == 1399814511 {
        Some(Script::Soyombo)
    } else if code == 1400204900 {
        Some(Script::Sundanese)
    } else if code == 1400466543 {
        Some(Script::SylotiNagri)
    } else if code == 1400468067 {
        Some(Script::Syriac)
    } else if code == 1416064103 {
        Some(Script::Tagalog)
    } else if code == 1415669602 {
        Some(Script::Tagbanwa)
    } else if code == 1415670885 {
        Some(Script::TaiLe)
    } else if code == 1281453665 {
        Some(Script::TaiTham)
    } else if code == 1415673460 {
        Some(Script::TaiViet)
    } else if code == 1415670642 {
        Some(Script::Takri)
    } else if code == 1415671148 {
        Some(Script::Tamil)
    } else if code == 1415671399 {
        Some(Script::Tangut)
    } else if code == 1415933045 {
        Some(Script::Telugu)
    } else if code == 1416126817 {
        Some(Script::Thaana)
    } else if code == 1416126825 {
        Some(Script::Thai)
    } else if code == 1416192628 {
        Some(Script::Tibetan)
    } else if code == 1415999079 {
        Some(Script::Tifinagh)
    } else if code == 1416196712 {
        Some(Script::Tirhuta)
    } else if code == 1432838514 {
        Some(Script::Ugaritic)
    } else if code == 1517976186 {
        Some(Script::Unknown)
    } else if code == 1449224553 {
        Some(Script::Vai)
    } else if code == 1466132591 {
        Some(Script::Wancho)
    } else if code == 1466004065 {
        Some(Script::WarangCiti)
    } else if code == 1500080489 {
        Some(Script::Yi)
    } else if code == 1516334690 {
        Some(Script::ZanabazarSquare)
    } else {
        None
    }
}

/// Relies on harfbuzz_sys::HB_SCRIPT_ADLAM: its value.
#[verifier::external_body]
fn hb_script_adlam() -> (r: u32)
    ensures
        r == 1097100397,
{
    harfbuzz_sys::HB_SCRIPT_ADLAM
}

/// Relies on harfbuzz_sys::HB_SCRIPT_AHOM: its value.
#[verifier::external_body]
fn hb_script_ahom() -> (r: u32)
    ensures
        r == 1097363309,
{
    harfbuzz_sys::HB_SCRIPT_AHOM
}

/// Relies on harfbuzz_sys::HB_SCRIPT_ANATOLIAN_HIEROGLYPHS: its value.
#[verifier::external_body]
fn hb_script_anatolian_hieroglyphs() -> (r: u32)
    ensures
        r == 1215067511,
{
    harfbuzz_sys::HB_SCRIPT_ANATOLIAN_HIEROGLYPHS
}

/// Relies on harfbuzz_sys::HB_SCRIPT_ARABIC: its value.
#[verifier::external_body]
fn hb_script_arabic() -> (r: u32)
    ensures
        r == 1098015074,
{
    harfbuzz_sys::HB_SCRIPT_ARABIC
}

/// Relies on harfbuzz_sys::HB_SCRIPT_ARMENIAN: its value.
#[verifier::external_body]
fn hb_script_armenian() -> (r: u32)
    ensures
        r == 1098018158,
{
    harfbuzz_sys::HB_SCRIPT_ARMENIAN
}

/// Relies on harfbuzz_sys::HB_SCRIPT_AVESTAN: its value.
#[verifier::external_body]
fn hb_script_avestan() -> (r: u32)
    ensures
        r == 1098281844,
{
    harfbuzz_sys::HB_SCRIPT_AVESTAN
}

/// Relies on harfbuzz_sys::HB_SCRIPT_BALINESE: its value.
#[verifier::external_body]
fn hb_script_balinese() -> (r: u32)
    ensures
        r == 1113681001,
{
    harfbuzz_sys::HB_SCRIPT_BALINESE
}

/// Relies on harfbuzz_sys::HB_SCRIPT_BAMUM: its value.
#[verifier::external_body]
fn hb_script_bamum() -> (r: u32)
    ensures
        r == 1113681269,
{
    harfbuzz_sys::HB_SCRIPT_BAMUM
}

/// Relies on harfbuzz_sys::HB_SCRIPT_BASSA_VAH: its value.
#[verifier::external_body]
fn hb_script_bassa_vah() -> (r: u32)
    ensures
        r == 1113682803,
{
    harfbuzz_sys::HB_SCRIPT_BASSA_VAH
}

/// Relies on harfbuzz_sys::HB_SCRIPT_BATAK: its value.
#[verifier::external_body]
fn hb_script_batak() -> (r: u32)
    ensures
        r == 1113683051,
{
    harfbuzz_sys::HB_SCRIPT_BATAK
}

/// Relies on harfbuzz_sys::HB_SCRIPT_BENGALI: its value.
#[verifier::external_body]
fn hb_script_bengali() -> (r: u32)
    ensures
        r == 1113943655,
{
    harfbuzz_sys::HB_SCRIPT_BENGALI
}

/// Relies on harfbuzz_sys::HB_SCRIPT_BHAIKSUKI: its value.
#[verifier::external_body]
fn hb_script_bhaiksuki() -> (r: u32)
    ensures
        r == 1114139507,
{
    harfbuzz_sys::HB_SCRIPT_BHAIKSUKI
}

/// Relies on harfbuzz_sys::HB_SCRIPT_BOPOMOFO: its value.
#[verifier::external_body]
fn hb_script_bopomofo() -> (r: u32)
    ensures
        r == 1114599535,
{
    harfbuzz_sys::HB_SCRIPT_BOPOMOFO
}

/// Relies on harfbuzz_sys::HB_SCRIPT_BRAHMI: its value.
#[verifier::external_body]
fn hb_script_brahmi() -> (r: u32)
    ensures
        r == 1114792296,
{
    harfbuzz_sys::HB_SCRIPT_BRAHMI
}

/// Relies on harfbuzz_sys::HB_SCRIPT_BRAILLE: its value.
#[verifier::external_body]
fn hb_script_braille() -> (r: u32)
    ensures
        r == 1114792297,
{
    harfbuzz_sys::HB_SCRIPT_BRAILLE
}

/// Relies on harfbuzz_sys::HB_SCRIPT_BUGINESE: its value.
#[verifier::external_body]
fn hb_script_buginese() -> (r: u32)
    ensures
        r == 1114990441,
{
    harfbuzz_sys::HB_SCRIPT_BUGINESE
}

/// Relies on harfbuzz_sys::HB_SCRIPT_BUHID: its value.
#[verifier::external_body]
fn hb_script_buhid() -> (r: u32)
    ensures
        r == 1114990692,
{
    harfbuzz_sys::HB_SCRIPT_BUHID
}

/// Relies on harfbuzz_sys::HB_SCRIPT_CANADIAN_SYLLABICS: its value.
#[verifier::external_body]
fn hb_script_canadian_syllabics() -> (r: u32)
    ensures
        r == 1130458739,
{
    harfbuzz_sys::HB_SCRIPT_CANADIAN_SYLLABICS
}

/// Relies on harfbuzz_sys::HB_SCRIPT_CARIAN: its value.
#[verifier::external_body]
fn hb_script_carian() -> (r: u32)
    ensures
        r == 1130459753,
{
    harfbuzz_sys::HB_SCRIPT_CARIAN
}

/// Relies on harfbuzz_sys::HB_SCRIPT_CAUCASIAN_ALBANIAN: its value.
#[verifier::external_body]
fn hb_script_caucasian_albanian() -> (r: u32)
    ensures
        r == 1097295970,
{
    harfbuzz_sys::HB_SCRIPT_CAUCASIAN_ALBANIAN
}

/// Relies on harfbuzz_sys::HB_SCRIPT_CHAKMA: its value.
#[verifier::external_body]
fn hb_script_chakma() -> (r: u32)
    ensures
        r == 1130457965,
{
    harfbuzz_sys::HB_SCRIPT_CHAKMA
}

/// Relies on harfbuzz_sys::HB_SCRIPT_CHAM: its value.
#[verifier::external_body]
fn hb_script_cham() -> (r: u32)
    ensures
        r == 1130914157,
{
    harfbuzz_sys::HB_SCRIPT_CHAM
}

/// Relies on harfbuzz_sys::HB_SCRIPT_CHEROKEE: its value.
#[verifier::external_body]
fn hb_script_cherokee() -> (r: u32)
    ensures
        r == 1130915186,
{
    harfbuzz_sys::HB_SCRIPT_CHEROKEE
}

/// Relies on harfbuzz_sys::HB_SCRIPT_COMMON: its value.
#[verifier::external_body]
fn hb_script_common() -> (r: u32)
    ensures
        r == 1517910393,
{
    harfbuzz_sys::HB_SCRIPT_COMMON
}

/// Relies on harfbuzz_sys::HB_SCRIPT_COPTIC: its value.
#[verifier::external_body]
fn hb_script_coptic() -> (r: u32)
    ensures
        r == 1131376756,
{
    harfbuzz_sys::HB_SCRIPT_COPTIC
}

/// Relies on harfbuzz_sys::HB_SCRIPT_CUNEIFORM: its value.
#[verifier::external_body]
fn hb_script_cuneiform() -> (r: u32)
    ensures
        r == 1483961720,
{
    harfbuzz_sys::HB_SCRIPT_CUNEIFORM
}

/// Relies on harfbuzz_sys::HB_SCRIPT_CYPRIOT: its value.
#[verifier::external_body]
fn hb_script_cypriot() -> (r: u32)
    ensures
        r == 1131442804,
{
    harfbuzz_sys::HB_SCRIPT_CYPRIOT
}

/// Relies on harfbuzz_sys::HB_SCRIPT_CYRILLIC: its value.
#[verifier::external_body]
fn hb_script_cyrillic() -> (r: u32)
    ensures
        r == 1132032620,
{
    harfbuzz_sys::HB_SCRIPT_CYRILLIC
}

/// Relies on harfbuzz_sys::HB_SCRIPT_DESERET: its value.
#[verifier::external_body]
fn hb_script_deseret() -> (r: u32)
    ensures
        r == 1148416628,
{
    harfbuzz_sys::HB_SCRIPT_DESERET
}

/// Relies on harfbuzz_sys::HB_SCRIPT_DEVANAGARI: its value.
#[verifier::external_body]
fn hb_script_devanagari() -> (r: u32)
    ensures
        r == 1147500129,
{
    harfbuzz_sys::HB_SCRIPT_DEVANAGARI
}

/// Relies on harfbuzz_sys::HB_SCRIPT_DOGRA: its value.
#[verifier::external_body]
fn hb_script_dogra() -> (r: u32)
    ensures
        r == 1148151666,
{
    harfbuzz_sys::HB_SCRIPT_DOGRA
}

/// Relies on harfbuzz_sys::HB_SCRIPT_DUPLOYAN: its value.
#[verifier::external_body]
fn hb_script_duployan() -> (r: u32)
    ensures
        r == 1148547180,
{
    harfbuzz_sys::HB_SCRIPT_DUPLOYAN
}

/// Relies on harfbuzz_sys::HB_SCRIPT_EGYPTIAN_HIEROGLYPHS: its value.
#[verifier::external_body]
fn hb_script_egyptian_hieroglyphs() -> (r: u32)
    ensures
        r == 1164409200,
{
    harfbuzz_sys::HB_SCRIPT_EGYPTIAN_HIEROGLYPHS
}

/// Relies on harfbuzz_sys::HB_SCRIPT_ELBASAN: its value.
#[verifier::external_body]
fn hb_script_elbasan() -> (r: u32)
    ensures
        r == 1164730977,
{
    harfbuzz_sys::HB_SCRIPT_ELBASAN
}

/// Relies on harfbuzz_sys::HB_SCRIPT_ELYMAIC: its value.
#[verifier::external_body]
fn hb_script_elymaic() -> (r: u32)
    ensures
        r == 1164736877,
{
    harfbuzz_sys::HB_SCRIPT_ELYMAIC
}

/// Relies on harfbuzz_sys::HB_SCRIPT_ETHIOPIC: its value.
#[verifier::external_body]
fn hb_script_ethiopic() -> (r: u32)
    ensures
        r == 1165256809,
{
    harfbuzz_sys::HB_SCRIPT_ETHIOPIC
}

/// Relies on harfbuzz_sys::HB_SCRIPT_GEORGIAN: its value.
#[verifier::external_body]
fn hb_script_georgian() -> (r: u32)
    ensures
        r == 1197830002,
{
    harfbuzz_sys::HB_SCRIPT_GEORGIAN
}

/// Relies on harfbuzz_sys::HB_SCRIPT_GLAGOLITIC: its value.
#[verifier::external_body]
fn hb_script_glagolitic() -> (r: u32)
    ensures
        r == 1198285159,
{
    harfbuzz_sys::HB_SCRIPT_GLAGOLITIC
}

/// Relies on harfbuzz_sys::HB_SCRIPT_GOTHIC: its value.
#[verifier::external_body]
fn hb_script_gothic() -> (r: u32)
    ensures
        r == 1198486632,
{
    harfbuzz_sys::HB_SCRIPT_GOTHIC
}

/// Relies on harfbuzz_sys::HB_SCRIPT_GRANTHA: its value.
#[verifier::external_body]
fn hb_script_grantha() -> (r: u32)
    ensures
        r == 1198678382,
{
    harfbuzz_sys::HB_SCRIPT_GRANTHA
}

/// Relies on harfbuzz_sys::HB_SCRIPT_GREEK: its value.
#[verifier::external_body]
fn hb_script_greek() -> (r: u32)
    ensures
        r == 1198679403,
{
    harfbuzz_sys::HB_SCRIPT_GREEK
}

/// Relies on harfbuzz_sys::HB_SCRIPT_GUJARATI: its value.
#[verifier::external_body]
fn hb_script_gujarati() -> (r: u32)
    ensures
        r == 1198877298,
{
    harfbuzz_sys::HB_SCRIPT_GUJARATI
}

/// Relies on harfbuzz_sys::HB_SCRIPT_GUNJALA_GONDI: its value.
#[verifier::external_body]
fn hb_script_gunjala_gondi() -> (r: u32)
    ensures
        r == 1198485095,
{
    harfbuzz_sys::HB_SCRIPT_GUNJALA_GONDI
}

/// Relies on harfbuzz_sys::HB_SCRIPT_GURMUKHI: its value.
#[verifier::external_body]
fn hb_script_gurmukhi() -> (r: u32)
    ensures
        r == 1198879349,
{
    harfbuzz_sys::HB_SCRIPT_GURMUKHI
}

/// Relies on harfbuzz_sys::HB_SCRIPT_HAN: its value.
#[verifier::external_body]
fn hb_script_han() -> (r: u32)
    ensures
        r == 1214344809,
{
    harfbuzz_sys::HB_SCRIPT_HAN
}

/// Relies on harfbuzz_sys::HB_SCRIPT_HANGUL: its value.
#[verifier::external_body]
fn hb_script_hangul() -> (r: u32)
    ensures
        r == 1214344807,
{
    harfbuzz_sys::HB_SCRIPT_HANGUL
}

/// Relies on harfbuzz_sys::HB_SCRIPT_HANIFI_ROHINGYA: its value.
#[verifier::external_body]
fn hb_script_hanifi_rohingya() -> (r: u32)
    ensures
        r == 1383032935,
{
    harfbuzz_sys::HB_SCRIPT_HANIFI_ROHINGYA
}

/// Relies on harfbuzz_sys::HB_SCRIPT_HANUNOO: its value.
#[verifier::external_body]
fn hb_script_hanunoo() -> (r: u32)
    ensures
        r == 1214344815,
{
    harfbuzz_sys::HB_SCRIPT_HANUNOO
}

/// Relies on harfbuzz_sys::HB_SCRIPT_HATRAN: its value.
#[verifier::external_body]
fn hb_script_hatran() -> (r: u32)
    ensures
        r == 1214346354,
{
    harfbuzz_sys::HB_SCRIPT_HATRAN
}

/// Relies on harfbuzz_sys::HB_SCRIPT_HEBREW: its value.
#[verifier::external_body]
fn hb_script_hebrew() -> (r: u32)
    ensures
        r == 1214603890,
{
    harfbuzz_sys::HB_SCRIPT_HEBREW
}

/// Relies on harfbuzz_sys::HB_SCRIPT_HIRAGANA: its value.
#[verifier::external_body]
fn hb_script_hiragana() -> (r: u32)
    ensures
        r == 1214870113,
{
    harfbuzz_sys::HB_SCRIPT_HIRAGANA
}

/// Relies on harfbuzz_sys::HB_SCRIPT_IMPERIAL_ARAMAIC: its value.
#[verifier::external_body]
fn hb_script_imperial_aramaic() -> (r: u32)
    ensures
        r == 1098018153,
{
    harfbuzz_sys::HB_SCRIPT_IMPERIAL_ARAMAIC
}

/// Relies on harfbuzz_sys::HB_SCRIPT_INHERITED: its value.
#[verifier::external_body]
fn hb_script_inherited() -> (r: u32)
    ensures
        r == 1516858984,
{
    harfbuzz_sys::HB_SCRIPT_INHERITED
}

/// Relies on harfbuzz_sys::HB_SCRIPT_INSCRIPTIONAL_PAHLAVI: its value.
#[verifier::external_body]
fn hb_script_inscriptional_pahlavi() -> (r: u32)
    ensures
        r == 1349020777,
{
    harfbuzz_sys::HB_SCRIPT_INSCRIPTIONAL_PAHLAVI
}

/// Relies on harfbuzz_sys::HB_SCRIPT_INSCRIPTIONAL_PARTHIAN: its value.
#[verifier::external_body]
fn hb_script_inscriptional_parthian() -> (r: u32)
    ensures
        r == 1349678185,
{
    harfbuzz_sys::HB_SCRIPT_INSCRIPTIONAL_PARTHIAN
}

/// Relies on harfbuzz_sys::HB_SCRIPT_JAVANESE: its value.
#[verifier::external_body]
fn hb_script_javanese() -> (r: u32)
    ensures
        r == 1247901281,
{
    harfbuzz_sys::HB_SCRIPT_JAVANESE
}

/// Relies on harfbuzz_sys::HB_SCRIPT_KAITHI: its value.
#[verifier::external_body]
fn hb_script_kaithi() -> (r: u32)
    ensures
        r == 1265920105,
{
    harfbuzz_sys::HB_SCRIPT_KAITHI
}

/// Relies on harfbuzz_sys::HB_SCRIPT_KANNADA: its value.
#[verifier::external_body]
fn hb_script_kannada() -> (r: u32)
    ensures
        r == 1265525857,
{
    harfbuzz_sys::HB_SCRIPT_KANNADA
}

/// Relies on harfbuzz_sys::HB_SCRIPT_KATAKANA: its value.
#[verifier::external_body]
fn hb_script_katakana() -> (r: u32)
    ensures
        r == 1264676449,
{
    harfbuzz_sys::HB_SCRIPT_KATAKANA
}

/// Relies on harfbuzz_sys::HB_SCRIPT_KAYAH_LI: its value.
#[verifier::external_body]
fn hb_script_kayah_li() -> (r: u32)
    ensures
        r == 1264675945,
{
    harfbuzz_sys::HB_SCRIPT_KAYAH_LI
}

/// Relies on harfbuzz_sys::HB_SCRIPT_KHAROSHTHI: its value.
#[verifier::external_body]
fn hb_script_kharoshthi() -> (r: u32)
    ensures
        r == 1265131890,
{
    harfbuzz_sys::HB_SCRIPT_KHAROSHTHI
}

/// Relies on harfbuzz_sys::HB_SCRIPT_KHMER: its value.
#[verifier::external_body]
fn hb_script_khmer() -> (r: u32)
    ensures
        r == 1265134962,
{
    harfbuzz_sys::HB_SCRIPT_KHMER
}

/// Relies on harfbuzz_sys::HB_SCRIPT_KHOJKI: its value.
#[verifier::external_body]
fn hb_script_khojki() -> (r: u32)
    ensures
        r == 1265135466,
{
    harfbuzz_sys::HB_SCRIPT_KHOJKI
}

/// Relies on harfbuzz_sys::HB_SCRIPT_KHUDAWADI: its value.
#[verifier::external_body]
fn hb_script_khudawadi() -> (r: u32)
    ensures
        r == 1399418468,
{
    harfbuzz_sys::HB_SCRIPT_KHUDAWADI
}

/// Relies on harfbuzz_sys::HB_SCRIPT_LAO: its value.
#[verifier::external_body]
fn hb_script_lao() -> (r: u32)
    ensures
        r == 1281453935,
{
    harfbuzz_sys::HB_SCRIPT_LAO
}

/// Relies on harfbuzz_sys::HB_SCRIPT_LATIN: its value.
#[verifier::external_body]
fn hb_script_latin() -> (r: u32)
    ensures
        r == 1281455214,
{
    harfbuzz_sys::HB_SCRIPT_LATIN
}

/// Relies on harfbuzz_sys::HB_SCRIPT_LEPCHA: its value.
#[verifier::external_body]
fn hb_script_lepcha() -> (r: u32)
    ensures
        r == 1281716323,
{
    harfbuzz_sys::HB_SCRIPT_LEPCHA
}

/// Relies on harfbuzz_sys::HB_SCRIPT_LIMBU: its value.
#[verifier::external_body]
fn hb_script_limbu() -> (r: u32)
    ensures
        r == 1281977698,
{
    harfbuzz_sys::HB_SCRIPT_LIMBU
}

/// Relies on harfbuzz_sys::HB_SCRIPT_LINEAR_A: its value.
#[verifier::external_body]
fn hb_script_linear_a() -> (r: u32)
    ensures
        r == 1281977953,
{
    harfbuzz_sys::HB_SCRIPT_LINEAR_A
}

/// Relies on harfbuzz_sys::HB_SCRIPT_LINEAR_B: its value.
#[verifier::external_body]
fn hb_script_linear_b() -> (r: u32)
    ensures
        r == 1281977954,
{
    harfbuzz_sys::HB_SCRIPT_LINEAR_B
}

/// Relies on harfbuzz_sys::HB_SCRIPT_LISU: its value.
#[verifier::external_body]
fn hb_script_lisu() -> (r: u32)
    ensures
        r == 1281979253,
{
    harfbuzz_sys::HB_SCRIPT_LISU
}

/// Relies on harfbuzz_sys::HB_SCRIPT_LYCIAN: its value.
#[verifier::external_body]
fn hb_script_lycian() -> (r: u32)
    ensures
        r == 1283023721,
{
    harfbuzz_sys::HB_SCRIPT_LYCIAN
}

/// Relies on harfbuzz_sys::HB_SCRIPT_LYDIAN: its value.
#[verifier::external_body]
fn hb_script_lydian() -> (r: u32)
    ensures
        r == 1283023977,
{
    harfbuzz_sys::HB_SCRIPT_LYDIAN
}

/// Relies on harfbuzz_sys::HB_SCRIPT_MAHAJANI: its value.
#[verifier::external_body]
fn hb_script_mahajani() -> (r: u32)
    ensures
        r == 1298229354,
{
    harfbuzz_sys::HB_SCRIPT_MAHAJANI
}

/// Relies on harfbuzz_sys::HB_SCRIPT_MAKASAR: its value.
#[verifier::external_body]
fn hb_script_makasar() -> (r: u32)
    ensures
        r == 1298230113,
{
    harfbuzz_sys::HB_SCRIPT_MAKASAR
}

/// Relies on harfbuzz_sys::HB_SCRIPT_MALAYALAM: its value.
#[verifier::external_body]
fn hb_script_malayalam() -> (r: u32)
    ensures
        r == 1298954605,
{
    harfbuzz_sys::HB_SCRIPT_MALAYALAM
}

/// Relies on harfbuzz_sys::HB_SCRIPT_MANDAIC: its value.
#[verifier::external_body]
fn hb_script_mandaic() -> (r: u32)
    ensures
        r == 1298230884,
{
    harfbuzz_sys::HB_SCRIPT_MANDAIC
}

/// Relies on harfbuzz_sys::HB_SCRIPT_MANICHAEAN: its value.
#[verifier::external_body]
fn hb_script_manichaean() -> (r: u32)
    ensures
        r == 1298230889,
{
    harfbuzz_sys::HB_SCRIPT_MANICHAEAN
}

/// Relies on harfbuzz_sys::HB_SCRIPT_MARCHEN: its value.
#[verifier::external_body]
fn hb_script_marchen() -> (r: u32)
    ensures
        r == 1298231907,
{
    harfbuzz_sys::HB_SCRIPT_MARCHEN
}

/// Relies on harfbuzz_sys::HB_SCRIPT_MASARAM_GONDI: its value.
#[verifier::external_body]
fn hb_script_masaram_gondi() -> (r: u32)
    ensures
        r == 1198485101,
{
    harfbuzz_sys::HB_SCRIPT_MASARAM_GONDI
}

/// Relies on harfbuzz_sys::HB_SCRIPT_MEDEFAIDRIN: its value.
#[verifier::external_body]
fn hb_script_medefaidrin() -> (r: u32)
    ensures
        r == 1298490470,
{
    harfbuzz_sys::HB_SCRIPT_MEDEFAIDRIN
}

/// Relies on harfbuzz_sys::HB_SCRIPT_MEETEI_MAYEK: its value.
#[verifier::external_body]
fn hb_script_meetei_mayek() -> (r: u32)
    ensures
        r == 1299473769,
{
    harfbuzz_sys::HB_SCRIPT_MEETEI_MAYEK
}

/// Relies on harfbuzz_sys::HB_SCRIPT_MENDE_KIKAKUI: its value.
#[verifier::external_body]
fn hb_script_mende_kikakui() -> (r: u32)
    ensures
        r == 1298493028,
{
    harfbuzz_sys::HB_SCRIPT_MENDE_KIKAKUI
}

/// Relies on harfbuzz_sys::HB_SCRIPT_MEROITIC_CURSIVE: its value.
#[verifier::external_body]
fn hb_script_meroitic_cursive() -> (r: u32)
    ensures
        r == 1298494051,
{
    harfbuzz_sys::HB_SCRIPT_MEROITIC_CURSIVE
}

/// Relies on harfbuzz_sys::HB_SCRIPT_MEROITIC_HIEROGLYPHS: its value.
#[verifier::external_body]
fn hb_script_meroitic_hieroglyphs() -> (r: u32)
    ensures
        r == 1298494063,
{
    harfbuzz_sys::HB_SCRIPT_MEROITIC_HIEROGLYPHS
}

/// Relies on harfbuzz_sys::HB_SCRIPT_MIAO: its value.
#[verifier::external_body]
fn hb_script_miao() -> (r: u32)
    ensures
        r == 1349284452,
{
    harfbuzz_sys::HB_SCRIPT_MIAO
}

/// Relies on harfbuzz_sys::HB_SCRIPT_MODI: its value.
#[verifier::external_body]
fn hb_script_modi() -> (r: u32)
    ensures
        r == 1299145833,
{
    harfbuzz_sys::HB_SCRIPT_MODI
}

/// Relies on harfbuzz_sys::HB_SCRIPT_MONGOLIAN: its value.
#[verifier::external_body]
fn hb_script_mongolian() -> (r: u32)
    ensures
        r == 1299148391,
{
    harfbuzz_sys::HB_SCRIPT_MONGOLIAN
}

/// Relies on harfbuzz_sys::HB_SCRIPT_MRO: its value.
#[verifier::external_body]
fn hb_script_mro() -> (r: u32)
    ensures
        r == 1299345263,
{
    harfbuzz_sys::HB_SCRIPT_MRO
}

/// Relies on harfbuzz_sys::HB_SCRIPT_MULTANI: its value.
#[verifier::external_body]
fn hb_script_multani() -> (r: u32)
    ensures
        r == 1299541108,
{
    harfbuzz_sys::HB_SCRIPT_MULTANI
}

/// Relies on harfbuzz_sys::HB_SCRIPT_MYANMAR: its value.
#[verifier::external_body]
fn hb_script_myanmar() -> (r: u32)
    ensures
        r == 1299803506,
{
    harfbuzz_sys::HB_SCRIPT_MYANMAR
}

/// Relies on harfbuzz_sys::HB_SCRIPT_NABATAEAN: its value.
#[verifier::external_body]
fn hb_script_nabataean() -> (r: u32)
    ensures
        r == 1315070324,
{
    harfbuzz_sys::HB_SCRIPT_NABATAEAN
}

/// Relies on harfbuzz_sys::HB_SCRIPT_NANDINAGARI: its value.
#[verifier::external_body]
fn hb_script_nandinagari() -> (r: u32)
    ensures
        r == 1315008100,
{
    harfbuzz_sys::HB_SCRIPT_NANDINAGARI
}

/// Relies on harfbuzz_sys::HB_SCRIPT_NEW_TAI_LUE: its value.
#[verifier::external_body]
fn hb_script_new_tai_lue() -> (r: u32)
    ensures
        r == 1415670901,
{
    harfbuzz_sys::HB_SCRIPT_NEW_TAI_LUE
}

/// Relies on harfbuzz_sys::HB_SCRIPT_NEWA: its value.
#[verifier::external_body]
fn hb_script_newa() -> (r: u32)
    ensures
        r == 1315272545,
{
    harfbuzz_sys::HB_SCRIPT_NEWA
}

/// Relies on harfbuzz_sys::HB_SCRIPT_NKO: its value.
#[verifier::external_body]
fn hb_script_nko() -> (r: u32)
    ensures
        r == 1315663727,
{
    harfbuzz_sys::HB_SCRIPT_NKO
}

/// Relies on harfbuzz_sys::HB_SCRIPT_NUSHU: its value.
#[verifier::external_body]
fn hb_script_nushu() -> (r: u32)
    ensures
        r == 1316186229,
{
    harfbuzz_sys::HB_SCRIPT_NUSHU
}

/// Relies on harfbuzz_sys::HB_SCRIPT_NYIAKENG_PUACHUE_HMONG: its value.
#[verifier::external_body]
fn hb_script_nyiakeng_puachue_hmong() -> (r: u32)
    ensures
        r == 1215131248,
{
    harfbuzz_sys::HB_SCRIPT_NYIAKENG_PUACHUE_HMONG
}

/// Relies on harfbuzz_sys::HB_SCRIPT_OGHAM: its value.
#[verifier::external_body]
fn hb_script_ogham() -> (r: u32)
    ensures
        r == 1332175213,
{
    harfbuzz_sys::HB_SCRIPT_OGHAM
}

/// Relies on harfbuzz_sys::HB_SCRIPT_OL_CHIKI: its value.
#[verifier::external_body]
fn hb_script_ol_chiki() -> (r: u32)
    ensures
        r == 1332503403,
{
    harfbuzz_sys::HB_SCRIPT_OL_CHIKI
}

/// Relies on harfbuzz_sys::HB_SCRIPT_OLD_HUNGARIAN: its value.
#[verifier::external_body]
fn hb_script_old_hungarian() -> (r: u32)
    ensures
        r == 1215655527,
{
    harfbuzz_sys::HB_SCRIPT_OLD_HUNGARIAN
}

/// Relies on harfbuzz_sys::HB_SCRIPT_OLD_ITALIC: its value.
#[verifier::external_body]
fn hb_script_old_italic() -> (r: u32)
    ensures
        r == 1232363884,
{
    harfbuzz_sys::HB_SCRIPT_OLD_ITALIC
}

/// Relies on harfbuzz_sys::HB_SCRIPT_OLD_NORTH_ARABIAN: its value.
#[verifier::external_body]
fn hb_script_old_north_arabian() -> (r: u32)
    ensures
        r == 1315009122,
{
    harfbuzz_sys::HB_SCRIPT_OLD_NORTH_ARABIAN
}

/// Relies on harfbuzz_sys::HB_SCRIPT_OLD_PERMIC: its value.
#[verifier::external_body]
fn hb_script_old_permic() -> (r: u32)
    ensures
        r == 1348825709,
{
    harfbuzz_sys::HB_SCRIPT_OLD_PERMIC
}

/// Relies on harfbuzz_sys::HB_SCRIPT_OLD_PERSIAN: its value.
#[verifier::external_body]
fn hb_script_old_persian() -> (r: u32)
    ensures
        r == 1483761007,
{
    harfbuzz_sys::HB_SCRIPT_OLD_PERSIAN
}

/// Relies on harfbuzz_sys::HB_SCRIPT_OLD_SOGDIAN: its value.
#[verifier::external_body]
fn hb_script_old_sogdian() -> (r: u32)
    ensures
        r == 1399809903,
{
    harfbuzz_sys::HB_SCRIPT_OLD_SOGDIAN
}

/// Relies on harfbuzz_sys::HB_SCRIPT_OLD_SOUTH_ARABIAN: its value.
#[verifier::external_body]
fn hb_script_old_south_arabian() -> (r: u32)
    ensures
        r == 1398895202,
{
    harfbuzz_sys::HB_SCRIPT_OLD_SOUTH_ARABIAN
}

/// Relies on harfbuzz_sys::HB_SCRIPT_OLD_TURKIC: its value.
#[verifier::external_body]
fn hb_script_old_turkic() -> (r: u32)
    ensures
        r == 1332898664,
{
    harfbuzz_sys::HB_SCRIPT_OLD_TURKIC
}

/// Relies on harfbuzz_sys::HB_SCRIPT_ORIYA: its value.
#[verifier::external_body]
fn hb_script_oriya() -> (r: u32)
    ensures
        r == 1332902241,
{
    harfbuzz_sys::HB_SCRIPT_ORIYA
}

/// Relies on harfbuzz_sys::HB_SCRIPT_OSAGE: its value.
#[verifier::external_body]
fn hb_script_osage() -> (r: u32)
    ensures
        r == 1332963173,
{
    harfbuzz_sys::HB_SCRIPT_OSAGE
}

/// Relies on harfbuzz_sys::HB_SCRIPT_OSMANYA: its value.
#[verifier::external_body]
fn hb_script_osmanya() -> (r: u32)
    ensures
        r == 1332964705,
{
    harfbuzz_sys::HB_SCRIPT_OSMANYA
}

/// Relies on harfbuzz_sys::HB_SCRIPT_PAHAWH_HMONG: its value.
#[verifier::external_body]
fn hb_script_pahawh_hmong() -> (r: u32)
    ensures
        r == 1215131239,
{
    harfbuzz_sys::HB_SCRIPT_PAHAWH_HMONG
}

/// Relies on harfbuzz_sys::HB_SCRIPT_PALMYRENE: its value.
#[verifier::external_body]
fn hb_script_palmyrene() -> (r: u32)
    ensures
        r == 1348562029,
{
    harfbuzz_sys::HB_SCRIPT_PALMYRENE
}

/// Relies on harfbuzz_sys::HB_SCRIPT_PAU_CIN_HAU: its value.
#[verifier::external_body]
fn hb_script_pau_cin_hau() -> (r: u32)
    ensures
        r == 1348564323,
{
    harfbuzz_sys::HB_SCRIPT_PAU_CIN_HAU
}

/// Relies on harfbuzz_sys::HB_SCRIPT_PHAGS_PA: its value.
#[verifier::external_body]
fn hb_script_phags_pa() -> (r: u32)
    ensures
        r == 1349017959,
{
    harfbuzz_sys::HB_SCRIPT_PHAGS_PA
}

/// Relies on harfbuzz_sys::HB_SCRIPT_PHOENICIAN: its value.
#[verifier::external_body]
fn hb_script_phoenician() -> (r: u32)
    ensures
        r == 1349021304,
{
    harfbuzz_sys::HB_SCRIPT_PHOENICIAN
}

/// Relies on harfbuzz_sys::HB_SCRIPT_PSALTER_PAHLAVI: its value.
#[verifier::external_body]
fn hb_script_psalter_pahlavi() -> (r: u32)
    ensures
        r == 1349020784,
{
    harfbuzz_sys::HB_SCRIPT_PSALTER_PAHLAVI
}

/// Relies on harfbuzz_sys::HB_SCRIPT_REJANG: its value.
#[verifier::external_body]
fn hb_script_rejang() -> (r: u32)
    ensures
        r == 1382706791,
{
    harfbuzz_sys::HB_SCRIPT_REJANG
}

/// Relies on harfbuzz_sys::HB_SCRIPT_RUNIC: its value.
#[verifier::external_body]
fn hb_script_runic() -> (r: u32)
    ensures
        r == 1383427698,
{
    harfbuzz_sys::HB_SCRIPT_RUNIC
}

/// Relies on harfbuzz_sys::HB_SCRIPT_SAMARITAN: its value.
#[verifier::external_body]
fn hb_script_samaritan() -> (r: u32)
    ensures
        r == 1398893938,
{
    harfbuzz_sys::HB_SCRIPT_SAMARITAN
}

/// Relies on harfbuzz_sys::HB_SCRIPT_SAURASHTRA: its value.
#[verifier::external_body]
fn hb_script_saurashtra() -> (r: u32)
    ensures
        r == 1398895986,
{
    harfbuzz_sys::HB_SCRIPT_SAURASHTRA
}

/// Relies on harfbuzz_sys::HB_SCRIPT_SHARADA: its value.
#[verifier::external_body]
fn hb_script_sharada() -> (r: u32)
    ensures
        r == 1399353956,
{
    harfbuzz_sys::HB_SCRIPT_SHARADA
}

/// Relies on harfbuzz_sys::HB_SCRIPT_SHAVIAN: its value.
#[verifier::external_body]
fn hb_script_shavian() -> (r: u32)
    ensures
        r == 1399349623,
{
    harfbuzz_sys::HB_SCRIPT_SHAVIAN
}

/// Relies on harfbuzz_sys::HB_SCRIPT_SIDDHAM: its value.
#[verifier::external_body]
fn hb_script_siddham() -> (r: u32)
    ensures
        r == 1399415908,
{
    harfbuzz_sys::HB_SCRIPT_SIDDHAM
}

/// Relies on harfbuzz_sys::HB_SCRIPT_SIGNWRITING: its value.
#[verifier::external_body]
fn hb_script_signwriting() -> (r: u32)
    ensures
        r == 1399287415,
{
    harfbuzz_sys::HB_SCRIPT_SIGNWRITING
}

/// Relies on harfbuzz_sys::HB_SCRIPT_SINHALA: its value.
#[verifier::external_body]
fn hb_script_sinhala() -> (r: u32)
    ensures
        r == 1399418472,
{
    harfbuzz_sys::HB_SCRIPT_SINHALA
}

/// Relies on harfbuzz_sys::HB_SCRIPT_SOGDIAN: its value.
#[verifier::external_body]
fn hb_script_sogdian() -> (r: u32)
    ensures
        r == 1399809892,
{
    harfbuzz_sys::HB_SCRIPT_SOGDIAN
}

/// Relies on harfbuzz_sys::HB_SCRIPT_SORA_SOMPENG: its value.
#[verifier::external_body]
fn hb_script_sora_sompeng() -> (r: u32)
    ensures
        r == 1399812705,
{
    harfbuzz_sys::HB_SCRIPT_SORA_SOMPENG
}

/// Relies on harfbuzz_sys::HB_SCRIPT_SOYOMBO: its value.
#[verifier::external_body]
fn hb_script_soyombo() -> (r: u32)
    ensures
        r == 1399814511,
{
    harfbuzz_sys::HB_SCRIPT_SOYOMBO
}

/// Relies on harfbuzz_sys::HB_SCRIPT_SUNDANESE: its value.
#[verifier::external_body]
fn hb_script_sundanese() -> (r: u32)
    ensures
        r == 1400204900,
{
    harfbuzz_sys::HB_SCRIPT_SUNDANESE
}

/// Relies on harfbuzz_sys::HB_SCRIPT_SYLOTI_NAGRI: its value.
#[verifier::external_body]
fn hb_script_syloti_nagri() -> (r: u32)
    ensures
        r == 1400466543,
{
    harfbuzz_sys::HB_SCRIPT_SYLOTI_NAGRI
}

/// Relies on harfbuzz_sys::HB_SCRIPT_SYRIAC: its value.
#[verifier::external_body]
fn hb_script_syriac() -> (r: u32)
    ensures
        r == 1400468067,
{
    harfbuzz_sys::HB_SCRIPT_SYRIAC
}

/// Relies on harfbuzz_sys::HB_SCRIPT_TAGALOG: its value.
#[verifier::external_body]
fn hb_script_tagalog() -> (r: u32)
    ensures
        r == 1416064103,
{
    harfbuzz_sys::HB_SCRIPT_TAGALOG
}

/// Relies on harfbuzz_sys::HB_SCRIPT_TAGBANWA: its value.
#[verifier::external_body]
fn hb_script_tagbanwa() -> (r: u32)
    ensures
        r == 1415669602,
{
    harfbuzz_sys::HB_SCRIPT_TAGBANWA
}

/// Relies on harfbuzz_sys::HB_SCRIPT_TAI_LE: its value.
#[verifier::external_body]
fn hb_script_tai_le() -> (r: u32)
    ensures
        r == 1415670885,
{
    harfbuzz_sys::HB_SCRIPT_TAI_LE
}

/// Relies on harfbuzz_sys::HB_SCRIPT_TAI_THAM: its value.
#[verifier::external_body]
fn hb_script_tai_tham() -> (r: u32)
    ensures
        r == 1281453665,
{
    harfbuzz_sys::HB_SCRIPT_TAI_THAM
}

/// Relies on harfbuzz_sys::HB_SCRIPT_TAI_VIET: its value.
#[verifier::external_body]
fn hb_script_tai_viet() -> (r: u32)
    ensures
        r == 1415673460,
{
    harfbuzz_sys::HB_SCRIPT_TAI_VIET
}

/// Relies on harfbuzz_sys::HB_SCRIPT_TAKRI: its value.
#[verifier::external_body]
fn hb_script_takri() -> (r: u32)
    ensures
        r == 1415670642,
{
    harfbuzz_sys::HB_SCRIPT_TAKRI
}

/// Relies on harfbuzz_sys::HB_SCRIPT_TAMIL: its value.
#[verifier::external_body]
fn hb_script_tamil() -> (r: u32)
    ensures
        r == 1415671148,
{
    harfbuzz_sys::HB_SCRIPT_TAMIL
}

/// Relies on harfbuzz_sys::HB_SCRIPT_TANGUT: its value.
#[verifier::external_body]
fn hb_script_tangut() -> (r: u32)
    ensures
        r == 1415671399,
{
    harfbuzz_sys::HB_SCRIPT_TANGUT
}

/// Relies on harfbuzz_sys::HB_SCRIPT_TELUGU: its value.
#[verifier::external_body]
fn hb_script_telugu() -> (r: u32)
    ensures
        r == 1415933045,
{
    harfbuzz_sys::HB_SCRIPT_TELUGU
}

/// Relies on harfbuzz_sys::HB_SCRIPT_THAANA: its value.
#[verifier::external_body]
fn hb_script_thaana() -> (r: u32)
    ensures
        r == 1416126817,
{
    harfbuzz_sys::HB_SCRIPT_THAANA
}

/// Relies on harfbuzz_sys::HB_SCRIPT_THAI: its value.
#[verifier::external_body]
fn hb_script_thai() -> (r: u32)
    ensures
        r == 1416126825,
{
    harfbuzz_sys::HB_SCRIPT_THAI
}

/// Relies on harfbuzz_sys::HB_SCRIPT_TIBETAN: its value.
#[verifier::external_body]
fn hb_script_tibetan() -> (r: u32)
    ensures
        r == 1416192628,
{
    harfbuzz_sys::HB_SCRIPT_TIBETAN
}

/// Relies on harfbuzz_sys::HB_SCRIPT_TIFINAGH: its value.
#[verifier::external_body]
fn hb_script_tifinagh() -> (r: u32)
    ensures
        r == 1415999079,
{
    harfbuzz_sys::HB_SCRIPT_TIFINAGH
}

/// Relies on harfbuzz_sys::HB_SCRIPT_TIRHUTA: its value.
#[verifier::external_body]
fn hb_script_tirhuta() -> (r: u32)
    ensures
        r == 1416196712,
{
    harfbuzz_sys::HB_SCRIPT_TIRHUTA
}

/// Relies on harfbuzz_sys::HB_SCRIPT_UGARITIC: its value.
#[verifier::external_body]
fn hb_script_ugaritic() -> (r: u32)
    ensures
        r == 1432838514,
{
    harfbuzz_sys::HB_SCRIPT_UGARITIC
}

/// Relies on harfbuzz_sys::HB_SCRIPT_UNKNOWN: its value.
#[verifier::external_body]
fn hb_script_unknown() -> (r: u32)
    ensures
        r == 1517976186,
{
    harfbuzz_sys::HB_SCRIPT_UNKNOWN
}

/// Relies on harfbuzz_sys::HB_SCRIPT_VAI: its value.
#[verifier::external_body]
fn hb_script_vai() -> (r: u32)
    ensures
        r == 1449224553,
{
    harfbuzz_sys::HB_SCRIPT_VAI
}

/// Relies on harfbuzz_sys::HB_SCRIPT_WANCHO: its value.
#[verifier::external_body]
fn hb_script_wancho() -> (r: u32)
    ensures
        r == 1466132591,
{
    harfbuzz_sys::HB_SCRIPT_WANCHO
}

/// Relies on harfbuzz_sys::HB_SCRIPT_WARANG_CITI: its value.
#[verifier::external_body]
fn hb_script_warang_citi() -> (r: u32)
    ensures
        r == 1466004065,
{
    harfbuzz_sys::HB_SCRIPT_WARANG_CITI
}

/// Relies on harfbuzz_sys::HB_SCRIPT_YI: its value.
#[verifier::external_body]
fn hb_script_yi() -> (r: u32)
    ensures
        r == 1500080489,
{
    harfbuzz_sys::HB_SCRIPT_YI
}

/// Relies on harfbuzz_sys::HB_SCRIPT_ZANABAZAR_SQUARE: its value.
#[verifier::external_body]
fn hb_script_zanabazar_square() -> (r: u32)
    ensures
        r == 1516334690,
{
    harfbuzz_sys::HB_SCRIPT_ZANABAZAR_SQUARE
}

impl Script {
    /// The HarfBuzz script code of this script; every script has one.
    pub fn to_hb_script(self) -> (r: harfbuzz_sys::hb_script_t)
        ensures
            r == hb_code(self),
    {
        match self {
            Script::Adlam => hb_script_adlam(),
            Script::Ahom => hb_script_ahom(),
            Script::AnatolianHieroglyphs => hb_script_anatolian_hieroglyphs(),
            Script::Arabic => hb_script_arabic(),
            Script::Armenian => hb_script_armenian(),
            Script::Avestan => hb_script_avestan(),
            Script::Balinese => hb_script_balinese(),
            Script::Bamum => hb_script_bamum(),
            Script::BassaVah => hb_script_bassa_vah(),
            Script::Batak => hb_script_batak(),
            Script::Bengali => hb_script_bengali(),
            Script::Bhaiksuki => hb_script_bhaiksuki(),
            Script::Bopomofo => hb_script_bopomofo(),
            Script::Brahmi => hb_script_brahmi(),
            Script::Braille => hb_script_braille(),
            Script::Buginese => hb_script_buginese(),
            Script::Buhid => hb_script_buhid(),
            Script::CanadianAboriginal => hb_script_canadian_syllabics(),
            Script::Carian => hb_script_carian(),
            Script::CaucasianAlbanian => hb_script_caucasian_albanian(),
            Script::Chakma => hb_script_chakma(),
            Script::Cham => hb_script_cham(),
            Script::Cherokee => hb_script_cherokee(),
            Script::Common => hb_script_common(),
            Script::Coptic => hb_script_coptic(),
            Script::Cuneiform => hb_script_cuneiform(),
            Script::Cypriot => hb_script_cypriot(),
            Script::Cyrillic => hb_script_cyrillic(),
            Script::Deseret => hb_script_deseret(),
            Script::Devanagari => hb_script_devanagari(),
            Script::Dogra => hb_script_dogra(),
            Script::Duployan => hb_script_duployan(),
            Script::EgyptianHieroglyphs => hb_script_egyptian_hieroglyphs(),
            Script::Elbasan => hb_script_elbasan(),
            Script::Elymaic => hb_script_elymaic(),
            Script::Ethiopic => hb_script_ethiopic(),
            Script::Georgian => hb_script_georgian(),
            Script::Glagolitic => hb_script_glagolitic(),
            Script::Gothic => hb_script_gothic(),
            Script::Grantha => hb_script_grantha(),
            Script::Greek => hb_script_greek(),
            Script::Gujarati => hb_script_gujarati(),
            Script::GunjalaGondi => hb_script_gunjala_gondi(),
            Script::Gurmukhi => hb_script_gurmukhi(),
            Script::Han => hb_script_han(),
            Script::Hangul => hb_script_hangul(),
            Script::HanifiRohingya => hb_script_hanifi_rohingya(),
            Script::Hanunoo => hb_script_hanunoo(),
            Script::Hatran => hb_script_hatran(),
            Script::Hebrew => hb_script_hebrew(),
            Script::Hiragana => hb_script_hiragana(),
            Script::ImperialAramaic => hb_script_imperial_aramaic(),
            Script::Inherited => hb_script_inherited(),
            Script::InscriptionalPahlavi => hb_script_inscriptional_pahlavi(),
            Script::InscriptionalParthian => hb_script_inscriptional_parthian(),
            Script::Javanese => hb_script_javanese(),
            Script::Kaithi => hb_script_kaithi(),
            Script::Kannada => hb_script_kannada(),
            Script::Katakana => hb_script_katakana(),
            Script::KayahLi => hb_script_kayah_li(),
            Script::Kharoshthi => hb_script_kharoshthi(),
            Script::Khmer => hb_script_khmer(),
            Script::Khojki => hb_script_khojki(),
            Script::Khudawadi => hb_script_khudawadi(),
            Script::Lao => hb_script_lao(),
            Script::Latin => hb_script_latin(),
            Script::Lepcha => hb_script_lepcha(),
            Script::Limbu => hb_script_limbu(),
            Script::LinearA => hb_script_linear_a(),
            Script::LinearB => hb_script_linear_b(),
            Script::Lisu => hb_script_lisu(),
            Script::Lycian => hb_script_lycian(),
            Script::Lydian => hb_script_lydian(),
            Script::Mahajani => hb_script_mahajani(),
            Script::Makasar => hb_script_makasar(),
            Script::Malayalam => hb_script_malayalam(),
            Script::Mandaic => hb_script_mandaic(),
            Script::Manichaean => hb_script_manichaean(),
            Script::Marchen => hb_script_marchen(),
            Script::MasaramGondi => hb_script_masaram_gondi(),
            Script::Medefaidrin => hb_script_medefaidrin(),
            Script::MeeteiMayek => hb_script_meetei_mayek(),
            Script::MendeKikakui => hb_script_mende_kikakui(),
            Script::MeroiticCursive => hb_script_meroitic_cursive(),
            Script::MeroiticHieroglyphs => hb_script_meroitic_hieroglyphs(),
            Script::Miao => hb_script_miao(),
            Script::Modi => hb_script_modi(),
            Script::Mongolian => hb_script_mongolian(),
            Script::Mro => hb_script_mro(),
            Script::Multani => hb_script_multani(),
            Script::Myanmar => hb_script_myanmar(),
            Script::Nabataean => hb_script_nabataean(),
            Script::Nandinagari => hb_script_nandinagari(),
            Script::NewTaiLue => hb_script_new_tai_lue(),
            Script::Newa => hb_script_newa(),
            Script::Nko => hb_script_nko(),
            Script::Nushu => hb_script_nushu(),
            Script::NyiakengPuachueHmong => hb_script_nyiakeng_puachue_hmong(),
            Script::Ogham => hb_script_ogham(),
            Script::OlChiki => hb_script_ol_chiki(),
            Script::OldHungarian => hb_script_old_hungarian(),
            Script::OldItalic => hb_script_old_italic(),
            Script::OldNorthArabian => hb_script_old_north_arabian(),
            Script::OldPermic => hb_script_old_permic(),
            Script::OldPersian => hb_script_old_persian(),
            Script::OldSogdian => hb_script_old_sogdian(),
            Script::OldSouthArabian => hb_script_old_south_arabian(),
            Script::OldTurkic => hb_script_old_turkic(),
            Script::Oriya => hb_script_oriya(),
            Script::Osage => hb_script_osage(),
            Script::Osmanya => hb_script_osmanya(),
            Script::PahawhHmong => hb_script_pahawh_hmong(),
            Script::Palmyrene => hb_script_palmyrene(),
            Script::PauCinHau => hb_script_pau_cin_hau(),
            Script::PhagsPa => hb_script_phags_pa(),
            Script::Phoenician => hb_script_phoenician(),
            Script::PsalterPahlavi => hb_script_psalter_pahlavi(),
            Script::Rejang => hb_script_rejang(),
            Script::Runic => hb_script_runic(),
            Script::Samaritan => hb_script_samaritan(),
            Script::Saurashtra => hb_script_saurashtra(),
            Script::Sharada => hb_script_sharada(),
            Script::Shavian => hb_script_shavian(),
            Script::Siddham => hb_script_siddham(),
            Script::Signwriting => hb_script_signwriting(),
            Script::Sinhala => hb_script_sinhala(),
            Script::Sogdian => hb_script_sogdian(),
            Script::SoraSompeng => hb_script_sora_sompeng(),
            Script::Soyombo => hb_script_soyombo(),
            Script::Sundanese => hb_script_sundanese(),
            Script::SylotiNagri => hb_script_syloti_nagri(),
            Script::Syriac => hb_script_syriac(),
            Script::Tagalog => hb_script_tagalog(),
            Script::Tagbanwa => hb_script_tagbanwa(),
            Script::TaiLe => hb_script_tai_le(),
            Script::TaiTham => hb_script_tai_tham(),
            Script::TaiViet => hb_script_tai_viet(),
            Script::Takri => hb_script_takri(),
            Script::Tamil => hb_script_tamil(),
            Script::Tangut => hb_script_tangut(),
            Script::Telugu => hb_script_telugu(),
            Script::Thaana => hb_script_thaana(),
            Script::Thai => hb_script_thai(),
            Script::Tibetan => hb_script_tibetan(),
            Script::Tifinagh => hb_script_tifinagh(),
            Script::Tirhuta => hb_script_tirhuta(),
            Script::Ugaritic => hb_script_ugaritic(),
            Script::Unknown => hb_script_unknown(),
            Script::Vai => hb_script_vai(),
            Script::Wancho => hb_script_wancho(),
            Script::WarangCiti => hb_script_warang_citi(),
            Script::Yi => hb_script_yi(),
            Script::ZanabazarSquare => hb_script_zanabazar_square(),
        }
    }
}

/// Mapping a script to its HarfBuzz code and back gives the same script.
pub proof fn lemma_hb_code_round_trip(s: Script)
    ensures
        script_of_hb_code(hb_code(s)) == Some(s),
{
}

/// Distinct scripts have distinct HarfBuzz codes, no script maps to the
/// invalid code 0, and only `Unknown` maps to the code of unknown scripts.
pub proof fn lemma_hb_code_injective(a: Script, b: Script)
    ensures
        a != b ==> hb_code(a) != hb_code(b),
        hb_code(a) != 0,
        (hb_code(a) == 1517976186) == (a == Script::Unknown),
{
    lemma_hb_code_round_trip(a);
    lemma_hb_code_round_trip(b);
}

} // verus!
