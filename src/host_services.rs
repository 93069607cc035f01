//! Services the host offers plugins: language resolution and the reverse
//! interface lookup through which a plugin reaches the host's own Manager
//! and State capabilities.

use vstd::prelude::*;
use vstd::string::*;
use crate::error::CubeMelonPluginErrorCode;
use crate::negotiation::{CapabilityTable, INTERFACE_VERSION};
use crate::text::{str_equals, str_starts_with};
use crate::types::{CubeMelonLanguage, CubeMelonPluginType, language_tag};

verus! {

/// The language a tag names, compared exactly (canonical casing only);
/// anything else falls back to en-US.
pub open spec fn language_for_tag(s: Seq<char>) -> CubeMelonLanguage {
    if s == "en-US"@ {
        CubeMelonLanguage::EN_US
    } else if s == "ja-JP"@ {
        CubeMelonLanguage::JA_JP
    } else if s == "zh-CN"@ {
        CubeMelonLanguage::ZH_CN
    } else if s == "zh-TW"@ {
        CubeMelonLanguage::ZH_TW
    } else if s == "ko-KR"@ {
        CubeMelonLanguage::KO_KR
    } else if s == "fr-FR"@ {
        CubeMelonLanguage::FR_FR
    } else if s == "de-DE"@ {
        CubeMelonLanguage::DE_DE
    } else if s == "es-ES"@ {
        CubeMelonLanguage::ES_ES
    } else if s == "it-IT"@ {
        CubeMelonLanguage::IT_IT
    } else if s == "ru-RU"@ {
        CubeMelonLanguage::RU_RU
    } else if s == "pt-BR"@ {
        CubeMelonLanguage::PT_BR
    } else if s == "ar-SA"@ {
        CubeMelonLanguage::AR_SA
    } else if s == "tr-TR"@ {
        CubeMelonLanguage::TR_TR
    } else if s == "fa-IR"@ {
        CubeMelonLanguage::FA_IR
    } else if s == "el-GR"@ {
        CubeMelonLanguage::EL_GR
    } else if s == "id-ID"@ {
        CubeMelonLanguage::ID_ID
    } else if s == "vi-VN"@ {
        CubeMelonLanguage::VI_VN
    } else if s == "th-TH"@ {
        CubeMelonLanguage::TH_TH
    } else if s == "pl-PL"@ {
        CubeMelonLanguage::PL_PL
    } else if s == "nl-NL"@ {
        CubeMelonLanguage::NL_NL
    } else if s == "sv-SE"@ {
        CubeMelonLanguage::SV_SE
    } else if s == "da-DK"@ {
        CubeMelonLanguage::DA_DK
    } else if s == "no-NO"@ {
        CubeMelonLanguage::NO_NO
    } else if s == "fi-FI"@ {
        CubeMelonLanguage::FI_FI
    } else if s == "uk-UA"@ {
        CubeMelonLanguage::UK_UA
    } else {
        CubeMelonLanguage::EN_US
    }
}

/// Parses a BCP-47 tag in canonical casing; unknown or non-canonical tags
/// fall back to en-US.
pub fn parse_language(code: &str) -> (r: CubeMelonLanguage)
    ensures
        r == language_for_tag(code@),
{
    if str_equals(code, "en-US") {
        CubeMelonLanguage::EN_US
    } else if str_equals(code, "ja-JP") {
        CubeMelonLanguage::JA_JP
    } else if str_equals(code, "zh-CN") {
        CubeMelonLanguage::ZH_CN
    } else if str_equals(code, "zh-TW") {
        CubeMelonLanguage::ZH_TW
    } else if str_equals(code, "ko-KR") {
        CubeMelonLanguage::KO_KR
    } else if str_equals(code, "fr-FR") {
        CubeMelonLanguage::FR_FR
    } else if str_equals(code, "de-DE") {
        CubeMelonLanguage::DE_DE
    } else if str_equals(code, "es-ES") {
        CubeMelonLanguage::ES_ES
    } else if str_equals(code, "it-IT") {
        CubeMelonLanguage::IT_IT
    } else if str_equals(code, "ru-RU") {
        CubeMelonLanguage::RU_RU
    } else if str_equals(code, "pt-BR") {
        CubeMelonLanguage::PT_BR
    } else if str_equals(code, "ar-SA") {
        CubeMelonLanguage::AR_SA
    } else if str_equals(code, "tr-TR") {
        CubeMelonLanguage::TR_TR
    } else if str_equals(code, "fa-IR") {
        CubeMelonLanguage::FA_IR
    } else if str_equals(code, "el-GR") {
        CubeMelonLanguage::EL_GR
    } else if str_equals(code, "id-ID") {
        CubeMelonLanguage::ID_ID
    } else if str_equals(code, "vi-VN") {
        CubeMelonLanguage::VI_VN
    } else if str_equals(code, "th-TH") {
        CubeMelonLanguage::TH_TH
    } else if str_equals(code, "pl-PL") {
        CubeMelonLanguage::PL_PL
    } else if str_equals(code, "nl-NL") {
        CubeMelonLanguage::NL_NL
    } else if str_equals(code, "sv-SE") {
        CubeMelonLanguage::SV_SE
    } else if str_equals(code, "da-DK") {
        CubeMelonLanguage::DA_DK
    } else if str_equals(code, "no-NO") {
        CubeMelonLanguage::NO_NO
    } else if str_equals(code, "fi-FI") {
        CubeMelonLanguage::FI_FI
    } else if str_equals(code, "uk-UA") {
        CubeMelonLanguage::UK_UA
    } else {
        CubeMelonLanguage::EN_US
    }
}

/// The tag of a language, as owned text.
pub fn language_to_string(lang: &CubeMelonLanguage) -> (r: String)
    ensures
        r@ == language_tag(*lang),
{
    String::from_str(lang.as_str())
}

/// The language chosen from a locale setting such as `LANG`, by its prefix;
/// en-US when unset or unrecognised.
pub open spec fn language_for_locale(locale: Option<Seq<char>>) -> CubeMelonLanguage {
    match locale {
        None => CubeMelonLanguage::EN_US,
        Some(l) => if l.len() >= 2 && l.subrange(0, 2) == "ja"@ {
            CubeMelonLanguage::JA_JP
        } else if l.len() >= 2 && l.subrange(0, 2) == "zh"@ {
            CubeMelonLanguage::ZH_CN
        } else if l.len() >= 2 && l.subrange(0, 2) == "fr"@ {
            CubeMelonLanguage::FR_FR
        } else if l.len() >= 2 && l.subrange(0, 2) == "de"@ {
            CubeMelonLanguage::DE_DE
        } else if l.len() >= 2 && l.subrange(0, 2) == "es"@ {
            CubeMelonLanguage::ES_ES
        } else {
            CubeMelonLanguage::EN_US
        },
    }
}

/// The system language from a locale setting.
pub fn language_from_locale(locale: Option<&str>) -> (r: CubeMelonLanguage)
    ensures
        r == language_for_locale(match locale {
            Some(l) => Some(l@),
            None => None,
        }),
{
    proof {
        reveal_strlit("ja");
        reveal_strlit("zh");
        reveal_strlit("fr");
        reveal_strlit("de");
        reveal_strlit("es");
    }
    match locale {
        None => CubeMelonLanguage::EN_US,
        Some(l) => {
            if str_starts_with(l, "ja") {
                CubeMelonLanguage::JA_JP
            } else if str_starts_with(l, "zh") {
                CubeMelonLanguage::ZH_CN
            } else if str_starts_with(l, "fr") {
                CubeMelonLanguage::FR_FR
            } else if str_starts_with(l, "de") {
                CubeMelonLanguage::DE_DE
            } else if str_starts_with(l, "es") {
                CubeMelonLanguage::ES_ES
            } else {
                CubeMelonLanguage::EN_US
            }
        },
    }
}

/// The language for a Windows locale identifier, by its primary language.
pub open spec fn language_for_lcid(lcid: u32) -> CubeMelonLanguage {
    let primary = lcid & 0x3ff;
    if primary == 0x11 {
        CubeMelonLanguage::JA_JP
    } else if primary == 0x09 {
        CubeMelonLanguage::EN_US
    } else if primary == 0x04 {
        CubeMelonLanguage::ZH_CN
    } else if primary == 0x0c {
        CubeMelonLanguage::FR_FR
    } else if primary == 0x07 {
        CubeMelonLanguage::DE_DE
    } else if primary == 0x0a {
        CubeMelonLanguage::ES_ES
    } else {
        CubeMelonLanguage::EN_US
    }
}

pub fn language_from_lcid(lcid: u32) -> (r: CubeMelonLanguage)
    ensures
        r == language_for_lcid(lcid),
{
    let primary = lcid & 0x3ff;
    if primary == 0x11 {
        CubeMelonLanguage::JA_JP
    } else if primary == 0x09 {
        CubeMelonLanguage::EN_US
    } else if primary == 0x04 {
        CubeMelonLanguage::ZH_CN
    } else if primary == 0x0c {
        CubeMelonLanguage::FR_FR
    } else if primary == 0x07 {
        CubeMelonLanguage::DE_DE
    } else if primary == 0x0a {
        CubeMelonLanguage::ES_ES
    } else {
        CubeMelonLanguage::EN_US
    }
}

/// The language the host runs in: the configured tag, unless it is the
/// literal `auto`, in which case the system language.
pub open spec fn spec_effective_language(configured: Seq<char>, system: CubeMelonLanguage) -> CubeMelonLanguage {
    if configured == "auto"@ {
        system
    } else {
        language_for_tag(configured)
    }
}

pub fn effective_language(configured: &str, system: CubeMelonLanguage) -> (r: CubeMelonLanguage)
    ensures
        r == spec_effective_language(configured@, system),
{
    if str_equals(configured, "auto") {
        system
    } else {
        parse_language(configured)
    }
}

/// Outcome of a plugin asking the host for one of its own capabilities.
pub open spec fn spec_host_interface(
    interface_type: CubeMelonPluginType,
    version: u32,
    host_registered: bool,
) -> Result<CapabilityTable, CubeMelonPluginErrorCode> {
    if version != INTERFACE_VERSION {
        Err(CubeMelonPluginErrorCode::VersionMismatch)
    } else if !host_registered {
        Err(CubeMelonPluginErrorCode::NotInitialized)
    } else {
        match interface_type {
            CubeMelonPluginType::Manager => Ok(CapabilityTable::Manager),
            CubeMelonPluginType::State => Ok(CapabilityTable::State),
            _ => Err(CubeMelonPluginErrorCode::InterfaceNotSupported),
        }
    }
}

/// Reverse interface lookup: the host hands out its Manager and State
/// tables at the current version, once a host object is registered.
pub fn host_interface_lookup(
    interface_type: CubeMelonPluginType,
    version: u32,
    host_registered: bool,
) -> (r: Result<CapabilityTable, CubeMelonPluginErrorCode>)
    ensures
        r == spec_host_interface(interface_type, version, host_registered),
{
    if version != INTERFACE_VERSION {
        return Err(CubeMelonPluginErrorCode::VersionMismatch);
    }
    if !host_registered {
        return Err(CubeMelonPluginErrorCode::NotInitialized);
    }
    match interface_type {
        CubeMelonPluginType::Manager => Ok(CapabilityTable::Manager),
        CubeMelonPluginType::State => Ok(CapabilityTable::State),
        _ => Err(CubeMelonPluginErrorCode::InterfaceNotSupported),
    }
}

} // verus!
