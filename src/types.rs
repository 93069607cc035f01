//! Identity, versioning, capability flags and the small enumerations shared
//! by hosts and plugins.

use vstd::prelude::*;
use crate::text::{hex_digit, hex_digit_exec, hex_value, hex_value_exec, push_char};

verus! {

/// A 128-bit plugin identity.
#[derive(Debug, Clone, Copy, Eq, Hash)]
pub struct CubeMelonUUID {
    pub bytes: [u8; 16],
}

impl PartialEq for CubeMelonUUID {
    fn eq(&self, other: &CubeMelonUUID) -> (r: bool)
        ensures
            r == (*self == *other),
    {
        let mut i: usize = 0;
        while i < 16
            invariant
                i <= 16,
                forall|j: int| 0 <= j < i ==> self.bytes@[j] == other.bytes@[j],
            decreases 16 - i,
        {
            if self.bytes[i] != other.bytes[i] {
                return false;
            }
            i = i + 1;
        }
        assert(self.bytes =~= other.bytes);
        true
    }
}

impl vstd::std_specs::cmp::PartialEqSpecImpl for CubeMelonUUID {
    open spec fn obeys_eq_spec() -> bool {
        true
    }

    open spec fn eq_spec(&self, other: &CubeMelonUUID) -> bool {
        *self == *other
    }
}

/// Text of the first `k` bytes of an identity in the hyphenated
/// 8-4-4-4-12 form: a hyphen goes before bytes 4, 6, 8 and 10.
pub open spec fn uuid_text_prefix(bytes: Seq<u8>, k: nat) -> Seq<char>
    decreases k,
{
    if k == 0 {
        Seq::empty()
    } else {
        let i = (k - 1) as nat;
        let before = uuid_text_prefix(bytes, i);
        let sep = if i == 4 || i == 6 || i == 8 || i == 10 {
            before.push('-')
        } else {
            before
        };
        sep.push(hex_digit(bytes[i as int] / 16)).push(hex_digit(bytes[i as int] % 16))
    }
}

/// The hyphenated lower-case text of an identity.
pub open spec fn uuid_text(bytes: Seq<u8>) -> Seq<char> {
    uuid_text_prefix(bytes, 16)
}

/// Bytes written by a textual identity: hyphens are skipped anywhere except
/// inside a pair of hex digits; any other character makes the text invalid.
pub open spec fn hex_pairs(s: Seq<char>) -> Option<Seq<u8>>
    decreases s.len(),
{
    if s.len() == 0 {
        Some(Seq::empty())
    } else if s[0] == '-' {
        hex_pairs(s.drop_first())
    } else if s.len() >= 2 && hex_value(s[0]) is Some && hex_value(s[1]) is Some {
        match hex_pairs(s.skip(2)) {
            Some(rest) => Some(
                seq![(hex_value(s[0])->0 * 16 + hex_value(s[1])->0) as u8] + rest,
            ),
            None => None,
        }
    } else {
        None
    }
}

/// The identity a text denotes, if it writes exactly sixteen bytes.
pub open spec fn uuid_of_text(s: Seq<char>) -> Option<Seq<u8>> {
    match hex_pairs(s) {
        Some(b) => if b.len() == 16 { Some(b) } else { None },
        None => None,
    }
}

pub open spec fn prepend_bytes(acc: Seq<u8>, rest: Option<Seq<u8>>) -> Option<Seq<u8>> {
    match rest {
        Some(r) => Some(acc + r),
        None => None,
    }
}

impl CubeMelonUUID {
    /// Wraps sixteen raw bytes.
    pub fn from_bytes(bytes: [u8; 16]) -> (r: Self)
        ensures
            r.bytes == bytes,
    {
        CubeMelonUUID { bytes }
    }

    /// The all-zero identity.
    pub fn zero() -> (r: Self)
        ensures
            forall|i: int| 0 <= i < 16 ==> r.bytes[i] == 0,
    {
        CubeMelonUUID { bytes: [0u8; 16] }
    }

    /// Hyphenated lower-case hexadecimal text (8-4-4-4-12).
    pub fn to_string(&self) -> (r: String)
        ensures
            r@ == uuid_text(self.bytes@),
    {
        let mut s = String::new();
        let mut k: usize = 0;
        while k < 16
            invariant
                k <= 16,
                s@ == uuid_text_prefix(self.bytes@, k as nat),
            decreases 16 - k,
        {
            if k == 4 || k == 6 || k == 8 || k == 10 {
                push_char(&mut s, '-');
            }
            let b = self.bytes[k];
            push_char(&mut s, hex_digit_exec(b / 16));
            push_char(&mut s, hex_digit_exec(b % 16));
            k = k + 1;
        }
        s
    }

    /// Reads an identity written as 32 hex digits, with or without hyphens
    /// between digit pairs.
    pub fn parse(text: &str) -> (r: Option<Self>)
        ensures
            r is Some <==> uuid_of_text(text@) is Some,
            r matches Some(u) ==> u.bytes@ == uuid_of_text(text@)->0,
    {
        let n = text.unicode_len();
        let mut acc: Vec<u8> = Vec::new();
        let mut i: usize = 0;
        assert(text@.skip(0) =~= text@);
        assert(hex_pairs(text@) == prepend_bytes(acc@, hex_pairs(text@.skip(0)))) by {
            match hex_pairs(text@) {
                Some(r) => {
                    assert(acc@ + r =~= r);
                },
                None => {},
            }
        }
        while i < n
            invariant
                n == text@.len(),
                i <= n,
                hex_pairs(text@) == prepend_bytes(acc@, hex_pairs(text@.skip(i as int))),
            decreases n - i,
        {
            let ghost rest = text@.skip(i as int);
            let c = text.get_char(i);
            assert(rest[0] == c);
            if c == '-' {
                assert(rest.drop_first() =~= text@.skip(i + 1));
                i = i + 1;
            } else {
                if i + 1 >= n {
                    return None;
                }
                let hi = hex_value_exec(c);
                let lo = hex_value_exec(text.get_char(i + 1));
                assert(rest[1] == text@[i + 1]);
                match (hi, lo) {
                    (Some(h), Some(l)) => {
                        assert(rest.skip(2) =~= text@.skip(i + 2));
                        let ghost old_acc = acc@;
                        acc.push(h * 16 + l);
                        assert(hex_pairs(text@) == prepend_bytes(acc@, hex_pairs(text@.skip(i + 2)))) by {
                            match hex_pairs(rest.skip(2)) {
                                Some(r) => {
                                    assert(old_acc + (seq![(h * 16 + l) as u8] + r) =~= acc@ + r);
                                },
                                None => {},
                            }
                        }
                        i = i + 2;
                    },
                    _ => {
                        return None;
                    },
                }
            }
        }
        assert(text@.skip(n as int) =~= Seq::<char>::empty());
        assert(acc@ + Seq::<u8>::empty() =~= acc@);
        if acc.len() != 16 {
            return None;
        }
        let mut bytes = [0u8; 16];
        let mut j: usize = 0;
        while j < 16
            invariant
                acc@.len() == 16,
                j <= 16,
                forall|t: int| 0 <= t < j ==> bytes[t] == acc@[t],
            decreases 16 - j,
        {
            bytes[j] = acc[j];
            j = j + 1;
        }
        assert(bytes@ =~= acc@);
        Some(CubeMelonUUID { bytes })
    }
}

/// A semantic version: 16-bit major, 8-bit minor and patch.
#[derive(Debug, Clone, Copy, PartialEq, Eq, Structural, PartialOrd, Ord, Hash)]
pub struct CubeMelonVersion {
    pub major: u16,
    pub minor: u8,
    pub patch: u8,
}

impl CubeMelonVersion {
    pub fn new(major: u16, minor: u8, patch: u8) -> (r: Self)
        ensures
            r.major == major,
            r.minor == minor,
            r.patch == patch,
    {
        CubeMelonVersion { major, minor, patch }
    }

    /// Versions compared as (major, minor, patch), lexicographically.
    pub open spec fn spec_precedes(self, other: Self) -> bool {
        ||| self.major < other.major
        ||| self.major == other.major && self.minor < other.minor
        ||| self.major == other.major && self.minor == other.minor && self.patch < other.patch
    }

    /// Whether this version orders strictly before `other`.
    pub fn precedes(&self, other: &Self) -> (r: bool)
        ensures
            r == self.spec_precedes(*other),
    {
        self.major < other.major || (self.major == other.major && (self.minor < other.minor || (
        self.minor == other.minor && self.patch < other.patch)))
    }
}

/// Two SDK versions are compatible exactly when their major versions match.
pub open spec fn spec_compatible(plugin: CubeMelonVersion, host: CubeMelonVersion) -> bool {
    plugin.major == host.major
}

pub fn check_plugin_compatibility(
    plugin_sdk_version: CubeMelonVersion,
    host_sdk_version: CubeMelonVersion,
) -> (r: bool)
    ensures
        r == spec_compatible(plugin_sdk_version, host_sdk_version),
{
    plugin_sdk_version.major == host_sdk_version.major
}

/// The version of this SDK.
pub fn sdk_version() -> (r: CubeMelonVersion)
    ensures
        r.major == 0 && r.minor == 11 && r.patch == 2,
{
    CubeMelonVersion { major: 0, minor: 11, patch: 2 }
}

} // verus!

verus! {

/// A BCP-47 language tag known to the system, in canonical casing.
#[allow(non_camel_case_types)]
#[derive(Debug, Clone, Copy, PartialEq, Eq, Structural, Hash)]
pub enum CubeMelonLanguage {
    EN_US,
    JA_JP,
    ZH_CN,
    ZH_TW,
    KO_KR,
    FR_FR,
    DE_DE,
    ES_ES,
    IT_IT,
    RU_RU,
    PT_BR,
    AR_SA,
    TR_TR,
    FA_IR,
    EL_GR,
    ID_ID,
    VI_VN,
    TH_TH,
    PL_PL,
    NL_NL,
    SV_SE,
    DA_DK,
    NO_NO,
    FI_FI,
    UK_UA,
}

/// The canonical tag of a language.
pub open spec fn language_tag(l: CubeMelonLanguage) -> Seq<char> {
    match l {
        CubeMelonLanguage::EN_US => "en-US"@,
        CubeMelonLanguage::JA_JP => "ja-JP"@,
        CubeMelonLanguage::ZH_CN => "zh-CN"@,
        CubeMelonLanguage::ZH_TW => "zh-TW"@,
        CubeMelonLanguage::KO_KR => "ko-KR"@,
        CubeMelonLanguage::FR_FR => "fr-FR"@,
        CubeMelonLanguage::DE_DE => "de-DE"@,
        CubeMelonLanguage::ES_ES => "es-ES"@,
        CubeMelonLanguage::IT_IT => "it-IT"@,
        CubeMelonLanguage::RU_RU => "ru-RU"@,
        CubeMelonLanguage::PT_BR => "pt-BR"@,
        CubeMelonLanguage::AR_SA => "ar-SA"@,
        CubeMelonLanguage::TR_TR => "tr-TR"@,
        CubeMelonLanguage::FA_IR => "fa-IR"@,
        CubeMelonLanguage::EL_GR => "el-GR"@,
        CubeMelonLanguage::ID_ID => "id-ID"@,
        CubeMelonLanguage::VI_VN => "vi-VN"@,
        CubeMelonLanguage::TH_TH => "th-TH"@,
        CubeMelonLanguage::PL_PL => "pl-PL"@,
        CubeMelonLanguage::NL_NL => "nl-NL"@,
        CubeMelonLanguage::SV_SE => "sv-SE"@,
        CubeMelonLanguage::DA_DK => "da-DK"@,
        CubeMelonLanguage::NO_NO => "no-NO"@,
        CubeMelonLanguage::FI_FI => "fi-FI"@,
        CubeMelonLanguage::UK_UA => "uk-UA"@,
    }
}

impl CubeMelonLanguage {
    /// The canonical BCP-47 tag.
    pub fn as_str(&self) -> (r: &'static str)
        ensures
            r@ == language_tag(*self),
    {
        match self {
            CubeMelonLanguage::EN_US => "en-US",
            CubeMelonLanguage::JA_JP => "ja-JP",
            CubeMelonLanguage::ZH_CN => "zh-CN",
            CubeMelonLanguage::ZH_TW => "zh-TW",
            CubeMelonLanguage::KO_KR => "ko-KR",
            CubeMelonLanguage::FR_FR => "fr-FR",
            CubeMelonLanguage::DE_DE => "de-DE",
            CubeMelonLanguage::ES_ES => "es-ES",
            CubeMelonLanguage::IT_IT => "it-IT",
            CubeMelonLanguage::RU_RU => "ru-RU",
            CubeMelonLanguage::PT_BR => "pt-BR",
            CubeMelonLanguage::AR_SA => "ar-SA",
            CubeMelonLanguage::TR_TR => "tr-TR",
            CubeMelonLanguage::FA_IR => "fa-IR",
            CubeMelonLanguage::EL_GR => "el-GR",
            CubeMelonLanguage::ID_ID => "id-ID",
            CubeMelonLanguage::VI_VN => "vi-VN",
            CubeMelonLanguage::TH_TH => "th-TH",
            CubeMelonLanguage::PL_PL => "pl-PL",
            CubeMelonLanguage::NL_NL => "nl-NL",
            CubeMelonLanguage::SV_SE => "sv-SE",
            CubeMelonLanguage::DA_DK => "da-DK",
            CubeMelonLanguage::NO_NO => "no-NO",
            CubeMelonLanguage::FI_FI => "fi-FI",
            CubeMelonLanguage::UK_UA => "uk-UA",
        }
    }
}

/// Capability flags; each named capability is one bit of a 64-bit mask.
#[derive(Debug, Clone, Copy, PartialEq, Eq, Structural)]
pub enum CubeMelonPluginType {
    Basic,
    SingleTask,
    AsyncTask,
    Resident,
    State,
    Manager,
    DataInput,
    DataOutput,
    Window,
    Image,
    Audio,
    Video,
    FileSystem,
    Database,
    Encryption,
    HttpClient,
    HttpServer,
    TcpClient,
    TcpServer,
    UdpSocket,
    WebSocket,
    FileSharing,
    ServiceDiscovery,
    Streaming,
    Messaging,
    Blockchain,
    IoT,
    Reserved,
}

/// The mask bit of each capability; `Basic` is the empty mask.
pub open spec fn plugin_type_bits(t: CubeMelonPluginType) -> u64 {
    match t {
        CubeMelonPluginType::Basic => 0,
        CubeMelonPluginType::SingleTask => 0x1,
        CubeMelonPluginType::AsyncTask => 0x2,
        CubeMelonPluginType::Resident => 0x4,
        CubeMelonPluginType::State => 0x8,
        CubeMelonPluginType::Manager => 0x10,
        CubeMelonPluginType::DataInput => 0x20,
        CubeMelonPluginType::DataOutput => 0x40,
        CubeMelonPluginType::Window => 0x80,
        CubeMelonPluginType::Image => 0x100,
        CubeMelonPluginType::Audio => 0x200,
        CubeMelonPluginType::Video => 0x400,
        CubeMelonPluginType::FileSystem => 0x800,
        CubeMelonPluginType::Database => 0x1000,
        CubeMelonPluginType::Encryption => 0x2000,
        CubeMelonPluginType::HttpClient => 0x100000,
        CubeMelonPluginType::HttpServer => 0x200000,
        CubeMelonPluginType::TcpClient => 0x400000,
        CubeMelonPluginType::TcpServer => 0x800000,
        CubeMelonPluginType::UdpSocket => 0x1000000,
        CubeMelonPluginType::WebSocket => 0x2000000,
        CubeMelonPluginType::FileSharing => 0x4000000,
        CubeMelonPluginType::ServiceDiscovery => 0x8000000,
        CubeMelonPluginType::Streaming => 0x10000000,
        CubeMelonPluginType::Messaging => 0x20000000,
        CubeMelonPluginType::Blockchain => 0x40000000,
        CubeMelonPluginType::IoT => 0x80000000,
        CubeMelonPluginType::Reserved => 0x8000000000000000,
    }
}

/// The union of the masks of a list of capabilities.
pub open spec fn combined_bits(types: Seq<CubeMelonPluginType>) -> u64
    decreases types.len(),
{
    if types.len() == 0 {
        0
    } else {
        combined_bits(types.drop_last()) | plugin_type_bits(types.last())
    }
}

impl CubeMelonPluginType {
    /// The raw mask of this capability.
    pub fn as_raw(self) -> (r: u64)
        ensures
            r == plugin_type_bits(self),
    {
        match self {
            CubeMelonPluginType::Basic => 0,
            CubeMelonPluginType::SingleTask => 0x1,
            CubeMelonPluginType::AsyncTask => 0x2,
            CubeMelonPluginType::Resident => 0x4,
            CubeMelonPluginType::State => 0x8,
            CubeMelonPluginType::Manager => 0x10,
            CubeMelonPluginType::DataInput => 0x20,
            CubeMelonPluginType::DataOutput => 0x40,
            CubeMelonPluginType::Window => 0x80,
            CubeMelonPluginType::Image => 0x100,
            CubeMelonPluginType::Audio => 0x200,
            CubeMelonPluginType::Video => 0x400,
            CubeMelonPluginType::FileSystem => 0x800,
            CubeMelonPluginType::Database => 0x1000,
            CubeMelonPluginType::Encryption => 0x2000,
            CubeMelonPluginType::HttpClient => 0x100000,
            CubeMelonPluginType::HttpServer => 0x200000,
            CubeMelonPluginType::TcpClient => 0x400000,
            CubeMelonPluginType::TcpServer => 0x800000,
            CubeMelonPluginType::UdpSocket => 0x1000000,
            CubeMelonPluginType::WebSocket => 0x2000000,
            CubeMelonPluginType::FileSharing => 0x4000000,
            CubeMelonPluginType::ServiceDiscovery => 0x8000000,
            CubeMelonPluginType::Streaming => 0x10000000,
            CubeMelonPluginType::Messaging => 0x20000000,
            CubeMelonPluginType::Blockchain => 0x40000000,
            CubeMelonPluginType::IoT => 0x80000000,
            CubeMelonPluginType::Reserved => 0x8000000000000000,
        }
    }

    /// Whether the masks of `self` and `flag` share a bit.
    pub fn contains(self, flag: CubeMelonPluginType) -> (r: bool)
        ensures
            r == (plugin_type_bits(self) & plugin_type_bits(flag) != 0),
    {
        (self.as_raw() & flag.as_raw()) != 0
    }

    /// The union of the masks of `types`.
    pub fn combine(types: &[CubeMelonPluginType]) -> (r: u64)
        ensures
            r == combined_bits(types@),
    {
        let mut acc: u64 = 0;
        let mut i: usize = 0;
        while i < types.len()
            invariant
                i <= types@.len(),
                acc == combined_bits(types@.subrange(0, i as int)),
            decreases types@.len() - i,
        {
            assert(types@.subrange(0, i + 1).drop_last() =~= types@.subrange(0, i as int));
            acc = acc | types[i].as_raw();
            i = i + 1;
        }
        assert(types@.subrange(0, i as int) =~= types@);
        acc
    }

    /// The capability whose mask is exactly `value`, if any.
    pub fn from_raw(value: u64) -> (r: Option<CubeMelonPluginType>)
        ensures
            r matches Some(t) ==> plugin_type_bits(t) == value,
            r is None ==> forall|t: CubeMelonPluginType| plugin_type_bits(t) != value,
    {
        let all = all_plugin_types();
        let mut i: usize = 0;
        while i < all.len()
            invariant
                all@ == all_plugin_types_spec(),
                i <= all@.len(),
                forall|j: int| 0 <= j < i ==> plugin_type_bits(#[trigger] all@[j]) != value,
            decreases all@.len() - i,
        {
            if all[i].as_raw() == value {
                return Some(all[i]);
            }
            i = i + 1;
        }
        assert forall|t: CubeMelonPluginType| plugin_type_bits(t) != value by {
            lemma_all_plugin_types_complete(t);
        }
        None
    }
}

pub open spec fn all_plugin_types_spec() -> Seq<CubeMelonPluginType> {
    seq![
        CubeMelonPluginType::Basic, CubeMelonPluginType::SingleTask,
        CubeMelonPluginType::AsyncTask, CubeMelonPluginType::Resident,
        CubeMelonPluginType::State, CubeMelonPluginType::Manager,
        CubeMelonPluginType::DataInput, CubeMelonPluginType::DataOutput,
        CubeMelonPluginType::Window, CubeMelonPluginType::Image,
        CubeMelonPluginType::Audio, CubeMelonPluginType::Video,
        CubeMelonPluginType::FileSystem, CubeMelonPluginType::Database,
        CubeMelonPluginType::Encryption, CubeMelonPluginType::HttpClient,
        CubeMelonPluginType::HttpServer, CubeMelonPluginType::TcpClient,
        CubeMelonPluginType::TcpServer, CubeMelonPluginType::UdpSocket,
        CubeMelonPluginType::WebSocket, CubeMelonPluginType::FileSharing,
        CubeMelonPluginType::ServiceDiscovery, CubeMelonPluginType::Streaming,
        CubeMelonPluginType::Messaging, CubeMelonPluginType::Blockchain,
        CubeMelonPluginType::IoT, CubeMelonPluginType::Reserved,
    ]
}

proof fn lemma_all_plugin_types_complete(t: CubeMelonPluginType)
    ensures
        exists|j: int| 0 <= j < all_plugin_types_spec().len() && all_plugin_types_spec()[j] == t,
{
    let s = all_plugin_types_spec();
    match t {
        CubeMelonPluginType::Basic => assert(s[0] == t),
        CubeMelonPluginType::SingleTask => assert(s[1] == t),
        CubeMelonPluginType::AsyncTask => assert(s[2] == t),
        CubeMelonPluginType::Resident => assert(s[3] == t),
        CubeMelonPluginType::State => assert(s[4] == t),
        CubeMelonPluginType::Manager => assert(s[5] == t),
        CubeMelonPluginType::DataInput => assert(s[6] == t),
        CubeMelonPluginType::DataOutput => assert(s[7] == t),
        CubeMelonPluginType::Window => assert(s[8] == t),
        CubeMelonPluginType::Image => assert(s[9] == t),
        CubeMelonPluginType::Audio => assert(s[10] == t),
        CubeMelonPluginType::Video => assert(s[11] == t),
        CubeMelonPluginType::FileSystem => assert(s[12] == t),
        CubeMelonPluginType::Database => assert(s[13] == t),
        CubeMelonPluginType::Encryption => assert(s[14] == t),
        CubeMelonPluginType::HttpClient => assert(s[15] == t),
        CubeMelonPluginType::HttpServer => assert(s[16] == t),
        CubeMelonPluginType::TcpClient => assert(s[17] == t),
        CubeMelonPluginType::TcpServer => assert(s[18] == t),
        CubeMelonPluginType::UdpSocket => assert(s[19] == t),
        CubeMelonPluginType::WebSocket => assert(s[20] == t),
        CubeMelonPluginType::FileSharing => assert(s[21] == t),
        CubeMelonPluginType::ServiceDiscovery => assert(s[22] == t),
        CubeMelonPluginType::Streaming => assert(s[23] == t),
        CubeMelonPluginType::Messaging => assert(s[24] == t),
        CubeMelonPluginType::Blockchain => assert(s[25] == t),
        CubeMelonPluginType::IoT => assert(s[26] == t),
        CubeMelonPluginType::Reserved => assert(s[27] == t),
    }
}

fn all_plugin_types() -> (r: Vec<CubeMelonPluginType>)
    ensures
        r@ == all_plugin_types_spec(),
{
    let r = vec![
        CubeMelonPluginType::Basic, CubeMelonPluginType::SingleTask,
        CubeMelonPluginType::AsyncTask, CubeMelonPluginType::Resident,
        CubeMelonPluginType::State, CubeMelonPluginType::Manager,
        CubeMelonPluginType::DataInput, CubeMelonPluginType::DataOutput,
        CubeMelonPluginType::Window, CubeMelonPluginType::Image,
        CubeMelonPluginType::Audio, CubeMelonPluginType::Video,
        CubeMelonPluginType::FileSystem, CubeMelonPluginType::Database,
        CubeMelonPluginType::Encryption, CubeMelonPluginType::HttpClient,
        CubeMelonPluginType::HttpServer, CubeMelonPluginType::TcpClient,
        CubeMelonPluginType::TcpServer, CubeMelonPluginType::UdpSocket,
        CubeMelonPluginType::WebSocket, CubeMelonPluginType::FileSharing,
        CubeMelonPluginType::ServiceDiscovery, CubeMelonPluginType::Streaming,
        CubeMelonPluginType::Messaging, CubeMelonPluginType::Blockchain,
        CubeMelonPluginType::IoT, CubeMelonPluginType::Reserved,
    ];
    assert(r@ =~= all_plugin_types_spec());
    r
}

impl core::ops::BitOr for CubeMelonPluginType {
    type Output = u64;

    fn bitor(self, rhs: Self) -> (r: u64)
        ensures
            r == plugin_type_bits(self) | plugin_type_bits(rhs),
    {
        self.as_raw() | rhs.as_raw()
    }
}

impl vstd::std_specs::ops::BitOrSpecImpl for CubeMelonPluginType {
    open spec fn obeys_bitor_spec() -> bool {
        true
    }

    open spec fn bitor_req(self, rhs: Self) -> bool {
        true
    }

    open spec fn bitor_spec(self, rhs: Self) -> u64 {
        plugin_type_bits(self) | plugin_type_bits(rhs)
    }
}

impl core::ops::BitOr<CubeMelonPluginType> for u64 {
    type Output = u64;

    fn bitor(self, rhs: CubeMelonPluginType) -> (r: u64)
        ensures
            r == self | plugin_type_bits(rhs),
    {
        self | rhs.as_raw()
    }
}

impl vstd::std_specs::ops::BitOrSpecImpl<CubeMelonPluginType> for u64 {
    open spec fn obeys_bitor_spec() -> bool {
        true
    }

    open spec fn bitor_req(self, rhs: CubeMelonPluginType) -> bool {
        true
    }

    open spec fn bitor_spec(self, rhs: CubeMelonPluginType) -> u64 {
        self | plugin_type_bits(rhs)
    }
}

} // verus!

verus! {

/// Execution status of a task or of a resident service.
#[derive(Debug, Clone, Copy, PartialEq, Eq, Structural)]
pub enum CubeMelonExecutionStatus {
    Idle,
    Running,
    Suspended,
    Completed,
    Error,
    Cancelled,
}

/// Where a piece of persisted state lives.
#[derive(Debug, Clone, Copy, PartialEq, Eq, Structural)]
pub enum CubeMelonPluginStateScope {
    /// The plugin's private state.
    Local,
    /// The host's own configuration.
    Host,
    /// State shared between plugins.
    Shared,
}

/// Threading preferences a plugin declares, as bit flags.
#[derive(Debug, Clone, Copy, PartialEq, Eq, Structural)]
pub enum CubeMelonThreadRequirements {
    NoRequirements,
    UIThread,
    Background,
    HighPriority,
    LowPriority,
}

pub open spec fn thread_requirement_bits(t: CubeMelonThreadRequirements) -> u32 {
    match t {
        CubeMelonThreadRequirements::NoRequirements => 0,
        CubeMelonThreadRequirements::UIThread => 1,
        CubeMelonThreadRequirements::Background => 2,
        CubeMelonThreadRequirements::HighPriority => 4,
        CubeMelonThreadRequirements::LowPriority => 8,
    }
}

impl CubeMelonThreadRequirements {
    pub fn as_raw(self) -> (r: u32)
        ensures
            r == thread_requirement_bits(self),
    {
        match self {
            CubeMelonThreadRequirements::NoRequirements => 0,
            CubeMelonThreadRequirements::UIThread => 1,
            CubeMelonThreadRequirements::Background => 2,
            CubeMelonThreadRequirements::HighPriority => 4,
            CubeMelonThreadRequirements::LowPriority => 8,
        }
    }
}

impl core::ops::BitOr for CubeMelonThreadRequirements {
    type Output = u32;

    fn bitor(self, rhs: Self) -> (r: u32)
        ensures
            r == thread_requirement_bits(self) | thread_requirement_bits(rhs),
    {
        self.as_raw() | rhs.as_raw()
    }
}

impl vstd::std_specs::ops::BitOrSpecImpl for CubeMelonThreadRequirements {
    open spec fn obeys_bitor_spec() -> bool {
        true
    }

    open spec fn bitor_req(self, rhs: Self) -> bool {
        true
    }

    open spec fn bitor_spec(self, rhs: Self) -> u32 {
        thread_requirement_bits(self) | thread_requirement_bits(rhs)
    }
}

/// Classification of a task.
#[derive(Debug, Clone, Copy, PartialEq, Eq, Structural)]
pub enum CubeMelonTaskType {
    Unspecified,
    Generic,
    FileIO,
    Database,
    Computation,
    Window,
    Image,
    Audio,
    Video,
    Http,
    Tcp,
    Udp,
    WebSocket,
    FileSharing,
    ServiceDiscovery,
    GRPC,
    MQTT,
    GraphQL,
    UserDefinedStart,
    UserDefinedEnd,
}

pub open spec fn task_type_code(t: CubeMelonTaskType) -> u16 {
    match t {
        CubeMelonTaskType::Unspecified => 0,
        CubeMelonTaskType::Generic => 1,
        CubeMelonTaskType::FileIO => 2,
        CubeMelonTaskType::Database => 3,
        CubeMelonTaskType::Computation => 4,
        CubeMelonTaskType::Window => 5,
        CubeMelonTaskType::Image => 6,
        CubeMelonTaskType::Audio => 7,
        CubeMelonTaskType::Video => 8,
        CubeMelonTaskType::Http => 20,
        CubeMelonTaskType::Tcp => 21,
        CubeMelonTaskType::Udp => 22,
        CubeMelonTaskType::WebSocket => 23,
        CubeMelonTaskType::FileSharing => 24,
        CubeMelonTaskType::ServiceDiscovery => 25,
        CubeMelonTaskType::GRPC => 26,
        CubeMelonTaskType::MQTT => 27,
        CubeMelonTaskType::GraphQL => 28,
        CubeMelonTaskType::UserDefinedStart => 100,
        CubeMelonTaskType::UserDefinedEnd => 65535,
    }
}

impl CubeMelonTaskType {
    /// The numeric code of the task type on the binary boundary.
    pub fn code(self) -> (r: u16)
        ensures
            r == task_type_code(self),
    {
        match self {
            CubeMelonTaskType::Unspecified => 0,
            CubeMelonTaskType::Generic => 1,
            CubeMelonTaskType::FileIO => 2,
            CubeMelonTaskType::Database => 3,
            CubeMelonTaskType::Computation => 4,
            CubeMelonTaskType::Window => 5,
            CubeMelonTaskType::Image => 6,
            CubeMelonTaskType::Audio => 7,
            CubeMelonTaskType::Video => 8,
            CubeMelonTaskType::Http => 20,
            CubeMelonTaskType::Tcp => 21,
            CubeMelonTaskType::Udp => 22,
            CubeMelonTaskType::WebSocket => 23,
            CubeMelonTaskType::FileSharing => 24,
            CubeMelonTaskType::ServiceDiscovery => 25,
            CubeMelonTaskType::GRPC => 26,
            CubeMelonTaskType::MQTT => 27,
            CubeMelonTaskType::GraphQL => 28,
            CubeMelonTaskType::UserDefinedStart => 100,
            CubeMelonTaskType::UserDefinedEnd => 65535,
        }
    }
}

/// Severity of a log message, from least to most severe.
#[derive(Debug, Clone, Copy, PartialEq, Eq, PartialOrd, Ord)]
pub enum CubeMelonLogLevel {
    Trace,
    Debug,
    Info,
    Warn,
    Error,
}

pub open spec fn log_level_label(l: CubeMelonLogLevel) -> Seq<char> {
    match l {
        CubeMelonLogLevel::Trace => "TRACE"@,
        CubeMelonLogLevel::Debug => "DEBUG"@,
        CubeMelonLogLevel::Info => "INFO"@,
        CubeMelonLogLevel::Warn => "WARN"@,
        CubeMelonLogLevel::Error => "ERROR"@,
    }
}

impl CubeMelonLogLevel {
    /// Upper-case label used in log lines.
    pub fn label(&self) -> (r: &'static str)
        ensures
            r@ == log_level_label(*self),
    {
        match self {
            CubeMelonLogLevel::Trace => "TRACE",
            CubeMelonLogLevel::Debug => "DEBUG",
            CubeMelonLogLevel::Info => "INFO",
            CubeMelonLogLevel::Warn => "WARN",
            CubeMelonLogLevel::Error => "ERROR",
        }
    }
}

} // verus!
