//! The host's own persisted configuration, as seen through the State
//! capability: only the Host scope is kept, serialised as TOML, with two
//! keys. Serialising and persisting are the host's outside work.

use vstd::prelude::*;
use vstd::string::*;
use vstd::utf8::{decode_utf8, valid_utf8};
use crate::error::CubeMelonPluginErrorCode;
use crate::text::{str_equals, str_from_utf8};
use crate::types::CubeMelonPluginStateScope;

verus! {

/// The `[settings]` table of the host configuration.
#[derive(Debug)]
pub struct HostSettings {
    /// Where plugins are installed, relative to the executable unless
    /// absolute.
    pub plugins_directory: String,
    /// A BCP-47 tag, or `auto` for the system language.
    pub language: String,
}

/// The two keys the Host scope knows.
pub open spec fn known_key(key: Seq<char>) -> bool {
    key == "plugins_directory"@ || key == "language"@
}

/// Outcome of reading a key of `scope`.
pub open spec fn spec_get_value(settings: HostSettings, scope: CubeMelonPluginStateScope, key: Seq<char>) -> Result<Seq<char>, CubeMelonPluginErrorCode> {
    if scope != CubeMelonPluginStateScope::Host {
        Err(CubeMelonPluginErrorCode::NotSupported)
    } else if key == "plugins_directory"@ {
        Ok(settings.plugins_directory@)
    } else if key == "language"@ {
        Ok(settings.language@)
    } else {
        Err(CubeMelonPluginErrorCode::PluginNotFound)
    }
}

impl HostSettings {
    /// The defaults: `plugins`, and `auto`.
    pub fn default_settings() -> (r: Self)
        ensures
            r.plugins_directory@ == "plugins"@,
            r.language@ == "auto"@,
    {
        HostSettings {
            plugins_directory: String::from_str("plugins"),
            language: String::from_str("auto"),
        }
    }

    /// Serialisation format of `scope`: TOML for Host, none otherwise.
    pub fn get_format_name(scope: CubeMelonPluginStateScope) -> (r: Option<&'static str>)
        ensures
            scope == CubeMelonPluginStateScope::Host ==> (r matches Some(f) && f@ == "toml"@),
            scope != CubeMelonPluginStateScope::Host ==> r is None,
    {
        match scope {
            CubeMelonPluginStateScope::Host => Some("toml"),
            _ => None,
        }
    }

    /// The value of a key.
    pub fn get_state_value(&self, scope: CubeMelonPluginStateScope, key: &str) -> (r: Result<String, CubeMelonPluginErrorCode>)
        ensures
            match (r, spec_get_value(*self, scope, key@)) {
                (Ok(v), Ok(w)) => v@ == w,
                (Err(e), Err(f)) => e == f,
                _ => false,
            },
    {
        if scope != CubeMelonPluginStateScope::Host {
            return Err(CubeMelonPluginErrorCode::NotSupported);
        }
        if str_equals(key, "plugins_directory") {
            Ok(self.plugins_directory.clone())
        } else if str_equals(key, "language") {
            Ok(self.language.clone())
        } else {
            Err(CubeMelonPluginErrorCode::PluginNotFound)
        }
    }

    /// Sets a key from UTF-8 bytes. Empty data is an invalid parameter and
    /// malformed UTF-8 an encoding error; these are checked before the scope
    /// and the key.
    pub fn set_state_value(&mut self, scope: CubeMelonPluginStateScope, key: &str, data: &[u8]) -> (r: CubeMelonPluginErrorCode)
        ensures
            data@.len() == 0 ==> r == CubeMelonPluginErrorCode::InvalidParameter,
            data@.len() > 0 && !valid_utf8(data@) ==> r == CubeMelonPluginErrorCode::Encoding,
            data@.len() > 0 && valid_utf8(data@) ==> r == (if scope != CubeMelonPluginStateScope::Host {
                CubeMelonPluginErrorCode::NotSupported
            } else if !known_key(key@) {
                CubeMelonPluginErrorCode::PluginNotFound
            } else {
                CubeMelonPluginErrorCode::Success
            }),
            r == CubeMelonPluginErrorCode::Success && key@ == "plugins_directory"@ ==> final(self).plugins_directory@ == decode_utf8(data@) && final(self).language@ == old(self).language@,
            r == CubeMelonPluginErrorCode::Success && key@ == "language"@ ==> final(self).language@ == decode_utf8(data@) && final(self).plugins_directory@ == old(self).plugins_directory@,
            r != CubeMelonPluginErrorCode::Success ==> final(self).plugins_directory@ == old(self).plugins_directory@ && final(self).language@ == old(self).language@,
    {
        if data.len() == 0 {
            return CubeMelonPluginErrorCode::InvalidParameter;
        }
        let text = match str_from_utf8(data) {
            Some(t) => t,
            None => return CubeMelonPluginErrorCode::Encoding,
        };
        if scope != CubeMelonPluginStateScope::Host {
            return CubeMelonPluginErrorCode::NotSupported;
        }
        proof {
            reveal_strlit("plugins_directory");
            reveal_strlit("language");
            assert("plugins_directory"@.len() != "language"@.len());
        }
        if str_equals(key, "plugins_directory") {
            self.plugins_directory = String::from_str(text);
            CubeMelonPluginErrorCode::Success
        } else if str_equals(key, "language") {
            self.language = String::from_str(text);
            CubeMelonPluginErrorCode::Success
        } else {
            CubeMelonPluginErrorCode::PluginNotFound
        }
    }

    /// Resets a key to its default.
    pub fn clear_state_value(&mut self, scope: CubeMelonPluginStateScope, key: &str) -> (r: CubeMelonPluginErrorCode)
        ensures
            r == (if scope != CubeMelonPluginStateScope::Host {
                CubeMelonPluginErrorCode::NotSupported
            } else if !known_key(key@) {
                CubeMelonPluginErrorCode::PluginNotFound
            } else {
                CubeMelonPluginErrorCode::Success
            }),
            r == CubeMelonPluginErrorCode::Success && key@ == "plugins_directory"@ ==> final(self).plugins_directory@ == "plugins"@ && final(self).language@ == old(self).language@,
            r == CubeMelonPluginErrorCode::Success && key@ == "language"@ ==> final(self).language@ == "auto"@ && final(self).plugins_directory@ == old(self).plugins_directory@,
            r != CubeMelonPluginErrorCode::Success ==> final(self).plugins_directory@ == old(self).plugins_directory@ && final(self).language@ == old(self).language@,
    {
        if scope != CubeMelonPluginStateScope::Host {
            return CubeMelonPluginErrorCode::NotSupported;
        }
        proof {
            reveal_strlit("plugins_directory");
            reveal_strlit("language");
            assert("plugins_directory"@.len() != "language"@.len());
        }
        if str_equals(key, "plugins_directory") {
            self.plugins_directory = String::from_str("plugins");
            CubeMelonPluginErrorCode::Success
        } else if str_equals(key, "language") {
            self.language = String::from_str("auto");
            CubeMelonPluginErrorCode::Success
        } else {
            CubeMelonPluginErrorCode::PluginNotFound
        }
    }

    /// The keys of `scope`.
    pub fn list_state_keys(scope: CubeMelonPluginStateScope) -> (r: Result<Vec<&'static str>, CubeMelonPluginErrorCode>)
        ensures
            scope != CubeMelonPluginStateScope::Host ==> r == Err::<Vec<&'static str>, _>(CubeMelonPluginErrorCode::NotSupported),
            scope == CubeMelonPluginStateScope::Host ==> (r matches Ok(keys) && keys@.len() == 2
                && keys@[0]@ == "plugins_directory"@ && keys@[1]@ == "language"@),
    {
        match scope {
            CubeMelonPluginStateScope::Host => Ok(vec!["plugins_directory", "language"]),
            _ => Err(CubeMelonPluginErrorCode::NotSupported),
        }
    }

    /// Checks a whole-state save of `scope` and yields the text to parse.
    /// Empty data is an invalid parameter; a scope other than Host is not
    /// supported; malformed UTF-8 is an encoding error.
    pub fn decode_save_request(scope: CubeMelonPluginStateScope, data: &[u8]) -> (r: Result<&str, CubeMelonPluginErrorCode>)
        ensures
            data@.len() == 0 ==> r == Err::<&str, _>(CubeMelonPluginErrorCode::InvalidParameter),
            data@.len() > 0 && scope != CubeMelonPluginStateScope::Host ==> r == Err::<&str, _>(CubeMelonPluginErrorCode::NotSupported),
            data@.len() > 0 && scope == CubeMelonPluginStateScope::Host ==> (
                if valid_utf8(data@) {
                    r matches Ok(t) && t@ == decode_utf8(data@)
                } else {
                    r == Err::<&str, _>(CubeMelonPluginErrorCode::Encoding)
                }),
    {
        if data.len() == 0 {
            return Err(CubeMelonPluginErrorCode::InvalidParameter);
        }
        if scope != CubeMelonPluginStateScope::Host {
            return Err(CubeMelonPluginErrorCode::NotSupported);
        }
        match str_from_utf8(data) {
            Some(t) => Ok(t),
            None => Err(CubeMelonPluginErrorCode::Encoding),
        }
    }

    /// Applies parsed settings: `None` means the text was not a valid
    /// configuration (`Parse`), and nothing changes.
    pub fn apply_parsed(&mut self, parsed: Option<HostSettings>) -> (r: CubeMelonPluginErrorCode)
        ensures
            parsed is None ==> r == CubeMelonPluginErrorCode::Parse && final(self).plugins_directory@ == old(self).plugins_directory@ && final(self).language@ == old(self).language@,
            parsed matches Some(p) ==> r == CubeMelonPluginErrorCode::Success && final(self).plugins_directory@ == p.plugins_directory@ && final(self).language@ == p.language@,
    {
        match parsed {
            Some(p) => {
                *self = p;
                CubeMelonPluginErrorCode::Success
            },
            None => CubeMelonPluginErrorCode::Parse,
        }
    }

    /// A whole-state load of `scope`: only Host is kept.
    pub fn check_load_scope(scope: CubeMelonPluginStateScope) -> (r: CubeMelonPluginErrorCode)
        ensures
            r == (if scope == CubeMelonPluginStateScope::Host {
                CubeMelonPluginErrorCode::Success
            } else {
                CubeMelonPluginErrorCode::NotSupported
            }),
    {
        match scope {
            CubeMelonPluginStateScope::Host => CubeMelonPluginErrorCode::Success,
            _ => CubeMelonPluginErrorCode::NotSupported,
        }
    }
}

/// The code of a save once the configuration has been persisted, or not.
pub fn persist_outcome(persisted: bool) -> (r: CubeMelonPluginErrorCode)
    ensures
        r == (if persisted { CubeMelonPluginErrorCode::Success } else { CubeMelonPluginErrorCode::IO }),
{
    if persisted {
        CubeMelonPluginErrorCode::Success
    } else {
        CubeMelonPluginErrorCode::IO
    }
}

} // verus!
