//! The engine's startup configuration: the fixed list of property
//! assignments made while the engine is attached to its display surface.
//! The shell applies each pair to the engine's initializer in order; only
//! the window identifier varies per run.

use vstd::prelude::*;
use vstd::string::StringExecFns;

verus! {

/// A value assigned at engine initialization: the window identifier is an
/// integer, every other setting is text.
#[derive(Clone, PartialEq, Debug)]
pub enum SettingValue {
    Int(i64),
    Text(String),
}

/// One (property name, value) pair of the startup configuration.
#[derive(Clone, PartialEq, Debug)]
pub struct EngineSetting {
    pub name: String,
    pub value: SettingValue,
}

/// Whether a setting assigns the given text value under the given name.
pub open spec fn is_text_setting(s: EngineSetting, name: Seq<char>, value: Seq<char>) -> bool {
    &&& s.name@ == name
    &&& s.value matches SettingValue::Text(t) && t@ == value
}

/// The startup configuration for a window: the display surface first, then
/// the fixed playback defaults, in the order the engine receives them.
pub fn startup_settings(window_id: i64) -> (v: Vec<EngineSetting>)
    ensures
        v@.len() == 9,
        v@[0].name@ == "wid"@ && v@[0].value == SettingValue::Int(window_id),
        is_text_setting(v@[1], "title"@, "Stremio"@),
        is_text_setting(v@[2], "config"@, "yes"@),
        is_text_setting(v@[3], "load-scripts"@, "yes"@),
        is_text_setting(v@[4], "terminal"@, "yes"@),
        is_text_setting(v@[5], "msg-level"@, "all=no,cplayer=debug"@),
        is_text_setting(v@[6], "quiet"@, "yes"@),
        is_text_setting(v@[7], "hwdec"@, "auto"@),
        is_text_setting(v@[8], "aid"@, "1"@),
{
    let mut v: Vec<EngineSetting> = Vec::new();
    v.push(EngineSetting { name: String::from_str("wid"), value: SettingValue::Int(window_id) });
    v.push(
        EngineSetting {
            name: String::from_str("title"),
            value: SettingValue::Text(String::from_str("Stremio")),
        },
    );
    v.push(
        EngineSetting {
            name: String::from_str("config"),
            value: SettingValue::Text(String::from_str("yes")),
        },
    );
    v.push(
        EngineSetting {
            name: String::from_str("load-scripts"),
            value: SettingValue::Text(String::from_str("yes")),
        },
    );
    v.push(
        EngineSetting {
            name: String::from_str("terminal"),
            value: SettingValue::Text(String::from_str("yes")),
        },
    );
    v.push(
        EngineSetting {
            name: String::from_str("msg-level"),
            value: SettingValue::Text(String::from_str("all=no,cplayer=debug")),
        },
    );
    v.push(
        EngineSetting {
            name: String::from_str("quiet"),
            value: SettingValue::Text(String::from_str("yes")),
        },
    );
    v.push(
        EngineSetting {
            name: String::from_str("hwdec"),
            value: SettingValue::Text(String::from_str("auto")),
        },
    );
    v.push(
        EngineSetting {
            name: String::from_str("aid"),
            value: SettingValue::Text(String::from_str("1")),
        },
    );
    v
}

} // verus!
