//! The INI parser of the `configparser` crate, as the configuration code
//! uses it: made with its default options, filled from text, then queried.

use crate::text::lowercased;
use configparser::ini::Ini;
use vstd::prelude::*;

verus! {

#[verifier::external_type_specification]
#[verifier::external_body]
pub struct ExIni(Ini);

/// The settings an INI file holds: for each (section, key) pair the value
/// written after the delimiter, or `None` for a key written alone.
pub type IniSettings = Map<(Seq<char>, Seq<char>), Option<Seq<char>>>;

/// What a parser holds: its settings.
pub uninterp spec fn ini_settings(ini: Ini) -> IniSettings;

/// The parser still has the options of `Ini::new`: names are compared
/// case-insensitively, `;` and `#` start comments, `=` and `:` delimit,
/// and no default section is consulted.
pub uninterp spec fn ini_has_default_options(ini: Ini) -> bool;

/// What parsing `text` with the default options gives: the settings, or
/// the message of the first error.
pub uninterp spec fn ini_parsed(text: Seq<char>) -> Result<IniSettings, Seq<char>>;

/// A name as the parser compares it: kept when it holds only ASCII
/// characters and no uppercase letter, else lowercased.
pub open spec fn ini_folded(name: Seq<char>) -> Seq<char> {
    if forall|i: int|
        0 <= i < name.len() ==> (#[trigger] name[i] as u32) < 128 && !('A' <= name[i] <= 'Z') {
        name
    } else {
        lowercased(name)
    }
}

/// The value of `key` in `section`, when the key is there with a value.
pub open spec fn ini_value(settings: IniSettings, section: Seq<char>, key: Seq<char>) -> Option<
    Seq<char>,
> {
    if settings.contains_key((ini_folded(section), ini_folded(key))) {
        settings[(ini_folded(section), ini_folded(key))]
    } else {
        None
    }
}

/// How `getboolcoerce` reads a lowercased value.
pub open spec fn coerced_bool(lower: Seq<char>) -> Option<bool> {
    if lower == "true"@ || lower == "yes"@ || lower == "t"@ || lower == "y"@ || lower == "on"@
        || lower == "1"@ {
        Some(true)
    } else if lower == "false"@ || lower == "no"@ || lower == "f"@ || lower == "n"@ || lower
        == "off"@ || lower == "0"@ {
        Some(false)
    } else {
        None
    }
}

/// `Ini::new`: an empty parser with the default options.
#[verifier::external_body]
pub(crate) fn ini_new() -> (ini: Ini)
    ensures
        ini_settings(ini) == IniSettings::empty(),
        ini_has_default_options(ini),
{
    Ini::new()
}

/// `Ini::read`: parses `text`; on success the settings become what was
/// parsed, on failure they stay and the message is returned.
#[verifier::external_body]
pub(crate) fn ini_read(ini: &mut Ini, text: String) -> (r: Result<(), String>)
    requires
        ini_has_default_options(*old(ini)),
    ensures
        ini_has_default_options(*final(ini)),
        match ini_parsed(text@) {
            Ok(settings) => r is Ok && ini_settings(*final(ini)) == settings,
            Err(why) => r matches Err(msg) && msg@ == why && ini_settings(*final(ini))
                == ini_settings(*old(ini)),
        },
{
    match ini.read(text) {
        Ok(_) => Ok(()),
        Err(why) => Err(why),
    }
}

/// `Ini::get`: a copy of the value of `key` in `section`, if set.
#[verifier::external_body]
pub(crate) fn ini_get(ini: &Ini, section: &str, key: &str) -> (r: Option<String>)
    requires
        ini_has_default_options(*ini),
    ensures
        match r {
            Some(v) => ini_value(ini_settings(*ini), section@, key@) == Some(v@),
            None => ini_value(ini_settings(*ini), section@, key@) is None,
        },
{
    ini.get(section, key)
}

/// `Ini::getboolcoerce`: the value of `key` in `section` read as a boolean
/// after lowercasing; `Ok(None)` when unset, an error when not a boolean
/// word. The error's message is left unsaid.
#[verifier::external_body]
pub(crate) fn ini_get_bool(ini: &Ini, section: &str, key: &str) -> (r: Result<
    Option<bool>,
    String,
>)
    requires
        ini_has_default_options(*ini),
    ensures
        match ini_value(ini_settings(*ini), section@, key@) {
            Some(v) => match coerced_bool(lowercased(v)) {
                Some(b) => r == Ok::<Option<bool>, String>(Some(b)),
                None => r is Err,
            },
            None => r == Ok::<Option<bool>, String>(None),
        },
{
    ini.getboolcoerce(section, key)
}

} // verus!
