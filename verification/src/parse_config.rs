//! The settings handed on to the engine, `<filter>.<key>[=<value>]`, read
//! as far as this layer has to: the engine alone decides what they mean.

use vstd::prelude::*;
use vstd::slice::{slice_subrange, slice_to_vec};
use vstd::utf8::encode_utf8;

verus! {

/// The dot that ends the filter.
pub const FILTER_END: u8 = 46;

/// The equals sign that ends the key.
pub const KEY_END: u8 = 61;

/// The parts of a setting.
#[derive(Debug, Clone)]
pub struct ConfigSetting {
    /// What stands before the first dot, where there is a dot.
    pub filter: Option<Vec<u8>>,
    /// What follows the filter, up to the first equals sign.
    pub key: Vec<u8>,
    /// What stands behind that equals sign, where there is one.
    pub value: Option<Vec<u8>>,
}

/// What a [`ConfigSetting`] holds.
pub struct ConfigSettingView {
    pub filter: Option<Seq<u8>>,
    pub key: Seq<u8>,
    pub value: Option<Seq<u8>>,
}

impl View for ConfigSetting {
    type V = ConfigSettingView;

    open spec fn view(&self) -> ConfigSettingView {
        ConfigSettingView {
            filter: match self.filter {
                Some(f) => Some(f@),
                None => None,
            },
            key: self.key@,
            value: match self.value {
                Some(v) => Some(v@),
                None => None,
            },
        }
    }
}

/// A setting taken apart: at the first dot into filter and the rest, the
/// rest at its first equals sign into key and value.
pub open spec fn split_setting(setting: Seq<u8>) -> ConfigSettingView {
    let (filter, rest) = match setting.index_of_first(FILTER_END) {
        Some(dot) => (Some(setting.take(dot)), setting.skip(dot + 1)),
        None => (None, setting),
    };
    match rest.index_of_first(KEY_END) {
        Some(equals) => ConfigSettingView {
            filter,
            key: rest.take(equals),
            value: Some(rest.skip(equals + 1)),
        },
        None => ConfigSettingView { filter, key: rest, value: None },
    }
}

impl ConfigSettingView {
    /// The setting is about the `binary` key, which turns the decoding of
    /// payloads to text off.
    pub open spec fn is_binary(self) -> bool {
        self.key == encode_utf8("binary"@)
    }
}

/// The setting written as `setting` is about the `binary` key.
pub open spec fn names_binary(setting: Seq<char>) -> bool {
    split_setting(encode_utf8(setting)).is_binary()
}

/// Where `needle` first stands in `bytes`.
fn find_byte(bytes: &[u8], needle: u8) -> (found: Option<usize>)
    ensures
        bytes@.index_of_first(needle) == match found {
            Some(i) => Some(i as int),
            None => None,
        },
        found matches Some(i) ==> i < bytes@.len(),
{
    let mut i: usize = 0;
    while i < bytes.len()
        invariant
            i <= bytes.len(),
            forall|j: int| 0 <= j < i ==> bytes@[j] != needle,
        decreases bytes.len() - i,
    {
        if bytes[i] == needle {
            proof {
                bytes@.index_of_first_ensures(needle);
                assert(bytes@[i as int] == needle);
                assert(bytes@.contains(needle));
            }
            return Some(i);
        }
        i += 1;
    }
    proof {
        bytes@.index_of_first_ensures(needle);
    }
    None
}

/// The two byte strings are the same.
fn same_bytes(a: &[u8], b: &[u8]) -> (same: bool)
    ensures
        same == (a@ == b@),
{
    if a.len() != b.len() {
        return false;
    }
    let mut i: usize = 0;
    while i < a.len()
        invariant
            i <= a.len(),
            a.len() == b.len(),
            forall|j: int| 0 <= j < i ==> a@[j] == b@[j],
        decreases a.len() - i,
    {
        if a[i] != b[i] {
            return false;
        }
        i += 1;
    }
    assert(a@ =~= b@);
    true
}

impl ConfigSetting {
    /// Takes the setting written as `setting` apart.
    pub fn parse(setting: &str) -> (parts: ConfigSetting)
        ensures
            parts@ == split_setting(encode_utf8(setting@)),
    {
        let bytes = setting.as_bytes();
        let length = bytes.len();
        let (filter, rest) = match find_byte(bytes, FILTER_END) {
            Some(dot) => (
                Some(slice_to_vec(slice_subrange(bytes, 0, dot))),
                slice_subrange(bytes, dot + 1, length),
            ),
            None => (None, bytes),
        };
        let rest_length = rest.len();
        match find_byte(rest, KEY_END) {
            Some(equals) => ConfigSetting {
                filter,
                key: slice_to_vec(slice_subrange(rest, 0, equals)),
                value: Some(slice_to_vec(slice_subrange(rest, equals + 1, rest_length))),
            },
            None => ConfigSetting { filter, key: slice_to_vec(rest), value: None },
        }
    }

    /// The setting is about the `binary` key.
    pub fn is_binary(&self) -> (binary: bool)
        ensures
            binary == self@.is_binary(),
    {
        same_bytes(self.key.as_slice(), "binary".as_bytes())
    }
}

/// The setting written as `setting` is about the `binary` key.
pub fn setting_names_binary(setting: &str) -> (binary: bool)
    ensures
        binary == names_binary(setting@),
{
    ConfigSetting::parse(setting).is_binary()
}

} // verus!
