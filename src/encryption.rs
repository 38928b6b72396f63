//! Validation of the parameters that precede an engine call: key descriptions,
//! unlock methods and the optional encryption settings of a new pool.
use vstd::prelude::*;
use vstd::string::{StrSliceExecFns, StringExecFns};
use crate::error::{error_text, StratisError};

verus! {

#[verifier::external_type_specification]
#[verifier::external_body]
pub struct ExValue(serde_json::Value);

/// What `serde_json::from_str` makes of a text read as a JSON value: the
/// value, or the text of its error.
pub uninterp spec fn json_parse(s: Seq<char>) -> Result<serde_json::Value, Seq<char>>;

/// Relies on serde_json::from_str into a `serde_json::Value`, and on the
/// `Display` of its error; the outcome depends on the input text alone.
#[verifier::external_body]
fn parse_json(s: &str) -> (r: Result<serde_json::Value, String>)
    ensures
        match r {
            Ok(v) => json_parse(s@) == Ok::<serde_json::Value, Seq<char>>(v),
            Err(m) => json_parse(s@) == Err::<serde_json::Value, Seq<char>>(m@),
        },
{
    serde_json::from_str::<serde_json::Value>(s).map_err(|e| e.to_string())
}

/// Whether two texts are equal, character by character.
pub fn text_eq(a: &str, b: &str) -> (r: bool)
    ensures
        r == (a@ == b@),
{
    let n = a.unicode_len();
    if n != b.unicode_len() {
        return false;
    }
    let mut i: usize = 0;
    while i < n
        invariant
            n == a@.len(),
            n == b@.len(),
            i <= n,
            a@.subrange(0, i as int) == b@.subrange(0, i as int),
        decreases n - i,
    {
        if a.get_char(i) != b.get_char(i) {
            return false;
        }
        assert(a@.subrange(0, i + 1) == a@.subrange(0, i as int).push(a@[i as int]));
        assert(b@.subrange(0, i + 1) == b@.subrange(0, i as int).push(b@[i as int]));
        i = i + 1;
    }
    assert(a@ == a@.subrange(0, n as int));
    assert(b@ == b@.subrange(0, n as int));
    true
}

/// Whether a text holds the character `c`.
pub fn text_contains(s: &str, c: char) -> (r: bool)
    ensures
        r == s@.contains(c),
{
    let n = s.unicode_len();
    let mut i: usize = 0;
    while i < n
        invariant
            n == s@.len(),
            i <= n,
            forall|j: int| 0 <= j < i ==> s@[j] != c,
        decreases n - i,
    {
        if s.get_char(i) == c {
            return true;
        }
        i = i + 1;
    }
    false
}

/// Message of a key description that holds a semicolon.
pub open spec fn semicolon_error(s: Seq<char>) -> Seq<char> {
    seq!['K', 'e', 'y', ' ', 'd', 'e', 's', 'c', 'r', 'i', 'p', 't', 'i', 'o', 'n', ' '] + s
        + seq![
        ' ', 'c', 'o', 'n', 't', 'a', 'i', 'n', 's', ' ', 'a', ' ', 's', 'e', 'm', 'i', 'c', 'o',
        'l', 'o', 'n', ' ', 'w', 'h', 'i', 'c', 'h', ' ', 'i', 's', ' ', 'n', 'o', 't', ' ', 'a',
        'l', 'l', 'o', 'w', 'e', 'd',
    ]
}

/// Whether a text is an acceptable key description: it holds no semicolon.
pub open spec fn valid_key_description(s: Seq<char>) -> bool {
    !s.contains(';')
}

/// The description under which a passphrase is registered.
pub struct KeyDescription {
    desc: String,
}

impl KeyDescription {
    pub closed spec fn view(&self) -> Seq<char> {
        self.desc@
    }

    /// Validates a key description; one that holds a semicolon is refused.
    pub fn try_from(s: String) -> (r: Result<KeyDescription, StratisError>)
        ensures
            match r {
                Ok(kd) => valid_key_description(s@) && kd@ == s@,
                Err(e) => !valid_key_description(s@) && e is Msg && error_text(e)
                    == semicolon_error(s@),
            },
    {
        if text_contains(s.as_str(), ';') {
            let mut m = String::from_str("Key description ");
            m.append(s.as_str());
            m.append(" contains a semicolon which is not allowed");
            proof {
                reveal_strlit("Key description ");
                reveal_strlit(" contains a semicolon which is not allowed");
            }
            Err(StratisError::Msg(m))
        } else {
            Ok(KeyDescription { desc: s })
        }
    }

    /// The description as the application wrote it.
    pub fn as_application_str(&self) -> (r: &str)
        ensures
            r@ == self@,
    {
        self.desc.as_str()
    }
}

/// How a locked pool is to be unlocked.
#[derive(Clone, Copy, PartialEq, Eq, Structural)]
pub enum UnlockMethod {
    Keyring,
    Clevis,
}

pub open spec fn keyring_text() -> Seq<char> {
    seq!['k', 'e', 'y', 'r', 'i', 'n', 'g']
}

pub open spec fn clevis_text() -> Seq<char> {
    seq!['c', 'l', 'e', 'v', 'i', 's']
}

/// Message of an unknown unlock method.
pub open spec fn unlock_method_error(s: Seq<char>) -> Seq<char> {
    s + seq![
        ' ', 'i', 's', ' ', 'a', 'n', ' ', 'i', 'n', 'v', 'a', 'l', 'i', 'd', ' ', 'u', 'n', 'l',
        'o', 'c', 'k', ' ', 'm', 'e', 't', 'h', 'o', 'd',
    ]
}

impl UnlockMethod {
    /// Reads an unlock method token: `keyring` or `clevis`.
    pub fn try_from(s: &str) -> (r: Result<UnlockMethod, StratisError>)
        ensures
            match r {
                Ok(m) => (m == UnlockMethod::Keyring && s@ == keyring_text()) || (m
                    == UnlockMethod::Clevis && s@ == clevis_text()),
                Err(e) => s@ != keyring_text() && s@ != clevis_text() && e is Msg
                    && error_text(e) == unlock_method_error(s@),
            },
    {
        proof {
            reveal_strlit("keyring");
            reveal_strlit("clevis");
            reveal_strlit(" is an invalid unlock method");
            assert("keyring"@ =~= keyring_text());
            assert("clevis"@ =~= clevis_text());
        }
        if text_eq(s, "keyring") {
            Ok(UnlockMethod::Keyring)
        } else if text_eq(s, "clevis") {
            Ok(UnlockMethod::Clevis)
        } else {
            let m = String::from_str(s);
            let m = m.concat(" is an invalid unlock method");
            Err(StratisError::Msg(m))
        }
    }
}

/// The encryption settings of a new pool: a key description, a Clevis pin
/// with its policy, or both.
pub struct EncryptionInfo {
    pub key_description: Option<KeyDescription>,
    pub clevis_info: Option<(String, serde_json::Value)>,
}

/// Reads a Clevis policy text as JSON; a text that does not parse is a
/// serialization error.
pub fn parse_clevis_policy(pin: String, policy: &str) -> (r: Result<(String, serde_json::Value), StratisError>)
    ensures
        match r {
            Ok(c) => json_parse(policy@) == Ok::<serde_json::Value, Seq<char>>(c.1) && c.0@ == pin@,
            Err(e) => json_parse(policy@) is Err && e is Serde && e->Serde_0@
                == json_parse(policy@)->Err_0,
        },
{
    match parse_json(policy) {
        Ok(v) => Ok((pin, v)),
        Err(m) => Err(StratisError::Serde(m)),
    }
}

/// Whether `r` is what validating the optional key description and the
/// optional `(pin, policy)` pair owes.
pub open spec fn encryption_params_ok(
    key_desc: Option<String>,
    clevis: Option<(String, String)>,
    r: Result<Option<EncryptionInfo>, StratisError>,
) -> bool {
    let bad_key = key_desc is Some && !valid_key_description(key_desc->Some_0@);
    let bad_policy = clevis is Some && json_parse(clevis->Some_0.1@) is Err;
    match r {
        Err(e) => if bad_key {
            e is Msg && error_text(e) == semicolon_error(key_desc->Some_0@)
        } else {
            bad_policy && e is Serde && e->Serde_0@ == json_parse(clevis->Some_0.1@)->Err_0
        },
        Ok(None) => !bad_key && !bad_policy && key_desc is None && clevis is None,
        Ok(Some(info)) => {
            &&& !bad_key && !bad_policy
            &&& key_desc is Some || clevis is Some
            &&& info.key_description is Some <==> key_desc is Some
            &&& key_desc is Some ==> info.key_description->Some_0@ == key_desc->Some_0@
            &&& info.clevis_info is Some <==> clevis is Some
            &&& clevis is Some ==> info.clevis_info->Some_0.0@ == clevis->Some_0.0@
                && json_parse(clevis->Some_0.1@) == Ok::<serde_json::Value, Seq<char>>(
                info.clevis_info->Some_0.1,
            )
        },
    }
}

/// Validates the optional key description and the optional Clevis pin and
/// policy of a new pool. The key description is checked first; with neither
/// present the pool is unencrypted and the result is `Ok(None)`.
pub fn encryption_params(
    key_desc: Option<String>,
    clevis: Option<(String, String)>,
) -> (r: Result<Option<EncryptionInfo>, StratisError>)
    ensures
        encryption_params_ok(key_desc, clevis, r),
{
    let kd = match key_desc {
        Some(s) => match KeyDescription::try_from(s) {
            Ok(kd) => Some(kd),
            Err(e) => return Err(e),
        },
        None => None,
    };
    let ci = match clevis {
        Some((pin, policy)) => match parse_clevis_policy(pin, policy.as_str()) {
            Ok(c) => Some(c),
            Err(e) => return Err(e),
        },
        None => None,
    };
    if kd.is_none() && ci.is_none() {
        Ok(None)
    } else {
        Ok(Some(EncryptionInfo { key_description: kd, clevis_info: ci }))
    }
}

} // verus!
