//! Pool identifiers and their textual forms.
use vstd::prelude::*;
use vstd::string::StringExecFns;
use crate::text::{hex_fixed, hex_string};

verus! {

/// The globally unique identifier of a pool, as its 128-bit value.
#[derive(Clone, Copy, PartialEq, Eq, Structural)]
pub struct PoolUuid {
    pub bits: u128,
}

/// The 32 lowercase hexadecimal digits of an identifier.
pub open spec fn simple_text(u: u128) -> Seq<char> {
    hex_fixed(u as nat, 32)
}

/// The hyphenated 8-4-4-4-12 form of an identifier.
pub open spec fn hyphenated_text(u: u128) -> Seq<char> {
    let n = u as nat;
    hex_fixed(n / 0x1_0000_0000_0000_0000_0000_0000, 8) + seq!['-']
        + hex_fixed(n / 0x1_0000_0000_0000_0000_0000, 4) + seq!['-']
        + hex_fixed(n / 0x1_0000_0000_0000_0000, 4) + seq!['-']
        + hex_fixed(n / 0x1_0000_0000_0000, 4) + seq!['-']
        + hex_fixed(n, 12)
}

/// What `uuid::Uuid::parse_str` makes of a text: the identifier's value, or the
/// text of the parse error.
pub uninterp spec fn uuid_parse(s: Seq<char>) -> Result<u128, Seq<char>>;

/// Relies on uuid::Uuid::parse_str, and on the `Display` of its error for the
/// error text; the outcome depends on the input text alone.
#[verifier::external_body]
fn parse_uuid_text(s: &str) -> (r: Result<u128, String>)
    ensures
        match r {
            Ok(v) => uuid_parse(s@) == Ok::<u128, Seq<char>>(v),
            Err(m) => uuid_parse(s@) == Err::<u128, Seq<char>>(m@),
        },
{
    uuid::Uuid::parse_str(s).map(|u| u.as_u128()).map_err(|e| e.to_string())
}

impl PoolUuid {
    /// The all-zero identifier.
    pub fn nil() -> (r: PoolUuid)
        ensures
            r.bits == 0,
    {
        PoolUuid { bits: 0 }
    }

    /// The 32-digit lowercase hexadecimal form.
    pub fn simple_string(&self) -> (r: String)
        ensures
            r@ == simple_text(self.bits),
    {
        hex_string(self.bits, 32)
    }

    /// The hyphenated form.
    pub fn hyphenated_string(&self) -> (r: String)
        ensures
            r@ == hyphenated_text(self.bits),
    {
        let n = self.bits;
        let mut s = hex_string(n / 0x1_0000_0000_0000_0000_0000_0000, 8);
        s.append("-");
        let p = hex_string(n / 0x1_0000_0000_0000_0000_0000, 4);
        s.append(p.as_str());
        s.append("-");
        let p = hex_string(n / 0x1_0000_0000_0000_0000, 4);
        s.append(p.as_str());
        s.append("-");
        let p = hex_string(n / 0x1_0000_0000_0000, 4);
        s.append(p.as_str());
        s.append("-");
        let p = hex_string(n, 12);
        s.append(p.as_str());
        proof {
            reveal_strlit("-");
        }
        s
    }

    /// Parses an identifier in any of the forms that the uuid crate accepts.
    pub fn parse_str(s: &str) -> (r: Result<PoolUuid, String>)
        ensures
            match r {
                Ok(u) => uuid_parse(s@) == Ok::<u128, Seq<char>>(u.bits),
                Err(m) => uuid_parse(s@) == Err::<u128, Seq<char>>(m@),
            },
    {
        match parse_uuid_text(s) {
            Ok(v) => Ok(PoolUuid { bits: v }),
            Err(m) => Err(m),
        }
    }
}

} // verus!
