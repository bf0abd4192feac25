use vstd::prelude::*;
use vstd::string::StrSliceExecFns;
use vstd::string::StringExecFns;

use crate::error::SicdError;

verus! {

/// The closed set of known SICD schema versions, in historical order.
#[derive(Debug, Clone, Copy, PartialEq, Eq, Structural)]
pub enum SicdVersion {
    V0_3_1,
    V0_4_0,
    V0_4_1,
    V0_5_0,
    V1_0_0,
    V1_0_1,
    V1_1_0,
    V1_2_0,
    V1_2_1,
    V1_3_0,
}

/// The version token that names each known version inside the metadata's
/// namespace attribute.
pub open spec fn token_of(v: SicdVersion) -> Seq<char> {
    match v {
        SicdVersion::V0_3_1 => "0.3.1"@,
        SicdVersion::V0_4_0 => "0.4.0"@,
        SicdVersion::V0_4_1 => "0.4.1"@,
        SicdVersion::V0_5_0 => "0.5.0"@,
        SicdVersion::V1_0_0 => "1.0.0"@,
        SicdVersion::V1_0_1 => "1.0.1"@,
        SicdVersion::V1_1_0 => "1.1.0"@,
        SicdVersion::V1_2_0 => "1.2.0"@,
        SicdVersion::V1_2_1 => "1.2.1"@,
        SicdVersion::V1_3_0 => "1.3.0"@,
    }
}

/// The fixed URN prefix that a namespace token may carry in front of the
/// version token proper.
pub open spec fn urn_prefix() -> Seq<char> {
    "urn:SICD:"@
}

/// Normalization applied to a namespace token before lookup: the fixed URN
/// prefix, when present, is stripped; any other token is left as it is.
pub open spec fn strip_urn_prefix(s: Seq<char>) -> Seq<char> {
    if s.len() >= urn_prefix().len() && s.subrange(0, urn_prefix().len() as int)
        == urn_prefix() {
        s.subrange(urn_prefix().len() as int, s.len() as int)
    } else {
        s
    }
}

/// Exact-match lookup of a normalized token in the fixed table of known
/// version tokens.
pub open spec fn resolve_token(t: Seq<char>) -> Option<SicdVersion> {
    if t == "0.3.1"@ {
        Some(SicdVersion::V0_3_1)
    } else if t == "0.4.0"@ {
        Some(SicdVersion::V0_4_0)
    } else if t == "0.4.1"@ {
        Some(SicdVersion::V0_4_1)
    } else if t == "0.5.0"@ {
        Some(SicdVersion::V0_5_0)
    } else if t == "1.0.0"@ {
        Some(SicdVersion::V1_0_0)
    } else if t == "1.0.1"@ {
        Some(SicdVersion::V1_0_1)
    } else if t == "1.1.0"@ {
        Some(SicdVersion::V1_1_0)
    } else if t == "1.2.0"@ {
        Some(SicdVersion::V1_2_0)
    } else if t == "1.2.1"@ {
        Some(SicdVersion::V1_2_1)
    } else if t == "1.3.0"@ {
        Some(SicdVersion::V1_3_0)
    } else {
        None
    }
}

/// Character-for-character equality of two string slices.
fn str_eq(a: &str, b: &str) -> (r: bool)
    ensures
        r == (a@ == b@),
{
    let a_len = a.unicode_len();
    let b_len = b.unicode_len();
    if a_len != b_len {
        return false;
    }
    let mut i: usize = 0;
    while i < a_len
        invariant
            a_len == a@.len(),
            a_len == b@.len(),
            i <= a_len,
            forall|j: int| 0 <= j < i ==> a@[j] == b@[j],
        decreases a_len - i,
    {
        if a.get_char(i) != b.get_char(i) {
            return false;
        }
        i += 1;
    }
    proof {
        assert(a@ =~= b@);
    }
    true
}

impl SicdVersion {
    /// Resolves a raw namespace token to a known version: the fixed URN
    /// prefix is stripped when present, and the rest is matched exactly
    /// against the table of known version tokens. Any other token is
    /// rejected with `VersionError` carrying the token verbatim.
    pub fn from_str(s: &str) -> (r: Result<SicdVersion, SicdError>)
        ensures
            match r {
                Ok(v) => resolve_token(strip_urn_prefix(s@)) == Some(v),
                Err(e) => resolve_token(strip_urn_prefix(s@)) is None && (e matches
                    SicdError::VersionError(t) && t@ == s@),
            },
    {
        proof {
            reveal_strlit("urn:SICD:");
        }
        let len = s.unicode_len();
        let stripped: &str = if len >= 9 && str_eq(s.substring_char(0, 9), "urn:SICD:") {
            s.substring_char(9, len)
        } else {
            s
        };
        assert(stripped@ == strip_urn_prefix(s@));
        if str_eq(stripped, "0.3.1") {
            Ok(SicdVersion::V0_3_1)
        } else if str_eq(stripped, "0.4.0") {
            Ok(SicdVersion::V0_4_0)
        } else if str_eq(stripped, "0.4.1") {
            Ok(SicdVersion::V0_4_1)
        } else if str_eq(stripped, "0.5.0") {
            Ok(SicdVersion::V0_5_0)
        } else if str_eq(stripped, "1.0.0") {
            Ok(SicdVersion::V1_0_0)
        } else if str_eq(stripped, "1.0.1") {
            Ok(SicdVersion::V1_0_1)
        } else if str_eq(stripped, "1.1.0") {
            Ok(SicdVersion::V1_1_0)
        } else if str_eq(stripped, "1.2.0") {
            Ok(SicdVersion::V1_2_0)
        } else if str_eq(stripped, "1.2.1") {
            Ok(SicdVersion::V1_2_1)
        } else if str_eq(stripped, "1.3.0") {
            Ok(SicdVersion::V1_3_0)
        } else {
            Err(SicdError::VersionError(String::from_str(s)))
        }
    }
}

/// Law: lookup is exact on the known set — every known version's own token
/// resolves to that version, and (since the result is pinned) to no other.
pub proof fn lemma_resolve_token_exact(v: SicdVersion)
    ensures
        resolve_token(token_of(v)) == Some(v),
{
    reveal_strlit("0.3.1");
    reveal_strlit("0.4.0");
    reveal_strlit("0.4.1");
    reveal_strlit("0.5.0");
    reveal_strlit("1.0.0");
    reveal_strlit("1.0.1");
    reveal_strlit("1.1.0");
    reveal_strlit("1.2.0");
    reveal_strlit("1.2.1");
    reveal_strlit("1.3.0");
    assert("0.3.1"@[0] == '0' && "0.3.1"@[2] == '3' && "0.3.1"@[4] == '1');
    assert("0.4.0"@[0] == '0' && "0.4.0"@[2] == '4' && "0.4.0"@[4] == '0');
    assert("0.4.1"@[0] == '0' && "0.4.1"@[2] == '4' && "0.4.1"@[4] == '1');
    assert("0.5.0"@[0] == '0' && "0.5.0"@[2] == '5' && "0.5.0"@[4] == '0');
    assert("1.0.0"@[0] == '1' && "1.0.0"@[2] == '0' && "1.0.0"@[4] == '0');
    assert("1.0.1"@[0] == '1' && "1.0.1"@[2] == '0' && "1.0.1"@[4] == '1');
    assert("1.1.0"@[0] == '1' && "1.1.0"@[2] == '1' && "1.1.0"@[4] == '0');
    assert("1.2.0"@[0] == '1' && "1.2.0"@[2] == '2' && "1.2.0"@[4] == '0');
    assert("1.2.1"@[0] == '1' && "1.2.1"@[2] == '2' && "1.2.1"@[4] == '1');
    assert("1.3.0"@[0] == '1' && "1.3.0"@[2] == '3' && "1.3.0"@[4] == '0');
}

/// Law: no two known versions share a token.
pub proof fn lemma_token_of_injective(v1: SicdVersion, v2: SicdVersion)
    requires
        token_of(v1) == token_of(v2),
    ensures
        v1 == v2,
{
    lemma_resolve_token_exact(v1);
    lemma_resolve_token_exact(v2);
}

} // verus!
