//! The order of API versions: by their numbers, so that v1 comes before v2
//! and the latest version comes last.

use vstd::prelude::*;
use std::cmp::Ordering;
use vstd::std_specs::cmp::PartialOrdSpecImpl;
use crate::text::{decimal, is_white_space, trim, trim_end, trim_start};
use crate::versioning::{guide_text, spec_latest, sunset_text, version_of_header, ApiVersion};

verus! {

/// A version's number: 1 for v1, 2 for v2.
pub open spec fn version_number(v: ApiVersion) -> nat {
    match v {
        ApiVersion::V1 => 1,
        ApiVersion::V2 => 2,
    }
}

/// How two versions compare: by their numbers.
pub open spec fn version_order(a: ApiVersion, b: ApiVersion) -> Ordering {
    if version_number(a) < version_number(b) {
        Ordering::Less
    } else if version_number(a) == version_number(b) {
        Ordering::Equal
    } else {
        Ordering::Greater
    }
}

impl PartialOrd for ApiVersion {
    fn partial_cmp(&self, other: &ApiVersion) -> (r: Option<Ordering>) {
        let a = self.as_numeric();
        let b = other.as_numeric();
        if a < b {
            Some(Ordering::Less)
        } else if a == b {
            Some(Ordering::Equal)
        } else {
            Some(Ordering::Greater)
        }
    }
}

impl PartialOrdSpecImpl for ApiVersion {
    open spec fn obeys_partial_cmp_spec() -> bool {
        true
    }

    open spec fn partial_cmp_spec(&self, other: &ApiVersion) -> Option<Ordering> {
        Some(version_order(*self, *other))
    }
}

/// Versions are ordered by their numbers, 1 for v1 and 2 for v2; each
/// version's number, written as a header value, names it again; and the
/// latest version comes after or equals every version, is not deprecated
/// and has no sunset date.
pub proof fn law_version_order(a: ApiVersion, b: ApiVersion)
    ensures
        version_number(ApiVersion::V1) == 1 && version_number(ApiVersion::V2) == 2,
        (version_order(a, b) == Ordering::Less) == (version_number(a) < version_number(b)),
        (version_order(a, b) == Ordering::Equal) == (a == b),
        version_order(ApiVersion::V1, ApiVersion::V2) == Ordering::Less,
        version_of_header(decimal(version_number(a))) == Some(a),
        spec_latest() == ApiVersion::V2,
        version_order(a, spec_latest()) != Ordering::Greater,
        sunset_text(spec_latest()) is None,
        guide_text(spec_latest()) is None,
{
    reveal_strlit("v1");
    reveal_strlit("v2");
    reveal_strlit("1");
    reveal_strlit("2");
    let t = decimal(version_number(a));
    assert(t.len() == 1);
    assert(!is_white_space(t[0]));
    assert(trim_start(t) == t);
    assert(trim_end(t) == t);
    assert(trim(t) == t);
    assert("v1"@.len() == 2 && "v2"@.len() == 2);
    if a == ApiVersion::V1 {
        assert(t =~= "1"@);
    } else {
        assert(t =~= "2"@);
        assert("2"@ != "1"@) by {
            assert("2"@[0] != "1"@[0]);
        }
    }
}

} // verus!
