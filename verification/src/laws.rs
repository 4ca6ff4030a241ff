//! Laws that relate several parts of the library, stated over a
//! representative correlation-capable type. The general round-trip laws live
//! with the wire format (`roundtrip::lemma_parse_of_ser`) and with every type
//! (`Wire::lemma_round_trip`, `object::lemma_wire_round_trip`).
use vstd::prelude::*;

use crate::country_info::CountryInfo;
use crate::object::Wire;
use crate::object::eqv_opt_string;

verus! {

/// Token preservation: any value that decodes back from the wire form of a
/// value carries the same correlation token, so a response built from the
/// wire image of a request still routes to its caller.
pub proof fn lemma_token_preserved(v: CountryInfo, w: CountryInfo)
    requires
        v.wire_tree() is Some,
        CountryInfo::decodes_from(v.wire_tree()->0, w),
    ensures
        eqv_opt_string(w.extra, v.extra),
{
    CountryInfo::lemma_round_trip(v);
    assert(w.eqv(v));
}

} // verus!
