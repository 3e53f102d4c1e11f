//! The capability that every operation on a cell asks for.

use vstd::prelude::*;

verus! {

/// `critical_section::CriticalSection<'cs>`, the token that the mutual-exclusion
/// provider hands to the body it runs with interrupts held off. Nothing is
/// claimed of it: it is carried through signatures as proof of exclusion and
/// never inspected.
#[verifier::external_type_specification]
#[verifier::external_body]
pub struct ExCriticalSection<'cs>(critical_section::CriticalSection<'cs>);

} // verus!
