//! Locating the control access port among the ports a probe exposes.
//!
//! The transport reports each access port together with the raw word of its
//! identification register. The locator decodes each word and picks the
//! first port whose identification equals the vendor signature in every
//! sub-field; the ports keep whatever order the transport reported them in.

use vstd::prelude::*;
use crate::registers::{is_ctrl_ap, spec_ctrl_ap_idr, Idr};

verus! {

/// A raw identification word names the control access port exactly when it
/// decodes to the vendor signature.
pub open spec fn spec_is_ctrl_ap_word(w: u32) -> bool {
    Idr::spec_from_wire(w) == spec_ctrl_ap_idr()
}

/// Scan the identification words of the reported access ports and return
/// the position of the control access port.
///
/// The result is the index of the first word that decodes to the vendor
/// signature, or `None` when no word does.
pub fn find_ctrl_ap(idr_words: &Vec<u32>) -> (r: Option<usize>)
    ensures
        (match r {
            Some(i) => {
                &&& i < idr_words@.len()
                &&& spec_is_ctrl_ap_word(idr_words@[i as int])
                &&& forall|j: int| 0 <= j < i ==> !spec_is_ctrl_ap_word(idr_words@[j])
            },
            None => forall|j: int|
                0 <= j < idr_words@.len() ==> !spec_is_ctrl_ap_word(idr_words@[j]),
        }),
{
    let mut i: usize = 0;
    while i < idr_words.len()
        invariant
            i <= idr_words@.len(),
            forall|j: int| 0 <= j < i ==> !spec_is_ctrl_ap_word(idr_words@[j]),
        decreases idr_words@.len() - i,
    {
        let decoded = Idr::from_wire(idr_words[i]);
        if is_ctrl_ap(&decoded) {
            return Some(i);
        }
        i = i + 1;
    }
    None
}

} // verus!
