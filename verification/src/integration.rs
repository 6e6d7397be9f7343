//! Which versions of the node the integration tests run against.

use vstd::prelude::*;
use vstd::string::StringExecFns;
use crate::text::{join_with, joined, list_contains, lists, texts};

verus! {

/// A configured version that the integration package does not offer.
#[derive(Debug, Clone, PartialEq, Eq)]
pub struct UnknownVersion {
    /// The version asked for.
    pub requested: String,
    /// The versions on offer.
    pub available: Vec<String>,
}

impl UnknownVersion {
    /// The text to show for this error.
    pub fn message(&self) -> (text: String)
        ensures
            text@ == "Requested version '"@ + self.requested@
                + "' not found in available versions: "@ + joined(texts(self.available@), ", "@),
    {
        let mut text = String::from_str("Requested version '");
        text.append(self.requested.as_str());
        text.append("' not found in available versions: ");
        text.append(join_with(&self.available, ", ").as_str());
        text
    }
}

/// Whether every entry of `configured` is among `available`.
pub open spec fn all_available(configured: Seq<String>, available: Seq<String>) -> bool {
    forall|i: int| 0 <= i < configured.len() ==> lists(available, (#[trigger] configured[i])@)
}

/// Whether entry `i` is the first entry of `configured` that is not among
/// `available`.
pub open spec fn first_unavailable(configured: Seq<String>, available: Seq<String>, i: int) -> bool {
    &&& 0 <= i < configured.len()
    &&& !lists(available, configured[i]@)
    &&& forall|j: int| 0 <= j < i ==> lists(available, (#[trigger] configured[j])@)
}

/// The versions to test: the configured ones, in their order, each of which
/// must be on offer; every version on offer where none is configured.
pub fn versions_to_test(configured: &Option<Vec<String>>, available: Vec<String>) -> (outcome:
    Result<Vec<String>, UnknownVersion>)
    ensures
        configured is None ==> outcome == Ok::<Vec<String>, UnknownVersion>(available),
        configured matches Some(wanted) ==> {
            &&& outcome is Ok <==> all_available(wanted@, available@)
            &&& outcome matches Ok(versions) ==> texts(versions@) == texts(wanted@)
            &&& outcome matches Err(error) ==> error.available == available && exists|i: int|
                first_unavailable(wanted@, available@, i) && error.requested@ == wanted@[i]@
        },
{
    match configured {
        None => Ok(available),
        Some(wanted) => {
            let mut versions: Vec<String> = Vec::new();
            let mut k: usize = 0;
            while k < wanted.len()
                invariant
                    k <= wanted@.len(),
                    *configured == Some(*wanted),
                    versions@.len() == k,
                    forall|i: int| 0 <= i < k ==> (#[trigger] versions@[i])@ == wanted@[i]@,
                    forall|i: int| 0 <= i < k ==> lists(available@, (#[trigger] wanted@[i])@),
                decreases wanted@.len() - k,
            {
                if list_contains(&available, &wanted[k]) {
                    versions.push(wanted[k].clone());
                } else {
                    assert(first_unavailable(wanted@, available@, k as int));
                    return Err(UnknownVersion { requested: wanted[k].clone(), available });
                }
                k += 1;
            }
            assert(texts(versions@) =~= texts(wanted@));
            Ok(versions)
        },
    }
}

} // verus!
