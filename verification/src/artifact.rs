//! Artifact selection: out of the artifact list fetched for the chosen
//! run, the first one that has not expired wins — never the largest,
//! newest, or best-named one.

use vstd::prelude::*;

use crate::model::Artifact;

verus! {

/// The position of the first non-expired artifact, in returned order,
/// or `None` when every artifact has expired.
pub open spec fn spec_first_non_expired(artifacts: Seq<Artifact>) -> Option<int>
    decreases artifacts.len(),
{
    if artifacts.len() == 0 {
        None
    } else if !artifacts[0].expired {
        Some(0 as int)
    } else {
        match spec_first_non_expired(artifacts.drop_first()) {
            Some(i) => Some(i + 1),
            None => None,
        }
    }
}

/// What `spec_first_non_expired` finds: a yielded position is in range,
/// holds a non-expired artifact, and everything before it has expired;
/// `None` means every artifact has expired.
pub proof fn lemma_first_non_expired(artifacts: Seq<Artifact>)
    ensures
        spec_first_non_expired(artifacts) is None ==> forall|j: int|
            0 <= j < artifacts.len() ==> (#[trigger] artifacts[j]).expired,
        spec_first_non_expired(artifacts) matches Some(i) ==> 0 <= i < artifacts.len()
            && !artifacts[i].expired && (forall|j: int|
            0 <= j < i ==> (#[trigger] artifacts[j]).expired),
    decreases artifacts.len(),
{
    if artifacts.len() > 0 {
        lemma_first_non_expired(artifacts.drop_first());
        assert forall|j: int| 1 <= j < artifacts.len() implies #[trigger] artifacts[j]
            == artifacts.drop_first()[j - 1] by {
        }
    }
}

/// Picks the first non-expired artifact, by index into the fetched
/// list. Yields `None` when the API returned no list container at all,
/// and when every listed artifact has expired; both translate to a
/// not-found response.
pub fn select_artifact(container: Option<&Vec<Artifact>>) -> (r: Option<usize>)
    ensures
        container is None ==> r is None,
        container matches Some(artifacts) ==> (match r {
            Some(i) => spec_first_non_expired(artifacts@) == Some(i as int),
            None => spec_first_non_expired(artifacts@) is None,
        }),
{
    match container {
        None => None,
        Some(artifacts) => {
            proof {
                assert(artifacts@.skip(0) =~= artifacts@);
            }
            let mut i: usize = 0;
            while i < artifacts.len()
                invariant
                    container == Some(artifacts),
                    i <= artifacts@.len(),
                    spec_first_non_expired(artifacts@) == (match spec_first_non_expired(
                        artifacts@.skip(i as int),
                    ) {
                        Some(k) => Some(k + i),
                        None => None,
                    }),
                decreases artifacts@.len() - i,
            {
                proof {
                    assert(artifacts@.skip(i as int)[0] == artifacts@[i as int]);
                    assert(artifacts@.skip(i as int).drop_first() =~= artifacts@.skip(i + 1));
                }
                if !artifacts[i].expired {
                    return Some(i);
                }
                i = i + 1;
            }
            proof {
                assert(artifacts@.skip(artifacts@.len() as int).len() == 0);
            }
            None
        },
    }
}

} // verus!
