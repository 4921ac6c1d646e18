//! Laws of the configuration.

use vstd::prelude::*;
use crate::config::{profiles_by_name, VanessaProfileConfigView, VanessaProfileEntryView};

verus! {

/// Of several profiles of a name the last counts; one of another name leaves it alone, and a name
/// that was never given has none.
pub proof fn last_profile_of_a_name_counts(
    entries: Seq<VanessaProfileEntryView>,
    id: Seq<char>,
    profile: VanessaProfileConfigView,
    other: Seq<char>,
)
    ensures
        ({
            let all = profiles_by_name(entries.push(VanessaProfileEntryView { id, profile }));
            &&& all.contains_key(id) && all[id] == profile
            &&& other != id ==> (all.contains_key(other) <==> profiles_by_name(
                entries,
            ).contains_key(other))
            &&& other != id && all.contains_key(other) ==> all[other] == profiles_by_name(
                entries,
            )[other]
        }),
        !profiles_by_name(Seq::empty()).contains_key(id),
{
    let more = entries.push(VanessaProfileEntryView { id, profile });
    assert(more.drop_last() =~= entries);
}

} // verus!
