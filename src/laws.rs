use vstd::prelude::*;

use crate::json::{str_member, u64_member, JsonModel};
use crate::workspace::{frontmost_app_of, running_app_of, running_apps_of, RunningAppView};

verus! {

/// Decoding a list of entries entry by entry: the records of two lists put
/// together are the records of the first followed by those of the second.
pub proof fn lemma_running_apps_concat(a: Seq<JsonModel>, b: Seq<JsonModel>)
    ensures
        running_apps_of(a + b) == running_apps_of(a) + running_apps_of(b),
    decreases b.len(),
{
    if b.len() == 0 {
        assert(a + b =~= a);
        assert(running_apps_of(b) =~= Seq::<RunningAppView>::empty());
        assert(running_apps_of(a) + running_apps_of(b) =~= running_apps_of(a));
    } else {
        lemma_running_apps_concat(a, b.drop_last());
        assert((a + b).drop_last() =~= a + b.drop_last());
        assert((a + b).last() == b.last());
        match running_app_of(b.last()) {
            Some(x) => {
                assert(running_apps_of(a) + running_apps_of(b.drop_last()).push(x) =~= (
                running_apps_of(a) + running_apps_of(b.drop_last())).push(x));
            },
            None => {},
        }
    }
}

/// A running-applications entry that lacks any of its three string members
/// is left out of the decoded list, and nothing else changes.
pub proof fn lemma_incomplete_entry_omitted(
    before: Seq<JsonModel>,
    entry: JsonModel,
    after: Seq<JsonModel>,
)
    requires
        str_member(entry, "bundleIdentifier"@) is None || str_member(entry, "localizedName"@) is None
            || str_member(entry, "executableURL"@) is None,
    ensures
        running_apps_of(before + seq![entry] + after) == running_apps_of(before + after),
{
    lemma_running_apps_concat(before + seq![entry], after);
    lemma_running_apps_concat(before, seq![entry]);
    lemma_running_apps_concat(before, after);
    assert(seq![entry].drop_last() =~= Seq::<JsonModel>::empty());
    assert(seq![entry].last() == entry);
    assert(running_apps_of(Seq::<JsonModel>::empty()) =~= Seq::<
        RunningAppView,
    >::empty());
    assert(running_apps_of(seq![entry]) =~= Seq::<RunningAppView>::empty());
    assert(running_apps_of(before) + running_apps_of(seq![entry]) =~= running_apps_of(before));
}

/// A running-applications entry with all three string members is kept, as
/// the record of those members, at its place among the kept entries.
pub proof fn lemma_complete_entry_kept(
    before: Seq<JsonModel>,
    entry: JsonModel,
    after: Seq<JsonModel>,
)
    requires
        str_member(entry, "bundleIdentifier"@) is Some,
        str_member(entry, "localizedName"@) is Some,
        str_member(entry, "executableURL"@) is Some,
    ensures
        running_app_of(entry) is Some,
        running_apps_of(before + seq![entry] + after) == running_apps_of(before) + seq![
            running_app_of(entry)->0,
        ] + running_apps_of(after),
{
    lemma_running_apps_concat(before + seq![entry], after);
    lemma_running_apps_concat(before, seq![entry]);
    assert(seq![entry].drop_last() =~= Seq::<JsonModel>::empty());
    assert(seq![entry].last() == entry);
    assert(running_apps_of(Seq::<JsonModel>::empty()) =~= Seq::<
        RunningAppView,
    >::empty());
    assert(running_apps_of(seq![entry]) =~= seq![running_app_of(entry)->0]);
}

/// A frontmost-application document with members missing still gives a
/// record: each missing string is empty and a missing process identifier is zero.
pub proof fn lemma_frontmost_defaults(j: JsonModel)
    ensures
        str_member(j, "bundleIdentifier"@) is None ==> frontmost_app_of(j).bundle_identifier
            == Seq::<char>::empty(),
        str_member(j, "localizedName"@) is None ==> frontmost_app_of(j).localized_name
            == Seq::<char>::empty(),
        str_member(j, "executableURL"@) is None ==> frontmost_app_of(j).executable_path
            == Seq::<char>::empty(),
        str_member(j, "launchDate"@) is None ==> frontmost_app_of(j).launch_date == Seq::<
            char,
        >::empty(),
        u64_member(j, "processIdentifier"@) is None ==> frontmost_app_of(j).process_id == 0,
{
}

} // verus!
