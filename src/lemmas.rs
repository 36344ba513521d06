use vstd::prelude::*;

use crate::manage_feeds_gui::{add_spec, autocache_spec, edit_spec, persists, toggled};
use crate::structs::{PodcastModel, PodclawError, PodclawSuccess};
use crate::utils::{alias_taken, found_at, same_alias};

verus! {

/// After a podcast is added, a search for any spelling of its alias that
/// agrees up to case finds it, at the end of the collection; adding an alias
/// that some subscription already answers to, in any case, is refused and
/// leaves the collection as it was.
pub proof fn lemma_added_alias_is_found(
    ps: Seq<PodcastModel>,
    alias: Seq<char>,
    link: Seq<char>,
    path: Seq<char>,
    interval_hours: u64,
    should_lock: bool,
    now: u64,
    fetched: Option<Seq<u8>>,
    query: Seq<char>,
)
    requires
        same_alias(query, alias),
        ps.len() < usize::MAX,
    ensures
        ({
            let (r, after) = add_spec(ps, alias, link, path, interval_hours, should_lock, now, fetched);
            r == Ok::<PodclawSuccess, PodclawError>(PodclawSuccess::AddedPodcast) ==> found_at(
                query,
                after,
                Some(ps.len() as usize),
            )
        }),
        alias.len() > 0 && alias_taken(alias, ps) ==> add_spec(
            ps,
            alias,
            link,
            path,
            interval_hours,
            should_lock,
            now,
            fetched,
        ) == (Err::<PodclawSuccess, PodclawError>(PodclawError::AliasInUse), ps),
{
    let (r, after) = add_spec(ps, alias, link, path, interval_hours, should_lock, now, fetched);
    if r == Ok::<PodclawSuccess, PodclawError>(PodclawSuccess::AddedPodcast) {
        assert(!alias_taken(alias, ps));
        assert(after.len() == ps.len() + 1);
        assert(after[ps.len() as int].alias == alias);
        assert forall|j: int| 0 <= j < ps.len() implies !same_alias(
            #[trigger] after[j].alias,
            query,
        ) by {
            assert(after[j] == ps[j]);
            if same_alias(after[j].alias, query) {
                assert(same_alias(ps[j].alias, alias));
            }
        }
    }
}

/// Autocaching a locked subscription changes nothing and asks for no write,
/// whatever the time and whatever a fetch gave.
pub proof fn lemma_locked_autocache_is_inert(
    ps: Seq<PodcastModel>,
    i: int,
    now: u64,
    fetched: Option<Seq<u8>>,
)
    requires
        0 <= i < ps.len(),
        ps[i].is_locked,
    ensures
        autocache_spec(ps, i, now, fetched).1 == ps,
        !persists(autocache_spec(ps, i, now, fetched).0),
{
}

/// An edit that supplies no field changes nothing, reports that, and asks for
/// no write; an edit of an unlocked subscription that supplies a field asks
/// for exactly one write.
pub proof fn lemma_edit_writes_only_changes(
    ps: Seq<PodcastModel>,
    i: int,
    alias: Option<Seq<char>>,
    link: Option<Seq<char>>,
    path: Option<Seq<char>>,
    interval_hours: Option<u64>,
)
    requires
        0 <= i < ps.len(),
    ensures
        alias is None && link is None && path is None && interval_hours is None ==> {
            let (r, after) = edit_spec(ps, i, alias, link, path, interval_hours);
            &&& after == ps
            &&& !persists(r)
            &&& !ps[i].is_locked ==> r == Ok::<PodclawSuccess, PodclawError>(
                PodclawSuccess::NoChanges,
            )
        },
        !(alias is None && link is None && path is None && interval_hours is None)
            && !ps[i].is_locked ==> edit_spec(ps, i, alias, link, path, interval_hours).0 == Ok::<
            PodclawSuccess,
            PodclawError,
        >(PodclawSuccess::EditedPodcast),
{
}

/// Toggling the lock twice gives the collection back; the first toggle flips
/// the state.
pub proof fn lemma_lock_toggles_back(ps: Seq<PodcastModel>, i: int)
    requires
        0 <= i < ps.len(),
    ensures
        ({
            let once = ps.update(i, toggled(ps[i]));
            &&& once[i].is_locked == !ps[i].is_locked
            &&& once.update(i, toggled(once[i])) == ps
        }),
{
    let once = ps.update(i, toggled(ps[i]));
    assert(toggled(once[i]) == ps[i]);
    assert(once.update(i, toggled(once[i])) =~= ps);
}

} // verus!
