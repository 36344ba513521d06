//! The operations on the collection in the form that a front end drives:
//! each takes what was fetched and the current time as values, changes the
//! collection in place, and reports its outcome instead of printing it. The
//! `_gui` names are those of the graphical front end that first called them;
//! the command line drives the same functions.

use vstd::prelude::*;

use crate::feed::{opt_view, render_feed, rendered_feed};
use crate::structs::{models, Podcast, PodcastModel, PodclawError, PodclawSuccess};
use crate::utils::{alias_taken, find_podcast};

verus! {

/// Seconds in an hour, the unit in which update intervals are given.
pub const SECS_PER_HOUR: u64 = 3600;

pub open spec fn opt_bytes(f: Option<Vec<u8>>) -> Option<Seq<u8>> {
    match f {
        Some(b) => Some(b@),
        None => None,
    }
}

/// The cache is stale when it is older than the update interval, or when its
/// timestamp lies in the future, so that its age cannot be computed.
pub open spec fn is_stale(p: PodcastModel, now: u64) -> bool {
    now < p.cache_time || now - p.cache_time > p.update_interval
}

/// The subscription after its cache was replaced by `content` at `now`.
pub open spec fn refreshed(p: PodcastModel, content: Seq<char>, now: u64) -> PodcastModel {
    PodcastModel { cache_content: content, cache_time: now, ..p }
}

/// The new cache text that a fetch gave, or why there is none: the request
/// failed (`None`), or its body is no valid feed.
pub open spec fn fetch_outcome(fetched: Option<Seq<u8>>) -> Result<Seq<char>, PodclawError> {
    match fetched {
        None => Err(PodclawError::RequestFailed),
        Some(b) => match rendered_feed(b) {
            None => Err(PodclawError::InvalidFeed),
            Some(t) => Ok(t),
        },
    }
}

/// An outcome that the caller must write back to storage.
pub open spec fn persists(r: Result<PodclawSuccess, PodclawError>) -> bool {
    r matches Ok(s) && s != PodclawSuccess::CacheCurrent && s != PodclawSuccess::NoChanges
}

pub open spec fn refresh_spec(
    ps: Seq<PodcastModel>,
    i: int,
    fetched: Option<Seq<u8>>,
    now: u64,
    done: PodclawSuccess,
) -> (Result<PodclawSuccess, PodclawError>, Seq<PodcastModel>) {
    match fetch_outcome(fetched) {
        Err(e) => (Err(e), ps),
        Ok(t) => (Ok(done), ps.update(i, refreshed(ps[i], t, now))),
    }
}

pub open spec fn autocache_spec(
    ps: Seq<PodcastModel>,
    i: int,
    now: u64,
    fetched: Option<Seq<u8>>,
) -> (Result<PodclawSuccess, PodclawError>, Seq<PodcastModel>) {
    if ps[i].is_locked {
        (Err(PodclawError::PodcastLocked), ps)
    } else if !is_stale(ps[i], now) {
        (Ok(PodclawSuccess::CacheCurrent), ps)
    } else {
        refresh_spec(ps, i, fetched, now, PodclawSuccess::AutoUpdatedPodcast)
    }
}

pub open spec fn update_spec(
    ps: Seq<PodcastModel>,
    i: int,
    now: u64,
    fetched: Option<Seq<u8>>,
) -> (Result<PodclawSuccess, PodclawError>, Seq<PodcastModel>) {
    if ps[i].is_locked {
        (Err(PodclawError::PodcastLocked), ps)
    } else {
        refresh_spec(ps, i, fetched, now, PodclawSuccess::UpdatedPodcast)
    }
}

/// Whether a front end should fetch the feed of `podcast` before calling
/// `update_podcast_gui` (`forced`) or `do_autocache_gui`: never for a locked
/// subscription, and for autocaching only when the cache is stale.
pub fn wants_fetch(podcast: &Podcast, now: u64, forced: bool) -> (r: bool)
    ensures
        r == (!podcast.is_locked && (forced || is_stale(podcast@, now))),
{
    if podcast.is_locked {
        false
    } else if forced || now < podcast.cache_time {
        true
    } else {
        now - podcast.cache_time > podcast.update_interval
    }
}

/// Replaces the cache of the subscription at `target_index` by the feed in
/// the fetched body, stamped `now`; `done` is reported on success.
fn refresh_cache(
    target_index: usize,
    podcasts: &mut Vec<Podcast>,
    fetched: Option<Vec<u8>>,
    now: u64,
    done: PodclawSuccess,
) -> (r: Result<PodclawSuccess, PodclawError>)
    requires
        target_index < old(podcasts)@.len(),
    ensures
        final(podcasts)@.len() == old(podcasts)@.len(),
        (r, models(final(podcasts)@)) == refresh_spec(
            models(old(podcasts)@),
            target_index as int,
            opt_bytes(fetched),
            now,
            done,
        ),
{
    let body = match fetched {
        Some(b) => b,
        None => {
            return Err(PodclawError::RequestFailed);
        },
    };
    match render_feed(body.as_slice()) {
        Some(text) => {
            podcasts[target_index].cache_content = text;
            podcasts[target_index].cache_time = now;
            assert(models(podcasts@) =~= models(old(podcasts)@).update(
                target_index as int,
                refreshed(models(old(podcasts)@)[target_index as int], text@, now),
            ));
            Ok(done)
        },
        None => Err(PodclawError::InvalidFeed),
    }
}

/// Refreshes a stale cache before it is read. A locked subscription is left
/// alone; a current cache is kept. `fetched` is the body of a request for the
/// feed, `None` if the request failed; it is read only when the cache is
/// stale. On failure the stale cache stays, and the caller goes on with it.
pub fn do_autocache_gui(
    target_index: usize,
    podcasts: &mut Vec<Podcast>,
    now: u64,
    fetched: Option<Vec<u8>>,
) -> (r: Result<PodclawSuccess, PodclawError>)
    requires
        target_index < old(podcasts)@.len(),
    ensures
        final(podcasts)@.len() == old(podcasts)@.len(),
        (r, models(final(podcasts)@)) == autocache_spec(
            models(old(podcasts)@),
            target_index as int,
            now,
            opt_bytes(fetched),
        ),
{
    let ghost ps = models(podcasts@);
    assert(ps[target_index as int] == podcasts@[target_index as int]@);
    if podcasts[target_index].is_locked {
        return Err(PodclawError::PodcastLocked);
    }
    if !wants_fetch(&podcasts[target_index], now, false) {
        return Ok(PodclawSuccess::CacheCurrent);
    }
    refresh_cache(target_index, podcasts, fetched, now, PodclawSuccess::AutoUpdatedPodcast)
}

/// Refreshes the cache of an unlocked subscription whatever its age.
/// `fetched` is the body of a request for the feed, `None` if it failed.
pub fn update_podcast_gui(
    target_index: usize,
    podcasts: &mut Vec<Podcast>,
    now: u64,
    fetched: Option<Vec<u8>>,
) -> (r: Result<PodclawSuccess, PodclawError>)
    requires
        target_index < old(podcasts)@.len(),
    ensures
        final(podcasts)@.len() == old(podcasts)@.len(),
        (r, models(final(podcasts)@)) == update_spec(
            models(old(podcasts)@),
            target_index as int,
            now,
            opt_bytes(fetched),
        ),
{
    let ghost ps = models(podcasts@);
    assert(ps[target_index as int] == podcasts@[target_index as int]@);
    if podcasts[target_index].is_locked {
        return Err(PodclawError::PodcastLocked);
    }
    refresh_cache(target_index, podcasts, fetched, now, PodclawSuccess::UpdatedPodcast)
}

/// The subscription that `add_podcast_gui` registers.
pub open spec fn new_model(
    alias: Seq<char>,
    link: Seq<char>,
    path: Seq<char>,
    interval_hours: u64,
    should_lock: bool,
    content: Seq<char>,
    now: u64,
) -> PodcastModel {
    PodcastModel {
        alias,
        feed_url: link,
        download_path: path,
        update_interval: (interval_hours * SECS_PER_HOUR) as u64,
        cache_time: now,
        cache_content: content,
        is_locked: should_lock,
    }
}

pub open spec fn add_spec(
    ps: Seq<PodcastModel>,
    alias: Seq<char>,
    link: Seq<char>,
    path: Seq<char>,
    interval_hours: u64,
    should_lock: bool,
    now: u64,
    fetched: Option<Seq<u8>>,
) -> (Result<PodclawSuccess, PodclawError>, Seq<PodcastModel>) {
    if alias.len() == 0 {
        (Err(PodclawError::InvalidAlias), ps)
    } else if alias_taken(alias, ps) {
        (Err(PodclawError::AliasInUse), ps)
    } else {
        match fetch_outcome(fetched) {
            Err(e) => (Err(e), ps),
            Ok(t) => (
                Ok(PodclawSuccess::AddedPodcast),
                ps.push(new_model(alias, link, path, interval_hours, should_lock, t, now)),
            ),
        }
    }
}

/// Registers a podcast under `new_alias`, which no subscription may already
/// answer to in any case. `fetched` is the body of a request for `new_link`,
/// `None` if it failed; the new cache is that feed, stamped `now`.
pub fn add_podcast_gui(
    new_alias: String,
    new_link: String,
    download_path: String,
    interval_hours: u64,
    should_lock: bool,
    now: u64,
    fetched: Option<Vec<u8>>,
    podcasts: &mut Vec<Podcast>,
) -> (r: Result<PodclawSuccess, PodclawError>)
    requires
        interval_hours <= u64::MAX / SECS_PER_HOUR,
    ensures
        (r, models(final(podcasts)@)) == add_spec(
            models(old(podcasts)@),
            new_alias@,
            new_link@,
            download_path@,
            interval_hours,
            should_lock,
            now,
            opt_bytes(fetched),
        ),
{
    if new_alias.as_str().is_empty() {
        return Err(PodclawError::InvalidAlias);
    }
    if find_podcast(&new_alias, podcasts.as_slice()).is_some() {
        return Err(PodclawError::AliasInUse);
    }
    let body = match fetched {
        Some(b) => b,
        None => {
            return Err(PodclawError::RequestFailed);
        },
    };
    match render_feed(body.as_slice()) {
        Some(text) => {
            let ghost m = new_model(
                new_alias@,
                new_link@,
                download_path@,
                interval_hours,
                should_lock,
                text@,
                now,
            );
            let podcast = Podcast {
                alias: new_alias,
                feed_url: new_link,
                download_path,
                update_interval: interval_hours * SECS_PER_HOUR,
                cache_time: now,
                cache_content: text,
                is_locked: should_lock,
            };
            podcasts.push(podcast);
            assert(models(podcasts@) =~= models(old(podcasts)@).push(m));
            Ok(PodclawSuccess::AddedPodcast)
        },
        None => Err(PodclawError::InvalidFeed),
    }
}

/// Deletes the subscription at `target_index`; the others keep their order.
pub fn remove_podcast_gui(target_index: usize, podcasts: &mut Vec<Podcast>)
    requires
        target_index < old(podcasts)@.len(),
    ensures
        final(podcasts)@.len() == old(podcasts)@.len() - 1,
        models(final(podcasts)@) == models(old(podcasts)@).remove(target_index as int),
{
    podcasts.remove(target_index);
    assert(models(podcasts@) =~= models(old(podcasts)@).remove(target_index as int));
}

pub open spec fn pick<T>(new: Option<T>, current: T) -> T {
    match new {
        Some(v) => v,
        None => current,
    }
}

/// The subscription with the supplied fields replaced.
pub open spec fn edited(
    p: PodcastModel,
    alias: Option<Seq<char>>,
    link: Option<Seq<char>>,
    path: Option<Seq<char>>,
    interval_hours: Option<u64>,
) -> PodcastModel {
    PodcastModel {
        alias: pick(alias, p.alias),
        feed_url: pick(link, p.feed_url),
        download_path: pick(path, p.download_path),
        update_interval: match interval_hours {
            Some(h) => (h * SECS_PER_HOUR) as u64,
            None => p.update_interval,
        },
        ..p
    }
}

pub open spec fn edit_spec(
    ps: Seq<PodcastModel>,
    i: int,
    alias: Option<Seq<char>>,
    link: Option<Seq<char>>,
    path: Option<Seq<char>>,
    interval_hours: Option<u64>,
) -> (Result<PodclawSuccess, PodclawError>, Seq<PodcastModel>) {
    if ps[i].is_locked {
        (Err(PodclawError::PodcastLocked), ps)
    } else if alias is None && link is None && path is None && interval_hours is None {
        (Ok(PodclawSuccess::NoChanges), ps)
    } else {
        (
            Ok(PodclawSuccess::EditedPodcast),
            ps.update(i, edited(ps[i], alias, link, path, interval_hours)),
        )
    }
}

/// Replaces the supplied fields of an unlocked subscription. The feed is not
/// fetched again: a changed link is read when the cache next goes stale.
pub fn edit_podcast(
    target_index: usize,
    new_alias_opt: Option<String>,
    new_link_opt: Option<String>,
    new_dl_path_opt: Option<String>,
    new_interval_opt: Option<u64>,
    podcasts: &mut Vec<Podcast>,
) -> (r: Result<PodclawSuccess, PodclawError>)
    requires
        target_index < old(podcasts)@.len(),
        new_interval_opt matches Some(h) ==> h <= u64::MAX / SECS_PER_HOUR,
    ensures
        final(podcasts)@.len() == old(podcasts)@.len(),
        (r, models(final(podcasts)@)) == edit_spec(
            models(old(podcasts)@),
            target_index as int,
            opt_view(new_alias_opt),
            opt_view(new_link_opt),
            opt_view(new_dl_path_opt),
            new_interval_opt,
        ),
{
    let ghost ps = models(podcasts@);
    assert(ps[target_index as int] == podcasts@[target_index as int]@);
    if podcasts[target_index].is_locked {
        return Err(PodclawError::PodcastLocked);
    }
    if new_alias_opt.is_none() && new_link_opt.is_none() && new_dl_path_opt.is_none()
        && new_interval_opt.is_none() {
        return Ok(PodclawSuccess::NoChanges);
    }
    let ghost target = edited(
        ps[target_index as int],
        opt_view(new_alias_opt),
        opt_view(new_link_opt),
        opt_view(new_dl_path_opt),
        new_interval_opt,
    );
    if let Some(a) = new_alias_opt {
        podcasts[target_index].alias = a;
    }
    if let Some(l) = new_link_opt {
        podcasts[target_index].feed_url = l;
    }
    if let Some(d) = new_dl_path_opt {
        podcasts[target_index].download_path = d;
    }
    if let Some(h) = new_interval_opt {
        podcasts[target_index].update_interval = h * SECS_PER_HOUR;
    }
    assert(models(podcasts@) =~= ps.update(target_index as int, target));
    Ok(PodclawSuccess::EditedPodcast)
}

/// The subscription with its lock flipped.
pub open spec fn toggled(p: PodcastModel) -> PodcastModel {
    PodcastModel { is_locked: !p.is_locked, ..p }
}

/// Flips the lock of the subscription at `target_index`, whatever its state,
/// and returns the new state. The change is always to be persisted.
pub fn lock_podcast(target_index: usize, podcasts: &mut Vec<Podcast>) -> (r: bool)
    requires
        target_index < old(podcasts)@.len(),
    ensures
        final(podcasts)@.len() == old(podcasts)@.len(),
        r == !old(podcasts)@[target_index as int].is_locked,
        models(final(podcasts)@) == models(old(podcasts)@).update(
            target_index as int,
            toggled(models(old(podcasts)@)[target_index as int]),
        ),
{
    let ghost ps = models(podcasts@);
    let locked = !podcasts[target_index].is_locked;
    podcasts[target_index].is_locked = locked;
    assert(models(podcasts@) =~= ps.update(target_index as int, toggled(ps[target_index as int])));
    locked
}

} // verus!
