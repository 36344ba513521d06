use vstd::prelude::*;
use vstd::string::StringExecFns;

use crate::feed::{
    download_outcome, download_source, episode_outcome, episode_titles, inspect_episode,
    inspect_series, parsed_feed, read_feed, strings, titles_outcome, EpisodeDetails, SeriesDetails,
};
use crate::structs::{models, Podcast, PodcastModel, PodclawError};
use crate::utils::{alias_taken, find_podcast, found_at};

verus! {

/// The decimal digit for `d`.
pub open spec fn digit(d: nat) -> char {
    if d == 0 {
        '0'
    } else if d == 1 {
        '1'
    } else if d == 2 {
        '2'
    } else if d == 3 {
        '3'
    } else if d == 4 {
        '4'
    } else if d == 5 {
        '5'
    } else if d == 6 {
        '6'
    } else if d == 7 {
        '7'
    } else if d == 8 {
        '8'
    } else {
        '9'
    }
}

/// `n` written in decimal, without sign or leading zeros.
pub open spec fn decimal(n: nat) -> Seq<char>
    decreases n,
{
    if n < 10 {
        seq![digit(n)]
    } else {
        decimal(n / 10).push(digit(n % 10))
    }
}

/// Relies on `usize`'s `Display`, through `ToString`: decimal digits, no sign
/// or padding.
#[verifier::external_body]
fn decimal_string(n: usize) -> (r: String)
    ensures
        r@ == decimal(n as nat),
{
    n.to_string()
}

/// The name of the file that an episode is saved to:
/// `[alias - index] title.mp3`.
pub open spec fn file_name_of(alias: Seq<char>, index: usize, title: Seq<char>) -> Seq<char> {
    "["@ + alias + " - "@ + decimal(index as nat) + "] "@ + title + ".mp3"@
}

/// Where an episode's audio comes from and where it goes.
#[derive(Clone, Debug)]
pub struct DownloadPlan {
    pub url: String,
    pub directory: String,
    pub file_name: String,
}

pub open spec fn plan_of(plan: DownloadPlan, p: PodcastModel, index: usize, e: crate::feed::EpisodeModel) -> bool {
    plan.url@ == e.enclosure_url->Some_0 && plan.directory@ == p.download_path
        && plan.file_name@ == file_name_of(p.alias, index, e.title->Some_0)
}

/// Plans the download of the episode at `episode_index` in the order shown,
/// from the cached feed. The lock plays no part: a locked podcast can still
/// be downloaded from.
pub fn download_episode_gui(
    target_index: usize,
    episode_index: usize,
    normal_order: bool,
    podcasts: &Vec<Podcast>,
) -> (r: Result<DownloadPlan, PodclawError>)
    requires
        target_index < podcasts@.len(),
    ensures
        ({
            let p = podcasts@[target_index as int]@;
            match parsed_feed(p.cache_content) {
                None => r == Err::<DownloadPlan, PodclawError>(PodclawError::InvalidFeed),
                Some(f) => match download_outcome(f, episode_index, normal_order) {
                    Err(err) => r == Err::<DownloadPlan, PodclawError>(err),
                    Ok(e) => r matches Ok(plan) && plan_of(plan, p, episode_index, e),
                },
            }
        }),
{
    let podcast = &podcasts[target_index];
    let feed = match read_feed(podcast.cache_content.as_str()) {
        Some(f) => f,
        None => {
            return Err(PodclawError::InvalidFeed);
        },
    };
    let (title, url) = match download_source(feed, episode_index, normal_order) {
        Ok(source) => source,
        Err(e) => {
            return Err(e);
        },
    };
    let mut name = String::new();
    name.append("[");
    name.append(podcast.alias.as_str());
    name.append(" - ");
    let digits = decimal_string(episode_index);
    name.append(digits.as_str());
    name.append("] ");
    name.append(title.as_str());
    name.append(".mp3");
    assert(name@ =~= file_name_of(podcast.alias@, episode_index, title@));
    Ok(DownloadPlan { url, directory: podcast.download_path.clone(), file_name: name })
}

/// What `inspect_podcast` shows.
#[derive(Clone, Debug)]
pub enum Inspection {
    Series(SeriesDetails),
    Episode(EpisodeDetails),
}

/// Shows the series data of a podcast's cached feed, or with an index one of
/// its episodes in the order shown. The lock plays no part.
pub fn inspect_podcast(
    target_index: usize,
    episode_index: Option<usize>,
    normal_order: bool,
    podcasts: &Vec<Podcast>,
) -> (r: Result<Inspection, PodclawError>)
    requires
        target_index < podcasts@.len(),
    ensures
        ({
            let p = podcasts@[target_index as int]@;
            match parsed_feed(p.cache_content) {
                None => r == Err::<Inspection, PodclawError>(PodclawError::InvalidFeed),
                Some(f) => match episode_index {
                    None => match f.author {
                        None => r == Err::<Inspection, PodclawError>(PodclawError::InvalidFeed),
                        Some(a) => r matches Ok(Inspection::Series(d)) && d.title@ == f.title
                            && d.author@ == a && d.description@ == f.description,
                    },
                    Some(i) => match episode_outcome(f, i, normal_order) {
                        Err(err) => r == Err::<Inspection, PodclawError>(err),
                        Ok(e) => r matches Ok(Inspection::Episode(d))
                            && crate::feed::details_of(d, e, i),
                    },
                },
            }
        }),
{
    let feed = match read_feed(podcasts[target_index].cache_content.as_str()) {
        Some(f) => f,
        None => {
            return Err(PodclawError::InvalidFeed);
        },
    };
    match episode_index {
        None => match inspect_series(feed) {
            Ok(d) => Ok(Inspection::Series(d)),
            Err(e) => Err(e),
        },
        Some(i) => match inspect_episode(feed, i, normal_order) {
            Ok(d) => Ok(Inspection::Episode(d)),
            Err(e) => Err(e),
        },
    }
}

/// The aliases of a collection, in order.
pub open spec fn aliases(ps: Seq<PodcastModel>) -> Seq<Seq<char>> {
    ps.map_values(|p: PodcastModel| p.alias)
}

/// What listing the episodes of `p` gives.
pub open spec fn episode_listing(p: PodcastModel, normal_order: bool, r: Result<Vec<String>, PodclawError>) -> bool {
    match parsed_feed(p.cache_content) {
        None => r == Err::<Vec<String>, PodclawError>(PodclawError::InvalidFeed),
        Some(f) => match titles_outcome(f, normal_order) {
            None => r == Err::<Vec<String>, PodclawError>(PodclawError::InvalidFeed),
            Some(ts) => r matches Ok(v) && strings(v@) == ts,
        },
    }
}

/// Without an alias, lists the aliases of all subscriptions in order; with
/// one, lists the titles of that podcast's episodes in the order shown. The
/// position in the list is the index that other operations take.
pub fn list_podcasts_or_episodes(
    alias: Option<String>,
    normal_order: bool,
    podcasts: &Vec<Podcast>,
) -> (r: Result<Vec<String>, PodclawError>)
    ensures
        alias is None ==> (r matches Ok(v) && strings(v@) == aliases(models(podcasts@))),
        alias matches Some(a) ==> {
            &&& !alias_taken(a@, models(podcasts@)) ==> r == Err::<Vec<String>, PodclawError>(
                PodclawError::PodcastNotFound,
            )
            &&& forall|i: usize|
                #[trigger] found_at(a@, models(podcasts@), Some(i)) ==> episode_listing(
                    podcasts@[i as int]@,
                    normal_order,
                    r,
                )
        },
{
    match alias {
        None => {
            let mut names: Vec<String> = Vec::new();
            let mut i: usize = 0;
            while i < podcasts.len()
                invariant
                    i <= podcasts@.len(),
                    names@.len() == i,
                    forall|k: int| 0 <= k < i ==> (#[trigger] names@[k])@ == podcasts@[k].alias@,
                decreases podcasts@.len() - i,
            {
                names.push(podcasts[i].alias.clone());
                i = i + 1;
            }
            assert(strings(names@) =~= aliases(models(podcasts@)));
            Ok(names)
        },
        Some(a) => {
            let found = find_podcast(&a, podcasts.as_slice());
            let target_index = match found {
                Some(t) => t,
                None => {
                    return Err(PodclawError::PodcastNotFound);
                },
            };
            proof {
                assert forall|i: usize| #[trigger] found_at(a@, models(podcasts@), Some(i)) implies i
                    == target_index by {
                    if i < target_index {
                        assert(!same_alias_at(models(podcasts@), i as int, a@));
                    } else if i > target_index {
                        assert(!same_alias_at(models(podcasts@), target_index as int, a@));
                    }
                }
            }
            let feed = match read_feed(podcasts[target_index].cache_content.as_str()) {
                Some(f) => f,
                None => {
                    return Err(PodclawError::InvalidFeed);
                },
            };
            episode_titles(feed, normal_order)
        },
    }
}

spec fn same_alias_at(ps: Seq<PodcastModel>, i: int, a: Seq<char>) -> bool {
    crate::utils::same_alias(ps[i].alias, a)
}

} // verus!
