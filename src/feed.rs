use vstd::prelude::*;

use crate::structs::PodclawError;

verus! {

pub struct EpisodeModel {
    pub title: Option<Seq<char>>,
    pub description: Option<Seq<char>>,
    pub enclosure_url: Option<Seq<char>>,
}

pub struct FeedModel {
    pub title: Seq<char>,
    pub description: Seq<char>,
    pub author: Option<Seq<char>>,
    pub episodes: Seq<EpisodeModel>,
}

pub open spec fn opt_view(o: Option<String>) -> Option<Seq<char>> {
    match o {
        Some(s) => Some(s@),
        None => None,
    }
}

/// One item of a feed, with the fields that may be missing from it.
#[derive(Clone, Debug)]
pub struct Episode {
    pub title: Option<String>,
    pub description: Option<String>,
    pub enclosure_url: Option<String>,
}

impl View for Episode {
    type V = EpisodeModel;

    open spec fn view(&self) -> EpisodeModel {
        EpisodeModel {
            title: opt_view(self.title),
            description: opt_view(self.description),
            enclosure_url: opt_view(self.enclosure_url),
        }
    }
}

pub open spec fn episode_models(episodes: Seq<Episode>) -> Seq<EpisodeModel> {
    episodes.map_values(|e: Episode| e@)
}

/// A parsed feed: its series data and its episodes in the order of the document.
#[derive(Clone, Debug)]
pub struct Feed {
    pub title: String,
    pub description: String,
    pub author: Option<String>,
    pub episodes: Vec<Episode>,
}

impl View for Feed {
    type V = FeedModel;

    open spec fn view(&self) -> FeedModel {
        FeedModel {
            title: self.title@,
            description: self.description@,
            author: opt_view(self.author),
            episodes: episode_models(self.episodes@),
        }
    }
}

/// The feed that a cached document describes, if it is a valid feed.
pub uninterp spec fn parsed_feed(text: Seq<char>) -> Option<FeedModel>;

/// The canonical text of the feed in a fetched body, if the body is a valid feed.
pub uninterp spec fn rendered_feed(body: Seq<u8>) -> Option<Seq<char>>;

/// Relies on `rss::Channel::from_str`: parses a feed document, a function of
/// the text alone; the fields are moved over one for one.
#[verifier::external_body]
pub(crate) fn read_feed(text: &str) -> (r: Option<Feed>)
    ensures
        r is Some <==> parsed_feed(text@) is Some,
        r matches Some(f) ==> parsed_feed(text@) == Some(f@),
{
    <rss::Channel as std::str::FromStr>::from_str(text).ok().map(|c| Feed {
        title: c.title,
        description: c.description,
        author: c.itunes_ext.and_then(|x| x.author),
        episodes: c.items.into_iter().map(|i| Episode {
            title: i.title,
            description: i.description,
            enclosure_url: i.enclosure.map(|e| e.url),
        }).collect(),
    })
}

/// Relies on `rss::Channel::read_from` and the channel's `Display`: parses a
/// fetched body and writes the channel back as text, a function of the bytes alone.
#[verifier::external_body]
pub(crate) fn render_feed(body: &[u8]) -> (r: Option<String>)
    ensures
        r is Some <==> rendered_feed(body@) is Some,
        r matches Some(t) ==> rendered_feed(body@) == Some(t@),
{
    rss::Channel::read_from(body).ok().map(|c| c.to_string())
}

/// The episodes in the order shown to the user: reversed unless the
/// document's own order is asked for.
pub open spec fn ordered<T>(episodes: Seq<T>, normal_order: bool) -> Seq<T> {
    if normal_order {
        episodes
    } else {
        episodes.reverse()
    }
}

/// Puts the episodes in the order shown to the user. By default the document's
/// order is reversed, which lists the newest episode first; `normal_order`
/// keeps the document's order.
pub fn resolve_order(episodes: Vec<Episode>, normal_order: bool) -> (r: Vec<Episode>)
    ensures
        r@ == ordered(episodes@, normal_order),
{
    if normal_order {
        return episodes;
    }
    let mut rest = episodes;
    let mut out: Vec<Episode> = Vec::new();
    let ghost orig = rest@;
    while rest.len() > 0
        invariant
            orig.len() == rest@.len() + out@.len(),
            rest@ == orig.subrange(0, rest@.len() as int),
            forall|k: int| 0 <= k < out@.len() ==> out@[k] == orig[orig.len() - 1 - k],
        decreases rest@.len(),
    {
        let e = rest.pop().unwrap();
        out.push(e);
    }
    assert(out@ =~= orig.reverse());
    out
}

/// What is shown of a whole series.
#[derive(Clone, Debug)]
pub struct SeriesDetails {
    pub title: String,
    pub author: String,
    pub description: String,
}

/// What is shown of one episode, at its place in the order shown.
#[derive(Clone, Debug)]
pub struct EpisodeDetails {
    pub title: String,
    pub index: usize,
    pub description: String,
    pub link: String,
}

/// Every field that is shown of an episode is present.
pub open spec fn complete(e: EpisodeModel) -> bool {
    e.title is Some && e.description is Some && e.enclosure_url is Some
}

/// The episode shown at `index`, or why it cannot be shown.
pub open spec fn episode_outcome(f: FeedModel, index: usize, normal_order: bool) -> Result<
    EpisodeModel,
    PodclawError,
> {
    let shown = ordered(f.episodes, normal_order);
    if index >= shown.len() {
        Err(PodclawError::IndexOutOfBounds)
    } else if complete(shown[index as int]) {
        Ok(shown[index as int])
    } else {
        Err(PodclawError::InvalidFeed)
    }
}

/// The episode shown at `index` as a download source, or why it cannot be
/// downloaded: a download needs the title, for the file name, and the
/// enclosure, for the audio; nothing else.
pub open spec fn download_outcome(f: FeedModel, index: usize, normal_order: bool) -> Result<
    EpisodeModel,
    PodclawError,
> {
    let shown = ordered(f.episodes, normal_order);
    if index >= shown.len() {
        Err(PodclawError::IndexOutOfBounds)
    } else if shown[index as int].title is Some && shown[index as int].enclosure_url is Some {
        Ok(shown[index as int])
    } else {
        Err(PodclawError::InvalidFeed)
    }
}

/// The title and enclosure URL of the episode at `episode_index` in the order
/// shown. An index past the end is out of bounds; an episode without a title
/// or an enclosure cannot be downloaded. Its description plays no part.
pub fn download_source(feed: Feed, episode_index: usize, normal_order: bool) -> (r: Result<
    (String, String),
    PodclawError,
>)
    ensures
        match download_outcome(feed@, episode_index, normal_order) {
            Ok(e) => r matches Ok((t, u)) && Some(t@) == e.title && Some(u@) == e.enclosure_url,
            Err(err) => r == Err::<(String, String), PodclawError>(err),
        },
{
    let ghost native = feed.episodes@;
    let episodes = resolve_order(feed.episodes, normal_order);
    proof {
        lemma_ordered_models(native, normal_order);
    }
    if episode_index >= episodes.len() {
        return Err(PodclawError::IndexOutOfBounds);
    }
    let e = &episodes[episode_index];
    match (&e.title, &e.enclosure_url) {
        (Some(t), Some(u)) => Ok((t.clone(), u.clone())),
        _ => Err(PodclawError::InvalidFeed),
    }
}

pub open spec fn details_of(d: EpisodeDetails, e: EpisodeModel, index: usize) -> bool {
    Some(d.title@) == e.title && Some(d.description@) == e.description && Some(d.link@)
        == e.enclosure_url && d.index == index
}

pub open spec fn strings(v: Seq<String>) -> Seq<Seq<char>> {
    v.map_values(|s: String| s@)
}

/// The titles in the order shown, if every episode has one.
pub open spec fn titles_outcome(f: FeedModel, normal_order: bool) -> Option<Seq<Seq<char>>> {
    let shown = ordered(f.episodes, normal_order);
    if forall|k: int| 0 <= k < shown.len() ==> (#[trigger] shown[k]).title is Some {
        Some(shown.map_values(|e: EpisodeModel| e.title->Some_0))
    } else {
        None
    }
}

/// The series data of a feed. The author is required: a feed without one is invalid.
pub fn inspect_series(feed: Feed) -> (r: Result<SeriesDetails, PodclawError>)
    ensures
        feed.author is None ==> r == Err::<SeriesDetails, PodclawError>(PodclawError::InvalidFeed),
        feed.author is Some ==> (r matches Ok(d) && d.title@ == feed.title@ && Some(d.author@)
            == opt_view(feed.author) && d.description@ == feed.description@),
{
    match feed.author {
        Some(author) => Ok(SeriesDetails { title: feed.title, author, description: feed.description }),
        None => Err(PodclawError::InvalidFeed),
    }
}

/// The episode at `episode_index` in the order shown. An index past the end
/// is out of bounds; an episode without a title, description or enclosure is invalid.
pub fn inspect_episode(feed: Feed, episode_index: usize, normal_order: bool) -> (r: Result<
    EpisodeDetails,
    PodclawError,
>)
    ensures
        match episode_outcome(feed@, episode_index, normal_order) {
            Ok(e) => r matches Ok(d) && details_of(d, e, episode_index),
            Err(err) => r == Err::<EpisodeDetails, PodclawError>(err),
        },
{
    let ghost native = feed.episodes@;
    let episodes = resolve_order(feed.episodes, normal_order);
    proof {
        lemma_ordered_models(native, normal_order);
    }
    if episode_index >= episodes.len() {
        return Err(PodclawError::IndexOutOfBounds);
    }
    let e = &episodes[episode_index];
    match (&e.title, &e.description, &e.enclosure_url) {
        (Some(t), Some(d), Some(u)) => Ok(
            EpisodeDetails {
                title: t.clone(),
                index: episode_index,
                description: d.clone(),
                link: u.clone(),
            },
        ),
        _ => Err(PodclawError::InvalidFeed),
    }
}

/// The titles of the episodes in the order shown. Every episode must have a title.
pub fn episode_titles(feed: Feed, normal_order: bool) -> (r: Result<Vec<String>, PodclawError>)
    ensures
        match titles_outcome(feed@, normal_order) {
            Some(ts) => r matches Ok(v) && strings(v@) == ts,
            None => r == Err::<Vec<String>, PodclawError>(PodclawError::InvalidFeed),
        },
{
    let ghost native = feed.episodes@;
    assert(feed@.episodes == episode_models(native));
    let episodes = resolve_order(feed.episodes, normal_order);
    proof {
        lemma_ordered_models(native, normal_order);
    }
    let ghost shown = ordered(feed@.episodes, normal_order);
    let mut titles: Vec<String> = Vec::new();
    let mut i: usize = 0;
    while i < episodes.len()
        invariant
            i <= episodes@.len(),
            titles@.len() == i,
            shown == episode_models(episodes@),
            shown == ordered(feed@.episodes, normal_order),
            forall|k: int| 0 <= k < i ==> Some(#[trigger] titles@[k]@) == shown[k].title,
        decreases episodes@.len() - i,
    {
        match &episodes[i].title {
            Some(t) => titles.push(t.clone()),
            None => {
                assert(shown[i as int].title is None);
                return Err(PodclawError::InvalidFeed);
            },
        }
        i = i + 1;
    }
    assert forall|k: int| 0 <= k < shown.len() implies (#[trigger] shown[k]).title is Some by {
        assert(Some(titles@[k]@) == shown[k].title);
    }
    assert(strings(titles@) =~= shown.map_values(|e: EpisodeModel| e.title->Some_0));
    Ok(titles)
}

/// Taking the views commutes with putting the episodes in order.
pub proof fn lemma_ordered_models(episodes: Seq<Episode>, normal_order: bool)
    ensures
        episode_models(ordered(episodes, normal_order)) == ordered(
            episode_models(episodes),
            normal_order,
        ),
{
    if !normal_order {
        assert(episode_models(episodes.reverse()) =~= episode_models(episodes).reverse());
    }
}

} // verus!
