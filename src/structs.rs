use vstd::prelude::*;

verus! {

/// What a subscription holds, as mathematical values.
pub struct PodcastModel {
    pub alias: Seq<char>,
    pub feed_url: Seq<char>,
    pub download_path: Seq<char>,
    pub update_interval: u64,
    pub cache_time: u64,
    pub cache_content: Seq<char>,
    pub is_locked: bool,
}

/// One registered podcast.
///
/// Times are whole seconds: `cache_time` counts from the Unix epoch and
/// `update_interval` is the age after which the cached feed is stale.
#[derive(Clone, Debug)]
pub struct Podcast {
    pub alias: String,
    pub feed_url: String,
    pub download_path: String,
    pub update_interval: u64,
    pub cache_time: u64,
    pub cache_content: String,
    pub is_locked: bool,
}

impl View for Podcast {
    type V = PodcastModel;

    open spec fn view(&self) -> PodcastModel {
        PodcastModel {
            alias: self.alias@,
            feed_url: self.feed_url@,
            download_path: self.download_path@,
            update_interval: self.update_interval,
            cache_time: self.cache_time,
            cache_content: self.cache_content@,
            is_locked: self.is_locked,
        }
    }
}

/// The subscriptions of a collection, each seen through its view.
pub open spec fn models(podcasts: Seq<Podcast>) -> Seq<PodcastModel> {
    podcasts.map_values(|p: Podcast| p@)
}

pub open spec fn blank_model() -> PodcastModel {
    PodcastModel {
        alias: Seq::empty(),
        feed_url: Seq::empty(),
        download_path: Seq::empty(),
        update_interval: 0,
        cache_time: 0,
        cache_content: Seq::empty(),
        is_locked: false,
    }
}

impl Podcast {
    /// An empty, unlocked subscription whose cache dates from the epoch.
    pub fn new() -> (r: Self)
        ensures
            r@ == blank_model(),
    {
        Podcast {
            alias: String::new(),
            feed_url: String::new(),
            download_path: String::new(),
            update_interval: 0,
            cache_time: 0,
            cache_content: String::new(),
            is_locked: false,
        }
    }
}

/// Markers that a front end puts before each line it prints.
#[derive(Clone)]
pub struct TextDeco {
    pub completion: &'static str,
    pub general: &'static str,
    pub important: &'static str,
    pub error: &'static str,
    pub prompt: &'static str,
    pub input: &'static str,
    pub verbose: &'static str,
}

/// A request that a front end hands to the worker that owns the collection.
#[derive(Clone)]
pub enum PodclawJob {
    AddPodcast(Podcast, Vec<Podcast>),
    RemovePodcast(String, Vec<Podcast>),
    EditPodcast(String, Vec<Podcast>),
    UpdatePodcast(String),
    DownloadEpisode(String, usize, bool),
}

/// How an operation on the collection succeeded.
///
/// The variants that end in `Podcast` report a change that the caller must
/// persist; `CacheCurrent` and `NoChanges` report that nothing changed.
#[derive(PartialEq, Eq, Structural, Debug)]
pub enum PodclawSuccess {
    AddedPodcast,
    RemovedPodcast,
    EditedPodcast,
    UpdatedPodcast,
    AutoUpdatedPodcast,
    CacheCurrent,
    NoChanges,
}

/// Why an operation on the collection failed; the collection is then unchanged.
#[derive(PartialEq, Eq, Structural, Debug, Clone, Copy)]
pub enum PodclawError {
    Generic,
    RequestFailed,
    UpdateFailed,
    PodcastLocked,
    PodcastNotFound,
    AudioNotFound,
    InvalidFeed,
    InvalidAlias,
    AliasInUse,
    IndexOutOfBounds,
    StorageCorrupted,
    NoConfirmation,
}

} // verus!
