pub mod episodes;
pub mod feed;
pub mod lemmas;
pub mod manage_feeds_gui;
pub mod structs;
pub mod utils;

pub use episodes::{
    download_episode_gui, inspect_podcast, list_podcasts_or_episodes, DownloadPlan, Inspection,
};
pub use feed::{Episode, EpisodeDetails, Feed, SeriesDetails};
pub use manage_feeds_gui::{
    add_podcast_gui, do_autocache_gui, edit_podcast, lock_podcast, remove_podcast_gui,
    update_podcast_gui, wants_fetch,
};
pub use structs::{Podcast, PodcastModel, PodclawError, PodclawJob, PodclawSuccess, TextDeco};
pub use utils::{find_podcast, get_storage, repair_storage, storage_bytes};
