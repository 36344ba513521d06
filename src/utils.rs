use vstd::prelude::*;

use crate::structs::{models, Podcast, PodcastModel, PodclawError};

verus! {

/// The lower-case form of a string, as Unicode defines it.
pub uninterp spec fn lower_of(s: Seq<char>) -> Seq<char>;

/// Relies on `str::to_lowercase`: the result depends on the characters alone.
#[verifier::external_body]
fn lowercase(s: &str) -> (r: String)
    ensures
        r@ == lower_of(s@),
{
    s.to_lowercase()
}

/// Two aliases name the same podcast when they agree up to case.
pub open spec fn same_alias(a: Seq<char>, b: Seq<char>) -> bool {
    lower_of(a) == lower_of(b)
}

/// Some subscription of the collection answers to `alias`.
pub open spec fn alias_taken(alias: Seq<char>, ps: Seq<PodcastModel>) -> bool {
    exists|i: int| 0 <= i < ps.len() && same_alias(#[trigger] ps[i].alias, alias)
}

/// `r` is what a search for `target` must give: the first subscription that
/// answers to it, or `None` when none does.
pub open spec fn found_at(target: Seq<char>, ps: Seq<PodcastModel>, r: Option<usize>) -> bool {
    match r {
        Some(i) => i < ps.len() && same_alias(ps[i as int].alias, target) && forall|j: int|
            0 <= j < i ==> !same_alias(#[trigger] ps[j].alias, target),
        None => !alias_taken(target, ps),
    }
}

/// The first position at which `folded_aliases` holds `folded_target`.
pub fn find_folded(folded_target: &String, folded_aliases: &Vec<String>) -> (r: Option<usize>)
    ensures
        match r {
            Some(i) => i < folded_aliases@.len() && folded_aliases@[i as int]@ == folded_target@
                && forall|j: int|
                0 <= j < i ==> (#[trigger] folded_aliases@[j])@ != folded_target@,
            None => forall|j: int|
                0 <= j < folded_aliases@.len() ==> (#[trigger] folded_aliases@[j])@
                    != folded_target@,
        },
{
    let mut i: usize = 0;
    while i < folded_aliases.len()
        invariant
            i <= folded_aliases@.len(),
            forall|j: int| 0 <= j < i ==> (#[trigger] folded_aliases@[j])@ != folded_target@,
        decreases folded_aliases@.len() - i,
    {
        if folded_aliases[i] == *folded_target {
            return Some(i);
        }
        i = i + 1;
    }
    None
}

/// Finds the subscription that answers to `target_alias`, ignoring case; the
/// first one if several do.
pub fn find_podcast(target_alias: &String, podcasts: &[Podcast]) -> (r: Option<usize>)
    ensures
        found_at(target_alias@, models(podcasts@), r),
{
    let folded_target = lowercase(target_alias.as_str());
    let mut folded: Vec<String> = Vec::new();
    let mut i: usize = 0;
    while i < podcasts.len()
        invariant
            i <= podcasts@.len(),
            folded@.len() == i,
            forall|j: int| 0 <= j < i ==> (#[trigger] folded@[j])@ == lower_of(podcasts@[j].alias@),
        decreases podcasts@.len() - i,
    {
        folded.push(lowercase(podcasts[i].alias.as_str()));
        i = i + 1;
    }
    let r = find_folded(&folded_target, &folded);
    proof {
        let ps = models(podcasts@);
        assert forall|j: int| 0 <= j < ps.len() implies (#[trigger] ps[j]).alias == podcasts@[j].alias@
            by {}
        match r {
            Some(k) => {
                assert forall|j: int| 0 <= j < k implies !same_alias(#[trigger] ps[j].alias, target_alias@)
                    by {
                    assert(folded@[j]@ != folded_target@);
                }
            },
            None => {
                assert forall|j: int| 0 <= j < ps.len() implies !same_alias(
                    #[trigger] ps[j].alias,
                    target_alias@,
                ) by {
                    assert(folded@[j]@ != folded_target@);
                }
            },
        }
    }
    r
}

/// The bytes that store a collection.
pub uninterp spec fn encoded_storage(c: Seq<PodcastModel>) -> Seq<u8>;

/// The collection that stored bytes hold, if they hold one.
pub uninterp spec fn decoded_storage(b: Seq<u8>) -> Option<Seq<PodcastModel>>;

/// Relies on `bincode::serialize`, which fails only on a size limit or on a
/// sequence of unknown length: neither arises for a vector of tuples of
/// strings, integers and booleans. Each subscription is written as the tuple
/// of its fields, in order.
#[verifier::external_body]
fn serialize_podcasts(podcasts: &Vec<Podcast>) -> (r: Vec<u8>)
    ensures
        r@ == encoded_storage(models(podcasts@)),
{
    let records: Vec<(&str, &str, &str, u64, u64, &str, bool)> = podcasts.iter().map(
        |p| (p.alias.as_str(), p.feed_url.as_str(), p.download_path.as_str(), p.update_interval,
            p.cache_time, p.cache_content.as_str(), p.is_locked),
    ).collect();
    bincode::serialize(&records).unwrap_or_default()
}

/// Relies on `bincode::deserialize`: a function of the bytes alone, which
/// reads back what `bincode::serialize` wrote for the same type.
#[verifier::external_body]
fn deserialize_podcasts(bytes: &[u8]) -> (r: Option<Vec<Podcast>>)
    ensures
        r is Some <==> decoded_storage(bytes@) is Some,
        r matches Some(v) ==> decoded_storage(bytes@) == Some(models(v@)),
        r is None ==> forall|c: Seq<PodcastModel>| #[trigger] encoded_storage(c) != bytes@,
        r matches Some(v) ==> forall|c: Seq<PodcastModel>|
            #[trigger] encoded_storage(c) == bytes@ ==> models(v@) == c,
{
    bincode::deserialize::<Vec<(String, String, String, u64, u64, String, bool)>>(bytes).ok().map(
        |v| v.into_iter().map(|(alias, feed_url, download_path, update_interval, cache_time,
            cache_content, is_locked)| Podcast { alias, feed_url, download_path, update_interval,
            cache_time, cache_content, is_locked }).collect(),
    )
}

/// The bytes to write to the storage file for a collection.
pub fn storage_bytes(podcasts: &Vec<Podcast>) -> (r: Vec<u8>)
    ensures
        r@ == encoded_storage(models(podcasts@)),
{
    serialize_podcasts(podcasts)
}

/// Reads a collection back from the storage file's bytes. Bytes that hold no
/// collection mean the storage is corrupted; bytes written for a collection
/// give that collection back.
pub fn get_storage(bytes: &[u8]) -> (r: Result<Vec<Podcast>, PodclawError>)
    ensures
        r is Err <==> decoded_storage(bytes@) is None,
        r is Err ==> r == Err::<Vec<Podcast>, PodclawError>(PodclawError::StorageCorrupted),
        r matches Ok(v) ==> decoded_storage(bytes@) == Some(models(v@)),
        forall|c: Seq<PodcastModel>|
            #[trigger] encoded_storage(c) == bytes@ ==> (r matches Ok(v) && models(v@) == c),
{
    match deserialize_podcasts(bytes) {
        Some(v) => Ok(v),
        None => Err(PodclawError::StorageCorrupted),
    }
}

/// The bytes that replace the storage file with an empty collection; refused
/// unless the caller confirms, since every subscription is lost.
pub fn repair_storage(confirmation: bool) -> (r: Result<Vec<u8>, PodclawError>)
    ensures
        !confirmation ==> r == Err::<Vec<u8>, PodclawError>(PodclawError::NoConfirmation),
        confirmation ==> (r matches Ok(b) && b@ == encoded_storage(Seq::empty())),
{
    if confirmation {
        let empty: Vec<Podcast> = Vec::new();
        let b = storage_bytes(&empty);
        assert(models(empty@) =~= Seq::<PodcastModel>::empty());
        Ok(b)
    } else {
        Err(PodclawError::NoConfirmation)
    }
}

} // verus!
