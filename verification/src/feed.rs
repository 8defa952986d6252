//! Podcast episodes, as listed by the items of a feed.

use vstd::prelude::*;

verus! {

/// One episode of a podcast.
#[derive(Debug, Clone)]
pub struct Episode {
    /// The episode's title.
    pub title: String,
    /// Where the episode's audio is to be had.
    pub url: String,
}

/// What a feed says of one of its items.
#[derive(Debug, Clone)]
pub struct FeedItem {
    /// The item's title, if it has one.
    pub title: Option<String>,
    /// The address of the item's enclosure, if it has one.
    pub enclosure_url: Option<String>,
}

/// Why the items of a feed do not make a list of episodes.
#[derive(Debug, Clone, Copy, PartialEq, Eq, Structural)]
pub enum FeedError {
    /// The item at this position has no title.
    TitleNotSet { item: usize },
    /// The item at this position has a title but no enclosure.
    EnclosureNotSet { item: usize },
}

/// The item is an episode: it has a title and an enclosure.
pub open spec fn is_episode(item: FeedItem) -> bool {
    item.title is Some && item.enclosure_url is Some
}

/// The episode lists the title and the enclosure of the item.
pub open spec fn lists(episode: Episode, item: FeedItem) -> bool {
    &&& item.title matches Some(title) && episode.title@ == title@
    &&& item.enclosure_url matches Some(url) && episode.url@ == url@
}

/// `error` names the first item that is no episode, and what it lacks.
pub open spec fn first_defect(items: Seq<FeedItem>, error: FeedError) -> bool {
    match error {
        FeedError::TitleNotSet { item } => {
            &&& item < items.len()
            &&& items[item as int].title is None
            &&& forall|j: int| 0 <= j < item ==> is_episode(#[trigger] items[j])
        },
        FeedError::EnclosureNotSet { item } => {
            &&& item < items.len()
            &&& items[item as int].title is Some
            &&& items[item as int].enclosure_url is None
            &&& forall|j: int| 0 <= j < item ==> is_episode(#[trigger] items[j])
        },
    }
}

/// Turns the items of a feed into episodes, one for one and in order. Fails
/// at the first item that lacks a title or an enclosure.
pub fn collect_episodes(items: &[FeedItem]) -> (episodes: Result<Vec<Episode>, FeedError>)
    ensures
        episodes is Ok <==> (forall|i: int|
            0 <= i < items@.len() ==> is_episode(#[trigger] items@[i])),
        episodes matches Ok(list) ==> list@.len() == items@.len() && forall|i: int|
            0 <= i < items@.len() ==> lists(#[trigger] list@[i], items@[i]),
        episodes matches Err(error) ==> first_defect(items@, error),
{
    let mut list: Vec<Episode> = Vec::new();
    let mut i: usize = 0;
    while i < items.len()
        invariant
            0 <= i <= items@.len(),
            list@.len() == i,
            forall|j: int| 0 <= j < i ==> is_episode(#[trigger] items@[j]),
            forall|j: int| 0 <= j < i ==> lists(#[trigger] list@[j], items@[j]),
        decreases items@.len() - i,
    {
        let item = &items[i];
        let title = match &item.title {
            Some(title) => title.clone(),
            None => {
                assert(!is_episode(items@[i as int]));
                return Err(FeedError::TitleNotSet { item: i });
            },
        };
        let url = match &item.enclosure_url {
            Some(url) => url.clone(),
            None => {
                assert(!is_episode(items@[i as int]));
                return Err(FeedError::EnclosureNotSet { item: i });
            },
        };
        list.push(Episode { title, url });
        i += 1;
    }
    Ok(list)
}

} // verus!
