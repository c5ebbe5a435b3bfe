use vstd::prelude::*;

use crate::text::str_eq;

verus! {

/// Episode count shown for every listed podcast.
pub const EPISODE_COUNT: i32 = 5;

/// Running time shown for every listed podcast.
pub const TOTAL_DURATION: &'static str = "2h 30m";

/// Titles of the podcasts listed for a creator: none without a creator, a
/// fixed set for each known creator, and a general set for anyone else.
pub open spec fn catalogue_titles(creator: Seq<char>) -> Seq<Seq<char>> {
    if creator.len() == 0 {
        seq![]
    } else if creator == "user1"@ {
        seq!["Rust Programming Deep Dive"@, "Web Development Tips"@, "System Design Patterns"@]
    } else if creator == "user2"@ {
        seq!["JavaScript Mastery"@, "React Best Practices"@, "Node.js Performance"@]
    } else {
        seq!["General Tech Talk"@, "Industry Insights"@]
    }
}

/// A listed podcast, without the id and timestamps that storage assigns.
#[derive(Debug)]
pub struct PodcastEntry {
    pub title: String,
    pub description: String,
    pub creator_id: String,
    pub episode_count: i32,
    pub total_duration: String,
}

pub open spec fn describes(e: PodcastEntry, title: Seq<char>, creator: Seq<char>) -> bool {
    &&& e.title@ == title
    &&& e.description@ == "A podcast episode about "@ + title
    &&& e.creator_id@ == creator
    &&& e.episode_count == EPISODE_COUNT
    &&& e.total_duration@ == TOTAL_DURATION@
}

fn entry(title: &str, creator_id: &str) -> (r: PodcastEntry)
    ensures
        describes(r, title@, creator_id@),
{
    let description = "A podcast episode about ".to_owned().concat(title);
    PodcastEntry {
        title: title.to_owned(),
        description,
        creator_id: creator_id.to_owned(),
        episode_count: EPISODE_COUNT,
        total_duration: TOTAL_DURATION.to_owned(),
    }
}

/// The podcasts listed for `creator_id`, one per catalogue title, in order.
pub fn podcasts_for(creator_id: &str) -> (r: Vec<PodcastEntry>)
    ensures
        r@.len() == catalogue_titles(creator_id@).len(),
        forall|i: int|
            0 <= i < r@.len() ==> describes(
                #[trigger] r@[i],
                catalogue_titles(creator_id@)[i],
                creator_id@,
            ),
{
    let mut out: Vec<PodcastEntry> = Vec::new();
    if creator_id.unicode_len() == 0 {
        return out;
    }
    if str_eq(creator_id, "user1") {
        out.push(entry("Rust Programming Deep Dive", creator_id));
        out.push(entry("Web Development Tips", creator_id));
        out.push(entry("System Design Patterns", creator_id));
    } else if str_eq(creator_id, "user2") {
        out.push(entry("JavaScript Mastery", creator_id));
        out.push(entry("React Best Practices", creator_id));
        out.push(entry("Node.js Performance", creator_id));
    } else {
        out.push(entry("General Tech Talk", creator_id));
        out.push(entry("Industry Insights", creator_id));
    }
    out
}

} // verus!
