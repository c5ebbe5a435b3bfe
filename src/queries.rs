use vstd::prelude::*;

use crate::error::ApiError;
use crate::pagination::{
    counted_page_window, counted_window_result, page_window, window_result, PageWindow,
};

verus! {

/// Page size of the campaign and event listings when none is asked for.
pub const SHORT_PAGE: u32 = 12;

/// Page size of the other listings when none is asked for.
pub const LONG_PAGE: u32 = 20;

/// Page size of the creator listing when none is asked for.
pub const CREATOR_PAGE: i64 = 20;

/// Largest page of the creator listing.
pub const CREATOR_PAGE_MAX: i64 = 100;

/// Query of the article listing.
#[derive(Debug)]
pub struct ArticleQuery {
    pub page: Option<u32>,
    pub limit: Option<u32>,
    pub author_id: Option<String>,
}

impl ArticleQuery {
    pub fn window(&self) -> (r: Result<PageWindow, ApiError>)
        ensures
            r == window_result(self.page, self.limit, LONG_PAGE),
    {
        page_window(self.page, self.limit, LONG_PAGE)
    }
}

/// Query of the campaign listing.
#[derive(Debug)]
pub struct CampaignQuery {
    pub page: Option<u32>,
    pub limit: Option<u32>,
}

impl CampaignQuery {
    pub fn window(&self) -> (r: Result<PageWindow, ApiError>)
        ensures
            r == window_result(self.page, self.limit, SHORT_PAGE),
    {
        page_window(self.page, self.limit, SHORT_PAGE)
    }
}

/// Which events a listing holds, and in what order.
#[derive(Debug, Clone, Copy, PartialEq, Eq, Structural)]
pub enum EventListing {
    /// One host's events that have not started, soonest first.
    HostUpcoming,
    /// All of one host's events, latest start first.
    HostAll,
    /// Events that have not started, soonest first.
    Upcoming,
    /// All events, latest start first.
    All,
}

pub open spec fn event_listing(by_host: bool, upcoming: bool) -> EventListing {
    if by_host {
        if upcoming {
            EventListing::HostUpcoming
        } else {
            EventListing::HostAll
        }
    } else if upcoming {
        EventListing::Upcoming
    } else {
        EventListing::All
    }
}

/// Query of the event listing.
#[derive(Debug)]
pub struct EventQuery {
    pub upcoming: Option<bool>,
    pub page: Option<u32>,
    pub limit: Option<u32>,
    pub host_id: Option<String>,
}

impl EventQuery {
    pub fn window(&self) -> (r: Result<PageWindow, ApiError>)
        ensures
            r == window_result(self.page, self.limit, SHORT_PAGE),
    {
        page_window(self.page, self.limit, SHORT_PAGE)
    }

    /// The listing asked for: narrowed to a host when `hostId` is given, and to
    /// events that have not started when `upcoming` is set.
    pub fn listing(&self) -> (r: EventListing)
        ensures
            r == event_listing(
                self.host_id is Some,
                match self.upcoming {
                    Some(b) => b,
                    None => false,
                },
            ),
    {
        let upcoming = self.upcoming_only();
        match self.host_id {
            Some(_) => if upcoming {
                EventListing::HostUpcoming
            } else {
                EventListing::HostAll
            },
            None => if upcoming {
                EventListing::Upcoming
            } else {
                EventListing::All
            },
        }
    }

    /// Whether only events that have not started are listed; by default all are.
    pub fn upcoming_only(&self) -> (r: bool)
        ensures
            r == match self.upcoming {
                Some(b) => b,
                None => false,
            },
    {
        match self.upcoming {
            Some(b) => b,
            None => false,
        }
    }
}

/// Query of the podcast listing.
#[derive(Debug)]
pub struct PodcastQuery {
    pub page: Option<u32>,
    pub limit: Option<u32>,
    pub creator_id: Option<String>,
}

impl PodcastQuery {
    pub fn window(&self) -> (r: Result<PageWindow, ApiError>)
        ensures
            r == window_result(self.page, self.limit, LONG_PAGE),
    {
        page_window(self.page, self.limit, LONG_PAGE)
    }
}

/// Query of the post listing; `user_id` is the owner's id as text.
#[derive(Debug)]
pub struct PostQuery {
    pub page: Option<u32>,
    pub limit: Option<u32>,
    pub user_id: Option<String>,
}

impl PostQuery {
    pub fn window(&self) -> (r: Result<PageWindow, ApiError>)
        ensures
            r == counted_window_result(self.page, self.limit, LONG_PAGE),
    {
        counted_page_window(self.page, self.limit, LONG_PAGE)
    }
}

/// Query of the product listing. Products can be narrowed to one owner by
/// `creatorId` or by `user_id`.
#[derive(Debug)]
pub struct ProductQuery {
    pub page: Option<u32>,
    pub limit: Option<u32>,
    pub user_id: Option<String>,
    pub creator_id: Option<String>,
}

pub open spec fn text_option(v: Option<String>) -> Option<Seq<char>> {
    match v {
        Some(s) => Some(s@),
        None => None,
    }
}

impl ProductQuery {
    pub fn window(&self) -> (r: Result<PageWindow, ApiError>)
        ensures
            r == window_result(self.page, self.limit, LONG_PAGE),
    {
        page_window(self.page, self.limit, LONG_PAGE)
    }

    /// The owner whose products are listed, if any: `creatorId` wins over `user_id`.
    pub fn owner_filter(self) -> (r: Option<String>)
        ensures
            text_option(r) == if self.creator_id is Some {
                text_option(self.creator_id)
            } else {
                text_option(self.user_id)
            },
    {
        match self.creator_id {
            Some(c) => Some(c),
            None => self.user_id,
        }
    }
}

/// Query of the creator listing, by row offset rather than page.
#[derive(Debug)]
pub struct CreatorQuery {
    pub limit: Option<i64>,
    pub offset: Option<i64>,
}

impl CreatorQuery {
    /// `(limit, offset)` of the listing: 20 rows from the first by default,
    /// and never more than 100 rows.
    pub fn window(&self) -> (r: (i64, i64))
        ensures
            r.0 == (match self.limit {
                Some(l) => if l < CREATOR_PAGE_MAX {
                    l
                } else {
                    CREATOR_PAGE_MAX
                },
                None => CREATOR_PAGE,
            }),
            r.1 == (match self.offset {
                Some(o) => o,
                None => 0,
            }),
    {
        let limit = match self.limit {
            Some(l) => if l < CREATOR_PAGE_MAX {
                l
            } else {
                CREATOR_PAGE_MAX
            },
            None => CREATOR_PAGE,
        };
        let offset = match self.offset {
            Some(o) => o,
            None => 0,
        };
        (limit, offset)
    }
}

} // verus!
