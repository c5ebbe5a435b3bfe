use funify_backend::error::ApiError;
use funify_backend::pagination::{
    counted_page_window, counted_pagination, fetched_pagination, page_window, PageWindow,
};
use funify_backend::podcast::podcasts_for;
use funify_backend::queries::{
    ArticleQuery, CampaignQuery, CreatorQuery, EventListing, EventQuery, PodcastQuery, PostQuery,
    ProductQuery,
};

#[test]
fn campaigns_page_reports_fetched_rows() {
    let q = CampaignQuery { page: Some(1), limit: Some(2) };
    let w = q.window().unwrap();
    assert_eq!(w.offset(), 0);
    // Five stored campaigns; the listing fetches `limit` rows from `offset`.
    let stored = vec!["c1", "c2", "c3", "c4", "c5"];
    let fetched: Vec<&str> = stored
        .iter()
        .skip(w.offset() as usize)
        .take(w.limit as usize)
        .cloned()
        .collect();
    assert_eq!(fetched, vec!["c1", "c2"]);
    let p = fetched_pagination(w, fetched.len());
    assert_eq!(p.page, 1);
    assert_eq!(p.limit, 2);
    assert_eq!(p.total, 2);
    assert_eq!(p.pages, 1);
}

#[test]
fn default_windows() {
    let w = CampaignQuery { page: None, limit: None }.window().unwrap();
    assert_eq!(w, PageWindow { page: 1, limit: 12 });
    let w = EventQuery { upcoming: None, page: None, limit: None, host_id: None }
        .window()
        .unwrap();
    assert_eq!(w.limit, 12);
    let w = ArticleQuery { page: None, limit: None, author_id: None }.window().unwrap();
    assert_eq!(w.limit, 20);
    let w = PodcastQuery { page: Some(3), limit: None, creator_id: None }.window().unwrap();
    assert_eq!(w, PageWindow { page: 3, limit: 20 });
    assert_eq!(w.offset(), 40);
}

#[test]
fn malformed_windows_are_validation_errors() {
    assert_eq!(page_window(Some(0), None, 20), Err(ApiError::ValidationError));
    assert_eq!(counted_page_window(None, Some(0), 20), Err(ApiError::ValidationError));
    assert_eq!(counted_page_window(Some(0), None, 20), Err(ApiError::ValidationError));
    assert_eq!(counted_page_window(None, None, 20), Ok(PageWindow { page: 1, limit: 20 }));
    assert_eq!(
        page_window(Some(u32::MAX), Some(2), 20),
        Err(ApiError::ValidationError)
    );
    assert_eq!(
        page_window(Some(2), Some(u32::MAX), 20),
        Ok(PageWindow { page: 2, limit: u32::MAX })
    );
    assert_eq!(ApiError::ValidationError.status_code(), 400);
}

#[test]
fn counted_pages_round_up() {
    let w = PageWindow { page: 2, limit: 20 };
    assert_eq!(counted_pagination(w, 0).pages, 0);
    assert_eq!(counted_pagination(w, 1).pages, 1);
    assert_eq!(counted_pagination(w, 20).pages, 1);
    assert_eq!(counted_pagination(w, 21).pages, 2);
    let p = counted_pagination(w, 45);
    assert_eq!((p.page, p.limit, p.total, p.pages), (2, 20, 45, 3));
    let one = PageWindow { page: 1, limit: 1 };
    assert_eq!(counted_pagination(one, usize::MAX).pages, u32::MAX);
}

#[test]
fn creator_window_caps_limit() {
    assert_eq!(CreatorQuery { limit: None, offset: None }.window(), (20, 0));
    assert_eq!(CreatorQuery { limit: Some(500), offset: Some(5) }.window(), (100, 5));
    assert_eq!(CreatorQuery { limit: Some(7), offset: None }.window(), (7, 0));
}

#[test]
fn events_list_all_by_default() {
    let q = EventQuery { upcoming: None, page: None, limit: None, host_id: None };
    assert!(!q.upcoming_only());
    let q = EventQuery { upcoming: Some(true), page: None, limit: None, host_id: None };
    assert!(q.upcoming_only());
}

#[test]
fn podcasts_follow_the_catalogue() {
    assert!(podcasts_for("").is_empty());
    let u1 = podcasts_for("user1");
    let titles: Vec<&str> = u1.iter().map(|p| p.title.as_str()).collect();
    assert_eq!(
        titles,
        vec!["Rust Programming Deep Dive", "Web Development Tips", "System Design Patterns"]
    );
    assert_eq!(u1[0].description, "A podcast episode about Rust Programming Deep Dive");
    assert_eq!(u1[1].creator_id, "user1");
    assert_eq!(u1[2].episode_count, 5);
    assert_eq!(u1[2].total_duration, "2h 30m");
    assert_eq!(podcasts_for("user2")[2].title, "Node.js Performance");
    let other = podcasts_for("zed");
    assert_eq!(other.len(), 2);
    assert_eq!(other[1].title, "Industry Insights");
    assert_eq!(other[1].creator_id, "zed");
}

#[test]
fn product_owner_filter_prefers_creator_id() {
    let q = ProductQuery {
        page: None,
        limit: None,
        user_id: Some("u".to_string()),
        creator_id: Some("c".to_string()),
    };
    assert_eq!(q.window().unwrap(), PageWindow { page: 1, limit: 20 });
    assert_eq!(q.owner_filter(), Some("c".to_string()));
    let q = ProductQuery { page: None, limit: None, user_id: Some("u".to_string()), creator_id: None };
    assert_eq!(q.owner_filter(), Some("u".to_string()));
    let q = ProductQuery { page: None, limit: None, user_id: None, creator_id: None };
    assert_eq!(q.owner_filter(), None);
}

#[test]
fn post_window_defaults_to_twenty() {
    let q = PostQuery { page: Some(2), limit: None, user_id: None };
    let w = q.window().unwrap();
    assert_eq!(w, PageWindow { page: 2, limit: 20 });
    assert_eq!(w.offset(), 20);
}

#[test]
fn limit_zero_lists_an_empty_page() {
    let w = CampaignQuery { page: Some(3), limit: Some(0) }.window().unwrap();
    assert_eq!(w, PageWindow { page: 3, limit: 0 });
    assert_eq!(w.offset(), 0);
    let p = fetched_pagination(w, 0);
    assert_eq!((p.page, p.limit, p.total, p.pages), (3, 0, 0, 1));
    assert!(EventQuery { upcoming: None, page: None, limit: Some(0), host_id: None }
        .window()
        .is_ok());
    assert!(ArticleQuery { page: None, limit: Some(0), author_id: None }.window().is_ok());
    assert_eq!(
        PostQuery { page: None, limit: Some(0), user_id: None }.window(),
        Err(ApiError::ValidationError)
    );
}

#[test]
fn event_listing_choice() {
    let q = |h: Option<&str>, u: Option<bool>| EventQuery {
        upcoming: u,
        page: None,
        limit: None,
        host_id: h.map(String::from),
    };
    assert_eq!(q(Some("h"), Some(true)).listing(), EventListing::HostUpcoming);
    assert_eq!(q(Some("h"), None).listing(), EventListing::HostAll);
    assert_eq!(q(None, Some(true)).listing(), EventListing::Upcoming);
    assert_eq!(q(None, Some(false)).listing(), EventListing::All);
}
