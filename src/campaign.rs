use vstd::prelude::*;

use crate::error::ApiError;

verus! {

/// Cover image of a campaign that names none.
pub const DEFAULT_COVER_IMAGE: &'static str =
    "https://images.unsplash.com/photo-1488521787991-ed7bbaae773c?w=1200&q=80";

/// Category of a campaign that names none.
pub const DEFAULT_CATEGORY: &'static str = "OTHER";

/// Status of a newly created campaign.
pub const DRAFT_STATUS: &'static str = "DRAFT";

/// What `str::to_lowercase` makes of a string.
pub uninterp spec fn lower_of(s: Seq<char>) -> Seq<char>;

/// Whether `char::is_alphanumeric` holds of a character.
pub uninterp spec fn alphanumeric(c: char) -> bool;

/// Relies on str::to_lowercase: the lowercase form of `s`, which depends on
/// its characters alone.
#[verifier::external_body]
fn lowercase(s: &str) -> (r: String)
    ensures
        r@ == lower_of(s@),
{
    s.to_lowercase()
}

/// Relies on char::is_alphanumeric: whether `c` is alphabetic or numeric in
/// Unicode's sense, which depends on `c` alone.
#[verifier::external_body]
fn is_alphanumeric(c: char) -> (r: bool)
    ensures
        r == alphanumeric(c),
{
    c.is_alphanumeric()
}

/// What one character of a lowercased title becomes in its slug: a space
/// turns into a dash, quotes vanish, letters, digits and dashes stay, and
/// anything else is dropped.
pub open spec fn slug_char(c: char) -> Option<char> {
    if c == ' ' {
        Some('-')
    } else if c == '\'' || c == '"' {
        None
    } else if alphanumeric(c) || c == '-' {
        Some(c)
    } else {
        None
    }
}

pub open spec fn slug_of(s: Seq<char>) -> Seq<char>
    decreases s.len(),
{
    if s.len() == 0 {
        Seq::empty()
    } else {
        let rest = slug_of(s.drop_last());
        match slug_char(s.last()) {
            Some(c) => rest.push(c),
            None => rest,
        }
    }
}

/// The slug of an already lowercased title.
pub fn slug_from_lowercase(lowered: &str) -> (r: String)
    ensures
        r@ == slug_of(lowered@),
{
    let n = lowered.unicode_len();
    let mut out = String::new();
    let mut i: usize = 0;
    while i < n
        invariant
            n == lowered@.len(),
            i <= n,
            out@ == slug_of(lowered@.subrange(0, i as int)),
        decreases n - i,
    {
        let c = lowered.get_char(i);
        let prefix = Ghost(lowered@.subrange(0, i as int));
        let next = Ghost(lowered@.subrange(0, i as int + 1));
        assert(next@.drop_last() =~= prefix@);
        assert(next@.last() == c);
        if c == ' ' {
            out.append("-");
            proof {
                reveal_strlit("-");
                assert(out@ =~= slug_of(prefix@).push('-'));
            }
        } else if c == '\'' || c == '"' {
        } else if is_alphanumeric(c) || c == '-' {
            let one = lowered.substring_char(i, i + 1);
            out.append(one);
            assert(one@ =~= seq![c]);
            assert(out@ =~= slug_of(prefix@).push(c));
        }
        i = i + 1;
    }
    assert(lowered@.subrange(0, n as int) =~= lowered@);
    out
}

/// The URL slug of a campaign title: lowercased, spaces as dashes, and only
/// letters, digits and dashes kept.
pub fn slugify(title: &str) -> (r: String)
    ensures
        r@ == slug_of(lower_of(title@)),
{
    let lowered = lowercase(title);
    slug_from_lowercase(lowered.as_str())
}

/// The text fields of a campaign as submitted. Title and description are
/// required; the others may be absent.
#[derive(Debug)]
pub struct CampaignInput {
    pub title: Option<String>,
    pub description: Option<String>,
    pub story: Option<String>,
    pub cover_image: Option<String>,
    pub video_url: Option<String>,
    pub category: Option<String>,
    pub end_date: Option<String>,
}

/// The text fields of a campaign about to be stored.
#[derive(Debug)]
pub struct CampaignDraft {
    pub title: String,
    pub description: String,
    pub story: String,
    pub cover_image: String,
    pub video_url: Option<String>,
    pub category: String,
    pub end_date: Option<String>,
    pub slug: String,
    pub status: String,
}

pub open spec fn or_default(v: Option<String>, d: Seq<char>) -> Seq<char> {
    match v {
        Some(s) => s@,
        None => d,
    }
}

pub open spec fn opt_view(v: Option<String>) -> Option<Seq<char>> {
    match v {
        Some(s) => Some(s@),
        None => None,
    }
}

fn take_or(v: Option<String>, d: &str) -> (r: String)
    ensures
        r@ == or_default(v, d@),
{
    match v {
        Some(s) => s,
        None => d.to_owned(),
    }
}

/// The campaign about to be stored, or a validation error when the title or
/// the description is missing. The story falls back to the description, cover
/// image and category to their defaults, the slug comes from the title, and
/// the status is a draft.
pub fn campaign_draft(input: CampaignInput) -> (r: Result<CampaignDraft, ApiError>)
    ensures
        (input.title is None || input.description is None) ==> r == Err::<CampaignDraft, ApiError>(
            ApiError::ValidationError,
        ),
        (input.title is Some && input.description is Some) ==> (r matches Ok(d) && {
            &&& d.title@ == input.title->Some_0@
            &&& d.description@ == input.description->Some_0@
            &&& d.story@ == or_default(input.story, input.description->Some_0@)
            &&& d.cover_image@ == or_default(input.cover_image, DEFAULT_COVER_IMAGE@)
            &&& opt_view(d.video_url) == opt_view(input.video_url)
            &&& d.category@ == or_default(input.category, DEFAULT_CATEGORY@)
            &&& opt_view(d.end_date) == opt_view(input.end_date)
            &&& d.slug@ == slug_of(lower_of(input.title->Some_0@))
            &&& d.status@ == DRAFT_STATUS@
        }),
{
    let title = match input.title {
        Some(t) => t,
        None => return Err(ApiError::ValidationError),
    };
    let description = match input.description {
        Some(d) => d,
        None => return Err(ApiError::ValidationError),
    };
    let story = match input.story {
        Some(s) => s,
        None => description.clone(),
    };
    let slug = slugify(title.as_str());
    Ok(
        CampaignDraft {
            title,
            description,
            story,
            cover_image: take_or(input.cover_image, DEFAULT_COVER_IMAGE),
            video_url: input.video_url,
            category: take_or(input.category, DEFAULT_CATEGORY),
            end_date: input.end_date,
            slug,
            status: DRAFT_STATUS.to_owned(),
        },
    )
}

/// The text a campaign page shows for columns that may be empty.
#[derive(Debug)]
pub struct CampaignPageText {
    pub story: String,
    pub category: String,
    pub image_url: String,
}

/// Defaults of a stored campaign's page: the story falls back to the
/// description, and category and cover image to their defaults.
pub fn campaign_page_text(
    description: &str,
    story: Option<String>,
    category: Option<String>,
    cover_image: Option<String>,
) -> (r: CampaignPageText)
    ensures
        r.story@ == or_default(story, description@),
        r.category@ == or_default(category, DEFAULT_CATEGORY@),
        r.image_url@ == or_default(cover_image, DEFAULT_COVER_IMAGE@),
{
    CampaignPageText {
        story: take_or(story, description),
        category: take_or(category, DEFAULT_CATEGORY),
        image_url: take_or(cover_image, DEFAULT_COVER_IMAGE),
    }
}

} // verus!
