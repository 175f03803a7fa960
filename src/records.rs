use vstd::prelude::*;

verus! {

/// Positional markers of a cursor-addressed window. They are informational:
/// traversal follows the window's `next` link, never these.
#[derive(Clone, Debug, PartialEq, Eq)]
pub struct Cursor {
    pub after: Option<String>,
    pub before: Option<String>,
}

/// One cursor-addressed window of a list result.
#[derive(Clone, Debug)]
pub struct CursorPage<T> {
    /// Location of this window.
    pub href: String,
    /// Largest number of items a window holds.
    pub limit: u32,
    /// Location of the following window, with the cursor already in it.
    pub next: Option<String>,
    /// The markers around this window.
    pub cursors: Cursor,
    /// Number of items in the whole list, when the server reports it.
    pub total: Option<u32>,
    /// The items of this window, in the order served.
    pub items: Vec<T>,
}

impl<T> CursorPage<T> {
    /// Whether this is the last window of its chain. Only the absence of a
    /// `next` link ends a chain: the cursors are not consulted.
    pub fn is_last(&self) -> (r: bool)
        ensures
            r == (self.next is None),
    {
        self.next.is_none()
    }
}

/// A picture at some location, with its size when known.
#[derive(Clone, Debug, PartialEq, Eq)]
pub struct Image {
    pub url: String,
    pub height: Option<u32>,
    pub width: Option<u32>,
}

/// A rights statement.
#[derive(Clone, Debug, PartialEq, Eq)]
pub struct Copyright {
    pub text: String,
    pub kind: CopyrightType,
}

/// Why content is not available.
#[derive(Clone, Debug, PartialEq, Eq)]
pub struct Restrictions {
    pub reason: RestrictionReason,
}

/// Identifiers of a release in outside catalogues.
#[derive(Clone, Debug, PartialEq, Eq)]
pub struct ExternalIds {
    pub isrc: Option<String>,
    pub ean: Option<String>,
    pub upc: Option<String>,
}

/// Locations of an entity outside the API.
#[derive(Clone, Debug, PartialEq, Eq)]
pub struct ExternalUrls {
    pub spotify: String,
}

/// Follower count of an entity.
#[derive(Clone, Debug, PartialEq, Eq)]
pub struct Followers {
    /// Always absent: the service does not provide it.
    pub href: Option<String>,
    pub total: u32,
}

/// How far a listener got in an item.
#[derive(Clone, Copy, Debug, PartialEq, Eq)]
pub struct ResumePoint {
    pub fully_played: bool,
    pub resume_position_ms: u32,
}

/// The reason given for a restriction. Values outside the known set are kept
/// as `Unknown` rather than rejected.
#[derive(Clone, Copy, Debug, PartialEq, Eq, Structural)]
pub enum RestrictionReason {
    Market,
    Product,
    Explicit,
    Unknown,
}

/// The kind of a rights statement.
#[derive(Clone, Copy, Debug, PartialEq, Eq, Structural)]
pub enum CopyrightType {
    /// The copyright, written `C` on the wire.
    Copyright,
    /// The sound recording (performance) copyright, written `P` on the wire.
    Performance,
}

/// How much of a release date is known.
#[derive(Clone, Copy, Debug, PartialEq, Eq, Structural)]
pub enum DatePrecision {
    Year,
    Month,
    Day,
}

/// An item that may be either of two shapes, such as a track or an episode.
#[derive(Clone, Debug, PartialEq, Eq)]
pub enum PlayableItem<Tr, Ep> {
    Track(Tr),
    Episode(Ep),
}

/// The restriction reason that a wire value denotes.
pub open spec fn restriction_reason_of(s: Seq<char>) -> RestrictionReason {
    if s == "market"@ {
        RestrictionReason::Market
    } else if s == "product"@ {
        RestrictionReason::Product
    } else if s == "explicit"@ {
        RestrictionReason::Explicit
    } else {
        RestrictionReason::Unknown
    }
}

/// The kind of rights statement that a wire value denotes, if any.
pub open spec fn copyright_type_of(s: Seq<char>) -> Option<CopyrightType> {
    if s == "C"@ {
        Some(CopyrightType::Copyright)
    } else if s == "P"@ {
        Some(CopyrightType::Performance)
    } else {
        None
    }
}

/// The date precision that a wire value denotes, if any.
pub open spec fn date_precision_of(s: Seq<char>) -> Option<DatePrecision> {
    if s == "year"@ {
        Some(DatePrecision::Year)
    } else if s == "month"@ {
        Some(DatePrecision::Month)
    } else if s == "day"@ {
        Some(DatePrecision::Day)
    } else {
        None
    }
}

fn same_text(a: &str, b: &str) -> (r: bool)
    ensures
        r == (a@ == b@),
{
    let a = a.to_owned();
    let b = b.to_owned();
    a == b
}

impl RestrictionReason {
    /// Reads a restriction reason from its wire value; any value outside the
    /// known set is `Unknown`.
    pub fn from_wire(s: &str) -> (r: RestrictionReason)
        ensures
            r == restriction_reason_of(s@),
    {
        if same_text(s, "market") {
            RestrictionReason::Market
        } else if same_text(s, "product") {
            RestrictionReason::Product
        } else if same_text(s, "explicit") {
            RestrictionReason::Explicit
        } else {
            RestrictionReason::Unknown
        }
    }
}

impl CopyrightType {
    /// Reads the kind of a rights statement from its wire value; `None` for an
    /// unknown value.
    pub fn from_wire(s: &str) -> (r: Option<CopyrightType>)
        ensures
            r == copyright_type_of(s@),
    {
        if same_text(s, "C") {
            Some(CopyrightType::Copyright)
        } else if same_text(s, "P") {
            Some(CopyrightType::Performance)
        } else {
            None
        }
    }
}

impl DatePrecision {
    /// Reads a date precision from its wire value; `None` for an unknown value.
    pub fn from_wire(s: &str) -> (r: Option<DatePrecision>)
        ensures
            r == date_precision_of(s@),
    {
        if same_text(s, "year") {
            Some(DatePrecision::Year)
        } else if same_text(s, "month") {
            Some(DatePrecision::Month)
        } else if same_text(s, "day") {
            Some(DatePrecision::Day)
        } else {
            None
        }
    }
}

/// A reason value outside the known set is kept as `Unknown`, never rejected.
pub proof fn lemma_unknown_reason_tolerated(s: Seq<char>)
    requires
        s != "market"@,
        s != "product"@,
        s != "explicit"@,
    ensures
        restriction_reason_of(s) == RestrictionReason::Unknown,
{
}

} // verus!
