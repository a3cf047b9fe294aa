//! The query model: in which order the feed lists its posts, and for which
//! time span.

use crate::configuration::Configuration;
use crate::configuration::ConfigurationView;
use crate::text::decimal;
use crate::text::lowercase;
use crate::text::optional_lowercase;
use crate::text::push_decimal;
use crate::text::same_text;
use crate::text::slice_view;
use vstd::prelude::*;

verus! {

/// The time span that qualifies the modes `Top` and `Controversial`.
#[derive(Debug, Copy, Clone, PartialEq, Eq, Structural)]
pub enum Span {
    Hour,
    Day,
    Week,
    Month,
    Year,
    All,
}

/// The order in which the feed lists its posts.
#[derive(Debug, Copy, Clone, PartialEq, Eq, Structural)]
pub enum Mode {
    New,
    Hot,
    Rising,
    Controversial(Span),
    Top(Span),
}

/// Why a mode and a span do not make a query.
#[derive(Debug, PartialEq, Eq)]
pub enum InvalidQuery {
    /// The mode needs a span and none was given.
    SpanRequired,
    /// The span is none of the known ones.
    SpanInvalid,
    /// The mode, given here in lowercase, is none of the known ones.
    UnsupportedMode(String),
}

/// The mathematical value of an `InvalidQuery`.
pub ghost enum QueryFault {
    SpanRequired,
    SpanInvalid,
    UnsupportedMode(Seq<char>),
}

impl View for InvalidQuery {
    type V = QueryFault;

    open spec fn view(&self) -> QueryFault {
        match self {
            InvalidQuery::SpanRequired => QueryFault::SpanRequired,
            InvalidQuery::SpanInvalid => QueryFault::SpanInvalid,
            InvalidQuery::UnsupportedMode(mode) => QueryFault::UnsupportedMode(mode@),
        }
    }
}

/// The mathematical value of the outcome of reading a mode.
pub open spec fn outcome(r: Result<Mode, InvalidQuery>) -> Result<Mode, QueryFault> {
    match r {
        Ok(mode) => Ok(mode),
        Err(fault) => Err(fault@),
    }
}

impl QueryFault {
    /// The text that tells a user of this fault.
    pub open spec fn message(self) -> Seq<char> {
        match self {
            QueryFault::SpanRequired => "-span required"@,
            QueryFault::SpanInvalid => "--span invalid"@,
            QueryFault::UnsupportedMode(mode) => "Unsupported mode '"@ + mode + "'"@,
        }
    }
}

impl InvalidQuery {
    /// The text that tells a user of this fault.
    pub fn message(&self) -> (text: String)
        ensures
            text@ == self@.message(),
    {
        match self {
            InvalidQuery::SpanRequired => "-span required".to_owned(),
            InvalidQuery::SpanInvalid => "--span invalid".to_owned(),
            InvalidQuery::UnsupportedMode(mode) => {
                let mut text = "Unsupported mode '".to_owned();
                text.append(mode.as_str());
                text.append("'");
                text
            },
        }
    }
}

impl Span {
    /// The keyword of this span in a request path.
    pub open spec fn keyword(self) -> Seq<char> {
        match self {
            Span::Hour => "hour"@,
            Span::Day => "day"@,
            Span::Week => "week"@,
            Span::Month => "month"@,
            Span::Year => "year"@,
            Span::All => "all"@,
        }
    }

    /// The span that a lowercase keyword stands for, if any. Some spans have a
    /// second spelling.
    pub open spec fn parsed(keyword: Seq<char>) -> Option<Span> {
        if keyword == "hour"@ {
            Some(Span::Hour)
        } else if keyword == "day"@ || keyword == "24h"@ {
            Some(Span::Day)
        } else if keyword == "week"@ || keyword == "7d"@ {
            Some(Span::Week)
        } else if keyword == "month"@ {
            Some(Span::Month)
        } else if keyword == "year"@ || keyword == "356d"@ {
            Some(Span::Year)
        } else if keyword == "all"@ || keyword == "ever"@ {
            Some(Span::All)
        } else {
            None
        }
    }

    /// The keyword of this span in a request path.
    pub fn identifier(&self) -> (id: &'static str)
        ensures
            id@ == self.keyword(),
    {
        match self {
            Span::Hour => "hour",
            Span::Day => "day",
            Span::Week => "week",
            Span::Month => "month",
            Span::Year => "year",
            Span::All => "all",
        }
    }

    /// Reads a span from a keyword that is already in lowercase.
    pub fn from_keyword(keyword: &str) -> (span: Option<Span>)
        ensures
            span == Span::parsed(keyword@),
    {
        if same_text(keyword, "hour") {
            Some(Span::Hour)
        } else if same_text(keyword, "day") || same_text(keyword, "24h") {
            Some(Span::Day)
        } else if same_text(keyword, "week") || same_text(keyword, "7d") {
            Some(Span::Week)
        } else if same_text(keyword, "month") {
            Some(Span::Month)
        } else if same_text(keyword, "year") || same_text(keyword, "356d") {
            Some(Span::Year)
        } else if same_text(keyword, "all") || same_text(keyword, "ever") {
            Some(Span::All)
        } else {
            None
        }
    }

    /// Reads a span from a keyword in any letter case.
    pub fn from_identifier(id: &str) -> (span: Option<Span>)
        ensures
            span == Span::parsed(lowercase(id@)),
    {
        let keyword = id.to_lowercase();
        Span::from_keyword(keyword.as_str())
    }
}

impl Mode {
    /// The keyword of this mode in a request path.
    pub open spec fn keyword(self) -> Seq<char> {
        match self {
            Mode::New => "new"@,
            Mode::Hot => "hot"@,
            Mode::Rising => "rising"@,
            Mode::Controversial(_) => "controversial"@,
            Mode::Top(_) => "top"@,
        }
    }

    /// The span that qualifies this mode, if it has one.
    pub open spec fn span(self) -> Option<Span> {
        match self {
            Mode::Controversial(span) | Mode::Top(span) => Some(span),
            _ => None,
        }
    }

    /// What a span keyword, if given, makes of a mode that needs one.
    pub open spec fn required_span(span: Option<Seq<char>>) -> Result<Span, QueryFault> {
        match span {
            None => Err(QueryFault::SpanRequired),
            Some(keyword) => match Span::parsed(keyword) {
                None => Err(QueryFault::SpanInvalid),
                Some(span) => Ok(span),
            },
        }
    }

    /// The mode that lowercase keywords for mode and span stand for. The span
    /// is read only where the mode needs one.
    pub open spec fn parsed(keyword: Seq<char>, span: Option<Seq<char>>) -> Result<
        Mode,
        QueryFault,
    > {
        if keyword == "new"@ {
            Ok(Mode::New)
        } else if keyword == "hot"@ {
            Ok(Mode::Hot)
        } else if keyword == "rising"@ {
            Ok(Mode::Rising)
        } else if keyword == "controversial"@ {
            match Mode::required_span(span) {
                Ok(span) => Ok(Mode::Controversial(span)),
                Err(fault) => Err(fault),
            }
        } else if keyword == "top"@ {
            match Mode::required_span(span) {
                Ok(span) => Ok(Mode::Top(span)),
                Err(fault) => Err(fault),
            }
        } else {
            Err(QueryFault::UnsupportedMode(keyword))
        }
    }

    /// The keyword of this mode in a request path.
    pub fn identifier(&self) -> (id: &'static str)
        ensures
            id@ == self.keyword(),
    {
        match self {
            Mode::New => "new",
            Mode::Hot => "hot",
            Mode::Rising => "rising",
            Mode::Controversial(_) => "controversial",
            Mode::Top(_) => "top",
        }
    }

    fn span_from_keyword(span: Option<&str>) -> (r: Result<Span, InvalidQuery>)
        ensures
            match r {
                Ok(found) => Mode::required_span(slice_view(span)) == Ok::<Span, QueryFault>(
                    found,
                ),
                Err(fault) => Mode::required_span(slice_view(span)) == Err::<Span, QueryFault>(
                    fault@,
                ),
            },
    {
        match span {
            None => Err(InvalidQuery::SpanRequired),
            Some(keyword) => match Span::from_keyword(keyword) {
                None => Err(InvalidQuery::SpanInvalid),
                Some(span) => Ok(span),
            },
        }
    }

    /// Reads a mode from keywords that are already in lowercase.
    pub fn from_keywords(keyword: &str, span: Option<&str>) -> (r: Result<Mode, InvalidQuery>)
        ensures
            outcome(r) == Mode::parsed(keyword@, slice_view(span)),
    {
        if same_text(keyword, "new") {
            Ok(Mode::New)
        } else if same_text(keyword, "hot") {
            Ok(Mode::Hot)
        } else if same_text(keyword, "rising") {
            Ok(Mode::Rising)
        } else if same_text(keyword, "controversial") {
            match Mode::span_from_keyword(span) {
                Ok(span) => Ok(Mode::Controversial(span)),
                Err(fault) => Err(fault),
            }
        } else if same_text(keyword, "top") {
            match Mode::span_from_keyword(span) {
                Ok(span) => Ok(Mode::Top(span)),
                Err(fault) => Err(fault),
            }
        } else {
            Err(InvalidQuery::UnsupportedMode(keyword.to_owned()))
        }
    }

    /// Reads a mode from keywords in any letter case. `Top` and
    /// `Controversial` need a span; the other modes ignore it.
    pub fn from_identifier(id: &str, span: Option<&str>) -> (r: Result<Mode, InvalidQuery>)
        ensures
            outcome(r) == Mode::parsed(lowercase(id@), optional_lowercase(slice_view(span))),
    {
        let keyword = id.to_lowercase();
        match span {
            None => Mode::from_keywords(keyword.as_str(), None),
            Some(span) => {
                let span_keyword = span.to_lowercase();
                Mode::from_keywords(keyword.as_str(), Some(span_keyword.as_str()))
            },
        }
    }
}

/// The address at which the feed answers the query of a configuration: the
/// feed, the mode and the number of posts, and the span where the mode has one.
pub open spec fn url_of(config: ConfigurationView) -> Seq<char> {
    "https://www.reddit.com/r/"@ + config.subreddit + "/"@ + config.mode.keyword()
        + ".json?limit="@ + decimal(config.query_size as nat) + match config.mode.span() {
        Some(span) => "&t="@ + span.keyword(),
        None => Seq::empty(),
    }
}

/// The address at which the feed answers the query of the configuration.
pub fn create_url(config: &Configuration) -> (url: String)
    ensures
        url@ == url_of(config@),
{
    let mut url = "https://www.reddit.com/r/".to_owned();
    url.append(config.subreddit.as_str());
    url.append("/");
    url.append(config.mode.identifier());
    url.append(".json?limit=");
    push_decimal(&mut url, config.query_size as u64);
    match config.mode {
        Mode::Controversial(span) | Mode::Top(span) => {
            url.append("&t=");
            url.append(span.identifier());
        },
        _ => {},
    }
    url
}

/// The keywords of the modes that need a span differ from those of the modes
/// that need none.
proof fn lemma_mode_keywords_differ()
    ensures
        "top"@ != "new"@,
        "top"@ != "hot"@,
        "top"@ != "rising"@,
        "top"@ != "controversial"@,
        "controversial"@ != "new"@,
        "controversial"@ != "hot"@,
        "controversial"@ != "rising"@,
{
    reveal_strlit("new");
    reveal_strlit("hot");
    reveal_strlit("rising");
    reveal_strlit("controversial");
    reveal_strlit("top");
    assert("top"@[0] == 't' && "new"@[0] == 'n' && "hot"@[0] == 'h');
    assert("controversial"@.len() == 13 && "rising"@.len() == 6);
}

/// The keyword of a span reads back as that span.
pub proof fn lemma_span_keyword_reads_back(span: Span)
    ensures
        Span::parsed(span.keyword()) == Some(span),
{
    reveal_strlit("hour");
    reveal_strlit("day");
    reveal_strlit("24h");
    reveal_strlit("week");
    reveal_strlit("7d");
    reveal_strlit("month");
    reveal_strlit("year");
    reveal_strlit("356d");
    reveal_strlit("all");
    reveal_strlit("ever");
    assert("hour"@[0] == 'h' && "day"@[0] == 'd' && "24h"@[0] == '2' && "week"@[0] == 'w');
    assert("hour"@.len() == 4 && "day"@.len() == 3 && "week"@.len() == 4 && "month"@.len() == 5);
    assert("year"@.len() == 4 && "all"@.len() == 3);
}

/// The keywords of a mode and of its span, if it has one, read back as that
/// mode.
pub proof fn lemma_mode_keyword_reads_back(mode: Mode)
    ensures
        Mode::parsed(
            mode.keyword(),
            match mode.span() {
                Some(span) => Some(span.keyword()),
                None => None,
            },
        ) == Ok::<Mode, QueryFault>(mode),
{
    lemma_mode_keywords_differ();
    reveal_strlit("new");
    reveal_strlit("hot");
    reveal_strlit("rising");
    assert("new"@[0] == 'n' && "hot"@[0] == 'h' && "rising"@[0] == 'r');
    match mode.span() {
        Some(span) => {
            lemma_span_keyword_reads_back(span);
        },
        None => {},
    }
}

/// A mode that needs a span is refused without one: `Top` and `Controversial`
/// never come out of a query that names no span.
pub proof fn lemma_span_required(keyword: Seq<char>)
    requires
        keyword == "top"@ || keyword == "controversial"@,
    ensures
        Mode::parsed(keyword, None) == Err::<Mode, QueryFault>(QueryFault::SpanRequired),
{
    lemma_mode_keywords_differ();
}

/// A mode that needs no span ignores the one it is given: `New`, `Hot` and
/// `Rising` come out the same whatever the span says, even where it names no
/// span at all.
pub proof fn lemma_span_ignored(keyword: Seq<char>, span: Option<Seq<char>>)
    requires
        keyword == "new"@ || keyword == "hot"@ || keyword == "rising"@,
    ensures
        Mode::parsed(keyword, span) == Mode::parsed(keyword, None),
        Mode::parsed(keyword, span) is Ok,
        Mode::parsed(keyword, span)->Ok_0.span() is None,
{
}

/// Every mode that comes out of a query for `Top` or `Controversial` carries
/// the span that the query named.
pub proof fn lemma_parsed_mode_has_span(keyword: Seq<char>, span: Option<Seq<char>>)
    requires
        keyword == "top"@ || keyword == "controversial"@,
        Mode::parsed(keyword, span) is Ok,
    ensures
        span is Some,
        Mode::parsed(keyword, span)->Ok_0.span() == Span::parsed(span->0),
{
    lemma_mode_keywords_differ();
}

} // verus!
