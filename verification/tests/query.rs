use heaven_on_earth::configuration::Configuration;
use heaven_on_earth::reddit::create_url;
use heaven_on_earth::reddit::InvalidQuery;
use heaven_on_earth::reddit::Mode;
use heaven_on_earth::reddit::Span;

fn query_config(mode: Mode, query_size: u8, subreddit: &str) -> Configuration {
    Configuration {
        mode,
        min_ratio: None,
        max_ratio: None,
        min_res: None,
        query_size,
        run_every: None,
        output_dir: "image-out".to_string(),
        random: false,
        subreddit: subreddit.to_string(),
    }
}

#[test]
fn modes_without_span_are_read() {
    assert_eq!(Mode::from_identifier("new", None), Ok(Mode::New));
    assert_eq!(Mode::from_identifier("hot", None), Ok(Mode::Hot));
    assert_eq!(Mode::from_identifier("rising", None), Ok(Mode::Rising));
}

#[test]
fn mode_is_read_in_any_letter_case() {
    assert_eq!(Mode::from_identifier("NEW", None), Ok(Mode::New));
    assert_eq!(Mode::from_identifier("Hot", None), Ok(Mode::Hot));
    assert_eq!(Mode::from_identifier("TOP", Some("WEEK")), Ok(Mode::Top(Span::Week)));
    assert_eq!(
        Mode::from_identifier("Controversial", Some("Ever")),
        Ok(Mode::Controversial(Span::All))
    );
}

#[test]
fn keywords_in_capitals_are_not_lowercase_keywords() {
    assert_eq!(
        Mode::from_keywords("NEW", None),
        Err(InvalidQuery::UnsupportedMode("NEW".to_string()))
    );
    assert_eq!(Span::from_keyword("WEEK"), None);
    assert_eq!(Span::from_keyword("week"), Some(Span::Week));
}

#[test]
fn top_without_span_is_refused() {
    assert_eq!(Mode::from_identifier("top", None), Err(InvalidQuery::SpanRequired));
}

#[test]
fn controversial_without_span_is_refused() {
    assert_eq!(Mode::from_identifier("controversial", None), Err(InvalidQuery::SpanRequired));
}

#[test]
fn top_with_unknown_span_is_refused() {
    assert_eq!(Mode::from_identifier("top", Some("decade")), Err(InvalidQuery::SpanInvalid));
    assert_eq!(Mode::from_identifier("controversial", Some("")), Err(InvalidQuery::SpanInvalid));
}

#[test]
fn top_and_controversial_carry_their_span() {
    assert_eq!(Mode::from_identifier("top", Some("hour")), Ok(Mode::Top(Span::Hour)));
    assert_eq!(Mode::from_identifier("top", Some("all")), Ok(Mode::Top(Span::All)));
    assert_eq!(
        Mode::from_identifier("controversial", Some("month")),
        Ok(Mode::Controversial(Span::Month))
    );
}

#[test]
fn span_is_ignored_where_the_mode_needs_none() {
    assert_eq!(Mode::from_identifier("new", Some("week")), Ok(Mode::New));
    assert_eq!(Mode::from_identifier("hot", Some("no span at all")), Ok(Mode::Hot));
    assert_eq!(Mode::from_identifier("rising", Some("")), Ok(Mode::Rising));
}

#[test]
fn unknown_mode_is_refused_with_its_lowercase_name() {
    assert_eq!(
        Mode::from_identifier("Best", Some("week")),
        Err(InvalidQuery::UnsupportedMode("best".to_string()))
    );
    assert_eq!(Mode::from_identifier("", None), Err(InvalidQuery::UnsupportedMode(String::new())));
}

#[test]
fn faults_have_their_messages() {
    assert_eq!(InvalidQuery::SpanRequired.message(), "-span required");
    assert_eq!(InvalidQuery::SpanInvalid.message(), "--span invalid");
    assert_eq!(
        InvalidQuery::UnsupportedMode("best".to_string()).message(),
        "Unsupported mode 'best'"
    );
}

#[test]
fn spans_are_read_with_their_second_spellings() {
    assert_eq!(Span::from_identifier("hour"), Some(Span::Hour));
    assert_eq!(Span::from_identifier("day"), Some(Span::Day));
    assert_eq!(Span::from_identifier("24h"), Some(Span::Day));
    assert_eq!(Span::from_identifier("week"), Some(Span::Week));
    assert_eq!(Span::from_identifier("7d"), Some(Span::Week));
    assert_eq!(Span::from_identifier("month"), Some(Span::Month));
    assert_eq!(Span::from_identifier("year"), Some(Span::Year));
    assert_eq!(Span::from_identifier("356d"), Some(Span::Year));
    assert_eq!(Span::from_identifier("all"), Some(Span::All));
    assert_eq!(Span::from_identifier("ever"), Some(Span::All));
}

#[test]
fn span_is_read_in_any_letter_case() {
    assert_eq!(Span::from_identifier("HOUR"), Some(Span::Hour));
    assert_eq!(Span::from_identifier("24H"), Some(Span::Day));
    assert_eq!(Span::from_identifier("Ever"), Some(Span::All));
}

#[test]
fn unknown_span_is_none() {
    assert_eq!(Span::from_identifier("365d"), None);
    assert_eq!(Span::from_identifier(""), None);
    assert_eq!(Span::from_identifier(" week"), None);
}

#[test]
fn modes_have_their_identifiers() {
    assert_eq!(Mode::New.identifier(), "new");
    assert_eq!(Mode::Hot.identifier(), "hot");
    assert_eq!(Mode::Rising.identifier(), "rising");
    assert_eq!(Mode::Controversial(Span::Day).identifier(), "controversial");
    assert_eq!(Mode::Top(Span::Year).identifier(), "top");
}

#[test]
fn spans_have_their_identifiers() {
    assert_eq!(Span::Hour.identifier(), "hour");
    assert_eq!(Span::Day.identifier(), "day");
    assert_eq!(Span::Week.identifier(), "week");
    assert_eq!(Span::Month.identifier(), "month");
    assert_eq!(Span::Year.identifier(), "year");
    assert_eq!(Span::All.identifier(), "all");
}

#[test]
fn identifier_of_a_mode_reads_back_as_the_mode() {
    let modes = vec![
        Mode::New,
        Mode::Hot,
        Mode::Rising,
        Mode::Controversial(Span::Week),
        Mode::Top(Span::All),
    ];
    for mode in modes {
        let span = match mode {
            Mode::Controversial(span) | Mode::Top(span) => Some(span.identifier()),
            _ => None,
        };
        assert_eq!(Mode::from_identifier(mode.identifier(), span), Ok(mode));
    }
}

#[test]
fn url_without_span() {
    let config = query_config(Mode::Hot, 50, "EarthPorn");
    assert_eq!(create_url(&config), "https://www.reddit.com/r/EarthPorn/hot.json?limit=50");
}

#[test]
fn url_with_span() {
    let config = query_config(Mode::Top(Span::Week), 25, "wallpapers");
    assert_eq!(
        create_url(&config),
        "https://www.reddit.com/r/wallpapers/top.json?limit=25&t=week"
    );
    let config = query_config(Mode::Controversial(Span::All), 100, "pics");
    assert_eq!(
        create_url(&config),
        "https://www.reddit.com/r/pics/controversial.json?limit=100&t=all"
    );
}

#[test]
fn url_with_least_and_greatest_size() {
    let config = query_config(Mode::New, 0, "a");
    assert_eq!(create_url(&config), "https://www.reddit.com/r/a/new.json?limit=0");
    let config = query_config(Mode::Rising, 255, "a");
    assert_eq!(create_url(&config), "https://www.reddit.com/r/a/rising.json?limit=255");
    let config = query_config(Mode::Rising, 9, "a");
    assert_eq!(create_url(&config), "https://www.reddit.com/r/a/rising.json?limit=9");
}
