use chrono::Datelike;
use qiita_report::date::{format_date, month_len, week_before, Date};
use qiita_report::query::{build_query, build_url, query_for, query_for_date, todays_query};
use qiita_report::report::{report_for, sort_articles_desc, Article, ReportError};
use qiita_report::text::u32_dec;

fn date(year: i32, month: u8, day: u8) -> Date {
    Date { year, month, day }
}

fn article(title: &str, stocks_count: u32, url: &str) -> Article {
    Article { title: title.to_string(), stocks_count, url: url.to_string() }
}

#[test]
fn decimal_rendering() {
    assert_eq!(u32_dec(0), "0");
    assert_eq!(u32_dec(7), "7");
    assert_eq!(u32_dec(100), "100");
    assert_eq!(u32_dec(4294967295), "4294967295");
}

#[test]
fn date_formatting_pads_every_field() {
    assert_eq!(format_date(date(2026, 10, 4)), "2026-10-04");
    assert_eq!(format_date(date(950, 1, 5)), "0950-01-05");
    assert_eq!(format_date(date(9999, 12, 31)), "9999-12-31");
}

#[test]
fn month_lengths_follow_leap_rules() {
    assert_eq!(month_len(2024, 2), 29);
    assert_eq!(month_len(2023, 2), 28);
    assert_eq!(month_len(2000, 2), 29);
    assert_eq!(month_len(1900, 2), 28);
    assert_eq!(month_len(2026, 9), 30);
    assert_eq!(month_len(2026, 12), 31);
}

#[test]
fn week_before_within_a_month() {
    assert_eq!(week_before(date(2026, 10, 11)), date(2026, 10, 4));
}

#[test]
fn week_before_over_leap_february() {
    assert_eq!(week_before(date(2024, 3, 1)), date(2024, 2, 23));
    assert_eq!(week_before(date(2023, 3, 1)), date(2023, 2, 22));
    assert_eq!(week_before(date(2000, 3, 4)), date(2000, 2, 26));
    assert_eq!(week_before(date(1900, 3, 4)), date(1900, 2, 25));
}

#[test]
fn week_before_over_a_year_boundary() {
    assert_eq!(week_before(date(2026, 1, 3)), date(2025, 12, 27));
}

#[test]
fn week_before_agrees_with_chrono() {
    let d = chrono::NaiveDate::from_ymd_opt(2024, 3, 1).unwrap()
        - chrono::Duration::days(7);
    let b = week_before(date(2024, 3, 1));
    assert_eq!((b.year, b.month as u32, b.day as u32), (d.year(), d.month(), d.day()));
}

#[test]
fn query_has_the_exact_shape() {
    assert_eq!(
        build_query(date(2026, 10, 4), 100),
        "created:>=2026-10-04+stocks:>=100"
    );
    assert_eq!(build_query(date(950, 2, 3), 0), "created:>=0950-02-03+stocks:>=0");
}

#[test]
fn query_for_uses_the_date_a_week_back() {
    let (boundary, q) = query_for(date(2026, 10, 11), 150);
    assert_eq!(boundary, date(2026, 10, 4));
    assert_eq!(q, "created:>=2026-10-04+stocks:>=150");
}

#[test]
fn query_for_date_succeeds_exactly_on_four_digit_years() {
    let (today, boundary, q) =
        query_for_date(date(2026, 10, 11), 150).expect("year 2026 fits in four digits");
    assert_eq!(today, date(2026, 10, 11));
    assert_eq!(boundary, date(2026, 10, 4));
    assert_eq!(q, "created:>=2026-10-04+stocks:>=150");
    assert!(query_for_date(date(0, 5, 5), 150).is_none());
    assert!(query_for_date(date(10000, 5, 5), 150).is_none());
    assert!(query_for_date(date(1, 1, 8), 150).is_some());
    assert!(query_for_date(date(9999, 12, 31), 150).is_some());
}

#[test]
fn url_percent_encodes_the_query() {
    assert_eq!(
        build_url("created:>=2026-10-04+stocks:>=100"),
        "https://qiita.com/api/v2/items?query=created:%3E=2026-10-04+stocks:%3E=100"
    );
    assert_eq!(
        build_url(" \"#'<>\n\u{7f}"),
        "https://qiita.com/api/v2/items?query=%20%22%23%27%3C%3E%0A%7F"
    );
    assert_eq!(
        build_url("a-b_c.d~e:f=g+h/i?j"),
        "https://qiita.com/api/v2/items?query=a-b_c.d~e:f=g+h/i?j"
    );
}

#[test]
fn built_url_is_what_the_transport_sends() {
    // reqwest parses the raw URL through the url crate, which percent-encodes
    // the query on the way; the built URL must already be that wire form.
    let q = "created:>=2026-10-04+stocks:>=100";
    let built = build_url(q);
    let parsed =
        reqwest::Url::parse(&format!("https://qiita.com/api/v2/items?query={}", q)).unwrap();
    assert_eq!(built, parsed.as_str());

    // A '#' or a leading space would change how the raw form parses (fragment
    // start, input trimming), so this comparison keeps to characters that stay
    // in the query on both sides.
    let harsh = "a \"'<>b";
    let built2 = build_url(harsh);
    let parsed2 =
        reqwest::Url::parse(&format!("https://qiita.com/api/v2/items?query={}", harsh)).unwrap();
    assert_eq!(built2, parsed2.as_str());
}

#[test]
fn todays_query_matches_the_real_clock() {
    // Read the clock on both sides of the call so a midnight rollover in
    // between cannot make the comparison fail.
    let expected = |d: chrono::NaiveDate| {
        let boundary = d - chrono::Duration::days(7);
        format!("created:>={}+stocks:>=150", boundary.format("%Y-%m-%d"))
    };
    let before = chrono::Local::now().date_naive();
    let got = todays_query(150).expect("the current year fits in four digits");
    let after = chrono::Local::now().date_naive();
    assert!(got.2 == expected(before) || got.2 == expected(after));
}

#[test]
fn sort_orders_by_stocks_descending() {
    let sorted = sort_articles_desc(vec![
        article("a", 5, "ua"),
        article("b", 9, "ub"),
        article("c", 9, "uc"),
        article("d", 1, "ud"),
    ]);
    let stocks: Vec<u32> = sorted.iter().map(|a| a.stocks_count).collect();
    assert_eq!(stocks, vec![9, 9, 5, 1]);
    let mut titles: Vec<String> = sorted.iter().map(|a| a.title.clone()).collect();
    titles.sort();
    assert_eq!(titles, vec!["a", "b", "c", "d"]);
}

#[test]
fn empty_result_prints_the_fixed_line() {
    assert_eq!(report_for(100, Vec::new()), "No articles found.\n");
}

// The two tests below pin down a documented quirk: the report always omits
// the last, lowest-stock article of the sorted list — even when it is the
// only one.  This looks like an unintended off-by-one, but it is the tool's
// established behaviour and is reproduced deliberately, not to be "fixed"
// silently.
#[test]
fn three_articles_print_two_highest_in_order() {
    let items = vec![
        article("A", 50, "https://example.com/a"),
        article("B", 200, "https://example.com/b"),
        article("C", 10, "https://example.com/c"),
    ];
    let report = report_for(100, items);
    assert_eq!(
        report,
        "Top popular articles (within 1 week, stocks >= 100):\n\
         Title: B\nStocks: 200\nURL: https://example.com/b\n\n\
         Title: A\nStocks: 50\nURL: https://example.com/a\n\n"
    );
    assert!(!report.contains("C"));
}

#[test]
fn a_single_article_prints_only_the_header() {
    let items = vec![article("solo", 500, "https://example.com/solo")];
    assert_eq!(
        report_for(42, items),
        "Top popular articles (within 1 week, stocks >= 42):\n"
    );
}

#[test]
fn fetch_error_line_has_the_exact_shape() {
    let e = ReportError::Fetch("connection refused".to_string());
    assert_eq!(e.line(), "Error fetching articles: connection refused");
}

#[test]
fn decode_error_line_has_the_same_shape() {
    let e = ReportError::Decode("error decoding response body".to_string());
    assert_eq!(e.line(), "Error fetching articles: error decoding response body");
}
