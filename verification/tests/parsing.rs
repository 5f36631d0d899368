use holiday_snapshots::hscraper::HScraper;

fn row(event: &str, date: Option<&str>, day: &str) -> String {
    let date_cell = match date {
        Some(d) => format!("<td class=\"holidate\"><abbr title=\"{}\">shown</abbr></td>", d),
        None => "<td class=\"holidate\">no abbr here</td>".to_string(),
    };
    format!(
        "<tr class=\"holiday-group\"><td class=\"holiday-what\">{}</td>{}<td class=\"dayname\">{}</td></tr>",
        event, date_cell, day
    )
}

fn page(rows: &[String]) -> String {
    let mut s = String::from("<html><body><table>");
    for r in rows {
        s.push_str(r);
    }
    s.push_str("</table></body></html>");
    s
}

#[test]
fn three_rows_header_excluded() {
    let html = page(&[
        row(" New Year's Day ", Some("2024-01-01"), "(Monday)"),
        row("   ", Some("2024-02-02"), "(Friday)"),
        row("Independence Day", Some("2024-06-12"), "(Wednesday)"),
    ]);
    let scraper = HScraper::new(2024);
    let holidays = scraper.parse_holidays_from_html(&html).unwrap();
    assert_eq!(holidays.len(), 2);
    assert_eq!(holidays[0].event.as_str(), "New Year's Day");
    assert_eq!(holidays[0].date.as_str(), "2024-01-01");
    assert_eq!(holidays[0].day.as_str(), "Monday");
    assert_eq!(holidays[1].event.as_str(), "Independence Day");
    assert_eq!(holidays[1].date.as_str(), "2024-06-12");
    assert_eq!(holidays[1].day.as_str(), "Wednesday");
}

#[test]
fn parse_is_deterministic() {
    let html = page(&[
        row("Labor Day", Some("2024-05-01"), "(Wednesday)"),
        row("Rizal Day", Some("2024-12-30"), "(Monday)"),
    ]);
    let scraper = HScraper::new(2024);
    let a = scraper.parse_holidays_from_html(&html).unwrap();
    let b = scraper.parse_holidays_from_html(&html).unwrap();
    assert_eq!(a.len(), b.len());
    for (x, y) in a.iter().zip(b.iter()) {
        assert_eq!(x.event, y.event);
        assert_eq!(x.date, y.date);
        assert_eq!(x.day, y.day);
    }
}

#[test]
fn row_without_event_label_is_omitted() {
    let html = page(&[
        "<tr class=\"holiday-group\"><td class=\"holidate\"><abbr title=\"2024-03-03\">shown</abbr></td><td class=\"dayname\">(Sunday)</td></tr>".to_string(),
        row("Bonifacio Day", Some("2024-11-30"), "(Saturday)"),
    ]);
    let scraper = HScraper::new(2024);
    let holidays = scraper.parse_holidays_from_html(&html).unwrap();
    assert_eq!(holidays.len(), 1);
    assert_eq!(holidays[0].event.as_str(), "Bonifacio Day");
}

#[test]
fn row_without_date_node_defaults_to_empty() {
    let html = page(&[row("Eid al-Fitr", None, "(Wednesday)")]);
    let scraper = HScraper::new(2024);
    let holidays = scraper.parse_holidays_from_html(&html).unwrap();
    assert_eq!(holidays.len(), 1);
    assert_eq!(holidays[0].event.as_str(), "Eid al-Fitr");
    assert_eq!(holidays[0].date.as_str(), "");
    assert_eq!(holidays[0].day.as_str(), "Wednesday");
}

#[test]
fn missing_day_node_defaults_to_empty() {
    let html = "<html><body><table><tr class=\"holiday-group\"><td class=\"holiday-what\">Quiet Day</td></tr></table></body></html>";
    let scraper = HScraper::new(2024);
    let holidays = scraper.parse_holidays_from_html(html).unwrap();
    assert_eq!(holidays.len(), 1);
    assert_eq!(holidays[0].event.as_str(), "Quiet Day");
    assert_eq!(holidays[0].date.as_str(), "");
    assert_eq!(holidays[0].day.as_str(), "");
}

#[test]
fn event_and_day_are_trimmed_and_parens_stripped() {
    let html = page(&[row("\n\t  Araw ng Kagitingan  ", Some("2024-04-09"), "  ( Tuesday )  ")]);
    let scraper = HScraper::new(2024);
    let holidays = scraper.parse_holidays_from_html(&html).unwrap();
    assert_eq!(holidays.len(), 1);
    assert_eq!(holidays[0].event.as_str(), "Araw ng Kagitingan");
    assert_eq!(holidays[0].day.as_str(), " Tuesday ");
}

#[test]
fn date_attribute_not_visible_text_is_taken() {
    let html = page(&[row("National Heroes Day", Some("2024-08-26"), "(Monday)")]);
    let scraper = HScraper::new(2024);
    let holidays = scraper.parse_holidays_from_html(&html).unwrap();
    assert_eq!(holidays[0].date.as_str(), "2024-08-26");
    assert_ne!(holidays[0].date.as_str(), "shown");
}

#[test]
fn content_without_holiday_rows_parses_to_nothing() {
    let scraper = HScraper::new(2024);
    let holidays = scraper.parse_holidays_from_html("<html><body><p>nothing here</p></body></html>").unwrap();
    assert_eq!(holidays.len(), 0);
}

#[test]
fn get_holidays_matches_cached_parse() {
    let html = page(&[row("Christmas Day", Some("2024-12-25"), "(Wednesday)")]);
    let scraper = HScraper::new(2024);
    let live = scraper.get_holidays(&html).unwrap();
    let cached = scraper.parse_holidays_from_html(&html).unwrap();
    assert_eq!(live.len(), 1);
    assert_eq!(live.len(), cached.len());
    assert_eq!(live[0].event, cached[0].event);
    assert_eq!(live[0].date, cached[0].date);
    assert_eq!(live[0].day, cached[0].day);
}
