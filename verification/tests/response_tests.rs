use newsapi::NewsCard;

fn full_card() -> NewsCard {
    NewsCard::new(
        Some("An Author".to_string()),
        Some("Body text".to_string()),
        "2024-03-10T09:30:00Z".to_string(),
        Some("A description".to_string()),
        "A title".to_string(),
        "https://example.org/article".to_string(),
    )
}

#[test]
fn getters_return_the_fields() {
    let c = full_card();
    assert_eq!(c.author(), Some(&"An Author".to_string()));
    assert_eq!(c.content(), Some(&"Body text".to_string()));
    assert_eq!(c.description(), Some(&"A description".to_string()));
    assert_eq!(c.title(), "A title");
    assert_eq!(c.url(), "https://example.org/article");
}

#[test]
fn optional_fields_can_be_absent() {
    let c = NewsCard::new(
        None,
        None,
        "2024-03-10T09:30:00Z".to_string(),
        None,
        "t".to_string(),
        "u".to_string(),
    );
    assert!(c.author().is_none());
    assert!(c.content().is_none());
    assert!(c.description().is_none());
}

#[test]
fn clone_keeps_every_field() {
    let c = full_card();
    let d = c.clone();
    assert_eq!(d.author(), c.author());
    assert_eq!(d.content(), c.content());
    assert_eq!(d.description(), c.description());
    assert_eq!(d.title(), c.title());
    assert_eq!(d.url(), c.url());
}

#[test]
fn date_renders_against_the_real_clock() {
    // the observer's offset comes from the machine, so only the shape is fixed
    let c = full_card();
    let rendered = c.date();
    assert!(rendered.contains(", "));
    assert!(rendered.contains(" - "));
    assert!(rendered.ends_with(".m. Eastern")
        || rendered.ends_with(".m. Central")
        || rendered.ends_with(".m. Mountain")
        || rendered.ends_with(".m. Pacific")
        || rendered.contains(".m. UTC"));
}

#[test]
fn try_date_accepts_ordinary_timestamps() {
    let c = full_card();
    let d = c.try_date();
    assert!(d.is_some());
    assert_eq!(d.unwrap(), c.date());
}

#[test]
fn try_date_rejects_oversized_fields() {
    let c = NewsCard::new(
        None,
        None,
        "2147483647-01-01T00:00:00Z".to_string(),
        None,
        "t".to_string(),
        "u".to_string(),
    );
    assert!(c.try_date().is_none());
    let c = NewsCard::new(
        None,
        None,
        "2024-01-01T2147483640:00:00Z".to_string(),
        None,
        "t".to_string(),
        "u".to_string(),
    );
    assert!(c.try_date().is_none());
}
