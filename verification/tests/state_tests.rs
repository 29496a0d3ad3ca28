use newsapi::{category_vec, country_vec, text_size_vec, Category, NewsCard, RunState, TextSize};

#[test]
fn fresh_state() {
    let s = RunState::new();
    assert!(!s.is_article());
    assert!(!s.is_country_menu());
    assert!(!s.is_night_mode());
    assert!(!s.is_searchbar());
    assert!(!s.is_search_topic());
    assert!(s.is_startup());
    assert!(!s.is_text_size_menu());
    assert_eq!(*s.get_text_size(), TextSize::Small);
}

#[test]
fn article_is_set_and_cleared() {
    let mut s = RunState::new();
    let card = NewsCard::new(
        None,
        None,
        "2024-03-10T09:30:00Z".to_string(),
        None,
        "held".to_string(),
        "u".to_string(),
    );
    s.set_article(Some(card));
    assert!(s.is_article());
    assert_eq!(s.get_article().title(), "held");
    s.set_article(None);
    assert!(!s.is_article());
}

#[test]
fn toggles_flip_their_flag_only() {
    let mut s = RunState::new();
    s.toggle_country_menu();
    assert!(s.is_country_menu());
    assert!(!s.is_text_size_menu());
    s.toggle_text_size_menu();
    assert!(s.is_text_size_menu());
    s.toggle_night_mode();
    assert!(s.is_night_mode());
    s.toggle_searchbar();
    assert!(s.is_searchbar());
    s.toggle_country_menu();
    assert!(!s.is_country_menu());
}

#[test]
fn hide_menus_closes_both() {
    let mut s = RunState::new();
    s.toggle_country_menu();
    s.toggle_text_size_menu();
    s.toggle_night_mode();
    s.hide_menus();
    assert!(!s.is_country_menu());
    assert!(!s.is_text_size_menu());
    assert!(s.is_night_mode());
}

#[test]
fn text_color_follows_night_mode() {
    let mut s = RunState::new();
    assert_eq!(s.get_color(), (0, 0, 0));
    s.toggle_night_mode();
    assert_eq!(s.get_color(), (255, 255, 255));
}

#[test]
fn search_topic_round_trip() {
    let mut s = RunState::new();
    s.set_search_topic(Some("ferris".to_string()));
    assert!(s.is_search_topic());
    assert_eq!(s.get_search_topic(), "ferris");
    s.set_search_topic(None);
    assert!(!s.is_search_topic());
}

#[test]
fn startup_only_falls() {
    let mut s = RunState::new();
    s.toggle_startup();
    assert!(!s.is_startup());
    s.toggle_startup();
    assert!(!s.is_startup());
}

#[test]
fn text_size_is_stored() {
    let mut s = RunState::new();
    s.set_text_size(TextSize::XLarge);
    assert_eq!(*s.get_text_size(), TextSize::XLarge);
    assert_eq!(s.get_text_size().to_string(), "Extra Large");
}

#[test]
fn menu_vectors() {
    let cats = category_vec();
    assert_eq!(cats.len(), 7);
    assert!(!cats.contains(&Category::Search));
    assert_eq!(cats[0].to_string(), "Business");
    assert_eq!(cats[2].to_string(), "Top Headlines");

    let countries = country_vec();
    assert_eq!(countries.len(), 45);
    assert_eq!(countries[0].to_string(), "ar");
    assert_eq!(countries[44].to_string(), "ve");

    let sizes = text_size_vec();
    assert_eq!(sizes.len(), 4);
    assert_eq!(sizes[0], TextSize::Small);
    assert_eq!(sizes[3], TextSize::XLarge);
}
