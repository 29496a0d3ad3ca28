//! Display state of the reader: the open article, the menus, night mode and
//! text size. Pure state transitions; all drawing stays outside.

use vstd::prelude::*;
use crate::query::{Category, Country};
use crate::response::NewsCard;

verus! {

/// The text sizes the reader offers.
#[derive(Clone, Copy, Debug, PartialEq, Eq, Structural)]
pub enum TextSize {
    Large,
    Medium,
    Small,
    XLarge,
}

/// The menu label of a text size.
pub open spec fn text_size_label(t: TextSize) -> Seq<char> {
    match t {
        TextSize::Large => "Large"@,
        TextSize::Medium => "Medium"@,
        TextSize::Small => "Small"@,
        TextSize::XLarge => "Extra Large"@,
    }
}

impl TextSize {
    pub fn to_string(&self) -> (r: String)
        ensures
            r@ == text_size_label(*self),
    {
        match self {
            TextSize::Large => "Large".to_owned(),
            TextSize::Medium => "Medium".to_owned(),
            TextSize::Small => "Small".to_owned(),
            TextSize::XLarge => "Extra Large".to_owned(),
        }
    }
}

/// Everything the reader's display depends on besides the fetched news.
pub struct RunState {
    pub article: Option<NewsCard>,
    pub country_menu: bool,
    pub night_mode: bool,
    pub searchbar: bool,
    pub search_topic: Option<String>,
    pub startup: bool,
    pub text_size_menu: bool,
    pub text_size: TextSize,
}

impl RunState {
    /// The state at startup: nothing open, small text.
    pub fn new() -> (r: Self)
        ensures
            r.article is None,
            !r.country_menu,
            !r.night_mode,
            !r.searchbar,
            r.search_topic is None,
            r.startup,
            r.text_size == TextSize::Small,
            !r.text_size_menu,
    {
        Self {
            article: None,
            country_menu: false,
            night_mode: false,
            searchbar: false,
            search_topic: None,
            startup: true,
            text_size: TextSize::Small,
            text_size_menu: false,
        }
    }

    /// Closes both menus and changes nothing else.
    pub fn hide_menus(&mut self)
        ensures
            *final(self) == (RunState {
                country_menu: false,
                text_size_menu: false,
                ..*old(self)
            }),
    {
        self.country_menu = false;
        self.text_size_menu = false;
    }

    pub fn is_article(&self) -> (r: bool)
        ensures
            r == (self.article is Some),
    {
        self.article.is_some()
    }

    pub fn get_article(&self) -> (r: NewsCard)
        requires
            self.article is Some,
        ensures
            r == self.article->0,
    {
        self.article.as_ref().unwrap().clone()
    }

    pub fn set_article(&mut self, article: Option<NewsCard>)
        ensures
            *final(self) == (RunState { article, ..*old(self) }),
    {
        self.article = article;
    }

    pub fn is_country_menu(&self) -> (r: bool)
        ensures
            r == self.country_menu,
    {
        self.country_menu
    }

    pub fn toggle_country_menu(&mut self)
        ensures
            *final(self) == (RunState { country_menu: !old(self).country_menu, ..*old(self) }),
    {
        self.country_menu = !self.country_menu;
    }

    pub fn is_night_mode(&self) -> (r: bool)
        ensures
            r == self.night_mode,
    {
        self.night_mode
    }

    pub fn toggle_night_mode(&mut self)
        ensures
            *final(self) == (RunState { night_mode: !old(self).night_mode, ..*old(self) }),
    {
        self.night_mode = !self.night_mode;
    }

    /// The text color as its red, green and blue parts: white in night mode,
    /// black otherwise.
    pub fn get_color(&self) -> (r: (u8, u8, u8))
        ensures
            self.night_mode ==> r == (255u8, 255u8, 255u8),
            !self.night_mode ==> r == (0u8, 0u8, 0u8),
    {
        if self.night_mode {
            (255, 255, 255)
        } else {
            (0, 0, 0)
        }
    }

    pub fn is_searchbar(&self) -> (r: bool)
        ensures
            r == self.searchbar,
    {
        self.searchbar
    }

    pub fn toggle_searchbar(&mut self)
        ensures
            *final(self) == (RunState { searchbar: !old(self).searchbar, ..*old(self) }),
    {
        self.searchbar = !self.searchbar;
    }

    pub fn is_search_topic(&self) -> (r: bool)
        ensures
            r == (self.search_topic is Some),
    {
        self.search_topic.is_some()
    }

    pub fn get_search_topic(&self) -> (r: String)
        requires
            self.search_topic is Some,
        ensures
            r == self.search_topic->0,
    {
        self.search_topic.as_ref().unwrap().clone()
    }

    pub fn set_search_topic(&mut self, topic: Option<String>)
        ensures
            *final(self) == (RunState { search_topic: topic, ..*old(self) }),
    {
        self.search_topic = topic;
    }

    pub fn is_startup(&self) -> (r: bool)
        ensures
            r == self.startup,
    {
        self.startup
    }

    /// Marks startup as done; the flag only ever falls.
    pub fn toggle_startup(&mut self)
        ensures
            *final(self) == (RunState { startup: false, ..*old(self) }),
    {
        self.startup = false;
    }

    pub fn get_text_size(&self) -> (r: &TextSize)
        ensures
            *r == self.text_size,
    {
        &self.text_size
    }

    pub fn set_text_size(&mut self, text_size: TextSize)
        ensures
            *final(self) == (RunState { text_size, ..*old(self) }),
    {
        self.text_size = text_size;
    }

    pub fn is_text_size_menu(&self) -> (r: bool)
        ensures
            r == self.text_size_menu,
    {
        self.text_size_menu
    }

    pub fn toggle_text_size_menu(&mut self)
        ensures
            *final(self) == (RunState {
                text_size_menu: !old(self).text_size_menu,
                ..*old(self)
            }),
    {
        self.text_size_menu = !self.text_size_menu;
    }
}

/// The categories the category menu offers, in its order.
pub fn category_vec() -> (r: Vec<Category>)
    ensures
        r@ == seq![
            Category::Business,
            Category::Entertainment,
            Category::General,
            Category::Health,
            Category::Science,
            Category::Sports,
            Category::Technology,
        ],
{
    let mut v: Vec<Category> = Vec::new();
    v.push(Category::Business);
    v.push(Category::Entertainment);
    v.push(Category::General);
    v.push(Category::Health);
    v.push(Category::Science);
    v.push(Category::Sports);
    v.push(Category::Technology);
    proof {
        assert(v@ =~= seq![
            Category::Business,
            Category::Entertainment,
            Category::General,
            Category::Health,
            Category::Science,
            Category::Sports,
            Category::Technology,
        ]);
    }
    v
}

/// The countries the country menu offers, in its order.
pub fn country_vec() -> (r: Vec<Country>)
    ensures
        r@ == country_menu_entries(),
{
    let mut v: Vec<Country> = Vec::new();
    v.push(Country::Argentina);
    v.push(Country::Australia);
    v.push(Country::Austria);
    v.push(Country::Belgium);
    v.push(Country::Brazil);
    v.push(Country::Bulgaria);
    v.push(Country::Canada);
    v.push(Country::Colombia);
    v.push(Country::Cuba);
    v.push(Country::Czechia);
    v.push(Country::France);
    v.push(Country::Germany);
    v.push(Country::Greece);
    v.push(Country::Hungary);
    v.push(Country::India);
    v.push(Country::Indonesia);
    v.push(Country::Ireland);
    v.push(Country::Italy);
    v.push(Country::Latvia);
    v.push(Country::Lithuania);
    v.push(Country::Malaysia);
    v.push(Country::Mexico);
    v.push(Country::Morocco);
    v.push(Country::Netherlands);
    v.push(Country::NewZealand);
    v.push(Country::Nigeria);
    v.push(Country::Norway);
    v.push(Country::Philippines);
    v.push(Country::Poland);
    v.push(Country::Portugal);
    v.push(Country::Romania);
    v.push(Country::Russia);
    v.push(Country::SaudiArabia);
    v.push(Country::Serbia);
    v.push(Country::Singapore);
    v.push(Country::Slovakia);
    v.push(Country::Slovenia);
    v.push(Country::SouthAfrica);
    v.push(Country::Sweden);
    v.push(Country::Switzerland);
    v.push(Country::Turkey);
    v.push(Country::Ukraine);
    v.push(Country::UnitedKingdom);
    v.push(Country::UnitedStates);
    v.push(Country::Venezuela);
    proof {
        assert(v@ =~= country_menu_entries());
    }
    v
}

/// The country menu's entries, in its order.
pub open spec fn country_menu_entries() -> Seq<Country> {
    seq![
        Country::Argentina,
        Country::Australia,
        Country::Austria,
        Country::Belgium,
        Country::Brazil,
        Country::Bulgaria,
        Country::Canada,
        Country::Colombia,
        Country::Cuba,
        Country::Czechia,
        Country::France,
        Country::Germany,
        Country::Greece,
        Country::Hungary,
        Country::India,
        Country::Indonesia,
        Country::Ireland,
        Country::Italy,
        Country::Latvia,
        Country::Lithuania,
        Country::Malaysia,
        Country::Mexico,
        Country::Morocco,
        Country::Netherlands,
        Country::NewZealand,
        Country::Nigeria,
        Country::Norway,
        Country::Philippines,
        Country::Poland,
        Country::Portugal,
        Country::Romania,
        Country::Russia,
        Country::SaudiArabia,
        Country::Serbia,
        Country::Singapore,
        Country::Slovakia,
        Country::Slovenia,
        Country::SouthAfrica,
        Country::Sweden,
        Country::Switzerland,
        Country::Turkey,
        Country::Ukraine,
        Country::UnitedKingdom,
        Country::UnitedStates,
        Country::Venezuela,
    ]
}

/// The text sizes the text-size menu offers, in its order.
pub fn text_size_vec() -> (r: Vec<TextSize>)
    ensures
        r@ == seq![TextSize::Small, TextSize::Medium, TextSize::Large, TextSize::XLarge],
{
    let mut v: Vec<TextSize> = Vec::new();
    v.push(TextSize::Small);
    v.push(TextSize::Medium);
    v.push(TextSize::Large);
    v.push(TextSize::XLarge);
    proof {
        assert(v@ =~= seq![TextSize::Small, TextSize::Medium, TextSize::Large, TextSize::XLarge]);
    }
    v
}

} // verus!
