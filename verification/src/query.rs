//! Building the request URL: the endpoint and query string chosen from the
//! category, country and search term, assembled through the url crate.

use vstd::prelude::*;
use vstd::string::StringExecFns;
use crate::response::{NewsAPIError, NewsAPIResponse, NewsCard};

verus! {

/// The two paths of the remote service.
#[derive(Clone, Copy)]
pub enum Endpoint {
    Everything,
    TopHeadlines,
}

/// The label of an endpoint, as it appears in the URL path.
pub open spec fn endpoint_label(e: Endpoint) -> Seq<char> {
    match e {
        Endpoint::Everything => "everything"@,
        Endpoint::TopHeadlines => "top-headlines"@,
    }
}

impl Endpoint {
    pub fn to_string(&self) -> (r: String)
        ensures
            r@ == endpoint_label(*self),
    {
        match self {
            Self::Everything => "everything".to_owned(),
            Self::TopHeadlines => "top-headlines".to_owned(),
        }
    }
}

/// The countries the service can be asked about.
#[derive(Clone, Copy, Debug, PartialEq, Eq, Structural)]
pub enum Country {
    Argentina,
    Australia,
    Austria,
    Belgium,
    Brazil,
    Bulgaria,
    Canada,
    China,
    Colombia,
    Cuba,
    Czechia,
    Egypt,
    France,
    Germany,
    Greece,
    HongKong,
    Hungary,
    India,
    Indonesia,
    Ireland,
    Israel,
    Italy,
    Japan,
    Latvia,
    Lithuania,
    Malaysia,
    Mexico,
    Morocco,
    Netherlands,
    NewZealand,
    Nigeria,
    Norway,
    Philippines,
    Poland,
    Portugal,
    Romania,
    Russia,
    SaudiArabia,
    Serbia,
    Singapore,
    Slovakia,
    Slovenia,
    SouthAfrica,
    SouthKorea,
    Sweden,
    Switzerland,
    Taiwan,
    Thailand,
    Turkey,
    Ukraine,
    UnitedArabEmirates,
    UnitedKingdom,
    UnitedStates,
    Venezuela,
}

/// The two-letter code of a country, as the query string carries it.
pub open spec fn country_code(c: Country) -> Seq<char> {
    match c {
        Country::Argentina => "ar"@,
        Country::Australia => "au"@,
        Country::Austria => "at"@,
        Country::Belgium => "be"@,
        Country::Brazil => "br"@,
        Country::Bulgaria => "bg"@,
        Country::Canada => "ca"@,
        Country::China => "cn"@,
        Country::Colombia => "co"@,
        Country::Cuba => "cu"@,
        Country::Czechia => "cz"@,
        Country::Egypt => "eg"@,
        Country::France => "fr"@,
        Country::Germany => "de"@,
        Country::Greece => "gr"@,
        Country::HongKong => "hk"@,
        Country::Hungary => "hu"@,
        Country::India => "in"@,
        Country::Indonesia => "id"@,
        Country::Ireland => "ie"@,
        Country::Israel => "il"@,
        Country::Italy => "it"@,
        Country::Japan => "jp"@,
        Country::Latvia => "lv"@,
        Country::Lithuania => "lt"@,
        Country::Malaysia => "my"@,
        Country::Mexico => "mx"@,
        Country::Morocco => "ma"@,
        Country::Netherlands => "nl"@,
        Country::NewZealand => "nz"@,
        Country::Nigeria => "ng"@,
        Country::Norway => "no"@,
        Country::Philippines => "ph"@,
        Country::Poland => "pl"@,
        Country::Portugal => "pt"@,
        Country::Romania => "ro"@,
        Country::Russia => "ru"@,
        Country::SaudiArabia => "sa"@,
        Country::Serbia => "rs"@,
        Country::Singapore => "sg"@,
        Country::Slovakia => "sk"@,
        Country::Slovenia => "si"@,
        Country::SouthAfrica => "za"@,
        Country::SouthKorea => "kr"@,
        Country::Sweden => "se"@,
        Country::Switzerland => "ch"@,
        Country::Taiwan => "tw"@,
        Country::Thailand => "th"@,
        Country::Turkey => "tr"@,
        Country::Ukraine => "ua"@,
        Country::UnitedArabEmirates => "ae"@,
        Country::UnitedKingdom => "gb"@,
        Country::UnitedStates => "us"@,
        Country::Venezuela => "ve"@,
    }
}

impl Country {
    pub fn to_string(&self) -> (r: String)
        ensures
            r@ == country_code(*self),
    {
        match self {
            Self::Argentina => "ar".to_owned(),
            Self::Australia => "au".to_owned(),
            Self::Austria => "at".to_owned(),
            Self::Belgium => "be".to_owned(),
            Self::Brazil => "br".to_owned(),
            Self::Bulgaria => "bg".to_owned(),
            Self::Canada => "ca".to_owned(),
            Self::China => "cn".to_owned(),
            Self::Colombia => "co".to_owned(),
            Self::Cuba => "cu".to_owned(),
            Self::Czechia => "cz".to_owned(),
            Self::Egypt => "eg".to_owned(),
            Self::France => "fr".to_owned(),
            Self::Germany => "de".to_owned(),
            Self::Greece => "gr".to_owned(),
            Self::HongKong => "hk".to_owned(),
            Self::Hungary => "hu".to_owned(),
            Self::India => "in".to_owned(),
            Self::Indonesia => "id".to_owned(),
            Self::Ireland => "ie".to_owned(),
            Self::Israel => "il".to_owned(),
            Self::Italy => "it".to_owned(),
            Self::Japan => "jp".to_owned(),
            Self::Latvia => "lv".to_owned(),
            Self::Lithuania => "lt".to_owned(),
            Self::Malaysia => "my".to_owned(),
            Self::Mexico => "mx".to_owned(),
            Self::Morocco => "ma".to_owned(),
            Self::Netherlands => "nl".to_owned(),
            Self::NewZealand => "nz".to_owned(),
            Self::Nigeria => "ng".to_owned(),
            Self::Norway => "no".to_owned(),
            Self::Philippines => "ph".to_owned(),
            Self::Poland => "pl".to_owned(),
            Self::Portugal => "pt".to_owned(),
            Self::Romania => "ro".to_owned(),
            Self::Russia => "ru".to_owned(),
            Self::SaudiArabia => "sa".to_owned(),
            Self::Serbia => "rs".to_owned(),
            Self::Singapore => "sg".to_owned(),
            Self::Slovakia => "sk".to_owned(),
            Self::Slovenia => "si".to_owned(),
            Self::SouthAfrica => "za".to_owned(),
            Self::SouthKorea => "kr".to_owned(),
            Self::Sweden => "se".to_owned(),
            Self::Switzerland => "ch".to_owned(),
            Self::Taiwan => "tw".to_owned(),
            Self::Thailand => "th".to_owned(),
            Self::Turkey => "tr".to_owned(),
            Self::Ukraine => "ua".to_owned(),
            Self::UnitedArabEmirates => "ae".to_owned(),
            Self::UnitedKingdom => "gb".to_owned(),
            Self::UnitedStates => "us".to_owned(),
            Self::Venezuela => "ve".to_owned(),
        }
    }
}

/// The article categories, Search standing for a free-text query.
#[derive(Clone, Copy, Debug, PartialEq, Eq, Structural)]
pub enum Category {
    Business,
    Entertainment,
    General,
    Health,
    Science,
    Search,
    Sports,
    Technology,
}

/// The display label of a category; it is also what the query string carries.
pub open spec fn category_label(c: Category) -> Seq<char> {
    match c {
        Category::Business => "Business"@,
        Category::Entertainment => "Entertainment"@,
        Category::General => "Top Headlines"@,
        Category::Health => "Health"@,
        Category::Science => "Science"@,
        Category::Search => "Search"@,
        Category::Sports => "Sports"@,
        Category::Technology => "Technology"@,
    }
}

impl Category {
    pub fn to_string(&self) -> (r: String)
        ensures
            r@ == category_label(*self),
    {
        match self {
            Self::Business => "Business".to_owned(),
            Self::Entertainment => "Entertainment".to_owned(),
            Self::General => "Top Headlines".to_owned(),
            Self::Health => "Health".to_owned(),
            Self::Science => "Science".to_owned(),
            Self::Search => "Search".to_owned(),
            Self::Sports => "Sports".to_owned(),
            Self::Technology => "Technology".to_owned(),
        }
    }
}

/// The base of every request URL.
pub open spec fn base_url_text() -> Seq<char> {
    "https://newsapi.org/v2"@
}

/// A character the WHATWG path and query encodings pass through unchanged:
/// ASCII letters and digits and `- = & _ . ~`.
pub open spec fn url_safe_char(c: char) -> bool {
    let u = c as u32;
    (97 <= u && u <= 122) || (65 <= u && u <= 90) || (48 <= u && u <= 57) || u == 45 || u == 61
        || u == 38 || u == 95 || u == 46 || u == 126
}

/// A string the query encoding passes through unchanged.
pub open spec fn url_safe(s: Seq<char>) -> bool {
    forall|i: int| 0 <= i < s.len() ==> url_safe_char(s[i])
}

/// The name of the string the url crate serializes from the base, one appended
/// path segment and a query string.
pub uninterp spec fn built_url(segment: Seq<char>, query: Seq<char>) -> Seq<char>;

#[verifier::external_type_specification]
#[verifier::external_body]
pub struct ExParseError(url::ParseError);

/// Relies on url::Url::parse, Url::path_segments_mut with
/// PathSegmentsMut::push, Url::set_query and Url's Display serialization:
/// the base is parsed, one path segment appended, the query attached, and the
/// result serialized. Parsing the fixed base cannot fail, and for the two
/// endpoint segments and a query of characters that the WHATWG path and query
/// encodings leave unescaped, the serialization is the plain concatenation.
#[verifier::external_body]
fn assemble_url(base: &str, segment: &str, query: &str) -> (r: Result<String, url::ParseError>)
    requires
        base@ == base_url_text(),
    ensures
        r is Ok,
        r matches Ok(u) ==> u@ == built_url(segment@, query@),
        (segment@ == "top-headlines"@ || segment@ == "everything"@) && url_safe(query@) ==> (
        r matches Ok(u) ==> u@ == base_url_text() + "/"@ + segment@ + "?"@ + query@),
{
    match url::Url::parse(base) {
        Ok(mut good_url) => {
            good_url.path_segments_mut().unwrap().push(segment);
            good_url.set_query(Some(query));
            Ok(good_url.to_string())
        },
        Err(e) => Err(e),
    }
}

/// The endpoint selected by the search term: a free-text search overrides
/// every category.
pub open spec fn endpoint_for(search: Seq<char>) -> Seq<char> {
    if search.len() == 0 {
        endpoint_label(Endpoint::TopHeadlines)
    } else {
        endpoint_label(Endpoint::Everything)
    }
}

/// The query string selected by the category, country and search term.
pub open spec fn query_text(cat: Category, country: Country, search: Seq<char>) -> Seq<char> {
    if search.len() == 0 {
        if cat != Category::General {
            "country="@ + country_code(country) + "&category="@ + category_label(cat)
        } else {
            "country="@ + country_code(country)
        }
    } else {
        "q="@ + search + "&sortBy=popularity"@
    }
}

/// The whole request URL, where the query encoding changes nothing.
pub open spec fn plain_url(cat: Category, country: Country, search: Seq<char>) -> Seq<char> {
    base_url_text() + "/"@ + endpoint_for(search) + "?"@ + query_text(cat, country, search)
}

/// One request against the service: the key it authorizes with and the
/// selection it asks about.
pub struct NewsAPI {
    pub api_key: String,
    pub category: Category,
    pub country: Country,
    pub search: String,
}

impl NewsAPI {
    pub fn new(api_key: String, category: Category, country: Country, search: String) -> (r:
        NewsAPI)
        ensures
            r.api_key == api_key,
            r.category == category,
            r.country == country,
            r.search == search,
    {
        NewsAPI { api_key, category, country, search }
    }

    /// Builds the request URL for this selection. The fixed base always
    /// parses, so this always succeeds; where the query encoding has nothing
    /// to escape the result is the plain concatenation of its parts.
    pub fn prepare_url(&self) -> (r: Result<String, NewsAPIError>)
        ensures
            r is Ok,
            r matches Ok(u) ==> u@ == built_url(
                endpoint_for(self.search@),
                query_text(self.category, self.country, self.search@),
            ),
            url_safe(self.search@) ==> (r matches Ok(u) ==> u@ == plain_url(
                self.category,
                self.country,
                self.search@,
            )),
    {
        let query: String;
        let segment: String;
        if self.search.as_str().is_empty() {
            segment = Endpoint::TopHeadlines.to_string();
            let mut q = "country=".to_owned();
            let code = self.country.to_string();
            q.append(code.as_str());
            if !(self.category == Category::General) {
                q.append("&category=");
                let label = self.category.to_string();
                q.append(label.as_str());
            }
            query = q;
            proof {
                lemma_query_literals_safe();
                lemma_country_code_props(self.country);
                lemma_url_safe_concat("country="@, country_code(self.country));
                if self.category != Category::General {
                    lemma_category_label_safe(self.category);
                    lemma_url_safe_concat(
                        "country="@ + country_code(self.country),
                        "&category="@,
                    );
                    lemma_url_safe_concat(
                        "country="@ + country_code(self.country) + "&category="@,
                        category_label(self.category),
                    );
                }
            }
        } else {
            segment = Endpoint::Everything.to_string();
            let mut q = "q=".to_owned();
            q.append(self.search.as_str());
            q.append("&sortBy=popularity");
            query = q;
            proof {
                if url_safe(self.search@) {
                    lemma_query_literals_safe();
                    lemma_url_safe_concat("q="@, self.search@);
                    lemma_url_safe_concat("q="@ + self.search@, "&sortBy=popularity"@);
                }
            }
        }

        match assemble_url("https://newsapi.org/v2", segment.as_str(), query.as_str()) {
            Ok(good_url) => Ok(good_url),
            Err(_e) => Err(NewsAPIError::UrlParsing),
        }
    }

    /// Maps a failed envelope into the error shown for it: the code and
    /// message joined where both are present, a fixed text otherwise.
    pub fn map_response_err(response: NewsAPIResponse) -> (e: NewsAPIError)
        ensures
            e matches NewsAPIError::BadRequest(m) && m@ == classify_text(
                response.code,
                response.message,
            ),
    {
        let code: Option<String> = response.code;
        let message: Option<String> = response.message;
        if code.is_some() && message.is_some() {
            let mut error: String = code.unwrap();
            error.append(" - ");
            error.append(message.unwrap().as_str());
            NewsAPIError::BadRequest(error)
        } else {
            NewsAPIError::BadRequest("Unknown error".to_owned())
        }
    }

    /// Turns a decoded envelope into its articles, or into the classified
    /// error where the service did not answer "ok". The articles of an "ok"
    /// envelope come back whole and in their order.
    pub fn handle_response(response: NewsAPIResponse) -> (r: Result<Vec<NewsCard>, NewsAPIError>)
        ensures
            response.status@ == "ok"@ ==> (r matches Ok(a) && a == response.articles),
            response.status@ != "ok"@ ==> (r matches Err(e) && (e matches
                NewsAPIError::BadRequest(m) && m@ == classify_text(
                response.code,
                response.message,
            ))),
    {
        let ok_text: String = "ok".to_owned();
        if response.status == ok_text {
            Ok(response.articles)
        } else {
            Err(Self::map_response_err(response))
        }
    }
}

/// The text a failed envelope is classified into.
pub open spec fn classify_text(code: Option<String>, message: Option<String>) -> Seq<char> {
    if code is Some && message is Some {
        code->0@ + " - "@ + message->0@
    } else {
        "Unknown error"@
    }
}

/// A piece of text occurs somewhere inside another.
pub open spec fn contains_sub(s: Seq<char>, sub: Seq<char>) -> bool {
    exists|k: int| 0 <= k && k + sub.len() <= s.len() && #[trigger] s.subrange(k, k + sub.len())
        == sub
}

proof fn lemma_contains_middle(a: Seq<char>, sub: Seq<char>, b: Seq<char>)
    ensures
        contains_sub(a + sub + b, sub),
{
    let s = a + sub + b;
    let k = a.len() as int;
    assert(s.subrange(k, k + sub.len()) =~= sub);
}

/// For an empty search term the request targets the top-headlines endpoint
/// and carries the country parameter; the category parameter appears exactly
/// when the category is not General, whose case leaves the query to the
/// country parameter alone.
pub proof fn lemma_headlines_url(cat: Category, country: Country)
    requires
        cat != Category::Search,
    ensures
        endpoint_for(Seq::<char>::empty()) == "top-headlines"@,
        contains_sub(
            plain_url(cat, country, Seq::<char>::empty()),
            "country="@ + country_code(country),
        ),
        cat != Category::General ==> contains_sub(
            plain_url(cat, country, Seq::<char>::empty()),
            "category="@ + category_label(cat),
        ),
        cat == Category::General ==> query_text(cat, country, Seq::<char>::empty()) == "country="@
            + country_code(country),
{
    let e = Seq::<char>::empty();
    let u = plain_url(cat, country, e);
    let head = base_url_text() + "/"@ + "top-headlines"@ + "?"@;
    let sub1 = "country="@ + country_code(country);
    if cat == Category::General {
        assert(u =~= head + sub1 + Seq::<char>::empty());
        lemma_contains_middle(head, sub1, Seq::<char>::empty());
    } else {
        let tail = "&category="@ + category_label(cat);
        assert(u =~= head + sub1 + tail);
        lemma_contains_middle(head, sub1, tail);
        reveal_strlit("&category=");
        reveal_strlit("category=");
        reveal_strlit("&");
        assert("&category="@ =~= "&"@ + "category="@);
        let sub2 = "category="@ + category_label(cat);
        assert(u =~= (head + sub1 + "&"@) + sub2 + Seq::<char>::empty());
        lemma_contains_middle(head + sub1 + "&"@, sub2, Seq::<char>::empty());
    }
}

/// For a non-empty search term the request targets the everything endpoint
/// and carries the term with the popularity sort, whatever the category and
/// country selected.
pub proof fn lemma_search_url(cat: Category, country: Country, term: Seq<char>)
    requires
        term.len() > 0,
    ensures
        endpoint_for(term) == "everything"@,
        query_text(cat, country, term) == "q="@ + term + "&sortBy=popularity"@,
        contains_sub(plain_url(cat, country, term), "q="@ + term + "&sortBy=popularity"@),
{
    let u = plain_url(cat, country, term);
    let head = base_url_text() + "/"@ + "everything"@ + "?"@;
    let sub = "q="@ + term + "&sortBy=popularity"@;
    assert(u =~= head + sub + Seq::<char>::empty());
    lemma_contains_middle(head, sub, Seq::<char>::empty());
}

proof fn lemma_url_safe_upto(s: Seq<char>)
    requires
        s.len() <= 18,
        s.len() > 0 ==> url_safe_char(s[0]),
        s.len() > 1 ==> url_safe_char(s[1]),
        s.len() > 2 ==> url_safe_char(s[2]),
        s.len() > 3 ==> url_safe_char(s[3]),
        s.len() > 4 ==> url_safe_char(s[4]),
        s.len() > 5 ==> url_safe_char(s[5]),
        s.len() > 6 ==> url_safe_char(s[6]),
        s.len() > 7 ==> url_safe_char(s[7]),
        s.len() > 8 ==> url_safe_char(s[8]),
        s.len() > 9 ==> url_safe_char(s[9]),
        s.len() > 10 ==> url_safe_char(s[10]),
        s.len() > 11 ==> url_safe_char(s[11]),
        s.len() > 12 ==> url_safe_char(s[12]),
        s.len() > 13 ==> url_safe_char(s[13]),
        s.len() > 14 ==> url_safe_char(s[14]),
        s.len() > 15 ==> url_safe_char(s[15]),
        s.len() > 16 ==> url_safe_char(s[16]),
        s.len() > 17 ==> url_safe_char(s[17]),
    ensures
        url_safe(s),
{
    assert forall|i: int| 0 <= i < s.len() implies url_safe_char(s[i]) by {
        if i == 0 {
        } else if i == 1 {
        } else if i == 2 {
        } else if i == 3 {
        } else if i == 4 {
        } else if i == 5 {
        } else if i == 6 {
        } else if i == 7 {
        } else if i == 8 {
        } else if i == 9 {
        } else if i == 10 {
        } else if i == 11 {
        } else if i == 12 {
        } else if i == 13 {
        } else if i == 14 {
        } else if i == 15 {
        } else if i == 16 {
        } else {
            assert(i == 17);
        }
    }
}

/// Joining two strings the query encoding leaves alone yields another.
proof fn lemma_url_safe_concat(a: Seq<char>, b: Seq<char>)
    requires
        url_safe(a),
        url_safe(b),
    ensures
        url_safe(a + b),
{
    assert forall|i: int| 0 <= i < (a + b).len() implies url_safe_char((a + b)[i]) by {
        if i < a.len() {
            assert((a + b)[i] == a[i]);
        } else {
            assert((a + b)[i] == b[i - a.len()]);
        }
    }
}

/// The fixed pieces of every query string pass the query encoding unchanged.
proof fn lemma_query_literals_safe()
    ensures
        url_safe("country="@),
        url_safe("&category="@),
        url_safe("q="@),
        url_safe("&sortBy=popularity"@),
{
    reveal_strlit("country=");
    lemma_url_safe_upto("country="@);
    reveal_strlit("&category=");
    lemma_url_safe_upto("&category="@);
    reveal_strlit("q=");
    lemma_url_safe_upto("q="@);
    reveal_strlit("&sortBy=popularity");
    lemma_url_safe_upto("&sortBy=popularity"@);
}

/// Every country code is two characters that the query encoding leaves alone.
proof fn lemma_country_code_props(c: Country)
    ensures
        url_safe(country_code(c)),
        country_code(c).len() == 2,
{
    reveal_strlit("ar");
    lemma_url_safe_upto("ar"@);
    reveal_strlit("au");
    lemma_url_safe_upto("au"@);
    reveal_strlit("at");
    lemma_url_safe_upto("at"@);
    reveal_strlit("be");
    lemma_url_safe_upto("be"@);
    reveal_strlit("br");
    lemma_url_safe_upto("br"@);
    reveal_strlit("bg");
    lemma_url_safe_upto("bg"@);
    reveal_strlit("ca");
    lemma_url_safe_upto("ca"@);
    reveal_strlit("cn");
    lemma_url_safe_upto("cn"@);
    reveal_strlit("co");
    lemma_url_safe_upto("co"@);
    reveal_strlit("cu");
    lemma_url_safe_upto("cu"@);
    reveal_strlit("cz");
    lemma_url_safe_upto("cz"@);
    reveal_strlit("eg");
    lemma_url_safe_upto("eg"@);
    reveal_strlit("fr");
    lemma_url_safe_upto("fr"@);
    reveal_strlit("de");
    lemma_url_safe_upto("de"@);
    reveal_strlit("gr");
    lemma_url_safe_upto("gr"@);
    reveal_strlit("hk");
    lemma_url_safe_upto("hk"@);
    reveal_strlit("hu");
    lemma_url_safe_upto("hu"@);
    reveal_strlit("in");
    lemma_url_safe_upto("in"@);
    reveal_strlit("id");
    lemma_url_safe_upto("id"@);
    reveal_strlit("ie");
    lemma_url_safe_upto("ie"@);
    reveal_strlit("il");
    lemma_url_safe_upto("il"@);
    reveal_strlit("it");
    lemma_url_safe_upto("it"@);
    reveal_strlit("jp");
    lemma_url_safe_upto("jp"@);
    reveal_strlit("lv");
    lemma_url_safe_upto("lv"@);
    reveal_strlit("lt");
    lemma_url_safe_upto("lt"@);
    reveal_strlit("my");
    lemma_url_safe_upto("my"@);
    reveal_strlit("mx");
    lemma_url_safe_upto("mx"@);
    reveal_strlit("ma");
    lemma_url_safe_upto("ma"@);
    reveal_strlit("nl");
    lemma_url_safe_upto("nl"@);
    reveal_strlit("nz");
    lemma_url_safe_upto("nz"@);
    reveal_strlit("ng");
    lemma_url_safe_upto("ng"@);
    reveal_strlit("no");
    lemma_url_safe_upto("no"@);
    reveal_strlit("ph");
    lemma_url_safe_upto("ph"@);
    reveal_strlit("pl");
    lemma_url_safe_upto("pl"@);
    reveal_strlit("pt");
    lemma_url_safe_upto("pt"@);
    reveal_strlit("ro");
    lemma_url_safe_upto("ro"@);
    reveal_strlit("ru");
    lemma_url_safe_upto("ru"@);
    reveal_strlit("sa");
    lemma_url_safe_upto("sa"@);
    reveal_strlit("rs");
    lemma_url_safe_upto("rs"@);
    reveal_strlit("sg");
    lemma_url_safe_upto("sg"@);
    reveal_strlit("sk");
    lemma_url_safe_upto("sk"@);
    reveal_strlit("si");
    lemma_url_safe_upto("si"@);
    reveal_strlit("za");
    lemma_url_safe_upto("za"@);
    reveal_strlit("kr");
    lemma_url_safe_upto("kr"@);
    reveal_strlit("se");
    lemma_url_safe_upto("se"@);
    reveal_strlit("ch");
    lemma_url_safe_upto("ch"@);
    reveal_strlit("tw");
    lemma_url_safe_upto("tw"@);
    reveal_strlit("th");
    lemma_url_safe_upto("th"@);
    reveal_strlit("tr");
    lemma_url_safe_upto("tr"@);
    reveal_strlit("ua");
    lemma_url_safe_upto("ua"@);
    reveal_strlit("ae");
    lemma_url_safe_upto("ae"@);
    reveal_strlit("gb");
    lemma_url_safe_upto("gb"@);
    reveal_strlit("us");
    lemma_url_safe_upto("us"@);
    reveal_strlit("ve");
    lemma_url_safe_upto("ve"@);
}

/// Every category label the query string can carry passes the query encoding
/// unchanged; only General, which is never emitted, holds a space.
proof fn lemma_category_label_safe(c: Category)
    requires
        c != Category::General,
    ensures
        url_safe(category_label(c)),
{
    reveal_strlit("Business");
    lemma_url_safe_upto("Business"@);
    reveal_strlit("Entertainment");
    lemma_url_safe_upto("Entertainment"@);
    reveal_strlit("Health");
    lemma_url_safe_upto("Health"@);
    reveal_strlit("Science");
    lemma_url_safe_upto("Science"@);
    reveal_strlit("Search");
    lemma_url_safe_upto("Search"@);
    reveal_strlit("Sports");
    lemma_url_safe_upto("Sports"@);
    reveal_strlit("Technology");
    lemma_url_safe_upto("Technology"@);
}

} // verus!
