//! The response envelope of the news service: the article cards it carries,
//! and the error taxonomy every failure is mapped into.

use vstd::prelude::*;
use vstd::string::StringExecFns;
use crate::timestamp::{ObserverNow, ISODate, observer_clock, can_normalize, date_text};
use crate::scan::scan_fields;

verus! {

/// Every way a fetch can fail: a URL that does not parse, a transport
/// failure, a body that does not decode, or an envelope the service itself
/// marked as failed.
#[derive(Debug)]
pub enum NewsAPIError {
    RequestFailed(String),
    FailedResponseToJson(String),
    UrlParsing,
    BadRequest(String),
}

impl NewsAPIError {
    /// The user-facing text of this error.
    pub open spec fn text(self) -> Seq<char> {
        match self {
            NewsAPIError::RequestFailed(_) => {
                "Unable to fetch articles at this time.\n\nCheck your internet connection."@
            },
            NewsAPIError::FailedResponseToJson(_) => {
                "Oops! Unable to read the news! Try again soon."@
            },
            NewsAPIError::UrlParsing => "Url parsing failed. Please contact creator."@,
            NewsAPIError::BadRequest(s) => "Not a Prometheus error.\nwww.newsapi.org error: "@
                + s@,
        }
    }

    /// Renders the user-facing text of this error.
    pub fn message(&self) -> (r: String)
        ensures
            r@ == self.text(),
    {
        match self {
            NewsAPIError::RequestFailed(_) => {
                "Unable to fetch articles at this time.\n\nCheck your internet connection.".to_owned()
            },
            NewsAPIError::FailedResponseToJson(_) => {
                "Oops! Unable to read the news! Try again soon.".to_owned()
            },
            NewsAPIError::UrlParsing => "Url parsing failed. Please contact creator.".to_owned(),
            NewsAPIError::BadRequest(s) => {
                let mut m = "Not a Prometheus error.\nwww.newsapi.org error: ".to_owned();
                m.append(s.as_str());
                m
            },
        }
    }
}

/// One article as the service reports it.
pub struct NewsCard {
    pub author: Option<String>,
    pub content: Option<String>,
    pub published_at: String,
    pub description: Option<String>,
    pub title: String,
    pub url: String,
}

impl Clone for NewsCard {
    fn clone(&self) -> (r: Self)
        ensures
            r == *self,
    {
        NewsCard {
            author: match &self.author {
                Some(s) => Some(s.clone()),
                None => None,
            },
            content: match &self.content {
                Some(s) => Some(s.clone()),
                None => None,
            },
            published_at: self.published_at.clone(),
            description: match &self.description {
                Some(s) => Some(s.clone()),
                None => None,
            },
            title: self.title.clone(),
            url: self.url.clone(),
        }
    }
}

impl NewsCard {
    /// Builds a card from its plain parts.
    pub fn new(
        author: Option<String>,
        content: Option<String>,
        published_at: String,
        description: Option<String>,
        title: String,
        url: String,
    ) -> (r: NewsCard)
        ensures
            r.author == author,
            r.content == content,
            r.published_at == published_at,
            r.description == description,
            r.title == title,
            r.url == url,
    {
        NewsCard { author, content, published_at, description, title, url }
    }

    pub fn author(&self) -> (r: Option<&String>)
        ensures
            r is Some <==> self.author is Some,
            r matches Some(a) ==> *a == self.author->0,
    {
        self.author.as_ref()
    }

    pub fn content(&self) -> (r: Option<&String>)
        ensures
            r is Some <==> self.content is Some,
            r matches Some(c) ==> *c == self.content->0,
    {
        self.content.as_ref()
    }

    /// The article's timestamp, normalized against the observer's clock and
    /// rendered for display.
    pub fn date(&self) -> (r: String)
        requires
            can_normalize(self.published_at@),
        ensures
            exists|now: ObserverNow| now.wf() && r@ == date_text(self.published_at@, now),
    {
        let now = observer_clock();
        let date_time = ISODate::new(self.published_at.as_str(), now);
        let r = date_time.to_string();
        proof {
            assert(now.wf() && r@ == date_text(self.published_at@, now));
        }
        r
    }

    /// The article's timestamp rendered for display, or nothing where the
    /// parsed fields leave no room for the rollover arithmetic.
    pub fn try_date(&self) -> (r: Option<String>)
        ensures
            r is Some <==> can_normalize(self.published_at@),
            r matches Some(d) ==> exists|now: ObserverNow|
                now.wf() && d@ == date_text(self.published_at@, now),
    {
        let f = scan_fields(self.published_at.as_str());
        if f.0 < i32::MAX && f.3 <= i32::MAX - 24 {
            Some(self.date())
        } else {
            None
        }
    }

    pub fn description(&self) -> (r: Option<&String>)
        ensures
            r is Some <==> self.description is Some,
            r matches Some(d) ==> *d == self.description->0,
    {
        self.description.as_ref()
    }

    pub fn title(&self) -> (r: &str)
        ensures
            r@ == self.title@,
    {
        self.title.as_str()
    }

    pub fn url(&self) -> (r: &str)
        ensures
            r@ == self.url@,
    {
        self.url.as_str()
    }
}

/// The envelope the service answers with: a status, the error fields of a
/// failed request, and the articles of a successful one.
pub struct NewsAPIResponse {
    pub status: String,
    pub code: Option<String>,
    pub message: Option<String>,
    pub articles: Vec<NewsCard>,
}

impl NewsAPIResponse {
    /// Builds an envelope from its plain parts.
    pub fn new(
        status: String,
        code: Option<String>,
        message: Option<String>,
        articles: Vec<NewsCard>,
    ) -> (r: NewsAPIResponse)
        ensures
            r.status == status,
            r.code == code,
            r.message == message,
            r.articles == articles,
    {
        NewsAPIResponse { status, code, message, articles }
    }
}

} // verus!
