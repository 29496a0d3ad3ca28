//! Verified core of a news-reader: building queries against a remote news
//! service, classifying its response envelope, and normalizing the UTC
//! timestamps of articles into localized display strings.

pub mod calendar;
pub mod digits;
pub mod query;
pub mod response;
pub mod scan;
pub mod timestamp;
pub mod ui_state;

pub use query::{Category, Country, Endpoint, NewsAPI};
pub use response::{NewsAPIError, NewsAPIResponse, NewsCard};
pub use timestamp::{ISODate, ObserverNow};
pub use ui_state::{category_vec, country_vec, text_size_vec, RunState, TextSize};
