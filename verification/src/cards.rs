//! Conversion of raw article records into the domain-facing cards the UI
//! consumes: one card per record, in the record order, with a fixed
//! placeholder standing in for a missing description.

use vstd::prelude::*;
use vstd::string::*;

use crate::news::{Article, NewsAPIResponse, NewsApiError, reason_view};
use crate::placeholder_view;

verus! {

/// The domain-normalized article representation delivered to the UI.
#[derive(Debug)]
pub struct NewsCardData {
    pub title: String,
    pub description: String,
    pub url: String,
}

/// What it means for a card to be the rendering of a record: title and url
/// carried over, and the description either carried over or, when the record
/// has none, replaced by the placeholder.
pub open spec fn is_card_of(c: NewsCardData, a: Article) -> bool {
    &&& c.title@ == a.title@
    &&& c.url@ == a.url@
    &&& match a.description {
        Some(d) => c.description@ == d@,
        None => c.description@ == placeholder_view(),
    }
}

/// The card for one record.
pub fn to_news_card(a: &Article) -> (c: NewsCardData)
    ensures
        is_card_of(c, *a),
{
    let description = match &a.description {
        Some(d) => d.clone(),
        None => String::from_str("..."),
    };
    NewsCardData { title: a.title.clone(), description, url: a.url.clone() }
}

/// The cards for a sequence of records: one per record, in the same order.
pub fn cards_of_articles(articles: &Vec<Article>) -> (cs: Vec<NewsCardData>)
    ensures
        cs@.len() == articles@.len(),
        forall|i: int| 0 <= i < articles@.len() ==> is_card_of(#[trigger] cs@[i], articles@[i]),
{
    let mut cs: Vec<NewsCardData> = Vec::new();
    let mut i: usize = 0;
    while i < articles.len()
        invariant
            0 <= i <= articles@.len(),
            cs@.len() == i,
            forall|j: int| 0 <= j < i ==> is_card_of(#[trigger] cs@[j], articles@[j]),
        decreases articles@.len() - i,
    {
        cs.push(to_news_card(&articles[i]));
        i = i + 1;
    }
    cs
}

/// One whole fetch outcome, reduced to what the worker emits: for an envelope
/// whose status is ok, the cards of its records, one per record and in the
/// envelope's order; for any other envelope, no cards and exactly the
/// rejection its error code maps to.
pub fn process_envelope(resp: NewsAPIResponse) -> (r: Result<Vec<NewsCardData>, NewsApiError>)
    ensures
        resp.status@ == "ok"@ ==> (r matches Ok(cs) && cs@.len() == resp.articles@.len()
            && (forall|i: int|
            0 <= i < resp.articles@.len() ==> is_card_of(#[trigger] cs@[i], resp.articles@[i]))),
        resp.status@ != "ok"@ ==> (r matches Err(e) && e matches NewsApiError::Rejected(s)
            && s@ == reason_view(resp.code)),
{
    match resp.validate() {
        Ok(v) => Ok(cards_of_articles(&v.articles)),
        Err(e) => Err(e),
    }
}

} // verus!
