//! The decoded reply of the API and the articles it carries.
use vstd::prelude::*;

verus! {

/// One article: its headline and the address where it is published.
#[derive(Debug)]
pub struct Article {
    pub title: String,
    pub url: String,
}

impl Article {
    /// The headline.
    pub fn title(&self) -> (r: &str)
        ensures
            r@ == self.title@,
    {
        self.title.as_str()
    }

    /// The address of the article.
    pub fn url(&self) -> (r: &str)
        ensures
            r@ == self.url@,
    {
        self.url.as_str()
    }
}

/// The envelope of a reply: a status, the articles, and an error code that
/// the server sends when the status is not `ok`.
#[derive(Debug)]
pub struct NewsApiResponse {
    pub status: String,
    pub articles: Vec<Article>,
    pub code: Option<String>,
}

impl NewsApiResponse {
    /// The articles of the reply, in the order the server sent them.
    pub fn get_articles(&self) -> (r: &Vec<Article>)
        ensures
            r == &self.articles,
    {
        &self.articles
    }
}

} // verus!
