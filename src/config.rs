//! What one request asks for: the endpoint, the country and the key.
use vstd::prelude::*;
use vstd::string::StringExecFns;

verus! {

/// The country whose headlines are asked for.
#[derive(Debug, Clone, Copy, PartialEq, Eq, Structural)]
pub enum Country {
    Us,
}

/// The path segment of the API that is asked.
#[derive(Debug, Clone, Copy, PartialEq, Eq, Structural)]
pub enum Endpoint {
    TopHeadlines,
}

/// The text that stands for a country in the query string.
pub open spec fn country_text(c: Country) -> Seq<char> {
    match c {
        Country::Us => seq!['u', 's'],
    }
}

/// The text that stands for an endpoint in the path.
pub open spec fn endpoint_text(e: Endpoint) -> Seq<char> {
    match e {
        Endpoint::TopHeadlines => seq![
            't', 'o', 'p', '-', 'h', 'e', 'a', 'd', 'l', 'i', 'n', 'e', 's'
        ],
    }
}

impl Country {
    /// The wire form of the country.
    pub fn to_string(&self) -> (r: String)
        ensures
            r@ == country_text(*self),
    {
        match self {
            Country::Us => {
                let r = String::from_str("us");
                proof {
                    reveal_strlit("us");
                }
                assert(r@ =~= country_text(*self));
                r
            },
        }
    }
}

impl Endpoint {
    /// The wire form of the endpoint.
    pub fn to_string(&self) -> (r: String)
        ensures
            r@ == endpoint_text(*self),
    {
        match self {
            Endpoint::TopHeadlines => {
                let r = String::from_str("top-headlines");
                proof {
                    reveal_strlit("top-headlines");
                }
                assert(r@ =~= endpoint_text(*self));
                r
            },
        }
    }
}

/// The configuration of a request: the key sent with it, the endpoint and
/// the country it asks for.
pub struct NewsApi {
    api_key: String,
    endpoint: Endpoint,
    country: Country,
}

impl NewsApi {
    /// The key that the request carries.
    pub closed spec fn key(&self) -> Seq<char> {
        self.api_key@
    }

    /// The endpoint that the request asks.
    pub closed spec fn endpoint_of(&self) -> Endpoint {
        self.endpoint
    }

    /// The country that the request asks for.
    pub closed spec fn country_of(&self) -> Country {
        self.country
    }

    /// A configuration with the given key, asking for the top headlines of
    /// the United States.
    pub fn new(api_key: &str) -> (r: Self)
        ensures
            r.key() == api_key@,
            r.endpoint_of() == Endpoint::TopHeadlines,
            r.country_of() == Country::Us,
    {
        let api = NewsApi {
            api_key: String::from_str(api_key),
            endpoint: Endpoint::TopHeadlines,
            country: Country::Us,
        };
        api
    }

    /// Selects the endpoint; the rest stays.
    pub fn endpoint(&mut self, endpoint: Endpoint) -> (r: &mut Self)
        ensures
            r.endpoint_of() == endpoint,
            r.country_of() == old(self).country_of(),
            r.key() == old(self).key(),
            *final(self) == *final(r),
    {
        self.endpoint = endpoint;
        self
    }

    /// Selects the country; the rest stays.
    pub fn country(&mut self, country: Country) -> (r: &mut Self)
        ensures
            r.country_of() == country,
            r.endpoint_of() == old(self).endpoint_of(),
            r.key() == old(self).key(),
            *final(self) == *final(r),
    {
        self.country = country;
        self
    }

    /// The wire form of the selected endpoint.
    pub fn endpoint_text_of(&self) -> (r: String)
        ensures
            r@ == endpoint_text(self.endpoint_of()),
    {
        self.endpoint.to_string()
    }

    /// The wire form of the selected country.
    pub fn country_text_of(&self) -> (r: String)
        ensures
            r@ == country_text(self.country_of()),
    {
        self.country.to_string()
    }

    /// The key that the request carries, for its `Authorization` header.
    pub fn api_key(&self) -> (r: &str)
        ensures
            r@ == self.key(),
    {
        self.api_key.as_str()
    }
}

} // verus!
