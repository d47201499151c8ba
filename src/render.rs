//! The text shown for a list of articles.
use vstd::prelude::*;
use vstd::string::StringExecFns;

use crate::article::Article;

verus! {

/// The heading above the articles.
pub open spec fn heading_text() -> Seq<char> {
    "Top headlines\n\n"@
}

/// The line that shows a headline.
pub open spec fn title_line(a: Article) -> Seq<char> {
    "`"@ + a.title@ + "`"@
}

/// The line that shows an address.
pub open spec fn url_line(a: Article) -> Seq<char> {
    "> *"@ + a.url@ + "*"@
}

/// The line that closes the block of an article.
pub open spec fn separator_text() -> Seq<char> {
    "---"@
}

/// Whether `lines` is the heading followed, for each article in turn, by its
/// headline, its address and a separator.
pub open spec fn shows_articles(lines: Seq<String>, articles: Seq<Article>) -> bool {
    &&& lines.len() == 1 + 3 * articles.len()
    &&& lines[0]@ == heading_text()
    &&& forall|i: int|
        0 <= i < articles.len() ==> {
            &&& (#[trigger] lines[1 + 3 * i])@ == title_line(articles[i])
            &&& lines[2 + 3 * i]@ == url_line(articles[i])
            &&& lines[3 + 3 * i]@ == separator_text()
        }
}

/// The lines to print for the articles, in their order: a heading, then a
/// block of three lines per article.
pub fn article_lines(articles: &Vec<Article>) -> (r: Vec<String>)
    requires
        1 + 3 * articles.len() <= usize::MAX,
    ensures
        shows_articles(r@, articles@),
{
    let mut lines: Vec<String> = Vec::new();
    lines.push(String::from_str("Top headlines\n\n"));
    let mut k: usize = 0;
    while k < articles.len()
        invariant
            k <= articles.len(),
            shows_articles(lines@, articles@.subrange(0, k as int)),
        decreases articles.len() - k,
    {
        let a = &articles[k];
        let title = String::from_str("`").concat(a.title()).concat("`");
        let url = String::from_str("> *").concat(a.url()).concat("*");
        let ghost before = lines@;
        lines.push(title);
        lines.push(url);
        lines.push(String::from_str("---"));
        k = k + 1;
        proof {
            let done = articles@.subrange(0, k as int);
            assert forall|i: int| 0 <= i < done.len() implies {
                &&& (#[trigger] lines@[1 + 3 * i])@ == title_line(done[i])
                &&& lines@[2 + 3 * i]@ == url_line(done[i])
                &&& lines@[3 + 3 * i]@ == separator_text()
            } by {
                if i < k - 1 {
                    assert(done[i] == articles@.subrange(0, k - 1)[i]);
                    assert(before[1 + 3 * i] == lines@[1 + 3 * i]);
                }
            }
        }
    }
    assert(articles@.subrange(0, k as int) =~= articles@);
    lines
}

} // verus!
