//! Articles as the front end sees them: the full article, its summary for
//! listings, and the drafts of an author.

use vstd::prelude::*;
use crate::credentials::{can_write_article, session_has, Capability, Credentials};
use crate::database::DBError;

verus! {

/// Relies on std's clock reading; a creation time is carried, never inspected.
#[verifier::external_type_specification]
#[verifier::external_body]
pub struct ExSystemTime(std::time::SystemTime);

/// Relies on uuid's identifier type; a draft's identifier is carried, never
/// inspected.
#[verifier::external_type_specification]
#[verifier::external_body]
pub struct ExUuid(uuid::Uuid);

/// One row of the query that joins the articles with their authors.
pub struct ArticleRow {
    pub id: i32,
    pub headline_cn: String,
    pub date_created: std::time::SystemTime,
    pub article_body: String,
    pub summary: String,
    pub username: String,
    pub image: Option<String>,
    pub display_name: Option<String>,
}

/// A published article, whole.
#[derive(Debug, PartialEq)]
pub struct Article {
    pub id: i32,
    pub headline_cn: String,
    pub date_created: std::time::SystemTime,
    pub article_body: String,
    pub summary: String,
    pub author: String,
    pub image: Option<String>,
}

/// A published article without its body, for listings.
#[derive(Debug, PartialEq)]
pub struct ArticleSummary {
    pub id: i32,
    pub headline_cn: String,
    pub date_created: std::time::SystemTime,
    pub summary: String,
    pub author: String,
    pub image: Option<String>,
}

/// An unpublished article; a draft may not have a headline yet.
#[derive(Debug, PartialEq)]
pub struct TempArticleSummary {
    pub id: uuid::Uuid,
    pub headline_cn: Option<String>,
    pub date_created: std::time::SystemTime,
}

/// The name an article is signed with: the author's display name where one
/// is set, the user name otherwise.
pub open spec fn author_of(display_name: Option<String>, username: String) -> String {
    match display_name {
        Some(name) => name,
        None => username,
    }
}

/// The full article a row stands for.
pub open spec fn article_of(row: ArticleRow) -> Article {
    Article {
        id: row.id,
        headline_cn: row.headline_cn,
        date_created: row.date_created,
        article_body: row.article_body,
        summary: row.summary,
        author: author_of(row.display_name, row.username),
        image: row.image,
    }
}

/// An article with its body left out.
pub open spec fn summary_of(article: Article) -> ArticleSummary {
    ArticleSummary {
        id: article.id,
        headline_cn: article.headline_cn,
        date_created: article.date_created,
        summary: article.summary,
        author: article.author,
        image: article.image,
    }
}

pub fn author_name(display_name: Option<String>, username: String) -> (r: String)
    ensures
        r == author_of(display_name, username),
{
    match display_name {
        Some(name) => name,
        None => username,
    }
}

/// The full article of a joined row.
pub fn article_from_row(row: ArticleRow) -> (r: Article)
    ensures
        r == article_of(row),
{
    let author = author_name(row.display_name, row.username);
    Article {
        id: row.id,
        headline_cn: row.headline_cn,
        date_created: row.date_created,
        article_body: row.article_body,
        summary: row.summary,
        author,
        image: row.image,
    }
}

/// The summary of an article.
pub fn summarize(article: Article) -> (r: ArticleSummary)
    ensures
        r == summary_of(article),
{
    ArticleSummary {
        id: article.id,
        headline_cn: article.headline_cn,
        date_created: article.date_created,
        summary: article.summary,
        author: article.author,
        image: article.image,
    }
}

/// The summary of a joined row, signed as its full article is.
pub fn summary_from_row(row: ArticleRow) -> (r: ArticleSummary)
    ensures
        r == summary_of(article_of(row)),
{
    summarize(article_from_row(row))
}

/// The summaries of the published articles, in the order of the rows.
pub fn get_articles(fetched: Result<Vec<ArticleRow>, DBError>) -> (r: Result<Vec<ArticleSummary>, DBError>)
    ensures
        match fetched {
            Ok(rows) => r is Ok && r->Ok_0@ == rows@.map_values(|row: ArticleRow| summary_of(article_of(row))),
            Err(e) => r == Err::<Vec<ArticleSummary>, DBError>(e),
        },
{
    match fetched {
        Ok(rows) => {
            let ghost all = rows@;
            let mut out: Vec<ArticleSummary> = Vec::new();
            for row in iter: rows
                invariant
                    iter.seq() == all,
                    out@ == all.take(iter.index() as int).map_values(
                        |row: ArticleRow| summary_of(article_of(row)),
                    ),
            {
                proof {
                    assert(all.take(iter.index() as int + 1) =~= all.take(iter.index() as int).push(row));
                }
                out.push(summary_from_row(row));
                proof {
                    assert(out@ =~= all.take(iter.index() as int + 1).map_values(
                        |row: ArticleRow| summary_of(article_of(row)),
                    ));
                }
            }
            proof {
                assert(all.take(all.len() as int) =~= all);
            }
            Ok(out)
        },
        Err(e) => Err(e),
    }
}

/// The article a row stands for, if the query found one.
pub fn get_article(fetched: Result<ArticleRow, DBError>) -> (r: Result<Article, DBError>)
    ensures
        match fetched {
            Ok(row) => r == Ok::<Article, DBError>(article_of(row)),
            Err(e) => r == Err::<Article, DBError>(e),
        },
{
    match fetched {
        Ok(row) => Ok(article_from_row(row)),
        Err(e) => Err(e),
    }
}

/// The listing the front end shows: a failed query gives an empty list, so
/// that a datastore failure never breaks the page.
pub fn articles_or_empty(listed: Result<Vec<ArticleSummary>, DBError>) -> (r: Vec<ArticleSummary>)
    ensures
        match listed {
            Ok(list) => r == list,
            Err(_) => r@ == Seq::<ArticleSummary>::empty(),
        },
{
    match listed {
        Ok(list) => list,
        Err(_) => Vec::new(),
    }
}

/// The article the front end shows: absent when it was not found or the
/// datastore failed, alike.
pub fn article_or_none(found: Result<Article, DBError>) -> (r: Option<Article>)
    ensures
        match found {
            Ok(article) => r == Some(article),
            Err(_) => r is None,
        },
{
    match found {
        Ok(article) => Some(article),
        Err(_) => None,
    }
}

/// The listing of published articles: their summaries in row order, or an
/// empty list when the query failed.
pub fn list_articles(fetched: Result<Vec<ArticleRow>, DBError>) -> (r: Vec<ArticleSummary>)
    ensures
        match fetched {
            Ok(rows) => r@ == rows@.map_values(|row: ArticleRow| summary_of(article_of(row))),
            Err(_) => r@ == Seq::<ArticleSummary>::empty(),
        },
{
    articles_or_empty(get_articles(fetched))
}

/// Both projections sign an article alike: with the author's display name
/// where one is set, with the user name where none is.
pub proof fn lemma_author_fallback(row: ArticleRow)
    ensures
        row.display_name is Some ==> article_of(row).author == row.display_name->0,
        row.display_name is None ==> article_of(row).author == row.username,
        summary_of(article_of(row)).author == article_of(row).author,
{
}

/// Why a request for drafts was turned away.
#[derive(Clone, Copy, Debug, PartialEq, Eq, Structural)]
pub enum AccessError {
    /// The caller is anonymous or holds no role that may write articles.
    Unauthorized,
}

/// Whose drafts a session may list: its own user name when it may write
/// articles, a rejection otherwise (never an empty list, so that "nothing
/// to show" and "not allowed to ask" stay apart).
pub fn articles_in_progress(session: Option<Credentials>) -> (r: Result<String, AccessError>)
    ensures
        session_has(session, Capability::AuthorContent) ==> r == Ok::<String, AccessError>(
            session->0.username,
        ),
        !session_has(session, Capability::AuthorContent) ==> r == Err::<String, AccessError>(
            AccessError::Unauthorized,
        ),
{
    if can_write_article(&session) {
        match session {
            Some(c) => Ok(c.username),
            None => Err(AccessError::Unauthorized),
        }
    } else {
        Err(AccessError::Unauthorized)
    }
}

} // verus!
