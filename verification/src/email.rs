//! Email composition: the digest subject and the HTML body, one visual block
//! per article in input order, with the e-book attached by the caller.

use vstd::prelude::*;
use vstd::string::StringExecFns;

use crate::epub::html_of;
use crate::epub::markdown_to_html;
use crate::models::Article;
use crate::models::ArticleView;

verus! {

/// The subject line of the digest email for the given send date.
pub open spec fn email_subject_spec(date: Seq<char>) -> Seq<char> {
    "Your YouTube Digest - "@ + date
}

/// Builds the subject line of the digest email.
pub fn email_subject(date: &str) -> (r: String)
    ensures
        r@ == email_subject_spec(date@),
{
    let mut s = String::new();
    s.append("Your YouTube Digest - ");
    s.append(date);
    proof {
        assert(s@ =~= email_subject_spec(date@));
    }
    s
}

/// The visual block one article becomes: an intro line naming the source
/// video and channel, the rendered article body, and a link back to the
/// source video.
pub open spec fn article_block_spec(a: ArticleView) -> Seq<char> {
    "<div class=\"article\">\n                    <div class=\"article-intro\">\n                        <em>This article is based on the video \"<strong>"@ + a.title + "</strong>\" from the YouTube channel <strong>"@ + a.channel + "</strong>.</em>\n                    </div>\n                    <div class=\"article-content\">"@ + html_of(a.content, false, false) + "</div>\n                    <a href=\""@ + a.url
        + "\" class=\"watch-link\">Watch the original video</a>\n                </div>"@
}

/// Builds the visual block for one article.
fn article_block(a: &Article) -> (r: String)
    ensures
        r@ == article_block_spec(a.deep_view()),
{
    let body = markdown_to_html(a.content.as_str(), false, false);
    let mut s = String::new();
    s.append("<div class=\"article\">\n                    <div class=\"article-intro\">\n                        <em>This article is based on the video \"<strong>");
    s.append(a.title.as_str());
    s.append("</strong>\" from the YouTube channel <strong>");
    s.append(a.channel.as_str());
    s.append("</strong>.</em>\n                    </div>\n                    <div class=\"article-content\">");
    s.append(body.as_str());
    s.append("</div>\n                    <a href=\"");
    s.append(a.url.as_str());
    s.append("\" class=\"watch-link\">Watch the original video</a>\n                </div>");
    proof {
        assert(s@ =~= article_block_spec(a.deep_view()));
    }
    s
}

/// The blocks of every article, in input order.
pub open spec fn article_blocks_spec(articles: Seq<ArticleView>) -> Seq<char>
    decreases articles.len(),
{
    if articles.len() == 0 {
        Seq::empty()
    } else {
        article_blocks_spec(articles.drop_last()) + article_block_spec(articles.last())
    }
}

/// The digest email body: a header naming the digest and the send date, a
/// note on the attached e-book, one block per article in input order, and a
/// footer.
pub open spec fn email_body_spec(articles: Seq<ArticleView>, date: Seq<char>) -> Seq<char> {
    "<!DOCTYPE html>\n            <html>\n            <head>\n                <style>\n                    body { font-family: Georgia, serif; font-size: 18px; max-width: 700px; margin: 0 auto; padding: 20px; background-color: #f9f9f9; color: #333; }\n                    .header { text-align: center; padding: 30px 0; border-bottom: 3px solid #333; margin-bottom: 30px; }\n                    .header h1 { margin: 0; font-size: 32px; letter-spacing: 2px; }\n                    .header p { color: #666; font-size: 18px; margin: 10px 0 0 0; }\n                    .article { background: white; padding: 30px; margin-bottom: 30px; border-radius: 5px; box-shadow: 0 2px 5px rgba(0,0,0,0.1); }\n                    .article-intro { background: #f8f8f8; padding: 15px 20px; border-left: 4px solid #666; margin-bottom: 25px; font-size: 16px; color: #555; line-height: 1.6; }\n                    .article-content { font-size: 18px; line-height: 1.9; }\n                    .article-content h1 { color: #222; font-size: 26px; margin-top: 25px; }\n                    .article-content h2 { color: #222; font-size: 22px; margin-top: 25px; }\n                    .watch-link { display: inline-block; margin-top: 20px; padding: 12px 24px; background: #ff0000; color: white !important; text-decoration: none; border-radius: 5px; font-size: 16px; }\n                    .footer { text-align: center; color: #999; font-size: 14px; padding: 20px; }\n                    .epub-note { text-align: center; background: #e8f4e8; padding: 15px; border-radius: 5px; margin-bottom: 30px; font-size: 16px; }\n                </style>\n            </head>\n            <body>\n                <div class=\"header\">\n                    <h1>YOUR YOUTUBE DIGEST</h1>\n                    <p>"@ + date + "</p>\n                </div>\n                <div class=\"epub-note\">\n                    📚 EPUB ebook attached - open on your phone's ebook reader!\n                </div>\n                "@ + article_blocks_spec(articles) + "\n                <div class=\"footer\">Generated by YouTube Newsletter Bot</div>\n            </body>\n            </html>"@
}

/// Composes the digest email body for the given articles and send date.
pub fn create_html_body(articles: &Vec<Article>, date: &str) -> (r: String)
    ensures
        r@ == email_body_spec(articles.deep_view(), date@),
{
    let n = articles.len();
    let mut blocks = String::new();
    let mut i: usize = 0;
    while i < n
        invariant
            n == articles@.len(),
            0 <= i <= n,
            blocks@ == article_blocks_spec(articles.deep_view().take(i as int)),
        decreases n - i,
    {
        let ghost pre = articles.deep_view().take(i as int);
        let ghost post = articles.deep_view().take(i + 1int);
        proof {
            assert(post.drop_last() =~= pre);
        }
        let b = article_block(&articles[i]);
        blocks.append(b.as_str());
        i += 1;
    }
    proof {
        assert(articles.deep_view().take(n as int) =~= articles.deep_view());
    }
    let mut s = String::new();
    s.append("<!DOCTYPE html>\n            <html>\n            <head>\n                <style>\n                    body { font-family: Georgia, serif; font-size: 18px; max-width: 700px; margin: 0 auto; padding: 20px; background-color: #f9f9f9; color: #333; }\n                    .header { text-align: center; padding: 30px 0; border-bottom: 3px solid #333; margin-bottom: 30px; }\n                    .header h1 { margin: 0; font-size: 32px; letter-spacing: 2px; }\n                    .header p { color: #666; font-size: 18px; margin: 10px 0 0 0; }\n                    .article { background: white; padding: 30px; margin-bottom: 30px; border-radius: 5px; box-shadow: 0 2px 5px rgba(0,0,0,0.1); }\n                    .article-intro { background: #f8f8f8; padding: 15px 20px; border-left: 4px solid #666; margin-bottom: 25px; font-size: 16px; color: #555; line-height: 1.6; }\n                    .article-content { font-size: 18px; line-height: 1.9; }\n                    .article-content h1 { color: #222; font-size: 26px; margin-top: 25px; }\n                    .article-content h2 { color: #222; font-size: 22px; margin-top: 25px; }\n                    .watch-link { display: inline-block; margin-top: 20px; padding: 12px 24px; background: #ff0000; color: white !important; text-decoration: none; border-radius: 5px; font-size: 16px; }\n                    .footer { text-align: center; color: #999; font-size: 14px; padding: 20px; }\n                    .epub-note { text-align: center; background: #e8f4e8; padding: 15px; border-radius: 5px; margin-bottom: 30px; font-size: 16px; }\n                </style>\n            </head>\n            <body>\n                <div class=\"header\">\n                    <h1>YOUR YOUTUBE DIGEST</h1>\n                    <p>");
    s.append(date);
    s.append("</p>\n                </div>\n                <div class=\"epub-note\">\n                    📚 EPUB ebook attached - open on your phone's ebook reader!\n                </div>\n                ");
    s.append(blocks.as_str());
    s.append("\n                <div class=\"footer\">Generated by YouTube Newsletter Bot</div>\n            </body>\n            </html>");
    proof {
        assert(s@ =~= email_body_spec(articles.deep_view(), date@));
    }
    s
}

/// The name under which the e-book is written and attached.
pub fn output_file_name() -> (r: &'static str)
    ensures
        r@ == "newsletter.epub"@,
{
    "newsletter.epub"
}

/// The content type the e-book attachment is declared with.
pub fn attachment_content_type() -> (r: &'static str)
    ensures
        r@ == "application/epub+zip"@,
{
    "application/epub+zip"
}

/// Delivery runs exactly when both mail credentials are configured; with
/// either absent the deliver stage is skipped, and the e-book on disk remains
/// the run's artifact.
pub fn should_deliver(account: &Option<String>, credential: &Option<String>) -> (r: bool)
    ensures
        r == (account is Some && credential is Some),
{
    account.is_some() && credential.is_some()
}

} // verus!
