//! E-book assembly: each article's Markdown body is rendered to HTML, wrapped
//! in a per-chapter document, and registered, in input order, as one chapter
//! of the output container.

use vstd::prelude::*;
use vstd::string::StringExecFns;

use vstd::utf8::encode_scalar;
use vstd::utf8::encode_utf8;

use crate::errors::PipelineError;
use crate::models::Article;
use crate::models::ArticleView;
use crate::text::dec_digits;
use crate::text::lemma_dec_digits_len;
use crate::text::lemma_dec_digits_value;
use crate::text::pow10;
use crate::text::u64_to_dec;

verus! {

/// What pulldown_cmark renders for the given Markdown text with the tables
/// and strikethrough extensions switched as given; the result depends on the
/// text and the two options alone.
pub uninterp spec fn html_of(markdown: Seq<char>, tables: bool, strikethrough: bool) -> Seq<char>;

/// Relies on pulldown_cmark's Parser::new_ext and html::push_html: standard
/// Markdown rendering, with the tables and strikethrough extensions enabled
/// as asked.
#[verifier::external_body]
pub(crate) fn markdown_to_html(markdown: &str, tables: bool, strikethrough: bool) -> (r: String)
    ensures
        r@ == html_of(markdown@, tables, strikethrough),
{
    let mut options = pulldown_cmark::Options::empty();
    if tables {
        options.insert(pulldown_cmark::Options::ENABLE_TABLES);
    }
    if strikethrough {
        options.insert(pulldown_cmark::Options::ENABLE_STRIKETHROUGH);
    }
    let parser = pulldown_cmark::Parser::new_ext(markdown, options);
    let mut out = String::new();
    pulldown_cmark::html::push_html(&mut out, parser);
    out
}

#[verifier::external_type_specification]
#[verifier::external_body]
pub struct ExZipLibrary(epub_builder::ZipLibrary);

#[verifier::external_type_specification]
#[verifier::external_body]
pub struct ExEpubError(epub_builder::Error);

/// The e-book container under construction. The builder's own generic bound
/// names a trait its crate does not export, so the builder is held opaquely
/// in a field Verus does not read; the trusted operations below state how its
/// chapter list evolves.
#[verifier::external_body]
pub struct DigestBuilder {
    inner: epub_builder::EpubBuilder<epub_builder::ZipLibrary>,
}

/// The chapters registered so far in a builder, in registration order, each
/// as its file name, its title and its full document text.
pub uninterp spec fn epub_chapters(b: DigestBuilder) -> Seq<(Seq<char>, Seq<char>, Seq<char>)>;

/// Whether the builder's stylesheet resource has been registered.
pub uninterp spec fn epub_has_stylesheet(b: DigestBuilder) -> bool;

/// The bytes render an e-book container holding exactly the given chapters,
/// in order. The container also carries metadata, a generation timestamp and
/// a fresh identifier, which vary run to run, so the bytes are pinned no
/// further.
pub uninterp spec fn epub_container_of(
    bytes: Seq<u8>,
    chapters: Seq<(Seq<char>, Seq<char>, Seq<char>)>,
) -> bool;

/// The byte ceiling this crate keeps each container entry under: the zip
/// writer refuses an entry whose data outgrows its four-gigabyte size fields,
/// and this margin also leaves room for an incompressible entry's framing.
pub const ENTRY_BYTE_LIMIT: u64 = 0xF000_0000;

/// Relies on epub_builder::ZipLibrary::new: an in-memory zip writer primed
/// with the e-book mimetype entry. Writing that short, fresh entry into a
/// fresh byte buffer has no failing path, so the call succeeds.
#[verifier::external_body]
fn zip_library_new() -> (r: Result<epub_builder::ZipLibrary, epub_builder::Error>)
    ensures
        r is Ok,
{
    epub_builder::ZipLibrary::new()
}

/// Relies on epub_builder::EpubBuilder::new: a fresh builder holds no
/// chapters and no stylesheet. It writes only the two fixed container-layout
/// entries, fresh names into the in-memory buffer, so the call succeeds.
#[verifier::external_body]
fn epub_builder_new(zip: epub_builder::ZipLibrary) -> (r: Result<DigestBuilder, epub_builder::Error>)
    ensures
        r is Ok,
        r matches Ok(b) ==> epub_chapters(b) == Seq::<(Seq<char>, Seq<char>, Seq<char>)>::empty()
            && !epub_has_stylesheet(b),
{
    match epub_builder::EpubBuilder::new(zip) {
        Ok(inner) => Ok(DigestBuilder { inner }),
        Err(e) => Err(e),
    }
}

/// Relies on epub_builder::EpubBuilder::metadata: sets container-level
/// metadata and never touches the chapter list or the stylesheet; the keys
/// "author" and "title" are stored without any failing path.
#[verifier::external_body]
fn epub_set_metadata(b: &mut DigestBuilder, key: &str, value: &str) -> (r: Result<(), epub_builder::Error>)
    ensures
        epub_chapters(*final(b)) == epub_chapters(*old(b)),
        epub_has_stylesheet(*final(b)) == epub_has_stylesheet(*old(b)),
        key@ == "author"@ || key@ == "title"@ ==> r is Ok,
{
    match b.inner.metadata(key, value) {
        Ok(_) => Ok(()),
        Err(e) => Err(e),
    }
}

/// Relies on epub_builder::EpubBuilder::stylesheet: registers the text as the
/// container's stylesheet.css resource, not as a chapter. On a builder that
/// has no stylesheet yet, writing that fresh entry succeeds; the size bound
/// keeps the entry under the zip writer's ceiling.
#[verifier::external_body]
fn epub_set_stylesheet(b: &mut DigestBuilder, css: &str) -> (r: Result<(), epub_builder::Error>)
    requires
        encode_utf8(css@).len() <= ENTRY_BYTE_LIMIT,
    ensures
        epub_chapters(*final(b)) == epub_chapters(*old(b)),
        !epub_has_stylesheet(*old(b)) ==> (r is Ok && epub_has_stylesheet(*final(b))),
{
    match b.inner.stylesheet(css.as_bytes()) {
        Ok(_) => Ok(()),
        Err(e) => Err(e),
    }
}

/// Relies on epub_builder::EpubBuilder::add_content: writes the chapter file
/// into the container and appends it, in call order, to the spine — and,
/// when its title is non-empty, to the table of contents; on failure nothing
/// is appended. With a file name no earlier chapter used, the write succeeds:
/// a repeated name is the one refusal its zip writer has on an entry within
/// the size ceiling. The name bound keeps clear of the writer's sixteen-bit
/// name-length field, inside which it aborts rather than fails; the reserved
/// stylesheet name is kept clear of chapter names.
#[verifier::external_body]
fn epub_add_chapter(b: &mut DigestBuilder, href: &str, title: &str, html: &str) -> (r: Result<(), epub_builder::Error>)
    requires
        href@.len() <= 16000,
        href@ != "stylesheet.css"@,
        encode_utf8(html@).len() <= ENTRY_BYTE_LIMIT,
    ensures
        r is Ok ==> epub_chapters(*final(b)) == epub_chapters(*old(b)).push(
            (href@, title@, html@),
        ),
        r is Err ==> epub_chapters(*final(b)) == epub_chapters(*old(b)),
        (forall|j: int|
            0 <= j < epub_chapters(*old(b)).len() ==> (#[trigger] epub_chapters(*old(b))[j]).0
                != href@) ==> r is Ok,
{
    let content = epub_builder::EpubContent::new(href, html.as_bytes()).title(title).reftype(
        epub_builder::ReferenceType::Text,
    );
    match b.inner.add_content(content) {
        Ok(_) => Ok(()),
        Err(e) => Err(e),
    }
}

/// Relies on epub_builder::EpubBuilder::generate: renders the container —
/// its manifest, its tables of contents and the registered chapter files —
/// from its fixed compiled-in templates into an in-memory byte buffer, which
/// has no failing path unless a chapter claimed one of the three entry names
/// the rendering itself writes. The output embeds a generation timestamp and
/// a fresh identifier, so only its chapter content is stated.
#[verifier::external_body]
fn epub_generate(b: DigestBuilder) -> (r: Result<Vec<u8>, epub_builder::Error>)
    ensures
        (forall|j: int|
            0 <= j < epub_chapters(b).len() ==> {
                let h = (#[trigger] epub_chapters(b)[j]).0;
                h != "content.opf"@ && h != "toc.ncx"@ && h != "nav.xhtml"@
            }) ==> r is Ok,
        r matches Ok(bytes) ==> epub_container_of(bytes@, epub_chapters(b)),
{
    let mut out: Vec<u8> = Vec::new();
    match b.inner.generate(&mut out) {
        Ok(_) => Ok(out),
        Err(e) => Err(e),
    }
}

/// Relies on epub_builder::Error's Display rendering, for diagnostics.
#[verifier::external_body]
fn epub_error_text(e: &epub_builder::Error) -> (r: String) {
    e.to_string()
}

/// One chapter of the output container: its file name inside the container,
/// its table-of-contents title, and its full document text.
#[derive(Debug, PartialEq, Eq)]
pub struct Chapter {
    pub href: String,
    pub title: String,
    pub html: String,
}

/// Mathematical model of a `Chapter`.
pub struct ChapterView {
    pub href: Seq<char>,
    pub title: Seq<char>,
    pub html: Seq<char>,
}

impl View for Chapter {
    type V = ChapterView;

    open spec fn view(&self) -> ChapterView {
        ChapterView { href: self.href@, title: self.title@, html: self.html@ }
    }
}

impl DeepView for Chapter {
    type V = ChapterView;

    open spec fn deep_view(&self) -> ChapterView {
        self.view()
    }
}

/// The opening of a chapter document, up to and including the byline that
/// names the channel and links the source video.
pub open spec fn chapter_prefix(a: ArticleView) -> Seq<char> {
    "<?xml version=\"1.0\" encoding=\"UTF-8\"?>\n<html xmlns=\"http://www.w3.org/1999/xhtml\">\n<head>\n  <title>"@
        + a.title
        + "</title>\n  <link rel=\"stylesheet\" type=\"text/css\" href=\"stylesheet.css\" />\n</head>\n<body>\n  <h1>"@
        + a.title + "</h1>\n  <p><i>Channel: "@ + a.channel + " | <a href=\""@ + a.url
        + "\">Watch Video</a></i></p>\n  "@
}

/// The closing of a chapter document.
pub open spec fn chapter_suffix() -> Seq<char> {
    "\n</body>\n</html>"@
}

/// A chapter document: the wrapper around the article's rendered body.
pub open spec fn chapter_html_spec(a: ArticleView) -> Seq<char> {
    chapter_prefix(a) + html_of(a.content, true, true) + chapter_suffix()
}

/// The file name of the chapter at position `i`.
pub open spec fn chapter_href_spec(i: nat) -> Seq<char> {
    "article_"@ + dec_digits(i) + ".xhtml"@
}

/// The chapter one article becomes at position `i`.
pub open spec fn chapter_at(a: ArticleView, i: nat) -> ChapterView {
    ChapterView { href: chapter_href_spec(i), title: a.title, html: chapter_html_spec(a) }
}

/// The chapter each article becomes, in input order.
pub open spec fn chapters_spec(articles: Seq<ArticleView>) -> Seq<ChapterView>
    decreases articles.len(),
{
    if articles.len() == 0 {
        Seq::empty()
    } else {
        chapters_spec(articles.drop_last()) + seq![
            chapter_at(articles.last(), (articles.len() - 1) as nat),
        ]
    }
}

/// The table of contents mirrors the article list exactly: chapter `i` is the
/// chapter of article `i`, and there are as many chapters as articles.
pub proof fn lemma_chapters_pointwise(articles: Seq<ArticleView>)
    ensures
        chapters_spec(articles).len() == articles.len(),
        forall|i: int| 0 <= i < articles.len() ==> #[trigger] chapters_spec(articles)[i]
            == chapter_at(articles[i], i as nat),
    decreases articles.len(),
{
    if articles.len() == 0 {
    } else {
        lemma_chapters_pointwise(articles.drop_last());
    }
}

/// The (file name, title, document) entries a chapter list registers with
/// the container.
pub open spec fn chapter_entries(s: Seq<ChapterView>) -> Seq<(Seq<char>, Seq<char>, Seq<char>)> {
    Seq::new(s.len(), |j: int| ((s[j].href, s[j].title, s[j].html)))
}

/// A UTF-8 encoding takes at most four bytes per character.
proof fn lemma_encode_utf8_bound(chars: Seq<char>)
    ensures
        encode_utf8(chars).len() <= 4 * chars.len(),
    decreases chars.len(),
{
    if chars.len() == 0 {
    } else {
        lemma_encode_utf8_bound(chars.drop_first());
        assert(encode_scalar(chars[0] as u32).len() <= 4);
    }
}

/// Chapter file names are short: a marker, at most twenty digits, and an
/// extension.
proof fn lemma_chapter_href_len(i: nat)
    requires
        i <= u64::MAX,
    ensures
        15 <= chapter_href_spec(i).len() <= 34,
{
    reveal_strlit("article_");
    reveal_strlit(".xhtml");
    assert(pow10(20) == 100000000000000000000) by {
        reveal_with_fuel(pow10, 21);
    }
    lemma_dec_digits_len(i, 20);
}

/// Two positions never share a chapter file name: the digits between the
/// fixed marker and extension render distinct numbers distinctly.
proof fn lemma_chapter_href_injective(i: nat, j: nat)
    requires
        i != j,
    ensures
        chapter_href_spec(i) != chapter_href_spec(j),
{
    reveal_strlit("article_");
    reveal_strlit(".xhtml");
    lemma_dec_digits_value(i);
    lemma_dec_digits_value(j);
    let a = dec_digits(i);
    let b = dec_digits(j);
    assert(chapter_href_spec(i).len() == 8 + a.len() + 6);
    assert(chapter_href_spec(j).len() == 8 + b.len() + 6);
    if chapter_href_spec(i) == chapter_href_spec(j) {
        assert(a.len() == b.len());
        assert(a =~= b) by {
            assert forall|t: int| 0 <= t < a.len() implies a[t] == b[t] by {
                assert(chapter_href_spec(i)[8 + t] == a[t]);
                assert(chapter_href_spec(j)[8 + t] == b[t]);
            }
        }
        assert(false);
    }
}

/// A rendered chapter reproduces the article's rendered Markdown verbatim:
/// stripping the fixed wrapper — the prefix through the byline and the
/// closing tags — from the chapter document leaves exactly the HTML that the
/// article's Markdown renders to.
pub proof fn lemma_chapter_round_trip(a: ArticleView)
    ensures
        ({
            let doc = chapter_html_spec(a);
            let body = html_of(a.content, true, true);
            doc.subrange(
                chapter_prefix(a).len() as int,
                doc.len() - chapter_suffix().len(),
            ) == body
        }),
{
    let doc = chapter_html_spec(a);
    let body = html_of(a.content, true, true);
    assert(doc.subrange(chapter_prefix(a).len() as int, doc.len() - chapter_suffix().len())
        =~= body);
}

/// Assembly of the e-book container from a list of articles.
pub struct EpubGenerator;

impl EpubGenerator {
    /// Builds the chapter file name for position `i`.
    pub fn chapter_href(i: usize) -> (r: String)
        ensures
            r@ == chapter_href_spec(i as nat),
    {
        let mut s = String::new();
        s.append("article_");
        let digits = u64_to_dec(i as u64);
        s.append(digits.as_str());
        s.append(".xhtml");
        proof {
            assert(s@ =~= chapter_href_spec(i as nat));
        }
        s
    }

    /// Wraps one article's rendered body in its chapter document.
    pub fn chapter_html(article: &Article) -> (r: String)
        ensures
            r@ == chapter_html_spec(article.deep_view()),
    {
        let body = markdown_to_html(article.content.as_str(), true, true);
        let mut s = String::new();
        s.append(
            "<?xml version=\"1.0\" encoding=\"UTF-8\"?>\n<html xmlns=\"http://www.w3.org/1999/xhtml\">\n<head>\n  <title>",
        );
        s.append(article.title.as_str());
        s.append(
            "</title>\n  <link rel=\"stylesheet\" type=\"text/css\" href=\"stylesheet.css\" />\n</head>\n<body>\n  <h1>",
        );
        s.append(article.title.as_str());
        s.append("</h1>\n  <p><i>Channel: ");
        s.append(article.channel.as_str());
        s.append(" | <a href=\"");
        s.append(article.url.as_str());
        s.append("\">Watch Video</a></i></p>\n  ");
        s.append(body.as_str());
        s.append("\n</body>\n</html>");
        proof {
            assert(s@ =~= chapter_html_spec(article.deep_view()));
        }
        s
    }

    /// Builds every chapter of the container, in article order.
    pub fn build_chapters(articles: &Vec<Article>) -> (r: Vec<Chapter>)
        ensures
            r.deep_view() == chapters_spec(articles.deep_view()),
    {
        let n = articles.len();
        let mut out: Vec<Chapter> = Vec::new();
        let mut i: usize = 0;
        while i < n
            invariant
                n == articles@.len(),
                0 <= i <= n,
                out.deep_view() == chapters_spec(articles.deep_view().take(i as int)),
            decreases n - i,
        {
            let ghost pre = articles.deep_view().take(i as int);
            let ghost post = articles.deep_view().take(i + 1int);
            proof {
                assert(post.drop_last() =~= pre);
            }
            let c = Chapter {
                href: Self::chapter_href(i),
                title: articles[i].title.clone(),
                html: Self::chapter_html(&articles[i]),
            };
            out.push(c);
            proof {
                assert(out.deep_view() =~= chapters_spec(post));
            }
            i += 1;
        }
        proof {
            assert(articles.deep_view().take(n as int) =~= articles.deep_view());
        }
        out
    }

    /// Registers the digest with a fresh container builder: fixed author and
    /// title metadata, the fixed stylesheet, then one chapter per article in
    /// input order. Succeeds whenever every rendered chapter document fits
    /// the writer's entry size ceiling; an oversized chapter is the one
    /// failure it can report. An article with an empty title yields a spine
    /// chapter that the container's table of contents omits; with non-empty
    /// titles the table of contents lists the chapters in input order.
    pub fn assemble_digest(articles: &Vec<Article>) -> (r: Result<DigestBuilder, PipelineError>)
        ensures
            r matches Ok(b) ==> epub_chapters(b) == chapter_entries(
                chapters_spec(articles.deep_view()),
            ),
            r matches Err(e) ==> e matches PipelineError::AssemblyError { .. },
            r is Ok <==> (forall|j: int|
                0 <= j < chapters_spec(articles.deep_view()).len() ==> encode_utf8(
                    (#[trigger] chapters_spec(articles.deep_view())[j]).html,
                ).len() <= ENTRY_BYTE_LIMIT),
    {
        let ghost adv = articles.deep_view();
        let zip = match zip_library_new() {
            Ok(z) => z,
            Err(e) => {
                return Err(PipelineError::AssemblyError { message: epub_error_text(&e) });
            },
        };
        let mut builder = match epub_builder_new(zip) {
            Ok(b) => b,
            Err(e) => {
                return Err(PipelineError::AssemblyError { message: epub_error_text(&e) });
            },
        };
        if let Err(e) = epub_set_metadata(&mut builder, "author", "YouTube to Ebook") {
            return Err(PipelineError::AssemblyError { message: epub_error_text(&e) });
        }
        if let Err(e) = epub_set_metadata(&mut builder, "title", "Weekly Newsletter") {
            return Err(PipelineError::AssemblyError { message: epub_error_text(&e) });
        }
        proof {
            reveal_strlit(
                "\nbody { \n    font-family: serif; \n    line-height: 1.5; \n    margin: 0;\n    padding: 1em;\n}\nh1 { \n    text-align: center; \n    margin-bottom: 0.5em; \n}\nimg { \n    max-width: 100%; \n}\npre { \n    background: #f4f4f4; \n    padding: 1em; \n    white-space: pre-wrap; \n}\n",
            );
            lemma_encode_utf8_bound(css_text());
        }
        if let Err(e) = epub_set_stylesheet(&mut builder, Self::get_css()) {
            return Err(PipelineError::AssemblyError { message: epub_error_text(&e) });
        }
        let chapters = Self::build_chapters(articles);
        let n = chapters.len();
        proof {
            lemma_chapters_pointwise(adv);
        }
        let mut i: usize = 0;
        while i < n
            invariant
                n == chapters@.len(),
                adv == articles.deep_view(),
                chapters.deep_view() == chapters_spec(adv),
                chapters_spec(adv).len() == adv.len(),
                forall|j: int| 0 <= j < adv.len() ==> #[trigger] chapters_spec(adv)[j]
                    == chapter_at(adv[j], j as nat),
                0 <= i <= n,
                forall|j: int| 0 <= j < i ==> encode_utf8(
                    (#[trigger] chapters_spec(adv)[j]).html,
                ).len() <= ENTRY_BYTE_LIMIT,
                epub_chapters(builder) == chapter_entries(
                    chapters.deep_view().take(i as int),
                ),
            decreases n - i,
        {
            let c = &chapters[i];
            if (c.html.as_str().as_bytes().len() as u64) > ENTRY_BYTE_LIMIT {
                proof {
                    assert(chapters_spec(adv)[i as int].html == c.html@);
                    assert(encode_utf8(chapters_spec(adv)[i as int].html).len()
                        > ENTRY_BYTE_LIMIT);
                }
                return Err(
                    PipelineError::AssemblyError {
                        message: "a rendered chapter exceeds the container's entry size limit".to_owned(),
                    },
                );
            }
            proof {
                reveal_strlit("stylesheet.css");
                lemma_chapter_href_len(i as nat);
                assert(c.href@ == chapter_href_spec(i as nat));
                assert(c.href@ != "stylesheet.css"@);
                assert forall|j: int|
                    0 <= j < epub_chapters(builder).len() implies (#[trigger] epub_chapters(
                    builder,
                )[j]).0 != c.href@ by {
                    assert(epub_chapters(builder)[j].0 == chapters.deep_view()[j].href);
                    assert(chapters.deep_view()[j].href == chapter_href_spec(j as nat));
                    lemma_chapter_href_injective(j as nat, i as nat);
                }
            }
            match epub_add_chapter(&mut builder, c.href.as_str(), c.title.as_str(), c.html.as_str()) {
                Ok(()) => {
                    proof {
                        assert(epub_chapters(builder) =~= chapter_entries(
                            chapters.deep_view().take(i + 1int),
                        ));
                    }
                },
                Err(e) => {
                    proof {
                        assert(false);
                    }
                    return Err(PipelineError::AssemblyError { message: epub_error_text(&e) });
                },
            }
            i += 1;
        }
        proof {
            assert(chapters.deep_view().take(n as int) =~= chapters.deep_view());
        }
        Ok(builder)
    }

    /// Renders the e-book container for the given articles. It succeeds
    /// exactly when every rendered chapter fits the writer's entry size
    /// ceiling, and the bytes then hold the articles' chapters, in input
    /// order; the one failure it reports is an assembly error — the run has
    /// no partial e-books. The table of contents lists the chapters in input
    /// order, except that the container omits a chapter whose article title
    /// is empty from it (the chapter stays in the reading order).
    pub fn create_epub(articles: &Vec<Article>) -> (r: Result<Vec<u8>, PipelineError>)
        ensures
            r is Ok <==> (forall|j: int|
                0 <= j < chapters_spec(articles.deep_view()).len() ==> encode_utf8(
                    (#[trigger] chapters_spec(articles.deep_view())[j]).html,
                ).len() <= ENTRY_BYTE_LIMIT),
            r matches Ok(bytes) ==> epub_container_of(
                bytes@,
                chapter_entries(chapters_spec(articles.deep_view())),
            ),
            r matches Err(e) ==> e matches PipelineError::AssemblyError { .. },
    {
        let ghost adv = articles.deep_view();
        let n_articles = articles.len();
        let builder = match Self::assemble_digest(articles) {
            Ok(b) => b,
            Err(e) => {
                return Err(e);
            },
        };
        proof {
            reveal_strlit("content.opf");
            reveal_strlit("toc.ncx");
            reveal_strlit("nav.xhtml");
            lemma_chapters_pointwise(adv);
            assert forall|j: int| 0 <= j < epub_chapters(builder).len() implies {
                let h = (#[trigger] epub_chapters(builder)[j]).0;
                h != "content.opf"@ && h != "toc.ncx"@ && h != "nav.xhtml"@
            } by {
                assert(epub_chapters(builder)[j].0 == chapter_href_spec(j as nat));
                assert(j < n_articles <= u64::MAX);
                lemma_chapter_href_len(j as nat);
            }
        }
        match epub_generate(builder) {
            Ok(bytes) => Ok(bytes),
            Err(e) => {
                proof {
                    assert(false);
                }
                Err(PipelineError::AssemblyError { message: epub_error_text(&e) })
            },
        }
    }

    /// The fixed stylesheet written into every container.
    pub fn get_css() -> (r: &'static str)
        ensures
            r@ == css_text(),
    {
        "\nbody { \n    font-family: serif; \n    line-height: 1.5; \n    margin: 0;\n    padding: 1em;\n}\nh1 { \n    text-align: center; \n    margin-bottom: 0.5em; \n}\nimg { \n    max-width: 100%; \n}\npre { \n    background: #f4f4f4; \n    padding: 1em; \n    white-space: pre-wrap; \n}\n"
    }
}

/// What `EpubGenerator::get_css` returns.
pub open spec fn css_text() -> Seq<char> {
    "\nbody { \n    font-family: serif; \n    line-height: 1.5; \n    margin: 0;\n    padding: 1em;\n}\nh1 { \n    text-align: center; \n    margin-bottom: 0.5em; \n}\nimg { \n    max-width: 100%; \n}\npre { \n    background: #f4f4f4; \n    padding: 1em; \n    white-space: pre-wrap; \n}\n"@
}

} // verus!
