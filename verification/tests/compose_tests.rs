use video_digest::email::attachment_content_type;
use video_digest::email::create_html_body;
use video_digest::email::email_subject;
use video_digest::email::output_file_name;
use video_digest::email::should_deliver;
use video_digest::epub::EpubGenerator;
use video_digest::errors::PipelineError;
use video_digest::models::Article;
use video_digest::text::contains_bytes;
use video_digest::text::u64_to_dec;

fn article(title: &str, content: &str) -> Article {
    Article {
        title: title.to_string(),
        channel: "Some Channel".to_string(),
        url: "https://www.youtube.com/watch?v=abc".to_string(),
        content: content.to_string(),
    }
}

fn render_reference(markdown: &str, tables: bool, strikethrough: bool) -> String {
    let mut options = pulldown_cmark::Options::empty();
    if tables {
        options.insert(pulldown_cmark::Options::ENABLE_TABLES);
    }
    if strikethrough {
        options.insert(pulldown_cmark::Options::ENABLE_STRIKETHROUGH);
    }
    let parser = pulldown_cmark::Parser::new_ext(markdown, options);
    let mut out = String::new();
    pulldown_cmark::html::push_html(&mut out, parser);
    out
}

#[test]
fn decimal_rendering_exact() {
    assert_eq!(u64_to_dec(0), "0");
    assert_eq!(u64_to_dec(9), "9");
    assert_eq!(u64_to_dec(10), "10");
    assert_eq!(u64_to_dec(907), "907");
    assert_eq!(u64_to_dec(u64::MAX), "18446744073709551615");
}

#[test]
fn byte_search_finds_substrings() {
    assert!(contains_bytes(b"https://a/shorts/xyz", b"/shorts/"));
    assert!(!contains_bytes(b"https://a/watch?v=xyz", b"/shorts/"));
    assert!(contains_bytes(b"anything", b""));
    assert!(!contains_bytes(b"ab", b"abc"));
}

#[test]
fn chapter_names_follow_input_order() {
    assert_eq!(EpubGenerator::chapter_href(0), "article_0.xhtml");
    assert_eq!(EpubGenerator::chapter_href(12), "article_12.xhtml");
    let chapters = EpubGenerator::build_chapters(&vec![
        article("first", "body one"),
        article("second", "body two"),
    ]);
    assert_eq!(chapters.len(), 2);
    assert_eq!(chapters[0].href, "article_0.xhtml");
    assert_eq!(chapters[0].title, "first");
    assert_eq!(chapters[1].href, "article_1.xhtml");
    assert_eq!(chapters[1].title, "second");
}

#[test]
fn chapter_wraps_rendered_markdown_verbatim() {
    let md = "# Heading\n\nSome *emphasis* and a [link](https://example.com).";
    let a = article("The Title", md);
    let chapter = EpubGenerator::chapter_html(&a);
    let rendered = render_reference(md, true, true);
    // The chapter is wrapper + rendered body + closing tags; stripping the
    // wrapper must reproduce the rendered Markdown exactly.
    let prefix_end = chapter.find(&rendered).expect("rendered body not embedded verbatim");
    let body_end = prefix_end + rendered.len();
    assert_eq!(&chapter[body_end..], "\n</body>\n</html>");
    assert!(chapter[..prefix_end].starts_with("<?xml version=\"1.0\" encoding=\"UTF-8\"?>"));
    // Semantic structure survives: headings stay headings, links stay links.
    assert!(rendered.contains("<h1>Heading</h1>"));
    assert!(rendered.contains("<a href=\"https://example.com\">link</a>"));
    assert!(!chapter.contains("# Heading"));
}

#[test]
fn chapter_byline_names_channel_and_video() {
    let a = article("The Title", "text");
    let chapter = EpubGenerator::chapter_html(&a);
    assert!(chapter.contains("<title>The Title</title>"));
    assert!(chapter.contains("<h1>The Title</h1>"));
    assert!(chapter.contains(
        "<p><i>Channel: Some Channel | <a href=\"https://www.youtube.com/watch?v=abc\">Watch Video</a></i></p>"
    ));
}

#[test]
fn epub_bytes_form_a_container() {
    let articles = vec![article("first", "# One"), article("second", "# Two")];
    let bytes = EpubGenerator::create_epub(&articles).expect("assembly failed");
    // An e-book container is a zip file whose first entry is the mimetype.
    assert!(bytes.len() > 4);
    assert_eq!(&bytes[0..2], b"PK");
    let text = String::from_utf8_lossy(&bytes);
    assert!(text.contains("application/epub+zip"));
}

#[test]
fn assembly_succeeds_on_ordinary_articles() {
    let articles = vec![article("first", "# One"), article("second", "body")];
    assert!(EpubGenerator::assemble_digest(&articles).is_ok());
    assert!(EpubGenerator::assemble_digest(&Vec::new()).is_ok());
}

#[test]
fn epub_of_no_articles_still_assembles() {
    let bytes = EpubGenerator::create_epub(&Vec::new()).expect("assembly failed");
    assert_eq!(&bytes[0..2], b"PK");
}

#[test]
fn css_is_the_fixed_stylesheet() {
    let css = EpubGenerator::get_css();
    assert!(css.contains("font-family: serif;"));
    assert!(css.contains("white-space: pre-wrap;"));
}

#[test]
fn subject_names_digest_and_date() {
    assert_eq!(
        email_subject("January 01, 2026"),
        "Your YouTube Digest - January 01, 2026"
    );
}

#[test]
fn email_body_structure_and_order() {
    let articles = vec![article("Alpha Story", "# A\n\nfirst"), article("Beta Story", "second")];
    let body = create_html_body(&articles, "January 01, 2026");
    assert!(body.starts_with("<!DOCTYPE html>"));
    assert!(body.contains("<h1>YOUR YOUTUBE DIGEST</h1>"));
    assert!(body.contains("<p>January 01, 2026</p>"));
    assert!(body.contains("Generated by YouTube Newsletter Bot"));
    let first = body.find("Alpha Story").expect("first article missing");
    let second = body.find("Beta Story").expect("second article missing");
    assert!(first < second, "article blocks out of input order");
    // The block embeds the body rendered without extensions.
    assert!(body.contains(&render_reference("# A\n\nfirst", false, false)));
    assert!(body.contains("class=\"watch-link\">Watch the original video</a>"));
}

#[test]
fn email_composition_is_deterministic() {
    let articles = vec![article("Alpha Story", "first"), article("Beta Story", "second")];
    let once = create_html_body(&articles, "January 01, 2026");
    let twice = create_html_body(&articles, "January 01, 2026");
    assert_eq!(once, twice);
    let chapters_once = EpubGenerator::build_chapters(&articles);
    let chapters_twice = EpubGenerator::build_chapters(&articles);
    assert_eq!(chapters_once, chapters_twice);
}

#[test]
fn delivery_constants_and_gating() {
    assert_eq!(output_file_name(), "newsletter.epub");
    assert_eq!(attachment_content_type(), "application/epub+zip");
    let user = Some("someone".to_string());
    let pass = Some("SECRET-REDACTED".to_string());
    assert!(should_deliver(&user, &pass));
    assert!(!should_deliver(&user, &None));
    assert!(!should_deliver(&None, &pass));
    assert!(!should_deliver(&None, &None));
}

#[test]
fn error_kind_labels() {
    assert_eq!(PipelineError::ChannelNotFound.kind_label(), "channel not found");
    assert_eq!(PipelineError::TranscriptUnavailable.kind_label(), "transcript unavailable");
    assert_eq!(
        PipelineError::TranscriptProviderError { message: "x".to_string() }.kind_label(),
        "transcript provider error"
    );
    assert_eq!(
        PipelineError::GenerationError { status: 500, body: "x".to_string() }.kind_label(),
        "generation error"
    );
    assert_eq!(
        PipelineError::AssemblyError { message: "x".to_string() }.kind_label(),
        "assembly error"
    );
    assert_eq!(PipelineError::AttachmentReadError.kind_label(), "attachment read error");
    assert_eq!(
        PipelineError::DeliveryError { message: "x".to_string() }.kind_label(),
        "delivery error"
    );
    assert_eq!(
        PipelineError::TransportError { message: "x".to_string() }.kind_label(),
        "transport error"
    );
}
