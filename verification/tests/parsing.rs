use blog_feed::parser::{ParseError, parse_sitemap_to_blog};

#[test]
fn test_parse_sitemap() {
    let xml = r#"<?xml version="1.0" encoding="UTF-8"?>
    <urlset xmlns="http://www.sitemaps.org/schemas/sitemap/0.9">

      <url>
        <title>使用PyO3跨越编程语言的异步</title>
        <loc>http://another-s347.github.io/blogs/2021/01/01/async-pyo3-1/</loc>

        <lastmod>1609859438225</lastmod>

      </url>

      <url>
        <title></title>
        <loc>http://another-s347.github.io/blogs/2021/01/05/dummy/</loc>

        <lastmod>1609859415394</lastmod>

      </url>


      <!-- <url>
        <loc>http://another-s347.github.io/blogs</loc>
        <lastmod>2021-01-05</lastmod>
        <changefreq>daily</changefreq>
        <priority>1.0</priority>
      </url>



       -->
    </urlset>
    "#;
    println!("{:#?}", parse_sitemap_to_blog(xml));
}

#[test]
fn sample_document_two_entries() {
    let xml = r#"<?xml version="1.0" encoding="UTF-8"?>
    <urlset>
      <url>
        <title>A</title>
        <loc>http://example.invalid/post-a</loc>
        <lastmod>1609859438225</lastmod>
      </url>
      <url>
        <title></title>
        <loc>http://example.invalid/post-b</loc>
        <lastmod>1609859415394</lastmod>
      </url>
    </urlset>
    "#;
    let feed = parse_sitemap_to_blog(xml).expect("well-formed sample must parse");
    assert_eq!(feed.blogs.len(), 2);
    assert_eq!(feed.blogs[0].title, "A");
    assert_eq!(feed.blogs[0].link, "http://example.invalid/post-a");
    assert_eq!(feed.blogs[0].last_update, 1609859438225);
    assert_eq!(feed.blogs[1].title, "");
    assert_eq!(feed.blogs[1].link, "http://example.invalid/post-b");
    assert_eq!(feed.blogs[1].last_update, 1609859415394);
    assert_eq!(feed.last_update, 1609859438225);
}

#[test]
fn empty_feed_has_epoch_last_update() {
    let xml = r#"<?xml version="1.0" encoding="UTF-8"?><urlset></urlset>"#;
    let feed = parse_sitemap_to_blog(xml).expect("empty feed parses");
    assert_eq!(feed.blogs.len(), 0);
    assert_eq!(feed.last_update, 0);
}

#[test]
fn document_order_is_preserved_not_sorted() {
    let xml = r#"<?xml version="1.0"?>
    <urlset>
      <url><title>older</title><loc>u1</loc><lastmod>100</lastmod></url>
      <url><title>newest</title><loc>u2</loc><lastmod>300</lastmod></url>
      <url><title>middle</title><loc>u3</loc><lastmod>200</lastmod></url>
    </urlset>"#;
    let feed = parse_sitemap_to_blog(xml).expect("parses");
    let titles: Vec<&str> = feed.blogs.iter().map(|b| b.title.as_str()).collect();
    assert_eq!(titles, vec!["older", "newest", "middle"]);
    assert_eq!(feed.last_update, 300);
}

#[test]
fn unknown_elements_and_comments_are_skipped() {
    let xml = r#"<?xml version="1.0"?>
    <urlset>
      <!-- a comment between records -->
      <url>
        <loc>u1</loc>
        <changefreq></changefreq>
        <priority/>
        <lastmod>42</lastmod>
      </url>
    </urlset>"#;
    let feed = parse_sitemap_to_blog(xml).expect("parses");
    assert_eq!(feed.blogs.len(), 1);
    assert_eq!(feed.blogs[0].link, "u1");
    assert_eq!(feed.blogs[0].title, "");
    assert_eq!(feed.blogs[0].last_update, 42);
}

#[test]
fn missing_lastmod_defaults_to_epoch() {
    let xml = r#"<urlset><url><title>t</title><loc>u</loc></url></urlset>"#;
    let feed = parse_sitemap_to_blog(xml).expect("parses");
    assert_eq!(feed.blogs[0].last_update, 0);
    assert_eq!(feed.last_update, 0);
}

#[test]
fn negative_timestamps_are_kept() {
    let xml = r#"<urlset><url><loc>u</loc><lastmod>-5</lastmod></url></urlset>"#;
    let feed = parse_sitemap_to_blog(xml).expect("parses");
    assert_eq!(feed.blogs[0].last_update, -5);
    assert_eq!(feed.last_update, -5);
}

#[test]
fn non_numeric_lastmod_is_invalid_timestamp() {
    let xml = r#"<urlset><url><loc>u</loc><lastmod>2021-01-05</lastmod></url></urlset>"#;
    match parse_sitemap_to_blog(xml) {
        Err(ParseError::InvalidTimestamp) => {}
        other => panic!("expected InvalidTimestamp, got {:?}", other),
    }
}

#[test]
fn out_of_range_lastmod_is_invalid_timestamp() {
    let xml = r#"<urlset><url><loc>u</loc><lastmod>9223372036854775808</lastmod></url></urlset>"#;
    match parse_sitemap_to_blog(xml) {
        Err(ParseError::InvalidTimestamp) => {}
        other => panic!("expected InvalidTimestamp, got {:?}", other),
    }
}

#[test]
fn url_close_without_open_record_is_unexpected_structure() {
    let xml = r#"<urlset><url></url></urlset>"#;
    match parse_sitemap_to_blog(xml) {
        Err(ParseError::UnexpectedStructure) => {}
        other => panic!("expected UnexpectedStructure, got {:?}", other),
    }
}

#[test]
fn stray_text_is_unexpected_structure() {
    let xml = r#"<urlset><url>stray</url></urlset>"#;
    match parse_sitemap_to_blog(xml) {
        Err(ParseError::UnexpectedStructure) => {}
        other => panic!("expected UnexpectedStructure, got {:?}", other),
    }
}

#[test]
fn unbalanced_document_is_malformed() {
    let xml = r#"<urlset><url><loc>u</loc>"#;
    match parse_sitemap_to_blog(xml) {
        Err(ParseError::Malformed(_)) => {}
        other => panic!("expected Malformed, got {:?}", other),
    }
}

#[test]
fn parse_error_messages() {
    assert_eq!(
        ParseError::UnexpectedStructure.message(),
        "unexpected document structure"
    );
    assert_eq!(ParseError::InvalidTimestamp.message(), "invalid lastmod timestamp");
    assert_eq!(
        ParseError::Malformed(String::from("detail")).message(),
        "detail"
    );
}
