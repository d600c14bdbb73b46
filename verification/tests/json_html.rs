use cynthiaweb::json_html::{
    blocks_to_html, block_to_html, ContentBlock, ContentBlocksJson, Inner, ToHtml,
};
use serde_json::Value;

// Reads content blocks from JSON the way the block format is written: each
// block an object tagged by `type` (with its aliases), an inside either a
// string or `{"elements": [...]}`.
fn inner_from(v: &Value) -> Result<Inner, String> {
    match v {
        Value::String(s) => Ok(Inner::Text(s.clone())),
        Value::Object(m) => match m.get("elements") {
            Some(e) => Ok(Inner::Elements(blocks_from(e)?)),
            None => Err("inner without elements".to_string()),
        },
        _ => Err("bad inner".to_string()),
    }
}

fn text_field(m: &serde_json::Map<String, Value>, k: &str) -> Result<String, String> {
    match m.get(k) {
        Some(Value::String(s)) => Ok(s.clone()),
        _ => Err(format!("missing field {}", k)),
    }
}

fn block_from(v: &Value) -> Result<ContentBlock, String> {
    let m = match v {
        Value::Object(m) => m,
        _ => return Err("block is not an object".to_string()),
    };
    let t = text_field(m, "type")?;
    let inner_text = || text_field(m, "inner");
    let inner = || match m.get("inner") {
        Some(i) => inner_from(i),
        None => Err("missing inner".to_string()),
    };
    let list = || match m.get("inner") {
        Some(i) => blocks_from(i),
        None => Err("missing inner".to_string()),
    };
    Ok(match t.as_str() {
        "paragraph" | "p" | "text" => ContentBlock::Paragraph { inner: inner_text()? },
        "header1" | "header-1" | "h1" => ContentBlock::Header1 { inner: inner_text()? },
        "header2" | "header-2" | "h2" => ContentBlock::Header2 { inner: inner_text()? },
        "header3" | "header-3" | "h3" => ContentBlock::Header3 { inner: inner_text()? },
        "header4" | "header-4" | "h4" => ContentBlock::Header4 { inner: inner_text()? },
        "header5" | "header-5" | "h5" => ContentBlock::Header5 { inner: inner_text()? },
        "header6" | "header-6" | "h6" => ContentBlock::Header6 { inner: inner_text()? },
        "list-item" | "li" | "listitem" => ContentBlock::ListItem { inner: inner()? },
        "unordered-list" | "ul" => ContentBlock::UnorderedList { inner: list()? },
        "ordered-list" | "ol" => ContentBlock::OrderedList { inner: list()? },
        "blockquote" => ContentBlock::Blockquote { inner: inner()? },
        "code" => ContentBlock::Code { inner: inner()? },
        "code-block" => ContentBlock::CodeBlock { inner: inner()? },
        "image" => ContentBlock::Image {
            src: text_field(m, "src")?,
            alt: match m.get("alt") {
                Some(Value::String(a)) => Some(a.clone()),
                _ => None,
            },
        },
        "link" => ContentBlock::Link { href: text_field(m, "href")?, inner: inner()? },
        "horizontal-rule" | "hr" => ContentBlock::HorizontalRule,
        "html" | "raw-html" => ContentBlock::Html { content: text_field(m, "content")? },
        "markdown" | "md" => ContentBlock::Markdown { content: text_field(m, "content")? },
        other => return Err(format!("unknown block type {}", other)),
    })
}

fn blocks_from(v: &Value) -> Result<Vec<ContentBlock>, String> {
    match v {
        Value::Array(a) => a.iter().map(block_from).collect(),
        _ => Err("not a list of blocks".to_string()),
    }
}

fn parse_blocks(json: &str) -> Result<Vec<ContentBlock>, String> {
    match serde_json::from_str::<Value>(json) {
        Ok(v) => blocks_from(&v),
        Err(e) => Err(format!("{}", e)),
    }
}

// Writes content blocks as JSON, fields in declaration order.
fn quote(s: &str) -> String {
    serde_json::to_string(s).unwrap()
}

fn inner_json(i: &Inner) -> String {
    match i {
        Inner::Text(t) => quote(t),
        Inner::Elements(e) => format!("{{\"elements\":{}}}", blocks_json(e)),
    }
}

fn block_json(b: &ContentBlock) -> String {
    match b {
        ContentBlock::Paragraph { inner } => {
            format!("{{\"type\":\"paragraph\",\"inner\":{}}}", quote(inner))
        }
        ContentBlock::ListItem { inner } => {
            format!("{{\"type\":\"list-item\",\"inner\":{}}}", inner_json(inner))
        }
        ContentBlock::UnorderedList { inner } => {
            format!("{{\"type\":\"unordered-list\",\"inner\":{}}}", blocks_json(inner))
        }
        ContentBlock::Image { src, alt } => match alt {
            Some(a) => format!(
                "{{\"type\":\"image\",\"src\":{},\"alt\":{}}}",
                quote(src),
                quote(a)
            ),
            None => format!("{{\"type\":\"image\",\"src\":{},\"alt\":null}}", quote(src)),
        },
        _ => panic!("block kind not written by these tests"),
    }
}

fn blocks_json(v: &[ContentBlock]) -> String {
    let parts: Vec<String> = v.iter().map(block_json).collect();
    format!("[{}]", parts.join(","))
}

fn render(json: &str) -> Result<String, String> {
    let parsed = parse_blocks(json);
    let c = ContentBlocksJson::from_checked(json.to_string(), parsed.is_ok())?;
    c.to_html(parsed)
}

#[test]
fn stringify_inner() {
    let inner = vec![
        ContentBlock::Paragraph {
            inner: "Hello, World!".to_string(),
        },
        ContentBlock::UnorderedList {
            inner: vec![
                ContentBlock::ListItem {
                    inner: Inner::Elements(vec![ContentBlock::Image {
                        src: "http://hi.jpg".to_string(),
                        alt: Some("hi".to_string()),
                    }]),
                },
                ContentBlock::ListItem {
                    inner: Inner::Text("Hello, World!".to_string()),
                },
            ],
        },
    ];
    let result = blocks_json(&inner);
    let expectation = r#"[{"type":"paragraph","inner":"Hello, World!"},{"type":"unordered-list","inner":[{"type":"list-item","inner":{"elements":[{"type":"image","src":"http://hi.jpg","alt":"hi"}]}},{"type":"list-item","inner":"Hello, World!"}]}]"#.to_string();
    assert_eq!(result, expectation);
    let parsed = parse_blocks(&result);
    let content_block_json = ContentBlocksJson::from_checked(result.clone(), parsed.is_ok()).unwrap();
    println!("{}", content_block_json.as_str());
    let result = content_block_json.to_html(parsed).unwrap();
    println!("{}", result);
    let expectation = "<p>Hello, World!</p><ul><li><img src=\"http://hi.jpg\" alt=\"hi\"></li><li>Hello, World!</li></ul>";
    assert_eq!(result, expectation);
}

#[test]
fn paragraphs() {
    let result = render(r#"[{"type":"text","inner":"Hello, World!"}]"#).unwrap();
    let expectation = "<p>Hello, World!</p>".to_string();
    assert_eq!(result, expectation);
}

#[test]
fn lists() {
    let json_str = r#"
[
    {
        "type": "unordered-list",
        "inner": [
            {
                "type": "li",
                "inner": {"elements": [
                    {
                        "type": "paragraph",
                        "inner": "**Hello, World!**"
                    }
                ]}
            },
            {
                "type": "li",
                "inner": {"elements": [
                    {
                        "type": "image",
                        "src": "http://hi.jpg"
                    }
                ]}
            }
        ]
    }
]
            "#;
    let parsed = parse_blocks(json_str);
    assert!(parsed.is_ok());
    let content_block_json = ContentBlocksJson::from_checked(json_str.to_string(), parsed.is_ok()).unwrap();
    println!("{}", content_block_json.as_str());
    let result = content_block_json.to_html(parsed).unwrap();
    println!("{}", result);
    let expectation =
        "<ul><li><p>**Hello, World!**</p></li><li><img src=\"http://hi.jpg\"></li></ul>";
    assert_eq!(result, expectation);
}

#[test]
fn unparsable_json_is_refused() {
    let r = ContentBlocksJson::from_checked("[{".to_string(), false);
    assert_eq!(r.err(), Some("Could not parse JSON.".to_string()));
}

#[test]
fn failed_parse_is_handed_on() {
    let c = ContentBlocksJson::from_checked("[]".to_string(), true).unwrap();
    assert_eq!(c.to_html(Err("broken".to_string())), Err("broken".to_string()));
    assert_eq!(c.as_str(), "[]");
}

#[test]
fn every_simple_block_renders() {
    let t = |s: &str| s.to_string();
    let cases = vec![
        (ContentBlock::Header1 { inner: t("a") }, "<h1>a</h1>"),
        (ContentBlock::Header2 { inner: t("a") }, "<h2>a</h2>"),
        (ContentBlock::Header3 { inner: t("a") }, "<h3>a</h3>"),
        (ContentBlock::Header4 { inner: t("a") }, "<h4>a</h4>"),
        (ContentBlock::Header5 { inner: t("a") }, "<h5>a</h5>"),
        (ContentBlock::Header6 { inner: t("a") }, "<h6>a</h6>"),
        (ContentBlock::Blockquote { inner: Inner::Text(t("q")) }, "<blockquote>q</blockquote>"),
        (ContentBlock::Code { inner: Inner::Text(t("x")) }, "<code>x</code>"),
        (ContentBlock::CodeBlock { inner: Inner::Text(t("x")) }, "<pre>x</pre>"),
        (
            ContentBlock::Link { href: t("/a"), inner: Inner::Text(t("A")) },
            "<a href=\"/a\">A</a>",
        ),
        (ContentBlock::HorizontalRule, "<hr>"),
        (ContentBlock::Html { content: t("<b>x</b>") }, "<b>x</b>"),
        (
            ContentBlock::OrderedList { inner: vec![ContentBlock::Paragraph { inner: t("1") }] },
            "<ol><p>1</p></ol>",
        ),
    ];
    for (b, expected) in cases {
        assert_eq!(block_to_html(&b), expected);
        assert_eq!(b.to_html(), expected);
    }
}

#[test]
fn markdown_block_compiles() {
    let b = ContentBlock::Markdown { content: "# Hi".to_string() };
    assert_eq!(block_to_html(&b), "<h1>Hi</h1>");
}

#[test]
fn unrenderable_blocks_give_nothing() {
    let b = ContentBlock::DivBlock { inner: vec![] };
    assert_eq!(b.to_html(), "");
    let v = vec![ContentBlock::HorizontalRule, ContentBlock::Button { inner: Inner::Text("b".to_string()) }];
    assert_eq!(v.to_html(), "");
}

#[test]
fn blocks_render_in_order() {
    let v = vec![
        ContentBlock::Paragraph { inner: "a".to_string() },
        ContentBlock::HorizontalRule,
        ContentBlock::Paragraph { inner: "b".to_string() },
    ];
    assert_eq!(blocks_to_html(&v), "<p>a</p><hr><p>b</p>");
}
