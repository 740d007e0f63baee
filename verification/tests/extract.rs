use archie::error::{AiInterfaceError, ErrorKind};
use archie::extract::{
    extract_text, finish_extraction, join, markup_fits, CONTENT_SELECTOR, MARKUP_LIMIT,
    MARKUP_TOO_LONG, SELECTOR_FAILED,
};
use scraper::Selector;

#[test]
fn text_of_a_simple_page() {
    let page = "<html><head><title>Title</title></head><body><p>Hello</p></body></html>";
    assert_eq!(extract_text(page), Ok("Hello".to_string()));
}

#[test]
fn text_below_nested_tags_in_document_order() {
    let page = "<html><body><div><h1>One</h1><ul><li>Two</li><li><b>Three</b> Four</li></ul></div><p>Five</p></body></html>";
    assert_eq!(extract_text(page), Ok("OneTwoThree FourFive".to_string()));
}

#[test]
fn text_is_trimmed_at_both_ends() {
    let page = "<html><body>\n\n   <p>  inner  spaces  </p>\n\t </body></html>";
    let text = extract_text(page).unwrap();
    assert_eq!(text, "inner  spaces");
    assert!(!text.starts_with(char::is_whitespace));
    assert!(!text.ends_with(char::is_whitespace));
}

#[test]
fn markup_is_left_out_of_the_text() {
    let page = "<html><body><a href=\"https://example.org/\">link</a><img src=\"x.png\" alt=\"pic\"><!-- note --></body></html>";
    assert_eq!(extract_text(page), Ok("link".to_string()));
}

#[test]
fn head_is_left_out_of_the_text() {
    let page = "<html><head><title>Title</title><style>p { color: red }</style><script>var a = 1;</script></head><body>Body</body></html>";
    assert_eq!(extract_text(page), Ok("Body".to_string()));
}

#[test]
fn text_nodes_of_a_script_below_body_are_descendants_too() {
    let page = "<html><body><p>Before</p><script>let x = 1;</script><p>After</p></body></html>";
    assert_eq!(extract_text(page), Ok("Beforelet x = 1;After".to_string()));
}

#[test]
fn character_references_are_decoded() {
    let page = "<html><body><p>Fish &amp; chips &lt;today&gt;</p></body></html>";
    assert_eq!(extract_text(page), Ok("Fish & chips <today>".to_string()));
}

#[test]
fn plain_text_is_a_page_of_its_own() {
    assert_eq!(extract_text("Home."), Ok("Home.".to_string()));
}

#[test]
fn empty_markup_has_empty_text() {
    assert_eq!(extract_text(""), Ok(String::new()));
}

#[test]
fn page_of_whitespace_has_empty_text() {
    assert_eq!(extract_text("<html><body> \n \t </body></html>"), Ok(String::new()));
}

#[test]
fn extraction_gives_the_same_text_twice() {
    let page = "<html><body><div> <p>Same <i>text</i></p> <script>f()</script> </div></body></html>";
    let first = extract_text(page);
    let second = extract_text(page);
    assert_eq!(first, second);
    assert_eq!(first, Ok("Same text f()".to_string()));
}

#[test]
fn the_content_selector_parses() {
    assert_eq!(CONTENT_SELECTOR, "body");
    assert!(Selector::parse(CONTENT_SELECTOR).is_ok());
}

fn pieces(pieces: &[&str]) -> Vec<String> {
    pieces.iter().map(|piece| piece.to_string()).collect()
}

#[test]
fn pieces_are_joined_in_their_order() {
    assert_eq!(join(&pieces(&["One", " two ", "", "three"])), "One two three");
    assert_eq!(join(&pieces(&[])), "");
    assert_eq!(join(&pieces(&["alone"])), "alone");
    assert_eq!(join(&pieces(&[" ", "é", "日本"])), " é日本");
}

#[test]
fn a_selection_is_joined_and_trimmed() {
    assert_eq!(
        finish_extraction(Ok(pieces(&["  \n", " picked", " up \t", " "]))),
        Ok("picked up".to_string())
    );
    assert_eq!(finish_extraction(Ok(pieces(&["Hello", " ", "World"]))), Ok("Hello World".to_string()));
    assert_eq!(finish_extraction(Ok(pieces(&[]))), Ok(String::new()));
    assert_eq!(finish_extraction(Ok(pieces(&[" ", "\n"]))), Ok(String::new()));
}

#[test]
fn whitespace_between_pieces_is_kept() {
    let page = "<html><body><div><p>Hello</p> <p>World</p></div></body></html>";
    assert_eq!(extract_text(page), Ok("Hello World".to_string()));
}

#[test]
fn markup_up_to_the_limit_fits() {
    assert_eq!(MARKUP_LIMIT, 0x1FFF_FFFF);
    assert!(MARKUP_LIMIT as u64 * 4 < 1 << 31);
    assert!(markup_fits(""));
    assert!(markup_fits("<html><body>short</body></html>"));
}

#[test]
fn a_page_over_the_limit_is_a_general_error() {
    let page = "a".repeat(MARKUP_LIMIT + 1);
    assert!(!markup_fits(&page));
    let outcome = extract_text(&page);
    assert_eq!(outcome, Err(AiInterfaceError::General("Page too long to parse".to_string())));
    let error = outcome.unwrap_err();
    assert_eq!(error.kind(), ErrorKind::General);
    assert_eq!(error.message(), MARKUP_TOO_LONG);
}

#[test]
fn a_selector_that_does_not_parse_is_a_general_error() {
    let failed = Selector::parse("div >").map(|_| Vec::new());
    assert!(failed.is_err());
    let outcome = finish_extraction(failed);
    assert_eq!(outcome, Err(AiInterfaceError::General("Failed to parse selector".to_string())));
    let error = outcome.unwrap_err();
    assert_eq!(error.kind(), ErrorKind::General);
    assert_eq!(error.message(), SELECTOR_FAILED);
    assert_eq!(error.to_string(), "General Error: Failed to parse selector");
}
