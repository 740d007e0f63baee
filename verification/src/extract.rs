//! From the markup of a page to its text.

use crate::error::{AiInterfaceError, ErrorKind, Failure};
use crate::text::{
    is_trimmed, lemma_is_trimmed_iff_unchanged, lemma_trimmed_is_trimmed, trim, trimmed,
};
use scraper::error::SelectorErrorKind;
use scraper::{Html, Selector};
use vstd::prelude::*;
use vstd::string::*;

verus! {

/// The error of `scraper::Selector::parse`, carried through unread.
#[verifier::external_type_specification]
#[verifier::external_body]
pub struct ExSelectorErrorKind(SelectorErrorKind);

/// The longest markup, in characters, that is handed to the parser. The
/// parser refuses an input of more than `u32::MAX` bytes and cannot grow a
/// buffer of its own beyond `2^31` bytes. It never makes more characters
/// than it was given, and a character takes at most four bytes, so under
/// this limit every buffer stays below `2^31` bytes.
pub const MARKUP_LIMIT: usize = 0x1FFF_FFFF;

/// What is said of a page that is too long to be parsed.
pub const MARKUP_TOO_LONG: &'static str = "Page too long to parse";

/// The texts of some strings, in their order.
pub open spec fn texts(pieces: Seq<String>) -> Seq<Seq<char>> {
    pieces.map_values(|piece: String| piece@)
}

/// What `scraper` selects from a document: `None` where `selector` is no
/// CSS selector group, else the text nodes below each element of the parsed
/// `markup` that matches it, in the order in which `scraper` yields the
/// elements and, for each, its text nodes.
pub uninterp spec fn selected_pieces(markup: Seq<char>, selector: Seq<char>) -> Option<
    Seq<Seq<char>>,
>;

/// Parses `markup` with `scraper::Html::parse_document` and `selector` with
/// `scraper::Selector::parse`, walks the matches of `Html::select` and
/// collects what `ElementRef::text` yields for each. The contract claims
/// that the outcome is a function of the two strings alone, and gives it
/// the name `selected_pieces`; the selector's error comes back as it is.
/// The parser panics on an input of more than `u32::MAX` bytes, and where
/// a text node or another buffer of its own would grow beyond `2^31`
/// bytes; the bound on the markup leaves both out. The selector is held
/// to the same bound, so that no count of the selector's parser leaves
/// 32 bits.
#[verifier::external_body]
fn select_pieces(markup: &str, selector: &str) -> (selection: Result<
    Vec<String>,
    SelectorErrorKind,
>)
    requires
        markup@.len() <= MARKUP_LIMIT,
        selector@.len() <= MARKUP_LIMIT,
    ensures
        match selection {
            Ok(pieces) => selected_pieces(markup@, selector@) == Some(texts(pieces@)),
            Err(_) => selected_pieces(markup@, selector@) is None,
        },
{
    let document = Html::parse_document(markup);
    let selector = Selector::parse(selector)?;
    let mut pieces = Vec::new();
    for element in document.select(&selector) {
        for piece in element.text() {
            pieces.push(piece.to_string());
        }
    }
    Ok(pieces)
}

/// The selector of the element that holds the content of a page.
pub const CONTENT_SELECTOR: &'static str = "body";

/// What is said where the selector does not parse.
pub const SELECTOR_FAILED: &'static str = "Failed to parse selector";

/// The failure that stands for a selector that did not parse.
pub open spec fn selector_failure() -> Failure {
    Failure { kind: ErrorKind::General, message: SELECTOR_FAILED@ }
}

/// A text or a failure as a mathematical value.
pub open spec fn outcome_view(outcome: Result<String, AiInterfaceError>) -> Result<
    Seq<char>,
    Failure,
> {
    match outcome {
        Ok(text) => Ok(text@),
        Err(error) => Err(error@),
    }
}

/// The failure that stands for a page that is too long to be parsed.
pub open spec fn markup_failure() -> Failure {
    Failure { kind: ErrorKind::General, message: MARKUP_TOO_LONG@ }
}

/// What is made of a selection: its pieces joined and the whole trimmed,
/// or the failure of the selector.
pub open spec fn text_of_selection(selection: Option<Seq<Seq<char>>>) -> Result<
    Seq<char>,
    Failure,
> {
    match selection {
        Some(pieces) => Ok(trimmed(pieces.flatten())),
        None => Err(selector_failure()),
    }
}

/// The text of a page with the given markup: the failure of a page that is
/// too long, else what is made of the text nodes below its `body` element.
pub open spec fn page_text(markup: Seq<char>) -> Result<Seq<char>, Failure> {
    if markup.len() > MARKUP_LIMIT {
        Err(markup_failure())
    } else {
        text_of_selection(selected_pieces(markup, CONTENT_SELECTOR@))
    }
}

/// Joins pieces of text in their order, with nothing between them.
pub fn join(pieces: &Vec<String>) -> (text: String)
    ensures
        text@ == texts(pieces@).flatten(),
{
    let ghost all = texts(pieces@);
    let mut text = String::new();
    let mut at: usize = 0;
    while at < pieces.len()
        invariant
            at <= pieces.len(),
            all == texts(pieces@),
            text@ == all.take(at as int).flatten(),
        decreases pieces.len() - at,
    {
        proof {
            let before = all.take(at as int);
            let after = all.take(at + 1);
            assert(after.drop_last() =~= before);
            assert(after.last() == pieces@[at as int]@);
            before.lemma_flatten_and_flatten_alt_are_equivalent();
            after.lemma_flatten_and_flatten_alt_are_equivalent();
        }
        text.append(pieces[at].as_str());
        at = at + 1;
    }
    assert(all.take(at as int) =~= all);
    text
}

/// Turns what was selected from a document into the text of the page:
/// the pieces joined in their order, without the leading and trailing
/// whitespace of the whole, or a `General` error where the selector did
/// not parse.
pub fn finish_extraction(selection: Result<Vec<String>, SelectorErrorKind>) -> (outcome: Result<
    String,
    AiInterfaceError,
>)
    ensures
        match selection {
            Ok(pieces) => outcome_view(outcome) == Ok::<Seq<char>, Failure>(
                trimmed(texts(pieces@).flatten()),
            ),
            Err(_) => outcome_view(outcome) == Err::<Seq<char>, Failure>(selector_failure()),
        },
{
    match selection {
        Ok(pieces) => Ok(trim(join(&pieces).as_str())),
        Err(_) => Err(AiInterfaceError::General(String::from_str(SELECTOR_FAILED))),
    }
}

/// Tells whether a markup is short enough to be parsed.
pub fn markup_fits(markup: &str) -> (fits: bool)
    ensures
        fits == (markup@.len() <= MARKUP_LIMIT),
{
    markup.unicode_len() <= MARKUP_LIMIT
}

/// Extracts the text of a page from its markup: the text nodes below the
/// `body` element, joined and trimmed. A markup of more than
/// `MARKUP_LIMIT` characters is not parsed and gives a `General` error.
pub fn extract_text(markup: &str) -> (outcome: Result<String, AiInterfaceError>)
    ensures
        outcome_view(outcome) == page_text(markup@),
        outcome is Ok <==> markup@.len() <= MARKUP_LIMIT && selected_pieces(
            markup@,
            CONTENT_SELECTOR@,
        ) is Some,
        markup@.len() > MARKUP_LIMIT <==> outcome_view(outcome) == Err::<Seq<char>, Failure>(
            markup_failure(),
        ),
        outcome matches Ok(text) ==> is_trimmed(text@) && trimmed(text@) == text@,
{
    proof {
        lemma_page_text_outcomes(markup@);
        reveal_strlit("body");
    }
    if !markup_fits(markup) {
        return Err(AiInterfaceError::General(String::from_str(MARKUP_TOO_LONG)));
    }
    finish_extraction(select_pieces(markup, CONTENT_SELECTOR))
}

/// Extraction is repeatable: whatever two extractions from the same markup
/// return, they return the same text, or the same failure.
pub proof fn lemma_extraction_repeatable(
    markup: Seq<char>,
    first: Result<String, AiInterfaceError>,
    second: Result<String, AiInterfaceError>,
)
    requires
        outcome_view(first) == page_text(markup),
        outcome_view(second) == page_text(markup),
    ensures
        outcome_view(first) == outcome_view(second),
        first is Ok <==> second is Ok,
        first is Ok ==> first->Ok_0@ == second->Ok_0@,
{
}

/// The text of a page neither starts nor ends with whitespace, and
/// trimming it changes nothing.
pub proof fn lemma_page_text_is_trimmed(markup: Seq<char>)
    ensures
        page_text(markup) matches Ok(text) ==> is_trimmed(text) && trimmed(text) == text,
{
    if let Some(pieces) = selected_pieces(markup, CONTENT_SELECTOR@) {
        lemma_trimmed_is_trimmed(pieces.flatten());
        lemma_is_trimmed_iff_unchanged(trimmed(pieces.flatten()));
    }
}

/// The three outcomes of an extraction and when each comes: a text, which
/// is then trimmed, for a markup within the limit whose selection the
/// parser gives; the failure of a page that is too long for a markup over
/// the limit; the failure of the selector where the markup is within the
/// limit and the selector does not parse.
pub proof fn lemma_page_text_outcomes(markup: Seq<char>)
    ensures
        page_text(markup) is Ok <==> markup.len() <= MARKUP_LIMIT && selected_pieces(
            markup,
            CONTENT_SELECTOR@,
        ) is Some,
        page_text(markup) == Err::<Seq<char>, Failure>(markup_failure()) <==> markup.len()
            > MARKUP_LIMIT,
        page_text(markup) == Err::<Seq<char>, Failure>(selector_failure()) <==> markup.len()
            <= MARKUP_LIMIT && selected_pieces(markup, CONTENT_SELECTOR@) is None,
        page_text(markup) matches Ok(text) ==> is_trimmed(text) && trimmed(text) == text,
{
    lemma_page_text_is_trimmed(markup);
    lemma_failures_differ();
}

/// The failure of a page that is too long is told from the failure of the
/// selector by its message.
pub proof fn lemma_failures_differ()
    ensures
        markup_failure() != selector_failure(),
{
    reveal_strlit("Page too long to parse");
    reveal_strlit("Failed to parse selector");
    assert(MARKUP_TOO_LONG@.len() != SELECTOR_FAILED@.len());
}

} // verus!
