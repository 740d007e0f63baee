//! The pages that ground an answer and the prompt composed from them.

use vstd::prelude::*;
use vstd::string::*;

verus! {

/// How many pages ground an answer.
pub const SOURCE_COUNT: usize = 3;

/// The persona and the instruction that open every prompt.
pub const PREAMBLE: &'static str =
    "System: You are ArchieAI an AI assistant for Arcadia University. You are here to help students, faculty, and staff with any questions they may have about the university. You were made by Eva Akselrad and Ab.\n            Using the following website content, answer the query: ";

/// The heading over the text of the home page.
pub const WEBSITE_HEADING: &'static str = "\n\nWebsite Content:\n";

/// The heading over the text of the events listing.
pub const EVENTS_HEADING: &'static str = "\n\nEvents Content:\n";

/// The heading over the text of the page about the university.
pub const ABOUT_HEADING: &'static str = "\n\nAbout Content:\n";

/// The address of the home page.
pub const HOME_URL: &'static str = "https://www.arcadia.edu/";

/// The address of the events listing.
pub const EVENTS_URL: &'static str = "https://www.arcadia.edu/events/?mode=month";

/// The address of the page about the university.
pub const ABOUT_URL: &'static str = "https://www.arcadia.edu/about-arcadia/";

/// The addresses of the pages, in the order in which they are fetched.
pub open spec fn source_urls() -> Seq<Seq<char>> {
    seq![HOME_URL@, EVENTS_URL@, ABOUT_URL@]
}

/// The prompt for a query and the texts of the three pages: the preamble,
/// the query, then each text under its heading, in the order of the
/// fetches.
pub open spec fn prompt(
    query: Seq<char>,
    website: Seq<char>,
    events: Seq<char>,
    about: Seq<char>,
) -> Seq<char> {
    PREAMBLE@ + query + WEBSITE_HEADING@ + website + EVENTS_HEADING@ + events + ABOUT_HEADING@
        + about
}

/// The address of the page that is fetched at position `index`.
pub fn source_url(index: usize) -> (url: &'static str)
    requires
        index < SOURCE_COUNT,
    ensures
        url@ == source_urls()[index as int],
{
    if index == 0 {
        HOME_URL
    } else if index == 1 {
        EVENTS_URL
    } else {
        ABOUT_URL
    }
}

/// Composes the prompt for a query from the texts of the three pages.
pub fn compose_prompt(query: &str, website: &str, events: &str, about: &str) -> (text: String)
    ensures
        text@ == prompt(query@, website@, events@, about@),
{
    let mut text = String::from_str(PREAMBLE);
    text.append(query);
    text.append(WEBSITE_HEADING);
    text.append(website);
    text.append(EVENTS_HEADING);
    text.append(events);
    text.append(ABOUT_HEADING);
    text.append(about);
    text
}

/// A prompt holds the query and the texts of the three pages, whole and in
/// the order of the fetches: the result gives where each starts.
pub proof fn lemma_prompt_holds_query_and_pages(
    query: Seq<char>,
    website: Seq<char>,
    events: Seq<char>,
    about: Seq<char>,
) -> (starts: (int, int, int, int))
    ensures
        ({
            let text = prompt(query, website, events, about);
            let (q, w, e, a) = starts;
            &&& 0 <= q
            &&& q + query.len() <= w
            &&& w + website.len() <= e
            &&& e + events.len() <= a
            &&& a + about.len() == text.len()
            &&& text.subrange(q, q + query.len()) == query
            &&& text.subrange(w, w + website.len()) == website
            &&& text.subrange(e, e + events.len()) == events
            &&& text.subrange(a, a + about.len()) == about
        }),
{
    let text = prompt(query, website, events, about);
    let q = PREAMBLE@.len() as int;
    let w = q + query.len() + WEBSITE_HEADING@.len();
    let e = w + website.len() + EVENTS_HEADING@.len();
    let a = e + events.len() + ABOUT_HEADING@.len();
    assert(text.subrange(q, q + query.len()) =~= query);
    assert(text.subrange(w, w + website.len()) =~= website);
    assert(text.subrange(e, e + events.len()) =~= events);
    assert(text.subrange(a, a + about.len()) =~= about);
    (q, w, e, a)
}

} // verus!
