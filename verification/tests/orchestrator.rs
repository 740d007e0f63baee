use archie::error::{AiInterfaceError, ErrorKind};
use archie::fetch::FetchEvent;
use archie::generation::{
    Candidate, GenerationOutcome, GenerationRequest, GenerationResponse, Message, Part, Role,
};
use archie::interface::AiInterface;
use archie::orchestrator::{Action, Event, Run, Stage};
use archie::prompt::compose_prompt;

fn interface() -> AiInterface {
    match AiInterface::new(Some("key".to_string())) {
        Ok(interface) => interface,
        Err(error) => panic!("{}", error.to_string()),
    }
}

fn accepted() -> Event {
    Event::Fetch(FetchEvent::Responded { status: 200, detail: "200 OK".to_string() })
}

fn status(status: u16, detail: &str) -> Event {
    Event::Fetch(FetchEvent::Responded { status, detail: detail.to_string() })
}

fn body(body: &str) -> Event {
    Event::Fetch(FetchEvent::BodyRead { body: body.to_string() })
}

fn fetch(url: &str) -> Action {
    Action::Fetch { url: url.to_string() }
}

fn reply(text: &str) -> Event {
    Event::Generation(GenerationOutcome::Replied {
        response: GenerationResponse {
            candidates: vec![Candidate { parts: Some(vec![Part::Text(text.to_string())]) }],
        },
    })
}

/// Runs the events through a run started by `query` and returns every
/// action, the first one included.
fn actions(query: &str, events: Vec<Event>) -> (Run, Vec<Action>) {
    let interface = interface();
    let (mut run, first) = interface.archie(query);
    let mut actions = vec![first];
    for event in events {
        let (next, action) = interface.advance(run, event);
        run = next;
        actions.push(action);
    }
    (run, actions)
}

#[test]
fn run_starts_with_the_home_page() {
    let (run, action) = interface().archie("q");
    assert_eq!(action, fetch("https://www.arcadia.edu/"));
    assert_eq!(run.stage(), Stage::Connecting);
    assert_eq!(run.pages_fetched(), 0);
}

#[test]
fn three_pages_then_the_prompt_then_the_answer() {
    let query = "What are the latest events?";
    let (run, actions) = actions(
        query,
        vec![
            accepted(),
            body("Home."),
            accepted(),
            body("Events."),
            accepted(),
            body("About."),
            reply("There is an open day."),
        ],
    );
    let prompt = compose_prompt(query, "Home.", "Events.", "About.");
    assert_eq!(
        actions,
        vec![
            fetch("https://www.arcadia.edu/"),
            Action::ReadBody,
            fetch("https://www.arcadia.edu/events/?mode=month"),
            Action::ReadBody,
            fetch("https://www.arcadia.edu/about-arcadia/"),
            Action::ReadBody,
            Action::Generate {
                request: GenerationRequest {
                    model: "gemini-2.5-flash-lite".to_string(),
                    messages: vec![Message { role: Role::User, text: prompt.clone() }],
                },
            },
            Action::Finish { result: Ok("There is an open day.".to_string()) },
        ]
    );
    assert_eq!(run.stage(), Stage::Done);
    assert_eq!(run.pages_fetched(), 3);
    let query_at = prompt.find(query).unwrap();
    let home_at = prompt.find("Home.").unwrap();
    let events_at = prompt.find("Events.").unwrap();
    let about_at = prompt.find("About.").unwrap();
    assert!(query_at < home_at && home_at < events_at && events_at < about_at);
}

#[test]
fn pages_are_stripped_to_their_text_before_the_prompt() {
    let (_, actions) = actions(
        "q",
        vec![
            accepted(),
            body("<html><body><h1> Home </h1></body></html>"),
            accepted(),
            body("<html><body><ul><li>Fair</li><li>Concert</li></ul></body></html>"),
            accepted(),
            body("<html><head><title>About</title></head><body>\nFounded 1853\n</body></html>"),
        ],
    );
    let expected = compose_prompt("q", "Home", "FairConcert", "Founded 1853");
    match actions.last() {
        Some(Action::Generate { request }) => {
            assert_eq!(request.messages.len(), 1);
            assert_eq!(request.messages[0].role, Role::User);
            assert_eq!(request.messages[0].text, expected);
        }
        other => panic!("{:?}", other),
    }
}

#[test]
fn first_fetch_with_status_500_ends_the_run() {
    let (run, actions) =
        actions("What are the latest events?", vec![status(500, "500 Internal Server Error")]);
    assert_eq!(
        actions,
        vec![
            fetch("https://www.arcadia.edu/"),
            Action::Finish {
                result: Err(AiInterfaceError::Request(
                    "HTTP error status: 500 Internal Server Error".to_string()
                )),
            },
        ]
    );
    assert_eq!(run.stage(), Stage::Done);
    assert_eq!(run.pages_fetched(), 0);
}

#[test]
fn nothing_is_asked_for_after_a_failed_fetch() {
    let (run, actions) = actions(
        "q",
        vec![
            status(500, "500"),
            accepted(),
            body("Home."),
            accepted(),
            body("Events."),
            reply("late"),
        ],
    );
    assert_eq!(run.stage(), Stage::Done);
    for action in &actions[1..] {
        match action {
            Action::Finish { result: Err(_) } => {}
            other => panic!("{:?}", other),
        }
    }
}

#[test]
fn second_fetch_that_fails_ends_the_run_before_the_third() {
    let (run, actions) =
        actions("q", vec![accepted(), body("Home."), status(404, "404 Not Found")]);
    assert_eq!(
        actions,
        vec![
            fetch("https://www.arcadia.edu/"),
            Action::ReadBody,
            fetch("https://www.arcadia.edu/events/?mode=month"),
            Action::Finish {
                result: Err(AiInterfaceError::Request(
                    "HTTP error status: 404 Not Found".to_string()
                )),
            },
        ]
    );
    assert_eq!(run.stage(), Stage::Done);
    assert_eq!(run.pages_fetched(), 1);
}

#[test]
fn redirect_status_ends_the_run_too() {
    let (_, actions) = actions("q", vec![status(304, "304 Not Modified")]);
    assert_eq!(
        actions[1],
        Action::Finish {
            result: Err(AiInterfaceError::Request(
                "HTTP error status: 304 Not Modified".to_string()
            )),
        }
    );
}

#[test]
fn send_failure_ends_the_run() {
    let (run, actions) = actions(
        "q",
        vec![Event::Fetch(FetchEvent::SendFailed { detail: "connection refused".to_string() })],
    );
    assert_eq!(
        actions[1],
        Action::Finish {
            result: Err(AiInterfaceError::Request(
                "Failed to connect or send request: connection refused".to_string()
            )),
        }
    );
    assert_eq!(run.stage(), Stage::Done);
}

#[test]
fn body_failure_ends_the_run() {
    let (run, actions) = actions(
        "q",
        vec![
            accepted(),
            body("Home."),
            accepted(),
            body("Events."),
            accepted(),
            Event::Fetch(FetchEvent::BodyFailed { detail: "stream closed".to_string() }),
        ],
    );
    assert_eq!(
        actions[6],
        Action::Finish {
            result: Err(AiInterfaceError::Request(
                "Failed to read response body: stream closed".to_string()
            )),
        }
    );
    assert_eq!(run.stage(), Stage::Done);
    assert_eq!(run.pages_fetched(), 2);
}

#[test]
fn failed_generation_ends_the_run_with_an_api_error() {
    let (run, actions) = actions(
        "q",
        vec![
            accepted(),
            body("Home."),
            accepted(),
            body("Events."),
            accepted(),
            body("About."),
            Event::Generation(GenerationOutcome::Failed {
                description: "failed to perform request".to_string(),
            }),
        ],
    );
    assert_eq!(
        actions[7],
        Action::Finish {
            result: Err(AiInterfaceError::Api("failed to perform request".to_string())),
        }
    );
    assert_eq!(run.stage(), Stage::Done);
}

#[test]
fn reply_without_candidates_ends_the_run_with_the_sentinel() {
    let (_, actions) = actions(
        "q",
        vec![
            accepted(),
            body("Home."),
            accepted(),
            body("Events."),
            accepted(),
            body("About."),
            Event::Generation(GenerationOutcome::Replied {
                response: GenerationResponse { candidates: vec![] },
            }),
        ],
    );
    assert_eq!(
        actions[7],
        Action::Finish { result: Ok("The model returned no text.".to_string()) }
    );
}

#[test]
fn stages_follow_the_actions() {
    let interface = interface();
    let (run, _) = interface.archie("q");
    assert_eq!(run.stage(), Stage::Connecting);
    let (run, _) = interface.advance(run, accepted());
    assert_eq!(run.stage(), Stage::Reading);
    let (run, _) = interface.advance(run, body("Home."));
    assert_eq!(run.stage(), Stage::Connecting);
    assert_eq!(run.pages_fetched(), 1);
    let (run, _) = interface.advance(run, accepted());
    let (run, _) = interface.advance(run, body("Events."));
    let (run, _) = interface.advance(run, accepted());
    assert_eq!(run.stage(), Stage::Reading);
    assert_eq!(run.pages_fetched(), 2);
    let (run, _) = interface.advance(run, body("About."));
    assert_eq!(run.stage(), Stage::Generating);
    assert_eq!(run.pages_fetched(), 3);
    let (run, _) = interface.advance(run, reply("done"));
    assert_eq!(run.stage(), Stage::Done);
}

#[test]
fn run_tells_which_events_it_expects() {
    let interface = interface();
    let (run, _) = interface.archie("q");
    assert!(run.expects(&accepted()));
    assert!(run.expects(&status(500, "500")));
    assert!(run.expects(&Event::Fetch(FetchEvent::SendFailed { detail: String::new() })));
    assert!(!run.expects(&body("x")));
    assert!(!run.expects(&Event::Fetch(FetchEvent::BodyFailed { detail: String::new() })));
    assert!(!run.expects(&reply("x")));
    let (run, _) = interface.advance(run, accepted());
    assert!(run.expects(&body("x")));
    assert!(run.expects(&Event::Fetch(FetchEvent::BodyFailed { detail: String::new() })));
    assert!(!run.expects(&accepted()));
    assert!(!run.expects(&reply("x")));
}

#[test]
fn body_before_a_response_is_unexpected() {
    let (run, actions) = actions("q", vec![body("Home.")]);
    assert_eq!(
        actions[1],
        Action::Finish { result: Err(AiInterfaceError::General("Unexpected event".to_string())) }
    );
    assert_eq!(run.stage(), Stage::Done);
    assert_eq!(run.pages_fetched(), 0);
}

#[test]
fn reply_before_the_pages_is_unexpected() {
    let (run, actions) = actions("q", vec![accepted(), body("Home."), reply("early")]);
    match &actions[3] {
        Action::Finish { result: Err(error) } => {
            assert_eq!(error.kind(), ErrorKind::General);
            assert_eq!(error.to_string(), "General Error: Unexpected event");
        }
        other => panic!("{:?}", other),
    }
    assert_eq!(run.stage(), Stage::Done);
}

#[test]
fn finished_run_expects_nothing() {
    let (run, actions) = actions(
        "q",
        vec![
            accepted(),
            body("Home."),
            accepted(),
            body("Events."),
            accepted(),
            body("About."),
            reply("answer"),
            reply("again"),
            accepted(),
        ],
    );
    assert_eq!(actions[7], Action::Finish { result: Ok("answer".to_string()) });
    for action in &actions[8..] {
        assert_eq!(
            *action,
            Action::Finish {
                result: Err(AiInterfaceError::General("Unexpected event".to_string()))
            }
        );
    }
    assert!(!run.expects(&accepted()));
    assert!(!run.expects(&reply("x")));
    assert_eq!(run.stage(), Stage::Done);
}
