use archie::error::{AiInterfaceError, ErrorKind};
use archie::fetch::{status_is_success, FetchEvent, FetchStep};
use archie::interface::AiInterface;

fn interface() -> AiInterface {
    match AiInterface::new(Some("key".to_string())) {
        Ok(interface) => interface,
        Err(error) => panic!("{}", error.to_string()),
    }
}

fn responded(status: u16, detail: &str) -> FetchEvent {
    FetchEvent::Responded { status, detail: detail.to_string() }
}

#[test]
fn success_class_is_two_hundred_to_two_hundred_ninety_nine() {
    assert!(!status_is_success(0));
    assert!(!status_is_success(100));
    assert!(!status_is_success(199));
    assert!(status_is_success(200));
    assert!(status_is_success(204));
    assert!(status_is_success(299));
    assert!(!status_is_success(300));
    assert!(!status_is_success(304));
    assert!(!status_is_success(404));
    assert!(!status_is_success(500));
    assert!(!status_is_success(u16::MAX));
}

#[test]
fn send_failure_is_a_request_error() {
    let step = interface()
        .scrape_website(FetchEvent::SendFailed { detail: "dns error".to_string() });
    assert_eq!(
        step,
        FetchStep::Done(Err(AiInterfaceError::Request(
            "Failed to connect or send request: dns error".to_string()
        )))
    );
}

#[test]
fn success_status_asks_for_the_body() {
    assert_eq!(interface().scrape_website(responded(200, "200 OK")), FetchStep::ReadBody);
    assert_eq!(interface().scrape_website(responded(299, "299")), FetchStep::ReadBody);
}

#[test]
fn server_error_status_is_a_request_error() {
    let step = interface().scrape_website(responded(500, "500 Internal Server Error"));
    assert_eq!(
        step,
        FetchStep::Done(Err(AiInterfaceError::Request(
            "HTTP error status: 500 Internal Server Error".to_string()
        )))
    );
}

#[test]
fn every_status_outside_the_success_class_is_a_request_error() {
    let interface = interface();
    let mut status: u16 = 0;
    loop {
        let step = interface.scrape_website(responded(status, "d"));
        if (200..300).contains(&status) {
            assert_eq!(step, FetchStep::ReadBody);
        } else {
            match step {
                FetchStep::Done(Err(error)) => {
                    assert_eq!(error.kind(), ErrorKind::Request);
                    assert_eq!(error.message(), "HTTP error status: d");
                }
                other => panic!("status {}: {:?}", status, other),
            }
        }
        if status == 999 {
            break;
        }
        status += 1;
    }
}

#[test]
fn body_failure_is_a_request_error() {
    let step = interface()
        .scrape_website(FetchEvent::BodyFailed { detail: "error decoding response body".to_string() });
    assert_eq!(
        step,
        FetchStep::Done(Err(AiInterfaceError::Request(
            "Failed to read response body: error decoding response body".to_string()
        )))
    );
}

#[test]
fn body_gives_the_text_of_the_page() {
    let body = "<!DOCTYPE html><html><head><title>t</title></head><body>\n <main><h1>Events</h1>\n<p>Open day</p></main>\n</body></html>";
    let step = interface().scrape_website(FetchEvent::BodyRead { body: body.to_string() });
    assert_eq!(step, FetchStep::Done(Ok("Events\nOpen day".to_string())));
}

#[test]
fn same_body_gives_the_same_step() {
    let body = "<html><body><p> again </p></body></html>";
    let interface = interface();
    let first = interface.scrape_website(FetchEvent::BodyRead { body: body.to_string() });
    let second = interface.scrape_website(FetchEvent::BodyRead { body: body.to_string() });
    assert_eq!(first, second);
    assert_eq!(first, FetchStep::Done(Ok("again".to_string())));
}
