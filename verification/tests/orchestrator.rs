use base64::Engine;
use clippy_clippy::config::Config;
use clippy_clippy::orchestrator::{
    on_image, on_response, stage_accepts, step, Action, Event, ExtractionOutcome, FailureReason,
    Options, Stage,
};
use clippy_clippy::pixel::{RawClipboardImage, ValidationError};
use clippy_clippy::request::ContentPart;
use clippy_clippy::response::InterpretError;

fn options() -> Options {
    Options { markdown: false, model: "gpt-4-vision-preview".to_string(), max_tokens: 1024 }
}

fn white_square() -> RawClipboardImage {
    RawClipboardImage::new(2, 2, vec![0xff; 16])
}

fn failure(reason: FailureReason) -> (Stage, Action) {
    (Stage::Done, Action::Finish(ExtractionOutcome::Failure(reason)))
}

#[test]
fn white_square_runs_through_to_its_text() {
    let options = options();
    let (stage, action) = step(Stage::Start, Event::Started, &options);
    assert_eq!(stage, Stage::ClipboardRead);
    assert_eq!(action, Action::ReadClipboard);

    let (stage, action) = step(stage, Event::ImagePresent(white_square()), &options);
    assert_eq!(stage, Stage::Transport);
    let request = match action {
        Action::Send(request) => request,
        other => panic!("nothing is sent: {:?}", other),
    };
    assert_eq!(request.model, "gpt-4-vision-preview");
    assert_eq!(request.max_tokens, 1024);
    let url = match &request.messages[0].content[1] {
        ContentPart::ImageUrl { image_url } => image_url.url.clone(),
        other => panic!("the second part is no image: {:?}", other),
    };
    let png = base64::engine::general_purpose::STANDARD
        .decode(url.strip_prefix("data:image/png;base64,").unwrap())
        .unwrap();
    let pixels = image::load_from_memory(&png).unwrap().to_rgba8();
    assert_eq!(pixels.dimensions(), (2, 2));
    assert_eq!(pixels.into_raw(), vec![0xff; 16]);

    let answer = Event::Responded {
        status: 200,
        body: r#"{"choices":[{"message":{"content":"HELLO"}}]}"#.to_string(),
    };
    let (stage, action) = step(stage, answer, &options);
    assert_eq!(stage, Stage::Done);
    assert_eq!(action, Action::Finish(ExtractionOutcome::Text("HELLO".to_string())));
}

#[test]
fn an_invocation_starts_by_reading_the_clipboard() {
    assert_eq!(
        step(Stage::Start, Event::Started, &options()),
        (Stage::ClipboardRead, Action::ReadClipboard)
    );
}

#[test]
fn no_image_ends_without_a_failure() {
    assert_eq!(
        step(Stage::ClipboardRead, Event::NoImage, &options()),
        (Stage::Done, Action::Finish(ExtractionOutcome::NoImagePresent))
    );
}

#[test]
fn an_unreadable_clipboard_is_a_failure() {
    let event = Event::ClipboardFailed { detail: "no clipboard backend".to_string() };
    assert_eq!(
        step(Stage::ClipboardRead, event, &options()),
        failure(FailureReason::Clipboard { detail: "no clipboard backend".to_string() })
    );
}

#[test]
fn an_image_with_nothing_in_it_ends_without_a_failure() {
    for image in [
        RawClipboardImage::new(0, 2, vec![0; 16]),
        RawClipboardImage::new(2, 0, vec![0; 16]),
        RawClipboardImage::new(0, 0, Vec::new()),
        RawClipboardImage::new(2, 2, Vec::new()),
    ] {
        assert_eq!(
            step(Stage::ClipboardRead, Event::ImagePresent(image), &options()),
            (Stage::Done, Action::Finish(ExtractionOutcome::EmptyImage))
        );
    }
}

#[test]
fn a_buffer_of_the_wrong_length_is_a_failure() {
    for len in [1usize, 15, 17, 64] {
        let image = RawClipboardImage::new(2, 2, vec![0; len]);
        assert_eq!(
            step(Stage::ClipboardRead, Event::ImagePresent(image), &options()),
            failure(FailureReason::Validation(ValidationError::LengthMismatch))
        );
    }
}

#[test]
fn a_failed_exchange_is_a_failure() {
    let event = Event::TransportFailed { detail: "operation timed out".to_string() };
    assert_eq!(
        step(Stage::Transport, event, &options()),
        failure(FailureReason::Transport { detail: "operation timed out".to_string() })
    );
}

#[test]
fn a_response_that_yields_no_text_is_a_failure() {
    let event = Event::Responded { status: 503, body: "Service Unavailable".to_string() };
    assert_eq!(
        step(Stage::Transport, event, &options()),
        failure(FailureReason::Response(InterpretError::HttpError {
            status: 503,
            raw_body: "Service Unavailable".to_string(),
        }))
    );
    let event = Event::Responded { status: 200, body: r#"{"choices":[]}"#.to_string() };
    assert_eq!(
        step(Stage::Transport, event, &options()),
        failure(FailureReason::Response(InterpretError::NoChoices))
    );
}

#[test]
fn the_options_shape_the_request() {
    let options = Options { markdown: true, model: "another".to_string(), max_tokens: 9 };
    let (stage, action) = on_image(&white_square(), &options);
    assert_eq!(stage, Stage::Transport);
    match action {
        Action::Send(request) => {
            assert_eq!(request.model, "another");
            assert_eq!(request.max_tokens, 9);
            match &request.messages[0].content[0] {
                ContentPart::Text { text } => assert!(text.contains("GitHub Flavored Markdown")),
                other => panic!("the first part is no text: {:?}", other),
            }
        }
        other => panic!("nothing is sent: {:?}", other),
    }
}

#[test]
fn dimensions_beyond_the_buffer_are_a_length_mismatch() {
    for (width, height) in [(usize::MAX, 1usize), (1, usize::MAX), (usize::MAX, usize::MAX)] {
        let image = RawClipboardImage { width, height, bytes: vec![0; 4] };
        assert_eq!(
            on_image(&image, &options()),
            failure(FailureReason::Validation(ValidationError::LengthMismatch))
        );
    }
}

#[test]
fn options_are_taken_from_the_settings() {
    let config = Config {
        api_url: "https://example.invalid/v1".to_string(),
        api_token: "token".to_string(),
        model_name: "some-model".to_string(),
        max_tokens: 512,
        request_timeout_seconds: 30,
    };
    assert_eq!(
        Options::from_config(&config, true),
        Options { markdown: true, model: "some-model".to_string(), max_tokens: 512 }
    );
    assert_eq!(
        Options::from_config(&config, false),
        Options { markdown: false, model: "some-model".to_string(), max_tokens: 512 }
    );
}

#[test]
fn on_response_tells_text_from_failure() {
    assert_eq!(
        on_response(200, r#"{"choices":[{"message":{"content":"ok"}}]}"#),
        ExtractionOutcome::Text("ok".to_string())
    );
    assert_eq!(
        on_response(200, "oops"),
        ExtractionOutcome::Failure(FailureReason::Response(InterpretError::MalformedResponse {
            raw_body: "oops".to_string(),
        }))
    );
    assert_eq!(
        on_response(401, r#"{"error":{"message":"bad key","type":"invalid_request_error"}}"#),
        ExtractionOutcome::Failure(FailureReason::Response(InterpretError::ApiError {
            message: "bad key".to_string(),
            kind: "invalid_request_error".to_string(),
        }))
    );
}

#[test]
fn each_stage_waits_for_its_own_events() {
    let events = || {
        vec![
            Event::Started,
            Event::ImagePresent(white_square()),
            Event::NoImage,
            Event::ClipboardFailed { detail: String::new() },
            Event::Responded { status: 200, body: String::new() },
            Event::TransportFailed { detail: String::new() },
        ]
    };
    let table = [
        (Stage::Start, [true, false, false, false, false, false]),
        (Stage::ClipboardRead, [false, true, true, true, false, false]),
        (Stage::Transport, [false, false, false, false, true, true]),
        (Stage::Done, [false, false, false, false, false, false]),
    ];
    for (stage, expected) in table {
        for (event, fits) in events().iter().zip(expected) {
            assert_eq!(stage_accepts(stage, event), fits);
        }
    }
}
