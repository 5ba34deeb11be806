//! One invocation as a state machine.
//!
//! The clipboard and the network are the caller's: the caller performs the
//! [`Action`] that a step hands out and reports what happened as the next
//! [`Event`]. The decisions between the two are taken here. No stage is ever
//! entered twice, and every invocation ends in exactly one
//! [`ExtractionOutcome`].

use crate::config::Config;
use crate::encoder::{encode_image_to_base64, encoding, EncodeFailure, EncodingError};
use crate::pixel::{RawClipboardImage, ValidationError};
use crate::request::{build_request, request_for, CompletionRequest, RequestModel};
use crate::response::{interpret, interpretation, InterpretError, InterpretErrorModel};
use vstd::prelude::*;

verus! {

/// Why an invocation failed.
#[derive(Debug, PartialEq, Eq)]
pub enum FailureReason {
    /// The clipboard could not be read at all.
    Clipboard { detail: String },
    /// The pixel buffer has the wrong shape.
    Validation(ValidationError),
    /// The image could not be encoded.
    Encoding(EncodingError),
    /// No response arrived: the connection failed or the timeout elapsed.
    Transport { detail: String },
    /// A response arrived and yields no text.
    Response(InterpretError),
}

/// How one invocation ended.
#[derive(Debug, PartialEq, Eq)]
pub enum ExtractionOutcome {
    /// The text that the model read in the image.
    Text(String),
    /// The clipboard holds no image: nothing to do, and no failure.
    NoImagePresent,
    /// The clipboard holds an image with nothing in it: no failure either.
    EmptyImage,
    Failure(FailureReason),
}

/// Where an invocation stands.
#[derive(Clone, Copy, Debug, PartialEq, Eq, Structural)]
pub enum Stage {
    Start,
    /// The clipboard is being read.
    ClipboardRead,
    /// The request is on its way.
    Transport,
    Done,
}

/// What the caller reports.
#[derive(Debug, PartialEq, Eq)]
pub enum Event {
    /// The invocation begins.
    Started,
    /// The clipboard holds this image.
    ImagePresent(RawClipboardImage),
    /// The clipboard holds no image.
    NoImage,
    /// The clipboard could not be read.
    ClipboardFailed { detail: String },
    /// The endpoint answered.
    Responded { status: u16, body: String },
    /// The exchange failed before an answer arrived.
    TransportFailed { detail: String },
}

/// What the caller is to do next.
#[derive(Debug, PartialEq, Eq)]
pub enum Action {
    ReadClipboard,
    Send(CompletionRequest),
    Finish(ExtractionOutcome),
}

/// What a request is built with.
#[derive(Debug, PartialEq, Eq)]
pub struct Options {
    pub markdown: bool,
    pub model: String,
    pub max_tokens: u32,
}

impl Options {
    /// The options that the settings and the chosen output format amount to.
    pub fn from_config(config: &Config, markdown: bool) -> (options: Options)
        ensures
            options.markdown == markdown,
            options.model@ == config.model_name@,
            options.max_tokens == config.max_tokens,
    {
        Options { markdown, model: config.model_name.clone(), max_tokens: config.max_tokens }
    }
}

/// Model of a [`FailureReason`].
pub enum FailureModel {
    Clipboard { detail: Seq<char> },
    Validation(ValidationError),
    Encoding(EncodingError),
    Transport { detail: Seq<char> },
    Response(InterpretErrorModel),
}

/// Model of an [`ExtractionOutcome`].
pub enum OutcomeModel {
    Text(Seq<char>),
    NoImagePresent,
    EmptyImage,
    Failure(FailureModel),
}

/// Model of an [`Action`].
pub enum ActionModel {
    ReadClipboard,
    Send(RequestModel),
    Finish(OutcomeModel),
}

/// Model of an [`Event`].
pub enum EventModel {
    Started,
    ImagePresent { width: nat, height: nat, bytes: Seq<u8> },
    NoImage,
    ClipboardFailed { detail: Seq<char> },
    Responded { status: u16, body: Seq<char> },
    TransportFailed { detail: Seq<char> },
}

impl View for FailureReason {
    type V = FailureModel;

    open spec fn view(&self) -> FailureModel {
        match self {
            FailureReason::Clipboard { detail } => FailureModel::Clipboard { detail: detail@ },
            FailureReason::Validation(e) => FailureModel::Validation(*e),
            FailureReason::Encoding(e) => FailureModel::Encoding(*e),
            FailureReason::Transport { detail } => FailureModel::Transport { detail: detail@ },
            FailureReason::Response(e) => FailureModel::Response(e@),
        }
    }
}

impl View for ExtractionOutcome {
    type V = OutcomeModel;

    open spec fn view(&self) -> OutcomeModel {
        match self {
            ExtractionOutcome::Text(text) => OutcomeModel::Text(text@),
            ExtractionOutcome::NoImagePresent => OutcomeModel::NoImagePresent,
            ExtractionOutcome::EmptyImage => OutcomeModel::EmptyImage,
            ExtractionOutcome::Failure(reason) => OutcomeModel::Failure(reason@),
        }
    }
}

impl View for Action {
    type V = ActionModel;

    open spec fn view(&self) -> ActionModel {
        match self {
            Action::ReadClipboard => ActionModel::ReadClipboard,
            Action::Send(request) => ActionModel::Send(request@),
            Action::Finish(outcome) => ActionModel::Finish(outcome@),
        }
    }
}

impl View for Event {
    type V = EventModel;

    open spec fn view(&self) -> EventModel {
        match self {
            Event::Started => EventModel::Started,
            Event::ImagePresent(image) => EventModel::ImagePresent {
                width: image.width as nat,
                height: image.height as nat,
                bytes: image.bytes@,
            },
            Event::NoImage => EventModel::NoImage,
            Event::ClipboardFailed { detail } => EventModel::ClipboardFailed { detail: detail@ },
            Event::Responded { status, body } => EventModel::Responded {
                status: *status,
                body: body@,
            },
            Event::TransportFailed { detail } => EventModel::TransportFailed { detail: detail@ },
        }
    }
}

/// How far an invocation has come. Every step moves on.
pub open spec fn progress(stage: Stage) -> nat {
    match stage {
        Stage::Start => 0,
        Stage::ClipboardRead => 1,
        Stage::Transport => 2,
        Stage::Done => 3,
    }
}

/// The events that a stage waits for.
pub open spec fn accepts(stage: Stage, event: EventModel) -> bool {
    match stage {
        Stage::Start => event is Started,
        Stage::ClipboardRead => event is ImagePresent || event is NoImage
            || event is ClipboardFailed,
        Stage::Transport => event is Responded || event is TransportFailed,
        Stage::Done => false,
    }
}

/// The action that ends an invocation with a failure.
pub open spec fn failed(reason: FailureModel) -> ActionModel {
    ActionModel::Finish(OutcomeModel::Failure(reason))
}

/// How an image from the clipboard is dealt with: an image with nothing in it
/// ends the invocation without a failure, a buffer of the wrong shape and an
/// image that cannot be encoded end it with one, and any other image is sent.
pub open spec fn image_step(
    width: nat,
    height: nat,
    bytes: Seq<u8>,
    markdown: bool,
    model: Seq<char>,
    max_tokens: u32,
) -> (Stage, ActionModel) {
    if width == 0 || height == 0 || bytes.len() == 0 {
        (Stage::Done, ActionModel::Finish(OutcomeModel::EmptyImage))
    } else {
        match encoding(width, height, bytes) {
            Err(EncodeFailure::Invalid(e)) => (Stage::Done, failed(FailureModel::Validation(e))),
            Err(EncodeFailure::Encoding(e)) => (Stage::Done, failed(FailureModel::Encoding(e))),
            Ok(uri) => (
                Stage::Transport,
                ActionModel::Send(request_for(uri, markdown, model, max_tokens)),
            ),
        }
    }
}

/// How an answer of the endpoint ends the invocation.
pub open spec fn response_outcome(status: u16, body: Seq<char>) -> OutcomeModel {
    match interpretation(status, body) {
        Ok(text) => OutcomeModel::Text(text),
        Err(failure) => OutcomeModel::Failure(FailureModel::Response(failure)),
    }
}

/// The stage that follows and the action to take, for an event that the stage
/// accepts.
pub open spec fn transition(
    stage: Stage,
    event: EventModel,
    markdown: bool,
    model: Seq<char>,
    max_tokens: u32,
) -> (Stage, ActionModel)
    recommends
        accepts(stage, event),
{
    match event {
        EventModel::Started => (Stage::ClipboardRead, ActionModel::ReadClipboard),
        EventModel::NoImage => (Stage::Done, ActionModel::Finish(OutcomeModel::NoImagePresent)),
        EventModel::ClipboardFailed { detail } => (
            Stage::Done,
            failed(FailureModel::Clipboard { detail }),
        ),
        EventModel::ImagePresent { width, height, bytes } => image_step(
            width,
            height,
            bytes,
            markdown,
            model,
            max_tokens,
        ),
        EventModel::TransportFailed { detail } => (
            Stage::Done,
            failed(FailureModel::Transport { detail }),
        ),
        EventModel::Responded { status, body } => (
            Stage::Done,
            ActionModel::Finish(response_outcome(status, body)),
        ),
    }
}

/// Nothing is sent for an image that has not passed validation: a request
/// leaves only on an image from the clipboard that is valid and that could be
/// encoded, and it carries that encoding.
pub proof fn lemma_only_valid_images_are_sent(
    stage: Stage,
    event: EventModel,
    markdown: bool,
    model: Seq<char>,
    max_tokens: u32,
)
    requires
        accepts(stage, event),
        transition(stage, event, markdown, model, max_tokens).1 is Send,
    ensures
        stage == Stage::ClipboardRead,
        event matches EventModel::ImagePresent { width, height, bytes } && {
            &&& crate::pixel::verdict(width, height, bytes.len()) is Ok
            &&& encoding(width, height, bytes) matches Ok(uri)
            &&& transition(stage, event, markdown, model, max_tokens) == (
                Stage::Transport,
                ActionModel::Send(request_for(uri, markdown, model, max_tokens)),
            )
        },
{
}

/// An invocation ends with a text only on an answer of the endpoint that
/// yields that text.
pub proof fn lemma_text_needs_an_answer(
    stage: Stage,
    event: EventModel,
    markdown: bool,
    model: Seq<char>,
    max_tokens: u32,
)
    requires
        accepts(stage, event),
        transition(stage, event, markdown, model, max_tokens).1 matches ActionModel::Finish(
            OutcomeModel::Text(_),
        ),
    ensures
        stage == Stage::Transport,
        event matches EventModel::Responded { status, body } && interpretation(status, body)
            is Ok && transition(stage, event, markdown, model, max_tokens).1
            == ActionModel::Finish(OutcomeModel::Text(interpretation(status, body)->Ok_0)),
{
}

/// Every step moves on, and the stage that follows is `Done` exactly where
/// the action is to finish: no stage is entered twice, and an invocation is
/// over after three steps at most.
pub proof fn lemma_every_step_moves_on(
    stage: Stage,
    event: EventModel,
    markdown: bool,
    model: Seq<char>,
    max_tokens: u32,
)
    requires
        accepts(stage, event),
    ensures
        progress(transition(stage, event, markdown, model, max_tokens).0) > progress(stage),
        progress(transition(stage, event, markdown, model, max_tokens).0) <= 3,
        transition(stage, event, markdown, model, max_tokens).0 == Stage::Done <==> transition(
            stage,
            event,
            markdown,
            model,
            max_tokens,
        ).1 is Finish,
{
}

/// Tells whether `stage` waits for `event`.
pub fn stage_accepts(stage: Stage, event: &Event) -> (fits: bool)
    ensures
        fits == accepts(stage, event@),
{
    match stage {
        Stage::Start => match event {
            Event::Started => true,
            _ => false,
        },
        Stage::ClipboardRead => match event {
            Event::ImagePresent(_) => true,
            Event::NoImage => true,
            Event::ClipboardFailed { .. } => true,
            _ => false,
        },
        Stage::Transport => match event {
            Event::Responded { .. } => true,
            Event::TransportFailed { .. } => true,
            _ => false,
        },
        Stage::Done => false,
    }
}

/// Deals with an image from the clipboard.
pub fn on_image(image: &RawClipboardImage, options: &Options) -> (next: (Stage, Action))
    ensures
        (next.0, next.1@) == image_step(
            image.width as nat,
            image.height as nat,
            image.bytes@,
            options.markdown,
            options.model@,
            options.max_tokens,
        ),
{
    if image.is_empty() {
        return (Stage::Done, Action::Finish(ExtractionOutcome::EmptyImage));
    }
    match encode_image_to_base64(image) {
        Err(EncodeFailure::Invalid(e)) => (
            Stage::Done,
            Action::Finish(ExtractionOutcome::Failure(FailureReason::Validation(e))),
        ),
        Err(EncodeFailure::Encoding(e)) => (
            Stage::Done,
            Action::Finish(ExtractionOutcome::Failure(FailureReason::Encoding(e))),
        ),
        Ok(encoded) => (
            Stage::Transport,
            Action::Send(
                build_request(
                    &encoded,
                    options.markdown,
                    options.model.as_str(),
                    options.max_tokens,
                ),
            ),
        ),
    }
}

/// Ends the invocation on an answer of the endpoint.
pub fn on_response(status: u16, body: &str) -> (outcome: ExtractionOutcome)
    ensures
        outcome@ == response_outcome(status, body@),
{
    match interpret(status, body) {
        Ok(text) => ExtractionOutcome::Text(text),
        Err(e) => ExtractionOutcome::Failure(FailureReason::Response(e)),
    }
}

/// Takes one step: from the stage and what the caller reports to the stage
/// that follows and what the caller is to do.
pub fn step(stage: Stage, event: Event, options: &Options) -> (next: (Stage, Action))
    requires
        accepts(stage, event@),
    ensures
        (next.0, next.1@) == transition(
            stage,
            event@,
            options.markdown,
            options.model@,
            options.max_tokens,
        ),
        progress(next.0) > progress(stage),
        next.0 == Stage::Done <==> next.1 is Finish,
{
    match event {
        Event::Started => (Stage::ClipboardRead, Action::ReadClipboard),
        Event::NoImage => (Stage::Done, Action::Finish(ExtractionOutcome::NoImagePresent)),
        Event::ClipboardFailed { detail } => (
            Stage::Done,
            Action::Finish(ExtractionOutcome::Failure(FailureReason::Clipboard { detail })),
        ),
        Event::ImagePresent(image) => on_image(&image, options),
        Event::TransportFailed { detail } => (
            Stage::Done,
            Action::Finish(ExtractionOutcome::Failure(FailureReason::Transport { detail })),
        ),
        Event::Responded { status, body } => (
            Stage::Done,
            Action::Finish(on_response(status, body.as_str())),
        ),
    }
}

} // verus!
