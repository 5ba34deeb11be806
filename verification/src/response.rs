//! Interpretation of what the endpoint answered.
//!
//! The endpoint reports failures on two channels: the HTTP status and an error
//! record inside an otherwise well-formed body. [`interpret`] settles the
//! order: an embedded error record wins at any status, then a non-success
//! status, then an unreadable body, and only then is the answer looked at.

use crate::json::{item_models, json_document, lemma_item_models, parse, Json, JsonModel};
use vstd::prelude::*;

verus! {

/// The message of one choice. A `null` or missing content is `None`.
#[derive(Debug, PartialEq, Eq)]
pub struct ResponseMessage {
    pub content: Option<String>,
}

/// One alternative answer of the model.
#[derive(Debug, PartialEq, Eq)]
pub struct Choice {
    pub message: ResponseMessage,
    pub finish_reason: Option<String>,
}

/// Token counts of one exchange.
#[derive(Clone, Copy, Debug, PartialEq, Eq, Structural)]
pub struct Usage {
    pub prompt_tokens: u32,
    pub completion_tokens: u32,
    pub total_tokens: u32,
}

/// An error record embedded in a response body.
#[derive(Debug, PartialEq, Eq)]
pub struct ErrorRecord {
    pub message: String,
    pub kind: String,
}

/// A response body, read. An error record may be present whatever the HTTP
/// status was.
#[derive(Debug, PartialEq, Eq)]
pub struct CompletionResponse {
    pub choices: Vec<Choice>,
    pub usage: Option<Usage>,
    pub error: Option<ErrorRecord>,
}

/// Model of a [`Choice`].
pub struct ChoiceModel {
    pub content: Option<Seq<char>>,
    pub finish_reason: Option<Seq<char>>,
}

/// Model of an [`ErrorRecord`].
pub struct ErrorModel {
    pub message: Seq<char>,
    pub kind: Seq<char>,
}

/// Model of a [`CompletionResponse`].
pub struct ResponseModel {
    pub choices: Seq<ChoiceModel>,
    pub usage: Option<Usage>,
    pub error: Option<ErrorModel>,
}

/// The characters of an optional string.
pub open spec fn text_model(text: Option<String>) -> Option<Seq<char>> {
    match text {
        Some(s) => Some(s@),
        None => None,
    }
}

impl View for Choice {
    type V = ChoiceModel;

    open spec fn view(&self) -> ChoiceModel {
        ChoiceModel {
            content: text_model(self.message.content),
            finish_reason: text_model(self.finish_reason),
        }
    }
}

impl View for ErrorRecord {
    type V = ErrorModel;

    open spec fn view(&self) -> ErrorModel {
        ErrorModel { message: self.message@, kind: self.kind@ }
    }
}

/// The models of a sequence of choices, in order.
pub open spec fn choice_models(choices: Seq<Choice>) -> Seq<ChoiceModel> {
    Seq::new(choices.len(), |i: int| choices[i]@)
}

impl View for CompletionResponse {
    type V = ResponseModel;

    open spec fn view(&self) -> ResponseModel {
        ResponseModel {
            choices: choice_models(self.choices@),
            usage: self.usage,
            error: match self.error {
                Some(record) => Some(record@),
                None => None,
            },
        }
    }
}

/// The member `name` of `object` where it is given: present and not `null`.
pub open spec fn given(object: JsonModel, name: Seq<char>) -> Option<JsonModel> {
    match object.member(name) {
        Some(JsonModel::Null) | None => None,
        Some(value) => Some(value),
    }
}

/// An optional text member: `Some(None)` where it is not given, `Some(Some(t))`
/// where it is the text `t`, and `None` where it is anything else.
pub open spec fn optional_text(object: JsonModel, name: Seq<char>) -> Option<Option<Seq<char>>> {
    match given(object, name) {
        None => Some(None),
        Some(JsonModel::Text(t)) => Some(Some(t)),
        Some(_) => None,
    }
}

/// A text member that has to be there.
pub open spec fn required_text(object: JsonModel, name: Seq<char>) -> Option<Seq<char>> {
    match object.member(name) {
        Some(JsonModel::Text(t)) => Some(t),
        _ => None,
    }
}

/// A token count that has to be there: an unsigned integer below 2^32.
pub open spec fn required_count(object: JsonModel, name: Seq<char>) -> Option<u32> {
    match object.member(name) {
        Some(JsonModel::Number(Some(n))) => if n <= u32::MAX {
            Some(n as u32)
        } else {
            None
        },
        _ => None,
    }
}

/// The choice that a JSON value stands for: an object whose member `message`
/// is an object with an optional text `content`, and whose `finish_reason` is
/// an optional text.
pub open spec fn choice_of(value: JsonModel) -> Option<ChoiceModel> {
    match value.member("message"@) {
        Some(message) => if message is Object {
            match (optional_text(message, "content"@), optional_text(value, "finish_reason"@)) {
                (Some(content), Some(finish_reason)) => Some(
                    ChoiceModel { content, finish_reason },
                ),
                _ => None,
            }
        } else {
            None
        },
        None => None,
    }
}

/// The choices that the items of an array stand for, if each of them stands for
/// one.
pub open spec fn choices_of(items: Seq<JsonModel>) -> Option<Seq<ChoiceModel>> {
    if forall|i: int| 0 <= i < items.len() ==> choice_of(#[trigger] items[i]) is Some {
        Some(Seq::new(items.len(), |i: int| choice_of(items[i])->0))
    } else {
        None
    }
}

/// The usage record that a JSON value stands for: an object with the three
/// token counts.
pub open spec fn usage_of(value: JsonModel) -> Option<Usage> {
    match (
        required_count(value, "prompt_tokens"@),
        required_count(value, "completion_tokens"@),
        required_count(value, "total_tokens"@),
    ) {
        (Some(prompt_tokens), Some(completion_tokens), Some(total_tokens)) => Some(
            Usage { prompt_tokens, completion_tokens, total_tokens },
        ),
        _ => None,
    }
}

/// The error record that a JSON value stands for: an object with the texts
/// `message` and `type`.
pub open spec fn error_of(value: JsonModel) -> Option<ErrorModel> {
    match (required_text(value, "message"@), required_text(value, "type"@)) {
        (Some(message), Some(kind)) => Some(ErrorModel { message, kind }),
        _ => None,
    }
}

/// The choices of a response document: none where `choices` is not given, and
/// `None` where it is given but is no array of choices.
pub open spec fn document_choices(document: JsonModel) -> Option<Seq<ChoiceModel>> {
    match given(document, "choices"@) {
        None => Some(Seq::empty()),
        Some(JsonModel::Array(items)) => choices_of(items),
        Some(_) => None,
    }
}

/// The usage record of a response document, which may be left out.
pub open spec fn document_usage(document: JsonModel) -> Option<Option<Usage>> {
    match given(document, "usage"@) {
        None => Some(None),
        Some(value) => match usage_of(value) {
            Some(usage) => Some(Some(usage)),
            None => None,
        },
    }
}

/// The error record of a response document, which may be left out.
pub open spec fn document_error(document: JsonModel) -> Option<Option<ErrorModel>> {
    match given(document, "error"@) {
        None => Some(None),
        Some(value) => match error_of(value) {
            Some(record) => Some(Some(record)),
            None => None,
        },
    }
}

/// The response that a JSON document stands for, or `None` where the document
/// does not have the shape of one. The document has to be an object; members
/// that the shape does not name are ignored.
pub open spec fn response_of(document: JsonModel) -> Option<ResponseModel> {
    if document is Object {
        match (document_choices(document), document_usage(document), document_error(document)) {
            (Some(choices), Some(usage), Some(error)) => Some(
                ResponseModel { choices, usage, error },
            ),
            _ => None,
        }
    } else {
        None
    }
}

/// The member `name` of `object` where it is given.
fn given_member<'a>(object: &'a Json, name: &str) -> (found: Option<&'a Json>)
    ensures
        match found {
            Some(value) => given(object@, name@) == Some(value@),
            None => given(object@, name@) is None,
        },
{
    match object.get(name) {
        Some(Json::Null) => None,
        Some(value) => Some(value),
        None => None,
    }
}

/// Reads an optional text member.
fn read_optional_text(object: &Json, name: &str) -> (read: Option<Option<String>>)
    ensures
        match read {
            Some(text) => optional_text(object@, name@) == Some(text_model(text)),
            None => optional_text(object@, name@) is None,
        },
{
    match given_member(object, name) {
        None => Some(None),
        Some(Json::Text(text)) => Some(Some(text.clone())),
        Some(_) => None,
    }
}

/// Reads a text member that has to be there.
fn read_required_text(object: &Json, name: &str) -> (read: Option<String>)
    ensures
        match read {
            Some(text) => required_text(object@, name@) == Some(text@),
            None => required_text(object@, name@) is None,
        },
{
    match object.get(name) {
        Some(Json::Text(text)) => Some(text.clone()),
        _ => None,
    }
}

/// Reads a token count that has to be there.
fn read_required_count(object: &Json, name: &str) -> (read: Option<u32>)
    ensures
        read == required_count(object@, name@),
{
    match object.get(name) {
        Some(Json::Number(Some(n))) => {
            if *n <= 0xffff_ffff {
                Some(*n as u32)
            } else {
                None
            }
        },
        _ => None,
    }
}

/// Reads one choice.
fn read_choice(value: &Json) -> (read: Option<Choice>)
    ensures
        match read {
            Some(choice) => choice_of(value@) == Some(choice@),
            None => choice_of(value@) is None,
        },
{
    let message = match value.get("message") {
        Some(message) => message,
        None => { return None; },
    };
    match message {
        Json::Object(_) => {},
        _ => { return None; },
    }
    let content = match read_optional_text(message, "content") {
        Some(content) => content,
        None => { return None; },
    };
    let finish_reason = match read_optional_text(value, "finish_reason") {
        Some(finish_reason) => finish_reason,
        None => { return None; },
    };
    Some(Choice { message: ResponseMessage { content }, finish_reason })
}

/// Reads the choices that the items of an array stand for.
fn read_choices(items: &Vec<Json>) -> (read: Option<Vec<Choice>>)
    ensures
        match read {
            Some(choices) => choices_of(item_models(items@)) == Some(choice_models(choices@)),
            None => choices_of(item_models(items@)) is None,
        },
{
    let ghost held = item_models(items@);
    proof {
        lemma_item_models(items@);
    }
    let mut choices: Vec<Choice> = Vec::new();
    let mut i: usize = 0;
    while i < items.len()
        invariant
            i <= items@.len(),
            held == item_models(items@),
            held.len() == items@.len(),
            forall|j: int| 0 <= j < held.len() ==> held[j] == #[trigger] items@[j]@,
            choices@.len() == i,
            forall|j: int| 0 <= j < i ==> choice_of(held[j]) == Some(#[trigger] choices@[j]@),
        decreases items@.len() - i,
    {
        assert(held[i as int] == items@[i as int]@);
        match read_choice(&items[i]) {
            Some(choice) => {
                choices.push(choice);
            },
            None => {
                return None;
            },
        }
        i += 1;
    }
    proof {
        assert forall|j: int| 0 <= j < held.len() implies choice_of(#[trigger] held[j]) is Some by {
            assert(choice_of(held[j]) == Some(choices@[j]@));
        }
        assert(choices_of(held)->0 =~= choice_models(choices@));
    }
    Some(choices)
}

/// Reads a usage record.
fn read_usage(value: &Json) -> (read: Option<Usage>)
    ensures
        read == usage_of(value@),
{
    let prompt_tokens = match read_required_count(value, "prompt_tokens") {
        Some(n) => n,
        None => { return None; },
    };
    let completion_tokens = match read_required_count(value, "completion_tokens") {
        Some(n) => n,
        None => { return None; },
    };
    let total_tokens = match read_required_count(value, "total_tokens") {
        Some(n) => n,
        None => { return None; },
    };
    Some(Usage { prompt_tokens, completion_tokens, total_tokens })
}

/// Reads an error record.
fn read_error(value: &Json) -> (read: Option<ErrorRecord>)
    ensures
        match read {
            Some(record) => error_of(value@) == Some(record@),
            None => error_of(value@) is None,
        },
{
    let message = match read_required_text(value, "message") {
        Some(message) => message,
        None => { return None; },
    };
    let kind = match read_required_text(value, "type") {
        Some(kind) => kind,
        None => { return None; },
    };
    Some(ErrorRecord { message, kind })
}

/// The model of an optional response.
pub open spec fn response_model(response: Option<CompletionResponse>) -> Option<ResponseModel> {
    match response {
        Some(r) => Some(r@),
        None => None,
    }
}

/// Reads a response from a JSON document. The answer is `None` exactly where
/// the document does not have the shape of a response.
pub fn decode_response(document: &Json) -> (decoded: Option<CompletionResponse>)
    ensures
        response_model(decoded) == response_of(document@),
{
    match document {
        Json::Object(_) => {},
        _ => { return None; },
    }
    let choices = match given_member(document, "choices") {
        None => Vec::new(),
        Some(Json::Array(items)) => match read_choices(items) {
            Some(choices) => choices,
            None => { return None; },
        },
        Some(_) => { return None; },
    };
    let usage = match given_member(document, "usage") {
        None => None,
        Some(value) => match read_usage(value) {
            Some(usage) => Some(usage),
            None => { return None; },
        },
    };
    let error = match given_member(document, "error") {
        None => None,
        Some(value) => match read_error(value) {
            Some(record) => Some(record),
            None => { return None; },
        },
    };
    let response = CompletionResponse { choices, usage, error };
    proof {
        assert(response@.choices =~= choice_models(choices@));
        assert(document_choices(document@)->0 =~= response@.choices);
    }
    Some(response)
}

/// Why a response yields no text.
#[derive(Debug, PartialEq, Eq)]
pub enum InterpretError {
    /// The body carries an error record, at whatever status.
    ApiError { message: String, kind: String },
    /// The status is outside 200 to 299 and the body carries no error record.
    HttpError { status: u16, raw_body: String },
    /// The status is a success and the body is no response document.
    MalformedResponse { raw_body: String },
    /// The status is a success and the response holds no choice.
    NoChoices,
}

/// Model of an [`InterpretError`].
pub enum InterpretErrorModel {
    ApiError { message: Seq<char>, kind: Seq<char> },
    HttpError { status: u16, raw_body: Seq<char> },
    MalformedResponse { raw_body: Seq<char> },
    NoChoices,
}

impl View for InterpretError {
    type V = InterpretErrorModel;

    open spec fn view(&self) -> InterpretErrorModel {
        match self {
            InterpretError::ApiError { message, kind } => InterpretErrorModel::ApiError {
                message: message@,
                kind: kind@,
            },
            InterpretError::HttpError { status, raw_body } => InterpretErrorModel::HttpError {
                status: *status,
                raw_body: raw_body@,
            },
            InterpretError::MalformedResponse { raw_body } => {
                InterpretErrorModel::MalformedResponse { raw_body: raw_body@ }
            },
            InterpretError::NoChoices => InterpretErrorModel::NoChoices,
        }
    }
}

/// The model of the result of an interpretation: the extracted text, or the
/// failure.
pub open spec fn outcome_model(outcome: Result<String, InterpretError>) -> Result<
    Seq<char>,
    InterpretErrorModel,
> {
    match outcome {
        Ok(text) => Ok(text@),
        Err(e) => Err(e@),
    }
}

/// A status from 200 to 299.
pub open spec fn is_success(status: u16) -> bool {
    200 <= status <= 299
}

/// The text of the first choice; an absent content is the empty text.
pub open spec fn first_text(choices: Seq<ChoiceModel>) -> Seq<char>
    recommends
        choices.len() > 0,
{
    match choices[0].content {
        Some(text) => text,
        None => Seq::empty(),
    }
}

/// The order in which the two error channels are consulted. `response` is the
/// body as a response, or `None` where the body is no response document.
pub open spec fn classification(
    status: u16,
    body: Seq<char>,
    response: Option<ResponseModel>,
) -> Result<Seq<char>, InterpretErrorModel> {
    if response is Some && response->0.error is Some {
        Err(
            InterpretErrorModel::ApiError {
                message: response->0.error->0.message,
                kind: response->0.error->0.kind,
            },
        )
    } else if !is_success(status) {
        Err(InterpretErrorModel::HttpError { status, raw_body: body })
    } else if response is None {
        Err(InterpretErrorModel::MalformedResponse { raw_body: body })
    } else if response->0.choices.len() == 0 {
        Err(InterpretErrorModel::NoChoices)
    } else {
        Ok(first_text(response->0.choices))
    }
}

/// An embedded error record wins over the status: where the response carries
/// one, the outcome is that error, at a success status as at any other.
pub proof fn lemma_error_record_wins(status: u16, body: Seq<char>, response: ResponseModel)
    requires
        response.error is Some,
    ensures
        classification(status, body, Some(response)) == Err::<Seq<char>, _>(
            InterpretErrorModel::ApiError {
                message: response.error->0.message,
                kind: response.error->0.kind,
            },
        ),
{
}

/// Text is extracted exactly where the status is a success and the body is a
/// response without an error record and with at least one choice. The text is
/// then that of the first choice.
pub proof fn lemma_text_exactly_when(
    status: u16,
    body: Seq<char>,
    response: Option<ResponseModel>,
)
    ensures
        classification(status, body, response) is Ok <==> {
            &&& is_success(status)
            &&& response is Some
            &&& response->0.error is None
            &&& response->0.choices.len() > 0
        },
        classification(status, body, response) is Ok ==> classification(
            status,
            body,
            response,
        )->Ok_0 == first_text(response->0.choices),
{
}

/// Where the body carries no error record, a status outside 200 to 299 is
/// reported with the body as it came, and a success status with a body that is
/// no response document is reported as malformed, with the body as it came.
pub proof fn lemma_raw_body_is_kept(
    status: u16,
    body: Seq<char>,
    response: Option<ResponseModel>,
)
    requires
        response is Some ==> response->0.error is None,
    ensures
        !is_success(status) ==> classification(status, body, response) == Err::<Seq<char>, _>(
            InterpretErrorModel::HttpError { status, raw_body: body },
        ),
        is_success(status) && response is None ==> classification(status, body, response)
            == Err::<Seq<char>, _>(InterpretErrorModel::MalformedResponse { raw_body: body }),
{
}

/// What a status and a body amount to once the body has been parsed into
/// `document`, `None` standing for a body that is no JSON text.
pub open spec fn document_interpretation(
    status: u16,
    body: Seq<char>,
    document: Option<JsonModel>,
) -> Result<Seq<char>, InterpretErrorModel> {
    classification(
        status,
        body,
        match document {
            Some(d) => response_of(d),
            None => None,
        },
    )
}

/// What a status and a body amount to.
pub open spec fn interpretation(status: u16, body: Seq<char>) -> Result<
    Seq<char>,
    InterpretErrorModel,
> {
    document_interpretation(status, body, json_document(body))
}

/// Tells a success status from the others.
pub fn status_is_success(status: u16) -> (success: bool)
    ensures
        success == is_success(status),
{
    200 <= status && status <= 299
}

/// Classifies an exchange of which the body has been read as `response`.
pub fn classify(
    status: u16,
    body: &str,
    response: Option<CompletionResponse>,
) -> (outcome: Result<String, InterpretError>)
    ensures
        outcome_model(outcome) == classification(status, body@, response_model(response)),
{
    let success = status_is_success(status);
    match response {
        Some(CompletionResponse { choices, usage: _, error }) => {
            match error {
                Some(ErrorRecord { message, kind }) => {
                    Err(InterpretError::ApiError { message, kind })
                },
                None => {
                    if !success {
                        Err(InterpretError::HttpError { status, raw_body: body.to_owned() })
                    } else if choices.len() == 0 {
                        Err(InterpretError::NoChoices)
                    } else {
                        match &choices[0].message.content {
                            Some(text) => Ok(text.clone()),
                            None => Ok(String::new()),
                        }
                    }
                },
            }
        },
        None => {
            if !success {
                Err(InterpretError::HttpError { status, raw_body: body.to_owned() })
            } else {
                Err(InterpretError::MalformedResponse { raw_body: body.to_owned() })
            }
        },
    }
}

/// Interprets an exchange of which the body has been parsed into `document`,
/// `None` standing for a body that is no JSON text.
pub fn interpret_document(
    status: u16,
    body: &str,
    document: Option<Json>,
) -> (outcome: Result<String, InterpretError>)
    ensures
        outcome_model(outcome) == document_interpretation(
            status,
            body@,
            match document {
                Some(d) => Some(d@),
                None => None,
            },
        ),
{
    let response = match &document {
        Some(d) => decode_response(d),
        None => None,
    };
    classify(status, body, response)
}

/// Interprets the status and the body of an exchange: the extracted text, or
/// the one failure that the two error channels amount to.
pub fn interpret(status: u16, body: &str) -> (outcome: Result<String, InterpretError>)
    ensures
        outcome_model(outcome) == interpretation(status, body@),
{
    let document = parse(body);
    interpret_document(status, body, document)
}

} // verus!
