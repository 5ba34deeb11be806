//! The multimodal chat request that carries the instruction and the image.

use crate::encoder::EncodedImage;
use crate::json::{lemma_model_in_order, Json, JsonModel, Member};
use vstd::prelude::*;

verus! {

/// The instruction that asks for GitHub Flavored Markdown.
pub const MARKDOWN_PROMPT: &'static str =
    "Extract all text from this image accurately. If the image contains tabular data, a list, code, or other structured content, format the output as GitHub Flavored Markdown. Pay attention to formatting details like spacing in tables. Don't use any image related markdown.  Otherwise, return the plain text. Output *only* the extracted text or markdown content and nothing else. Do not include any introductory phrases or explanations.  For bullet points, use hyphens instead of bullet characters, like a normal markdown.";

/// The instruction that asks for plain text.
pub const PLAIN_PROMPT: &'static str =
    "Extract all text content from this image accurately. Output *only* the extracted text and nothing else. Do not include any introductory phrases.";

/// The role under which the one message is sent.
pub const USER_ROLE: &'static str = "user";

/// The detail level asked for the image: the highest, for the sake of the
/// recognition.
pub const IMAGE_DETAIL: &'static str = "high";

/// Where the image is, and how closely the model should look at it.
#[derive(Debug, PartialEq, Eq)]
pub struct ImageUrl {
    pub url: String,
    pub detail: Option<String>,
}

/// One part of a message, tagged by its kind.
#[derive(Debug, PartialEq, Eq)]
pub enum ContentPart {
    Text { text: String },
    ImageUrl { image_url: ImageUrl },
}

/// One message of the conversation.
#[derive(Debug, PartialEq, Eq)]
pub struct Message {
    pub role: String,
    pub content: Vec<ContentPart>,
}

/// A chat-completion request.
#[derive(Debug, PartialEq, Eq)]
pub struct CompletionRequest {
    pub model: String,
    pub messages: Vec<Message>,
    pub max_tokens: u32,
}

/// Model of a [`ContentPart`].
pub enum PartModel {
    Text { text: Seq<char> },
    ImageUrl { url: Seq<char>, detail: Option<Seq<char>> },
}

/// Model of a [`Message`].
pub struct MessageModel {
    pub role: Seq<char>,
    pub content: Seq<PartModel>,
}

/// Model of a [`CompletionRequest`].
pub struct RequestModel {
    pub model: Seq<char>,
    pub messages: Seq<MessageModel>,
    pub max_tokens: u32,
}

impl View for ContentPart {
    type V = PartModel;

    open spec fn view(&self) -> PartModel {
        match self {
            ContentPart::Text { text } => PartModel::Text { text: text@ },
            ContentPart::ImageUrl { image_url } => PartModel::ImageUrl {
                url: image_url.url@,
                detail: match image_url.detail {
                    Some(d) => Some(d@),
                    None => None,
                },
            },
        }
    }
}

impl View for Message {
    type V = MessageModel;

    open spec fn view(&self) -> MessageModel {
        MessageModel {
            role: self.role@,
            content: Seq::new(self.content@.len(), |i: int| self.content@[i]@),
        }
    }
}

impl View for CompletionRequest {
    type V = RequestModel;

    open spec fn view(&self) -> RequestModel {
        RequestModel {
            model: self.model@,
            messages: Seq::new(self.messages@.len(), |i: int| self.messages@[i]@),
            max_tokens: self.max_tokens,
        }
    }
}

/// The instruction for the chosen output format.
pub open spec fn prompt(markdown: bool) -> Seq<char> {
    if markdown {
        MARKDOWN_PROMPT@
    } else {
        PLAIN_PROMPT@
    }
}

/// The request for an image: one message of the user, with the instruction
/// first and the image second, the image at the highest detail.
pub open spec fn request_for(
    image: Seq<char>,
    markdown: bool,
    model: Seq<char>,
    max_tokens: u32,
) -> RequestModel {
    RequestModel {
        model,
        messages: seq![
            MessageModel {
                role: USER_ROLE@,
                content: seq![
                    PartModel::Text { text: prompt(markdown) },
                    PartModel::ImageUrl { url: image, detail: Some(IMAGE_DETAIL@) },
                ],
            },
        ],
        max_tokens,
    }
}

impl RequestModel {
    /// The request holds exactly one message, whose parts are a text and then
    /// an image.
    pub open spec fn is_well_formed(self) -> bool {
        &&& self.messages.len() == 1
        &&& self.messages[0].content.len() == 2
        &&& self.messages[0].content[0] is Text
        &&& self.messages[0].content[1] is ImageUrl
    }
}

/// Assembles the request for an encoded image.
pub fn build_request(
    image: &EncodedImage,
    markdown: bool,
    model: &str,
    max_tokens: u32,
) -> (request: CompletionRequest)
    ensures
        request@ == request_for(image@, markdown, model@, max_tokens),
        request@.is_well_formed(),
{
    let text = if markdown {
        MARKDOWN_PROMPT.to_owned()
    } else {
        PLAIN_PROMPT.to_owned()
    };
    let mut content: Vec<ContentPart> = Vec::new();
    content.push(ContentPart::Text { text });
    content.push(
        ContentPart::ImageUrl {
            image_url: ImageUrl {
                url: image.as_str().to_owned(),
                detail: Some(IMAGE_DETAIL.to_owned()),
            },
        },
    );
    let mut messages: Vec<Message> = Vec::new();
    messages.push(Message { role: USER_ROLE.to_owned(), content });
    let request = CompletionRequest { model: model.to_owned(), messages, max_tokens };
    proof {
        let wanted = request_for(image@, markdown, model@, max_tokens);
        assert(request@.messages[0].content =~= wanted.messages[0].content);
        assert(request@.messages =~= wanted.messages);
    }
    request
}

/// The JSON object that a content part goes over the wire as: tagged by its
/// kind under `type`, an image with its URL and, where one is set, its detail
/// level under `image_url`.
pub open spec fn part_document(part: PartModel) -> JsonModel {
    match part {
        PartModel::Text { text } => JsonModel::Object(
            seq![("type"@, JsonModel::Text("text"@)), ("text"@, JsonModel::Text(text))],
        ),
        PartModel::ImageUrl { url, detail } => JsonModel::Object(
            seq![
                ("type"@, JsonModel::Text("image_url"@)),
                (
                    "image_url"@,
                    JsonModel::Object(
                        match detail {
                            Some(level) => seq![
                                ("url"@, JsonModel::Text(url)),
                                ("detail"@, JsonModel::Text(level)),
                            ],
                            None => seq![("url"@, JsonModel::Text(url))],
                        },
                    ),
                ),
            ],
        ),
    }
}

/// The JSON object that a message goes over the wire as.
pub open spec fn message_document(message: MessageModel) -> JsonModel {
    JsonModel::Object(
        seq![
            ("role"@, JsonModel::Text(message.role)),
            (
                "content"@,
                JsonModel::Array(
                    Seq::new(message.content.len(), |i: int| part_document(message.content[i])),
                ),
            ),
        ],
    )
}

/// The JSON object that a request goes over the wire as.
pub open spec fn request_document(request: RequestModel) -> JsonModel {
    JsonModel::Object(
        seq![
            ("model"@, JsonModel::Text(request.model)),
            (
                "messages"@,
                JsonModel::Array(
                    Seq::new(
                        request.messages.len(),
                        |i: int| message_document(request.messages[i]),
                    ),
                ),
            ),
            ("max_tokens"@, JsonModel::Number(Some(request.max_tokens as u64))),
        ],
    )
}

/// Makes a member of an object.
fn member(name: &str, value: Json) -> (made: Member)
    ensures
        made@ == (name@, value@),
{
    Member { name: name.to_owned(), value }
}

/// Makes an object of two members.
fn object_of_two(first: Member, second: Member) -> (made: Json)
    ensures
        made@ == JsonModel::Object(seq![first@, second@]),
{
    let mut members: Vec<Member> = Vec::new();
    members.push(first);
    members.push(second);
    let ghost held = members@;
    let made = Json::Object(members);
    proof {
        lemma_model_in_order(made);
        assert(held[0]@ == first@ && held[1]@ == second@);
        assert(made@->Object_0 =~= seq![first@, second@]);
    }
    made
}

impl ImageUrl {
    /// The JSON object under `image_url`.
    fn to_document(&self) -> (document: Json)
        ensures
            document@ == part_document(
                (ContentPart::ImageUrl { image_url: *self })@,
            )->Object_0[1].1,
    {
        let mut members: Vec<Member> = Vec::new();
        members.push(member("url", Json::Text(self.url.clone())));
        match &self.detail {
            Some(level) => {
                members.push(member("detail", Json::Text(level.clone())));
            },
            None => {},
        }
        let ghost held = members@;
        let document = Json::Object(members);
        proof {
            let part = ContentPart::ImageUrl { image_url: *self };
            let wanted = part_document(part@)->Object_0[1].1;
            lemma_model_in_order(document);
            assert(held[0]@ == ("url"@, JsonModel::Text(self.url@)));
            if self.detail is Some {
                assert(held[1]@ == ("detail"@, JsonModel::Text(self.detail->0@)));
            }
            assert(document@->Object_0 =~= wanted->Object_0);
        }
        document
    }
}

impl ContentPart {
    /// The JSON object that this part goes over the wire as.
    pub fn to_document(&self) -> (document: Json)
        ensures
            document@ == part_document(self@),
    {
        match self {
            ContentPart::Text { text } => {
                let kind = Json::Text("text".to_owned());
                let body = Json::Text(text.clone());
                assert(kind@ == JsonModel::Text("text"@) && body@ == JsonModel::Text(text@));
                let document = object_of_two(member("type", kind), member("text", body));
                assert(document@->Object_0 =~= part_document(self@)->Object_0);
                document
            },
            ContentPart::ImageUrl { image_url } => {
                let kind = Json::Text("image_url".to_owned());
                assert(kind@ == JsonModel::Text("image_url"@));
                let inner = image_url.to_document();
                let document = object_of_two(member("type", kind), member("image_url", inner));
                assert(document@->Object_0 =~= part_document(self@)->Object_0);
                document
            },
        }
    }
}

impl Message {
    /// The JSON object that this message goes over the wire as.
    pub fn to_document(&self) -> (document: Json)
        ensures
            document@ == message_document(self@),
    {
        let mut parts: Vec<Json> = Vec::new();
        let mut i: usize = 0;
        while i < self.content.len()
            invariant
                i <= self.content@.len(),
                parts@.len() == i,
                forall|j: int|
                    0 <= j < i ==> (#[trigger] parts@[j])@ == part_document(self.content@[j]@),
            decreases self.content@.len() - i,
        {
            parts.push(self.content[i].to_document());
            i += 1;
        }
        let ghost held = parts@;
        let content = Json::Array(parts);
        proof {
            let wanted = message_document(self@)->Object_0[1].1->Array_0;
            lemma_model_in_order(content);
            assert forall|j: int| 0 <= j < held.len() implies content@->Array_0[j] == wanted[j] by {
                assert(content@->Array_0[j] == held[j]@);
            }
            assert(content@->Array_0 =~= wanted);
        }
        object_of_two(member("role", Json::Text(self.role.clone())), member("content", content))
    }
}

impl CompletionRequest {
    /// The JSON object that this request goes over the wire as.
    pub fn to_document(&self) -> (document: Json)
        ensures
            document@ == request_document(self@),
    {
        let mut list: Vec<Json> = Vec::new();
        let mut i: usize = 0;
        while i < self.messages.len()
            invariant
                i <= self.messages@.len(),
                list@.len() == i,
                forall|j: int|
                    0 <= j < i ==> (#[trigger] list@[j])@ == message_document(self.messages@[j]@),
            decreases self.messages@.len() - i,
        {
            list.push(self.messages[i].to_document());
            i += 1;
        }
        let ghost listed = list@;
        let messages = Json::Array(list);
        proof {
            let wanted = request_document(self@)->Object_0[1].1->Array_0;
            lemma_model_in_order(messages);
            assert forall|j: int| 0 <= j < listed.len() implies messages@->Array_0[j]
                == wanted[j] by {
                assert(messages@->Array_0[j] == listed[j]@);
            }
            assert(messages@->Array_0 =~= wanted);
        }
        let mut members: Vec<Member> = Vec::new();
        members.push(member("model", Json::Text(self.model.clone())));
        members.push(member("messages", messages));
        let budget = Json::Number(Some(self.max_tokens as u64));
        members.push(member("max_tokens", budget));
        let ghost held = members@;
        let document = Json::Object(members);
        proof {
            lemma_model_in_order(document);
            assert(held[0]@.0 == "model"@ && held[1]@.0 == "messages"@ && held[2]@.0
                == "max_tokens"@);
            assert(document@->Object_0 =~= request_document(self@)->Object_0);
        }
        document
    }
}

} // verus!
