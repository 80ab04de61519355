//! The backend client: what is sent to the chat-completion endpoint, and what
//! is made of its reply.

use vstd::prelude::*;
use vstd::string::*;
use crate::json::{
    JsonModel, json_model, json_models, object_members, text_value, bool_value, list_value,
    object_value, empty_members, put_member,
};
use crate::text::{lowercase, lowercase_of};

pub mod models;

verus! {

/// The reply envelope of the chat-completion endpoint.
#[derive(Debug)]
pub struct GroqResponse {
    pub id: String,
    pub object: String,
    pub created: u64,
    pub model: String,
    pub choices: Vec<GroqChoice>,
    pub usage: GroqUsage,
}

#[derive(Debug)]
pub struct GroqChoice {
    pub index: i32,
    pub message: GroqMessage,
    pub finish_reason: String,
}

#[derive(Debug)]
pub struct GroqMessage {
    pub role: String,
    pub content: String,
}

#[derive(Debug)]
pub struct GroqUsage {
    pub prompt_tokens: u32,
    pub completion_tokens: u32,
    pub total_tokens: u32,
}

/// Why the backend gave no usable answer.
#[derive(Debug)]
pub enum BackendError {
    /// The request could not be carried out; the text is the transport's.
    Transport(String),
    /// The backend answered with a status outside 200..=299; the text is the
    /// body of its answer.
    Status(String),
    /// The envelope held no choice.
    NoChoices,
    /// The envelope, or the content of its first choice, could not be
    /// decoded; the text is the decoder's.
    Decode(String),
}

impl BackendError {
    /// The diagnostic text of this error.
    pub open spec fn message_text(self) -> Seq<char> {
        match self {
            BackendError::Transport(text) => text@,
            BackendError::Status(body) => "API request failed: "@ + body@,
            BackendError::NoChoices => "No choices in response"@,
            BackendError::Decode(text) => text@,
        }
    }

    pub fn message(&self) -> (text: String)
        ensures
            text@ == self.message_text(),
    {
        match self {
            BackendError::Transport(text) => text.clone(),
            BackendError::Status(body) => String::from_str("API request failed: ").concat(
                body.as_str(),
            ),
            BackendError::NoChoices => String::from_str("No choices in response"),
            BackendError::Decode(text) => text.clone(),
        }
    }
}

/// One request to the chat-completion endpoint: a `POST` to `url` with the
/// two headers and `body` as its JSON body.
pub struct HttpRequest {
    pub url: String,
    pub authorization: String,
    pub content_type: String,
    pub body: serde_json::Value,
}

/// What to read of a reply once its status is known.
#[derive(Debug, Clone, Copy, PartialEq, Eq, Structural)]
pub enum ReplyBody {
    /// The body is an envelope to decode.
    Envelope,
    /// The body is the text of an error.
    ErrorText,
}

/// What was read of the backend's reply to one request.
#[derive(Debug)]
pub enum Reply {
    /// Nothing: the request could not be carried out, or the reply could not
    /// be read to its end. The text is the transport's.
    Unreachable(String),
    /// The text of the body, read as `ReplyBody::ErrorText` asks.
    ErrorText(String),
    /// A body that is no envelope, read as `ReplyBody::Envelope` asks. The
    /// text is the decoder's.
    Undecodable(String),
    /// The envelope, read as `ReplyBody::Envelope` asks.
    Envelope(GroqResponse),
}

/// The address that a new client speaks to.
pub const DEFAULT_BASE_URL: &'static str = "https://api.groq.com/openai/v1";

/// Where the chat-completion endpoint lies below the client's address.
pub const COMPLETIONS_PATH: &'static str = "/chat/completions";

/// The content type of every request.
pub const JSON_CONTENT_TYPE: &'static str = "application/json";

/// A status that stands for success: 200 to 299.
pub open spec fn is_success(status: u16) -> bool {
    200 <= status < 300
}

/// The JSON form of one chat message.
pub open spec fn message_model(role: Seq<char>, content: Seq<char>) -> JsonModel {
    JsonModel::Object(
        Map::empty().insert("role"@, JsonModel::Text(role)).insert(
            "content"@,
            JsonModel::Text(content),
        ),
    )
}

/// The JSON forms of the chat messages, in order.
pub open spec fn message_models(messages: Seq<(&str, &str)>) -> Seq<JsonModel> {
    Seq::new(messages.len(), |i: int| message_model(messages[i].0@, messages[i].1@))
}

/// The body of a request for plain text.
pub open spec fn simple_body(model: Seq<char>, messages: Seq<JsonModel>) -> JsonModel {
    JsonModel::Object(
        Map::empty().insert("model"@, JsonModel::Text(model)).insert(
            "messages"@,
            JsonModel::List(messages),
        ),
    )
}

/// The declaration of structured output under a schema and its name.
pub open spec fn response_format(schema_name: Seq<char>, schema: JsonModel) -> JsonModel {
    JsonModel::Object(
        Map::empty().insert("type"@, JsonModel::Text("json_schema"@)).insert(
            "json_schema"@,
            JsonModel::Object(
                Map::empty().insert("name"@, JsonModel::Text(schema_name)).insert(
                    "schema"@,
                    schema,
                ),
            ),
        ),
    )
}

/// The body of a request for an answer that conforms to a schema.
pub open spec fn structured_body(
    model: Seq<char>,
    messages: Seq<JsonModel>,
    schema_name: Seq<char>,
    schema: JsonModel,
) -> JsonModel {
    JsonModel::Object(
        Map::empty().insert("model"@, JsonModel::Text(model)).insert(
            "messages"@,
            JsonModel::List(messages),
        ).insert("response_format"@, response_format(schema_name, schema)),
    )
}

/// A separator `::` stands at position `i` of `text`.
pub open spec fn separator_at(text: Seq<char>, i: int) -> bool {
    0 <= i && i + 1 < text.len() && text[i] == ':' && text[i + 1] == ':'
}

/// Where the last segment of `text` begins, when `text` is cut at each
/// separator `::` met from position `at` rightwards and `start` is where the
/// segment under way began. Separators do not overlap: after one is met, the
/// search goes on behind it.
pub open spec fn last_segment_start(text: Seq<char>, at: int, start: int) -> int
    decreases text.len() - at,
{
    if at < 0 || at + 1 >= text.len() {
        start
    } else if separator_at(text, at) {
        last_segment_start(text, at + 2, at + 2)
    } else {
        last_segment_start(text, at + 1, start)
    }
}

/// What follows the last separator `::` of a path, or the whole text where it
/// holds none.
pub open spec fn last_segment(path: Seq<char>) -> Seq<char> {
    path.subrange(last_segment_start(path, 0, 0), path.len() as int)
}

/// The name under which the schema of a type is declared: the last segment of
/// the type's path, in lower case.
pub open spec fn schema_name_of(type_path: Seq<char>) -> Seq<char> {
    lowercase_of(last_segment(type_path))
}

/// The last segment begins inside the text, at or behind the segment under
/// way.
pub proof fn lemma_last_segment_start_bounds(text: Seq<char>, at: int, start: int)
    requires
        0 <= start <= at <= text.len(),
    ensures
        start <= last_segment_start(text, at, start) <= text.len(),
    decreases text.len() - at,
{
    if at + 1 >= text.len() {
    } else if text[at] == ':' && text[at + 1] == ':' {
        lemma_last_segment_start_bounds(text, at + 2, at + 2);
    } else {
        lemma_last_segment_start_bounds(text, at + 1, start);
    }
}

/// A stretch without separators does not move the start of the last
/// segment.
proof fn lemma_search_passes_plain_text(text: Seq<char>, from: int, to: int, start: int)
    requires
        0 <= from <= to <= text.len(),
        forall|j: int| from <= j < to ==> !separator_at(text, j),
    ensures
        last_segment_start(text, from, start) == last_segment_start(text, to, start),
    decreases to - from,
{
    if from < to && from + 1 < text.len() {
        assert(!separator_at(text, from));
        lemma_search_passes_plain_text(text, from + 1, to, start);
    }
}

/// The search in what follows position `k` is the search in the whole text
/// from `k` on, moved by `k`.
proof fn lemma_search_in_rest(text: Seq<char>, k: int, at: int, start: int)
    requires
        0 <= k <= text.len(),
        0 <= at,
    ensures
        last_segment_start(text, k + at, k + start) == k + last_segment_start(
            text.skip(k),
            at,
            start,
        ),
    decreases text.len() - k - at,
{
    let rest = text.skip(k);
    if at + 1 >= rest.len() {
    } else if rest[at] == ':' && rest[at + 1] == ':' {
        lemma_search_in_rest(text, k, at + 2, at + 2);
    } else {
        lemma_search_in_rest(text, k, at + 1, start);
    }
}

/// A path without a separator is its own last segment.
pub proof fn lemma_last_segment_without_separator(path: Seq<char>)
    requires
        forall|i: int| !separator_at(path, i),
    ensures
        last_segment(path) == path,
{
    lemma_search_passes_plain_text(path, 0, path.len() as int, 0);
    assert(path.subrange(0, path.len() as int) =~= path);
}

/// The last segment of a path is the last segment of what follows its first
/// separator.
pub proof fn lemma_last_segment_after_first_separator(path: Seq<char>, first: int)
    requires
        separator_at(path, first),
        forall|j: int| 0 <= j < first ==> !separator_at(path, j),
    ensures
        last_segment(path) == last_segment(path.skip(first + 2)),
{
    let rest = path.skip(first + 2);
    lemma_search_passes_plain_text(path, 0, first, 0);
    lemma_search_in_rest(path, first + 2, 0, 0);
    lemma_last_segment_start_bounds(rest, 0, 0);
    assert(last_segment(path) =~= last_segment(rest));
}

/// What follows the last separator `::` of `path`, or all of `path` where
/// it holds none.
pub fn last_path_segment(path: &str) -> (segment: &str)
    ensures
        segment@ == last_segment(path@),
{
    let len: usize = path.unicode_len();
    let mut at: usize = 0;
    let mut start: usize = 0;
    while at < len && at + 1 < len
        invariant
            len == path@.len(),
            0 <= start <= at <= len,
            last_segment_start(path@, at as int, start as int) == last_segment_start(path@, 0, 0),
        decreases len - at,
    {
        if path.get_char(at) == ':' && path.get_char(at + 1) == ':' {
            at = at + 2;
            start = at;
        } else {
            at = at + 1;
        }
    }
    path.substring_char(start, len)
}

/// The name under which the schema of the type at `type_path` is declared.
pub fn schema_name(type_path: &str) -> (name: String)
    ensures
        name@ == schema_name_of(type_path@),
{
    lowercase(last_path_segment(type_path))
}

/// The JSON form of one property of a schema of simple fields.
pub open spec fn property_model(kind: Seq<char>, description: Seq<char>) -> JsonModel {
    JsonModel::Object(
        Map::empty().insert("type"@, JsonModel::Text(kind)).insert(
            "description"@,
            JsonModel::Text(description),
        ),
    )
}

/// The properties of a schema of simple fields, by name. Each entry is a
/// name, a type and a description; of two entries with one name the later
/// one counts.
pub open spec fn property_members(properties: Seq<(&str, &str, &str)>) -> Map<
    Seq<char>,
    JsonModel,
>
    decreases properties.len(),
{
    if properties.len() == 0 {
        Map::empty()
    } else {
        let last = properties.last();
        property_members(properties.drop_last()).insert(last.0@, property_model(last.1@, last.2@))
    }
}

/// The names of all entries, in order, as JSON strings.
pub open spec fn required_names(properties: Seq<(&str, &str, &str)>) -> Seq<JsonModel> {
    Seq::new(properties.len(), |i: int| JsonModel::Text(properties[i].0@))
}

/// The schema of an object with the given simple fields, all of them
/// required, and no others.
pub open spec fn simple_schema(properties: Seq<(&str, &str, &str)>) -> JsonModel {
    JsonModel::Object(
        Map::empty().insert("type"@, JsonModel::Text("object"@)).insert(
            "properties"@,
            JsonModel::Object(property_members(properties)),
        ).insert("required"@, JsonModel::List(required_names(properties))).insert(
            "additionalProperties"@,
            JsonModel::Bool(false),
        ),
    )
}

/// Every entry's name is a property of the schema, and the property under a
/// name is that of the last entry with this name.
pub proof fn lemma_property_members(properties: Seq<(&str, &str, &str)>, i: int)
    requires
        0 <= i < properties.len(),
        forall|j: int| i < j < properties.len() ==> properties[j].0@ != properties[i].0@,
    ensures
        property_members(properties).contains_key(properties[i].0@),
        property_members(properties)[properties[i].0@] == property_model(
            properties[i].1@,
            properties[i].2@,
        ),
    decreases properties.len(),
{
    if i < properties.len() - 1 {
        lemma_property_members(properties.drop_last(), i);
    }
}

/// Two schemas derived from the same entries are the same document.
pub proof fn lemma_schema_derivation_stable(
    first: serde_json::Value,
    second: serde_json::Value,
    properties: Seq<(&str, &str, &str)>,
)
    requires
        json_model(first) == simple_schema(properties),
        json_model(second) == simple_schema(properties),
    ensures
        json_model(first) == json_model(second),
{
}

/// The JSON value of one chat message.
fn message_value(role: &str, content: &str) -> (value: serde_json::Value)
    ensures
        json_model(value) == message_model(role@, content@),
{
    let mut members = empty_members();
    put_member(&mut members, "role", text_value(role));
    put_member(&mut members, "content", text_value(content));
    object_value(members)
}

/// The JSON values of the chat messages, in order.
fn message_values(messages: &Vec<(&str, &str)>) -> (values: Vec<serde_json::Value>)
    ensures
        json_models(values@) == message_models(messages@),
{
    let mut values: Vec<serde_json::Value> = Vec::new();
    let mut i: usize = 0;
    while i < messages.len()
        invariant
            0 <= i <= messages.len(),
            values.len() == i,
            forall|j: int|
                0 <= j < i ==> json_model(#[trigger] values@[j]) == message_model(
                    messages@[j].0@,
                    messages@[j].1@,
                ),
        decreases messages.len() - i,
    {
        let (role, content) = messages[i];
        values.push(message_value(role, content));
        i = i + 1;
    }
    assert(json_models(values@) =~= message_models(messages@));
    values
}

/// A client of the chat-completion endpoint: the key it presents and the
/// address it speaks to.
pub struct GroqClient {
    api_key: String,
    base_url: String,
}

impl GroqClient {
    /// The API key that the client presents.
    pub closed spec fn api_key(&self) -> Seq<char> {
        self.api_key@
    }

    /// The address below which the endpoint lies.
    pub closed spec fn base_url(&self) -> Seq<char> {
        self.base_url@
    }

    /// `request` is the one that this client sends for a body whose document
    /// is `body`.
    pub open spec fn sends(&self, request: HttpRequest, body: JsonModel) -> bool {
        &&& request.url@ == self.base_url() + COMPLETIONS_PATH@
        &&& request.authorization@ == "Bearer "@ + self.api_key()
        &&& request.content_type@ == JSON_CONTENT_TYPE@
        &&& json_model(request.body) == body
    }

    /// A client with the given API key, for the default address.
    pub fn new(api_key: String) -> (client: Self)
        ensures
            client.api_key() == api_key@,
            client.base_url() == DEFAULT_BASE_URL@,
    {
        GroqClient { api_key, base_url: String::from_str(DEFAULT_BASE_URL) }
    }

    /// The request that carries `body`.
    fn request(&self, body: serde_json::Value) -> (request: HttpRequest)
        ensures
            self.sends(request, json_model(body)),
            request.body == body,
    {
        HttpRequest {
            url: self.base_url.clone().concat(COMPLETIONS_PATH),
            authorization: String::from_str("Bearer ").concat(self.api_key.as_str()),
            content_type: String::from_str(JSON_CONTENT_TYPE),
            body,
        }
    }

    /// The request for a completion as plain text.
    pub fn chat_completion_simple(&self, model: &str, messages: Vec<(&str, &str)>) -> (request:
        HttpRequest)
        ensures
            self.sends(request, simple_body(model@, message_models(messages@))),
    {
        let mut members = empty_members();
        put_member(&mut members, "model", text_value(model));
        put_member(&mut members, "messages", list_value(message_values(&messages)));
        self.request(object_value(members))
    }

    /// The request for a completion that conforms to `schema`, declared under
    /// `schema_name`.
    pub fn chat_completion_structured(
        &self,
        model: &str,
        messages: Vec<(&str, &str)>,
        schema_name: &str,
        schema: serde_json::Value,
    ) -> (request: HttpRequest)
        ensures
            self.sends(
                request,
                structured_body(
                    model@,
                    message_models(messages@),
                    schema_name@,
                    json_model(schema),
                ),
            ),
    {
        let mut named = empty_members();
        put_member(&mut named, "name", text_value(schema_name));
        put_member(&mut named, "schema", schema);
        let mut format = empty_members();
        put_member(&mut format, "type", text_value("json_schema"));
        put_member(&mut format, "json_schema", object_value(named));
        let mut members = empty_members();
        put_member(&mut members, "model", text_value(model));
        put_member(&mut members, "messages", list_value(message_values(&messages)));
        put_member(&mut members, "response_format", object_value(format));
        self.request(object_value(members))
    }

    /// The request for a completion that conforms to the schema of the type
    /// called `type_path`: the schema is declared under the name derived from
    /// the type's.
    pub fn chat_completion_typed(
        &self,
        model: &str,
        messages: Vec<(&str, &str)>,
        type_path: &str,
        schema: serde_json::Value,
    ) -> (request: HttpRequest)
        ensures
            self.sends(
                request,
                structured_body(
                    model@,
                    message_models(messages@),
                    schema_name_of(type_path@),
                    json_model(schema),
                ),
            ),
    {
        let name = schema_name(type_path);
        self.chat_completion_structured(model, messages, name.as_str(), schema)
    }

    /// What to read of a reply with the given status.
    pub fn reply_body(status: u16) -> (body: ReplyBody)
        ensures
            body == (if is_success(status) {
                ReplyBody::Envelope
            } else {
                ReplyBody::ErrorText
            }),
    {
        if 200 <= status && status < 300 {
            ReplyBody::Envelope
        } else {
            ReplyBody::ErrorText
        }
    }

    /// The text of the completion that a reply holds, or the error that the
    /// reply amounts to.
    pub fn completion_text(reply: &Reply) -> (content: Result<String, BackendError>)
        ensures
            content == (match *reply {
                Reply::Unreachable(text) => Err::<String, BackendError>(
                    BackendError::Transport(text),
                ),
                Reply::ErrorText(body) => Err::<String, BackendError>(BackendError::Status(body)),
                Reply::Undecodable(text) => Err::<String, BackendError>(
                    BackendError::Decode(text),
                ),
                Reply::Envelope(envelope) => if envelope.choices@.len() == 0 {
                    Err::<String, BackendError>(BackendError::NoChoices)
                } else {
                    Ok::<String, BackendError>(envelope.choices@[0].message.content)
                },
            }),
    {
        match reply {
            Reply::Unreachable(text) => Err(BackendError::Transport(text.clone())),
            Reply::ErrorText(body) => Err(BackendError::Status(body.clone())),
            Reply::Undecodable(text) => Err(BackendError::Decode(text.clone())),
            Reply::Envelope(envelope) => Self::first_content(envelope),
        }
    }

    /// The content of the first choice of an envelope; an envelope without
    /// choices is an error.
    pub fn first_content(envelope: &GroqResponse) -> (content: Result<String, BackendError>)
        ensures
            envelope.choices@.len() == 0 ==> content == Err::<String, BackendError>(
                BackendError::NoChoices,
            ),
            envelope.choices@.len() > 0 ==> content == Ok::<String, BackendError>(
                envelope.choices@[0].message.content,
            ),
    {
        if envelope.choices.len() == 0 {
            Err(BackendError::NoChoices)
        } else {
            Ok(envelope.choices[0].message.content.clone())
        }
    }

    /// The schema of an object with the given simple fields, each entry a
    /// name, a type and a description.
    pub fn create_simple_schema(properties: Vec<(&str, &str, &str)>) -> (schema: serde_json::Value)
        ensures
            json_model(schema) == simple_schema(properties@),
    {
        let mut props = empty_members();
        let mut required: Vec<serde_json::Value> = Vec::new();
        let mut i: usize = 0;
        while i < properties.len()
            invariant
                0 <= i <= properties.len(),
                required.len() == i,
                object_members(props) == property_members(properties@.take(i as int)),
                forall|j: int|
                    0 <= j < i ==> json_model(#[trigger] required@[j]) == JsonModel::Text(
                        properties@[j].0@,
                    ),
            decreases properties.len() - i,
        {
            let (name, kind, description) = properties[i];
            let mut property = empty_members();
            put_member(&mut property, "type", text_value(kind));
            put_member(&mut property, "description", text_value(description));
            put_member(&mut props, name, object_value(property));
            required.push(text_value(name));
            proof {
                assert(properties@.take(i + 1).drop_last() =~= properties@.take(i as int));
            }
            i = i + 1;
        }
        proof {
            assert(properties@.take(i as int) =~= properties@);
            assert(json_models(required@) =~= required_names(properties@));
        }
        let mut members = empty_members();
        put_member(&mut members, "type", text_value("object"));
        put_member(&mut members, "properties", object_value(props));
        put_member(&mut members, "required", list_value(required));
        put_member(&mut members, "additionalProperties", bool_value(false));
        object_value(members)
    }
}

} // verus!
