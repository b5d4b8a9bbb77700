//! The reply of the completion service and how it is read from its JSON body.
use vstd::prelude::*;
use crate::error::CompletionError;
use crate::json::{json_of, member, member_spec, parse_json, Json};

verus! {

/// One message of a chat: who speaks, and what is said.
pub struct Message {
    pub role: String,
    pub content: String,
}

/// One candidate reply.
pub struct Choice {
    pub message: Message,
    pub finish_reason: String,
    pub index: i32,
}

/// Token counts of one exchange.
pub struct Usage {
    pub prompt_tokens: i32,
    pub completion_tokens: i32,
    pub total_tokens: i32,
}

/// A whole reply of the service.
pub struct ChatCompletion {
    pub id: String,
    pub created: i64,
    pub model: String,
    pub usage: Usage,
    pub choices: Vec<Choice>,
}

impl ChatCompletion {
    /// What the first choice says, or `NoChoices` where the reply holds none.
    pub fn first_choice_content(&self) -> (r: Result<String, CompletionError>)
        ensures
            self.choices@.len() == 0 ==> r == Err::<String, CompletionError>(
                CompletionError::NoChoices,
            ),
            self.choices@.len() > 0 ==> r is Ok && r->Ok_0@ == self.choices@[0].message.content@,
    {
        if self.choices.len() == 0 {
            Err(CompletionError::NoChoices)
        } else {
            Ok(self.choices[0].message.content.clone())
        }
    }
}

/// The text of member `key`, where it is a string.
pub open spec fn text_spec(j: Json, key: Seq<char>) -> Option<Seq<char>> {
    match member_spec(j, key) {
        Some(Json::Str(s)) => Some(s@),
        _ => None,
    }
}

/// The value of member `key`, where it is an integer that fits in `i64`.
pub open spec fn int_spec(j: Json, key: Seq<char>) -> Option<i64> {
    match member_spec(j, key) {
        Some(Json::Int(i)) => Some(i),
        _ => None,
    }
}

/// The value of member `key`, where it is an integer that fits in `i32`.
pub open spec fn count_spec(j: Json, key: Seq<char>) -> Option<i32> {
    match int_spec(j, key) {
        Some(i) => if i32::MIN <= i <= i32::MAX {
            Some(i as i32)
        } else {
            None
        },
        None => None,
    }
}

/// Whether `j` has the shape of a message.
pub open spec fn message_fits(j: Json) -> bool {
    text_spec(j, "role"@) is Some && text_spec(j, "content"@) is Some
}

/// Whether `m` holds the values of the message `j`.
pub open spec fn message_holds(m: Message, j: Json) -> bool {
    text_spec(j, "role"@) == Some(m.role@) && text_spec(j, "content"@) == Some(m.content@)
}

/// Whether `j` has the shape of a choice.
pub open spec fn choice_fits(j: Json) -> bool {
    &&& member_spec(j, "message"@) is Some
    &&& message_fits(member_spec(j, "message"@)->0)
    &&& text_spec(j, "finish_reason"@) is Some
    &&& count_spec(j, "index"@) is Some
}

/// Whether `c` holds the values of the choice `j`.
pub open spec fn choice_holds(c: Choice, j: Json) -> bool {
    &&& member_spec(j, "message"@) is Some
    &&& message_holds(c.message, member_spec(j, "message"@)->0)
    &&& text_spec(j, "finish_reason"@) == Some(c.finish_reason@)
    &&& count_spec(j, "index"@) == Some(c.index)
}

/// Whether `j` has the shape of token counts.
pub open spec fn usage_fits(j: Json) -> bool {
    &&& count_spec(j, "prompt_tokens"@) is Some
    &&& count_spec(j, "completion_tokens"@) is Some
    &&& count_spec(j, "total_tokens"@) is Some
}

/// Whether `u` holds the values of the token counts `j`.
pub open spec fn usage_holds(u: Usage, j: Json) -> bool {
    &&& count_spec(j, "prompt_tokens"@) == Some(u.prompt_tokens)
    &&& count_spec(j, "completion_tokens"@) == Some(u.completion_tokens)
    &&& count_spec(j, "total_tokens"@) == Some(u.total_tokens)
}

/// The elements of member `choices`, where it is an array.
pub open spec fn choice_items(j: Json) -> Option<Seq<Json>> {
    match member_spec(j, "choices"@) {
        Some(Json::Array(items)) => Some(items@),
        _ => None,
    }
}

/// Whether every element of `items` has the shape of a choice.
pub open spec fn choices_fit(items: Seq<Json>) -> bool {
    forall|i: int| 0 <= i < items.len() ==> choice_fits(#[trigger] items[i])
}

/// Whether `cs` holds the values of `items`, one choice per element, in order.
pub open spec fn choices_hold(cs: Seq<Choice>, items: Seq<Json>) -> bool {
    cs.len() == items.len() && forall|i: int|
        0 <= i < items.len() ==> choice_holds(#[trigger] cs[i], items[i])
}

/// Whether `j` has the shape of a chat completion: every field present and
/// of its type; members not named here are ignored.
pub open spec fn completion_fits(j: Json) -> bool {
    &&& text_spec(j, "id"@) is Some
    &&& int_spec(j, "created"@) is Some
    &&& text_spec(j, "model"@) is Some
    &&& member_spec(j, "usage"@) is Some
    &&& usage_fits(member_spec(j, "usage"@)->0)
    &&& choice_items(j) is Some
    &&& choices_fit(choice_items(j)->0)
}

/// Whether `c` holds the values of the chat completion `j`.
pub open spec fn completion_holds(c: ChatCompletion, j: Json) -> bool {
    &&& text_spec(j, "id"@) == Some(c.id@)
    &&& int_spec(j, "created"@) == Some(c.created)
    &&& text_spec(j, "model"@) == Some(c.model@)
    &&& member_spec(j, "usage"@) is Some
    &&& usage_holds(c.usage, member_spec(j, "usage"@)->0)
    &&& choice_items(j) is Some
    &&& choices_hold(c.choices@, choice_items(j)->0)
}

/// What the first choice of the chat completion `j` says.
pub open spec fn first_content_spec(j: Json) -> Seq<char> {
    text_spec(member_spec(choice_items(j)->0[0], "message"@)->0, "content"@)->0
}

/// A count read as a 32-bit integer, or a schema error where it does not fit.
pub fn narrow(x: i64) -> (r: Result<i32, CompletionError>)
    ensures
        i32::MIN <= x <= i32::MAX ==> r == Ok::<i32, CompletionError>(x as i32),
        !(i32::MIN <= x <= i32::MAX) ==> r == Err::<i32, CompletionError>(
            CompletionError::Schema,
        ),
{
    if i32::MIN as i64 <= x && x <= i32::MAX as i64 {
        Ok(x as i32)
    } else {
        Err(CompletionError::Schema)
    }
}

fn text_field(v: &Json, key: &str) -> (r: Result<String, CompletionError>)
    ensures
        text_spec(*v, key@) is Some ==> r is Ok && r->Ok_0@ == text_spec(*v, key@)->0,
        text_spec(*v, key@) is None ==> r == Err::<String, CompletionError>(
            CompletionError::Schema,
        ),
{
    match member(v, key) {
        Some(x) => match x {
            Json::Str(s) => Ok(s.clone()),
            _ => Err(CompletionError::Schema),
        },
        None => Err(CompletionError::Schema),
    }
}

fn integer_field(v: &Json, key: &str) -> (r: Result<i64, CompletionError>)
    ensures
        int_spec(*v, key@) is Some ==> r == Ok::<i64, CompletionError>(int_spec(*v, key@)->0),
        int_spec(*v, key@) is None ==> r == Err::<i64, CompletionError>(CompletionError::Schema),
{
    match member(v, key) {
        Some(x) => match x {
            Json::Int(i) => Ok(*i),
            _ => Err(CompletionError::Schema),
        },
        None => Err(CompletionError::Schema),
    }
}

fn count_field(v: &Json, key: &str) -> (r: Result<i32, CompletionError>)
    ensures
        count_spec(*v, key@) is Some ==> r == Ok::<i32, CompletionError>(
            count_spec(*v, key@)->0,
        ),
        count_spec(*v, key@) is None ==> r == Err::<i32, CompletionError>(
            CompletionError::Schema,
        ),
{
    let x = integer_field(v, key)?;
    narrow(x)
}

fn message_from(v: &Json) -> (r: Result<Message, CompletionError>)
    ensures
        message_fits(*v) ==> r is Ok && message_holds(r->Ok_0, *v),
        !message_fits(*v) ==> r == Err::<Message, CompletionError>(CompletionError::Schema),
{
    let role = text_field(v, "role")?;
    let content = text_field(v, "content")?;
    Ok(Message { role, content })
}

fn choice_from(v: &Json) -> (r: Result<Choice, CompletionError>)
    ensures
        choice_fits(*v) ==> r is Ok && choice_holds(r->Ok_0, *v),
        !choice_fits(*v) ==> r == Err::<Choice, CompletionError>(CompletionError::Schema),
{
    let m = match member(v, "message") {
        Some(m) => m,
        None => {
            return Err(CompletionError::Schema);
        },
    };
    let message = message_from(m)?;
    let finish_reason = text_field(v, "finish_reason")?;
    let index = count_field(v, "index")?;
    Ok(Choice { message, finish_reason, index })
}

fn usage_from(v: &Json) -> (r: Result<Usage, CompletionError>)
    ensures
        usage_fits(*v) ==> r is Ok && usage_holds(r->Ok_0, *v),
        !usage_fits(*v) ==> r == Err::<Usage, CompletionError>(CompletionError::Schema),
{
    let prompt_tokens = count_field(v, "prompt_tokens")?;
    let completion_tokens = count_field(v, "completion_tokens")?;
    let total_tokens = count_field(v, "total_tokens")?;
    Ok(Usage { prompt_tokens, completion_tokens, total_tokens })
}

fn choices_from(items: &Vec<Json>) -> (r: Result<Vec<Choice>, CompletionError>)
    ensures
        choices_fit(items@) ==> r is Ok && choices_hold(r->Ok_0@, items@),
        !choices_fit(items@) ==> r == Err::<Vec<Choice>, CompletionError>(
            CompletionError::Schema,
        ),
{
    let mut out: Vec<Choice> = Vec::new();
    let mut i: usize = 0;
    while i < items.len()
        invariant
            i <= items@.len(),
            out@.len() == i,
            forall|k: int| 0 <= k < i ==> choice_fits(#[trigger] items@[k]),
            forall|k: int| 0 <= k < i ==> choice_holds(#[trigger] out@[k], items@[k]),
        decreases items@.len() - i,
    {
        let c = match choice_from(&items[i]) {
            Ok(c) => c,
            Err(e) => {
                assert(!choice_fits(items@[i as int]));
                return Err(e);
            },
        };
        out.push(c);
        i = i + 1;
    }
    Ok(out)
}

/// Reads a chat completion from a JSON tree: `Schema` where a field is
/// missing or of another type, else every field's value, with the choices in
/// the order of the array.
pub fn completion_from(v: &Json) -> (r: Result<ChatCompletion, CompletionError>)
    ensures
        completion_fits(*v) ==> r is Ok && completion_holds(r->Ok_0, *v),
        !completion_fits(*v) ==> r == Err::<ChatCompletion, CompletionError>(
            CompletionError::Schema,
        ),
{
    let id = text_field(v, "id")?;
    let created = integer_field(v, "created")?;
    let model = text_field(v, "model")?;
    let u = match member(v, "usage") {
        Some(u) => u,
        None => {
            return Err(CompletionError::Schema);
        },
    };
    let usage = usage_from(u)?;
    let list = match member(v, "choices") {
        Some(list) => list,
        None => {
            return Err(CompletionError::Schema);
        },
    };
    let items = match list {
        Json::Array(items) => items,
        _ => {
            return Err(CompletionError::Schema);
        },
    };
    let choices = choices_from(items)?;
    Ok(ChatCompletion { id, created, model, usage, choices })
}

/// A JSON document without a `choices` member is no chat completion, so
/// reading it gives a schema error rather than a completion without choices.
pub proof fn lemma_missing_choices_is_schema_error(j: Json)
    requires
        member_spec(j, "choices"@) is None,
    ensures
        !completion_fits(j),
{
}

/// Reads a reply body: `Malformed` where it is not JSON, `Schema` where it
/// is JSON of another shape than a chat completion, else the completion that
/// holds its values.
pub fn parse_completion(body: &str) -> (r: Result<ChatCompletion, CompletionError>)
    ensures
        json_of(body@) is None ==> r == Err::<ChatCompletion, CompletionError>(
            CompletionError::Malformed,
        ),
        json_of(body@) is Some && completion_fits(json_of(body@)->0) ==> r is Ok
            && completion_holds(r->Ok_0, json_of(body@)->0),
        json_of(body@) is Some && !completion_fits(json_of(body@)->0) ==> r == Err::<
            ChatCompletion,
            CompletionError,
        >(CompletionError::Schema),
{
    match parse_json(body) {
        Some(j) => completion_from(&j),
        None => Err(CompletionError::Malformed),
    }
}

} // verus!
