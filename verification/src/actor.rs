//! The greeter: the texts that a client of the display shows, for a request
//! by name and for an input event.
//!
//! A name is passed through the profanity filter of the `censor` crate
//! before it is shown.

use censor::Censor;
use vstd::prelude::*;
use vstd::string::{StrSliceExecFns, StringExecFns};

verus! {

/// The text that `censor` makes of a text, with its standard and its
/// sex-related word lists: characters of censored words are replaced by
/// `*`.
pub uninterp spec fn censored(text: Seq<char>) -> Seq<char>;

/// Calls `Censor::censor` on the sum of `Censor::Standard` and
/// `Censor::Sex`. Trusted: the result is a function of the text alone.
#[verifier::external_body]
fn censor_text(text: &str) -> (clean: String)
    ensures
        clean@ == censored(text@),
{
    (Censor::Standard + Censor::Sex).censor(text)
}

/// The number of `/` that a text begins with.
pub open spec fn leading_slashes(text: Seq<char>) -> nat
    decreases text.len(),
{
    if text.len() > 0 && text[0] == '/' {
        1 + leading_slashes(text.drop_first())
    } else {
        0
    }
}

/// A text without the `/` that it begins with.
pub open spec fn without_leading_slashes(text: Seq<char>) -> Seq<char> {
    text.skip(leading_slashes(text) as int)
}

/// The greeting of a name.
pub open spec fn greeting(name: Seq<char>) -> Seq<char> {
    "Hello, "@ + name + ", I am Roman!"@
}

/// The text shown for a request with the given path: the greeting of the
/// path without its leading `/`, censored.
pub open spec fn request_text(path: Seq<char>) -> Seq<char> {
    greeting(censored(without_leading_slashes(path)))
}

/// The text shown for an event with the given canonical text: the second
/// button gives the plain greeting, every other event is named.
pub open spec fn event_text(event: Seq<char>) -> Seq<char> {
    if event == "button2"@ {
        "Hello, I'm Roman!"@
    } else {
        "Hello, I'm Roman!\nYou pressed "@ + event
    }
}

/// The leading `/` of a text, counted from position `from`, reach as far as
/// those of the rest do.
proof fn lemma_leading_slashes_step(text: Seq<char>, from: int)
    requires
        0 <= from < text.len(),
        text[from] == '/',
    ensures
        leading_slashes(text.skip(from)) == 1 + leading_slashes(text.skip(from + 1)),
{
    assert(text.skip(from).drop_first() =~= text.skip(from + 1));
}

/// A path without the `/` that it begins with.
pub fn trim_leading_slashes(path: &str) -> (rest: &str)
    ensures
        rest@ == without_leading_slashes(path@),
{
    let len = path.unicode_len();
    let mut at: usize = 0;
    assert(path@.skip(0) =~= path@);
    while at < len && path.get_char(at) == '/'
        invariant
            at <= len,
            len == path@.len(),
            leading_slashes(path@) == at + leading_slashes(path@.skip(at as int)),
        decreases len - at,
    {
        proof {
            lemma_leading_slashes_step(path@, at as int);
        }
        at = at + 1;
    }
    path.substring_char(at, len)
}

/// The text shown for a request with the given path.
pub fn request_message(path: &str) -> (message: String)
    ensures
        message@ == request_text(path@),
{
    let name = censor_text(trim_leading_slashes(path));
    let mut message = String::from_str("Hello, ");
    message.append(name.as_str());
    message.append(", I am Roman!");
    message
}

/// The text shown for an event with the given canonical text.
pub fn event_message(event: &str) -> (message: String)
    ensures
        message@ == event_text(event@),
{
    if String::from_str(event) == String::from_str("button2") {
        String::from_str("Hello, I'm Roman!")
    } else {
        let mut message = String::from_str("Hello, I'm Roman!\nYou pressed ");
        message.append(event);
        message
    }
}

/// The field of a reply that holds its text.
#[derive(Debug, Clone, Copy, PartialEq, Eq, Structural)]
pub enum ReplyField {
    /// The request was served: the field is named `response`.
    Response,
    /// The request failed: the field is named `error`.
    Error,
}

impl ReplyField {
    /// The name of the field.
    pub open spec fn name_text(self) -> Seq<char> {
        match self {
            ReplyField::Response => "response"@,
            ReplyField::Error => "error"@,
        }
    }

    /// The name of the field.
    pub fn name(&self) -> (name: &'static str)
        ensures
            name@ == self.name_text(),
    {
        match self {
            ReplyField::Response => "response",
            ReplyField::Error => "error",
        }
    }
}

/// The reply to a request: a status code and one named text.
#[derive(Debug, PartialEq, Eq)]
pub struct Reply {
    pub status: u16,
    pub field: ReplyField,
    pub text: String,
}

/// The status of a reply to a request that was served.
pub const STATUS_OK: u16 = 200;

/// The status of a reply to a request that failed.
pub const STATUS_FAILED: u16 = 500;

/// The reply to a request, given how drawing its message went: an
/// invitation if the message was drawn, the error as a server error if it
/// was not.
pub fn reply_for(drawn: Result<(), String>) -> (reply: Reply)
    ensures
        drawn is Ok ==> reply.status == STATUS_OK && reply.field == ReplyField::Response
            && reply.text@ == "Come try out Cosmonic! https://app.cosmonic.com"@,
        drawn matches Err(error) ==> reply.status == STATUS_FAILED && reply.field
            == ReplyField::Error && reply.text@ == error@,
{
    match drawn {
        Ok(()) => Reply {
            status: STATUS_OK,
            field: ReplyField::Response,
            text: String::from_str("Come try out Cosmonic! https://app.cosmonic.com"),
        },
        Err(error) => Reply { status: STATUS_FAILED, field: ReplyField::Error, text: error },
    }
}

} // verus!
