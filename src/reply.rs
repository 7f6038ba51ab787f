use vstd::prelude::*;
use vstd::string::*;

verus! {

/// The reply relation of a message: the id of the event it answers.
#[derive(Clone)]
pub struct ReplyRelation {
    pub in_reply_to: String,
}

/// A notice to send, nested under the message that asked for it.
pub struct Reply {
    pub body: String,
    pub relates_to: ReplyRelation,
}

pub open spec fn unresolved_text() -> Seq<char> {
    "Unable to find related event!"@
}

pub open spec fn unsupported_text() -> Seq<char> {
    "Only Image, Video, File and Audio events are supported!"@
}

/// `{gateway}/ipfs/{hash}?filename={filename}`
pub open spec fn link_text(gateway: Seq<char>, hash: Seq<char>, filename: Seq<char>) -> Seq<char> {
    gateway + "/ipfs/"@ + hash + "?filename="@ + filename
}

/// The body of the reply that points at stored content.
pub fn link_body(gateway: &str, hash: &str, filename: &str) -> (r: String)
    ensures
        r@ == link_text(gateway@, hash@, filename@),
{
    let mut b = String::from_str(gateway);
    b.append("/ipfs/");
    b.append(hash);
    b.append("?filename=");
    b.append(filename);
    b
}

/// The notice sent when the event replied to cannot be found.
pub fn unresolved_body() -> (r: String)
    ensures
        r@ == unresolved_text(),
{
    String::from_str("Unable to find related event!")
}

/// The notice sent when the event replied to holds no supported media.
pub fn unsupported_body() -> (r: String)
    ensures
        r@ == unsupported_text(),
{
    String::from_str("Only Image, Video, File and Audio events are supported!")
}

/// A reply with `body` under the same relation as the triggering message.
pub fn compose_reply(body: String, relation: &ReplyRelation) -> (r: Reply)
    ensures
        r.body@ == body@,
        r.relates_to.in_reply_to@ == relation.in_reply_to@,
{
    Reply { body, relates_to: ReplyRelation { in_reply_to: relation.in_reply_to.clone() } }
}

} // verus!
