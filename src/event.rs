use vstd::prelude::*;
use crate::classify::{starts_with, url_prefix};
use crate::json::{object_text, parse_single_member_object, to_json_object, lemma_object_text_round_trip};

verus! {

/// The key under which a forwarded message's text is published.
pub open spec fn article_key() -> Seq<char> {
    seq!['a', 'r', 't', 'i', 'c', 'l', 'e', '_', 'u', 'r', 'l']
}

/// The ordering key attached to every published event.
pub open spec fn ordering_key_text() -> Seq<char> {
    seq!['o', 'r', 'd', 'e', 'r']
}

/// The event published for a forwarded message: the JSON object
/// `{"article_url": <text>}` in compact form.
pub open spec fn payload_of(text: Seq<char>) -> Seq<char> {
    object_text(article_key(), text)
}

/// Builds the event body for a forwarded message: the text, verbatim, under
/// the key `article_url`, as compact JSON.
pub fn build_payload(text: &str) -> (r: String)
    ensures
        r@ == payload_of(text@),
{
    let key = "article_url";
    proof {
        reveal_strlit("article_url");
        assert(key@ =~= article_key());
    }
    match to_json_object(key, text) {
        Ok(encoded) => encoded,
        Err(_) => String::new(),
    }
}

/// The ordering key that every published event carries.
pub fn ordering_key() -> (r: String)
    ensures
        r@ == ordering_key_text(),
{
    let key = "order";
    proof {
        reveal_strlit("order");
        assert(key@ =~= ordering_key_text());
    }
    key.to_string()
}

/// The payload of every candidate article link decodes as a JSON object with
/// exactly one member, `article_url`, whose value is the message text
/// unchanged.
pub proof fn lemma_payload_round_trip(text: Seq<char>)
    requires
        starts_with(text, url_prefix()),
    ensures
        parse_single_member_object(payload_of(text)) == Some((article_key(), text)),
{
    lemma_object_text_round_trip(article_key(), text);
}

} // verus!
