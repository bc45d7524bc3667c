//! The boundary to `cosmwasm_std`: the response and the events that a
//! command hands back to the host. Nothing in this file is proved: each
//! contract restates what the `cosmwasm_std` source does, over the names
//! below for what a response and an event hold.

use vstd::prelude::*;

verus! {

/// `cosmwasm_std::Event`, held as an opaque value.
#[verifier::external_type_specification]
#[verifier::external_body]
pub struct ExEvent(cosmwasm_std::Event);

/// `cosmwasm_std::Empty`, the message type of a response that carries no
/// custom messages.
#[verifier::external_type_specification]
#[verifier::external_body]
pub struct ExEmpty(cosmwasm_std::Empty);

/// `cosmwasm_std::Response`, held as an opaque value.
#[verifier::external_type_specification]
#[verifier::external_body]
#[verifier::reject_recursive_types(T)]
pub struct ExResponse<T>(cosmwasm_std::Response<T>);

/// The type string of an event: its field `ty`.
pub uninterp spec fn event_kind(event: cosmwasm_std::Event) -> Seq<char>;

/// The attributes of an event, in order, each as key and value: its field
/// `attributes`.
pub uninterp spec fn event_attributes(event: cosmwasm_std::Event) -> Seq<(Seq<char>, Seq<char>)>;

/// The events of a response, in order, each as its type string and its
/// attributes: its field `events`.
pub uninterp spec fn response_events(response: cosmwasm_std::Response<cosmwasm_std::Empty>) -> Seq<
    (Seq<char>, Seq<(Seq<char>, Seq<char>)>),
>;

/// The attributes of a response, in order, each as key and value: its
/// field `attributes`.
pub uninterp spec fn response_attributes(
    response: cosmwasm_std::Response<cosmwasm_std::Empty>,
) -> Seq<(Seq<char>, Seq<char>)>;

/// How many messages a response carries: the length of its field
/// `messages`.
pub uninterp spec fn response_message_count(
    response: cosmwasm_std::Response<cosmwasm_std::Empty>,
) -> nat;

/// The binary payload of a response, if it has one: its field `data`.
pub uninterp spec fn response_data(response: cosmwasm_std::Response<cosmwasm_std::Empty>) -> Option<
    Seq<u8>,
>;

/// A response that carries nothing at all.
pub open spec fn is_empty_response(response: cosmwasm_std::Response<cosmwasm_std::Empty>) -> bool {
    &&& response_events(response).len() == 0
    &&& response_attributes(response).len() == 0
    &&& response_message_count(response) == 0
    &&& response_data(response) is None
}

/// Calls `cosmwasm_std::Event::new`, which makes an event of the given
/// type with an empty attribute list.
#[verifier::external_body]
pub(crate) fn new_event(kind: &str) -> (event: cosmwasm_std::Event)
    ensures
        event_kind(event) == kind@,
        event_attributes(event).len() == 0,
{
    cosmwasm_std::Event::new(kind)
}

/// Calls `cosmwasm_std::Event::add_attribute`, which pushes one attribute
/// with the given key and value onto the event's list and leaves its type
/// alone.
#[verifier::external_body]
pub(crate) fn event_with_attribute(event: cosmwasm_std::Event, key: &str, value: &str) -> (out:
    cosmwasm_std::Event)
    ensures
        event_kind(out) == event_kind(event),
        event_attributes(out) == event_attributes(event).push((key@, value@)),
{
    event.add_attribute(key, value)
}

/// Calls `cosmwasm_std::Response::new`, which is the default response: no
/// messages, no attributes, no events, no data.
#[verifier::external_body]
pub(crate) fn new_response() -> (response: cosmwasm_std::Response<cosmwasm_std::Empty>)
    ensures
        is_empty_response(response),
{
    cosmwasm_std::Response::new()
}

/// Calls `cosmwasm_std::Response::add_event`, which pushes the event onto
/// the response's event list and leaves the other fields alone.
#[verifier::external_body]
pub(crate) fn response_with_event(
    response: cosmwasm_std::Response<cosmwasm_std::Empty>,
    event: cosmwasm_std::Event,
) -> (out: cosmwasm_std::Response<cosmwasm_std::Empty>)
    ensures
        response_events(out) == response_events(response).push(
            (event_kind(event), event_attributes(event)),
        ),
        response_attributes(out) == response_attributes(response),
        response_message_count(out) == response_message_count(response),
        response_data(out) == response_data(response),
{
    response.add_event(event)
}

/// Calls `cosmwasm_std::Response::add_attribute`, which pushes one
/// attribute onto the response's attribute list and leaves the other fields
/// alone. In a debug build it panics on a key that starts with an
/// underscore, so such a key is not admitted.
#[verifier::external_body]
pub(crate) fn response_with_attribute(
    response: cosmwasm_std::Response<cosmwasm_std::Empty>,
    key: &str,
    value: &str,
) -> (out: cosmwasm_std::Response<cosmwasm_std::Empty>)
    requires
        key@.len() == 0 || key@[0] != '_',
    ensures
        response_attributes(out) == response_attributes(response).push((key@, value@)),
        response_events(out) == response_events(response),
        response_message_count(out) == response_message_count(response),
        response_data(out) == response_data(response),
{
    response.add_attribute(key, value)
}

} // verus!
