//! What is done with the text of a message.
use vstd::prelude::*;
use crate::error::BybitError;
use crate::events::WebsocketEvents;
use crate::json::{json_parse, parse_value, value_tree};

verus! {

/// Handles the text of each message on a connection.
pub trait WebSocketHandler {
    type Event;

    fn handle_msg(&mut self, msg: &str) -> Result<(), BybitError>;
}

/// Makes events out of messages, and takes them in.
pub trait EventSink {
    /// The event that a message announces; `None` for any other message.
    fn decode(&self, update: serde_json::Value) -> Option<WebsocketEvents>;

    /// Takes in an event.
    fn on_event(&mut self, event: WebsocketEvents) -> Result<(), BybitError>;
}

/// Hands a message on, where `parsed` is what came of reading it as JSON. What the reader reported
/// is an error. A message that announces no event is passed over.
pub fn handle_parsed<S: EventSink>(
    sink: &mut S,
    parsed: Result<serde_json::Value, serde_json::Error>,
) -> (r: Result<(), BybitError>)
    ensures
        match parsed {
            Err(error) => r == Err::<(), BybitError>(BybitError::Json(error)) && *final(sink)
                == *old(sink),
            Ok(update) => exists|event: Option<WebsocketEvents>|
                {
                    &&& #[trigger] call_ensures(S::decode, (&*old(sink), update), event)
                    &&& match event {
                        None => r is Ok && *final(sink) == *old(sink),
                        Some(event) => exists|taker: &mut S|
                            {
                                &&& *taker == *old(sink)
                                &&& *final(taker) == *final(sink)
                                &&& #[trigger] call_ensures(S::on_event, (taker, event), r)
                            },
                    }
                },
        },
{
    let update = match parsed {
        Ok(value) => value,
        Err(error) => {
            return Err(BybitError::Json(error));
        },
    };
    match sink.decode(update) {
        Some(event) => sink.on_event(event),
        None => Ok(()),
    }
}

/// A message that is no JSON is an error. One that announces no event is passed over.
impl<S: EventSink> WebSocketHandler for S {
    type Event = WebsocketEvents;

    fn handle_msg(&mut self, msg: &str) -> (r: Result<(), BybitError>)
        ensures
            match json_parse(msg@) {
                None => r matches Err(BybitError::Json(_)) && *final(self) == *old(self),
                Some(tree) => exists|update: serde_json::Value, event: Option<WebsocketEvents>|
                    {
                        &&& value_tree(update) == tree
                        &&& #[trigger] call_ensures(S::decode, (&*old(self), update), event)
                        &&& match event {
                            None => r is Ok && *final(self) == *old(self),
                            Some(event) => exists|sink: &mut S|
                                {
                                    &&& *sink == *old(self)
                                    &&& *final(sink) == *final(self)
                                    &&& #[trigger] call_ensures(S::on_event, (sink, event), r)
                                },
                        }
                    },
            },
    {
        handle_parsed(self, parse_value(msg))
    }
}

/// What the reader reported of a message is the error that comes of it, and the sink stays as it
/// was.
pub proof fn law_unreadable_messages_are_errors<S: EventSink>(
    sink: &mut S,
    error: serde_json::Error,
    r: Result<(), BybitError>,
)
    requires
        call_ensures(handle_parsed::<S>, (sink, Err(error)), r),
    ensures
        r matches Err(BybitError::Json(reported)) && reported == error,
        *final(sink) == *old(sink),
{
}

/// A message that announces no event, whatever the sink makes of it, is passed over: all is well,
/// and the sink stays as it was.
pub proof fn law_other_messages_are_passed_over<S: EventSink>(
    sink: &mut S,
    update: serde_json::Value,
    r: Result<(), BybitError>,
)
    requires
        call_ensures(handle_parsed::<S>, (sink, Ok(update)), r),
        forall|event: Option<WebsocketEvents>|
            call_ensures(S::decode, (&*old(sink), update), event) ==> event is None,
    ensures
        r is Ok,
        *final(sink) == *old(sink),
{
}

/// An event that a message announces reaches the sink, and what comes of it there is what comes of
/// the message.
pub proof fn law_events_reach_the_sink<S: EventSink>(
    sink: &mut S,
    update: serde_json::Value,
    event: WebsocketEvents,
    r: Result<(), BybitError>,
)
    requires
        call_ensures(handle_parsed::<S>, (sink, Ok(update)), r),
        forall|announced: Option<WebsocketEvents>|
            call_ensures(S::decode, (&*old(sink), update), announced) ==> announced == Some(event),
    ensures
        exists|taker: &mut S|
            {
                &&& *taker == *old(sink)
                &&& *final(taker) == *final(sink)
                &&& #[trigger] call_ensures(S::on_event, (taker, event), r)
            },
{
}

} // verus!
