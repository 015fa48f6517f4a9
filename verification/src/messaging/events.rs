//! Events that report the progress of a build on a channel.

use vstd::prelude::*;
use crate::messaging::json::{fields_view, JsonValue, JsonView};

verus! {

/// Abstract value of a [`StreamEvent`]: its type and its content.
pub struct EventView {
    pub event_type: Seq<char>,
    pub content: JsonView,
}

/// A progress event: its type (such as `build.compiling`) and its content.
#[derive(Debug)]
pub struct StreamEvent {
    pub event_type: String,
    pub content: JsonValue,
}

impl View for StreamEvent {
    type V = EventView;

    open spec fn view(&self) -> EventView {
        EventView { event_type: self.event_type@, content: self.content.view() }
    }
}

/// The abstract values of a list of events.
pub open spec fn events_view(v: Seq<StreamEvent>) -> Seq<EventView> {
    v.map_values(|e: StreamEvent| e@)
}

/// An event of type `t` whose content is an object with the given members.
pub open spec fn event_spec(t: Seq<char>, members: Seq<(Seq<char>, JsonView)>) -> EventView {
    EventView { event_type: t, content: JsonView::Object(members) }
}

/// An event whose content is just a message.
pub open spec fn message_event_spec(t: Seq<char>, message: Seq<char>) -> EventView {
    event_spec(t, seq![("message"@, JsonView::Str(message))])
}

/// The JSON text of an optional string: the string, or null.
pub open spec fn opt_text_view(o: Option<Seq<char>>) -> JsonView {
    match o {
        Some(s) => JsonView::Str(s),
        None => JsonView::Null,
    }
}

/// A member of an object.
pub fn member(key: &str, value: JsonValue) -> (m: (String, JsonValue))
    ensures
        m.0@ == key@,
        m.1 == value,
{
    (String::from_str(key), value)
}

/// An event with one member in its content.
pub fn event1(t: &str, m1: (String, JsonValue)) -> (e: StreamEvent)
    ensures
        e@ == event_spec(t@, seq![(m1.0@, m1.1.view())]),
{
    let ghost g1 = (m1.0@, m1.1.view());
    let fields = vec![m1];
    let content = JsonValue::object(fields);
    proof {
        assert(fields_view(fields@) =~= seq![g1]);
    }
    StreamEvent { event_type: String::from_str(t), content }
}

/// An event with two members in its content.
pub fn event2(t: &str, m1: (String, JsonValue), m2: (String, JsonValue)) -> (e: StreamEvent)
    ensures
        e@ == event_spec(t@, seq![(m1.0@, m1.1.view()), (m2.0@, m2.1.view())]),
{
    let ghost g1 = (m1.0@, m1.1.view());
    let ghost g2 = (m2.0@, m2.1.view());
    let fields = vec![m1, m2];
    let content = JsonValue::object(fields);
    proof {
        assert(fields_view(fields@) =~= seq![g1, g2]);
    }
    StreamEvent { event_type: String::from_str(t), content }
}

/// An event with three members in its content.
pub fn event3(t: &str, m1: (String, JsonValue), m2: (String, JsonValue), m3: (String, JsonValue)) -> (e:
    StreamEvent)
    ensures
        e@ == event_spec(
            t@,
            seq![(m1.0@, m1.1.view()), (m2.0@, m2.1.view()), (m3.0@, m3.1.view())],
        ),
{
    let ghost g1 = (m1.0@, m1.1.view());
    let ghost g2 = (m2.0@, m2.1.view());
    let ghost g3 = (m3.0@, m3.1.view());
    let fields = vec![m1, m2, m3];
    let content = JsonValue::object(fields);
    proof {
        assert(fields_view(fields@) =~= seq![g1, g2, g3]);
    }
    StreamEvent { event_type: String::from_str(t), content }
}

/// An event whose content is just `message`.
pub fn message_event(t: &str, message: String) -> (e: StreamEvent)
    ensures
        e@ == message_event_spec(t@, message@),
{
    event1(t, member("message", JsonValue::Str(message)))
}

/// A JSON string, or null.
pub fn opt_text(o: Option<String>) -> (j: JsonValue)
    ensures
        j.view() == opt_text_view(match o {
            Some(s) => Some(s@),
            None => None,
        }),
{
    match o {
        Some(s) => JsonValue::Str(s),
        None => JsonValue::Null,
    }
}

} // verus!
