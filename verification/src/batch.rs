//! The two payloads that go to Elasticsearch: the bulk request that
//! carries a batch of events, and the index template that is registered
//! once before any of them.

use vstd::prelude::*;
use vstd::string::*;
use vstd::utf8::*;
use crate::event::{Event, EventView};
use crate::index::{index_name, IndexTemplate, IndexTemplateView};
use crate::render::{document_json, rendered, ElasticLog};
use crate::TYPENAME;

verus! {

/// The line that tells the bulk API where the next document goes.
pub open spec fn action_line(index: Seq<char>) -> Seq<char> {
    "{\"index\":{\"_index\":\""@ + index + "\",\"_type\":\""@ + TYPENAME@ + "\"}}\n"@
}

/// The two lines of one event: where it goes, then its document.
pub open spec fn event_lines(event: EventView, template: IndexTemplateView) -> Seq<char> {
    action_line(index_name(template, event.timestamp)) + document_json(rendered(event)) + seq![
        '\n',
    ]
}

/// The lines of all the events, in their order.
pub open spec fn batch_text(events: Seq<EventView>, template: IndexTemplateView) -> Seq<char>
    decreases events.len(),
{
    if events.len() == 0 {
        Seq::empty()
    } else {
        batch_text(events.drop_last(), template) + event_lines(events.last(), template)
    }
}

/// The events as mathematical values, in their order.
pub open spec fn views_of(events: Seq<Event>) -> Seq<EventView> {
    Seq::new(events.len(), |i: int| events[i]@)
}

/// The request that registers the index template: the pattern of the index
/// names, and a mapping that makes `@t` a date in the form that the
/// documents give it.
pub open spec fn index_template_json(prefix: Seq<char>) -> Seq<char> {
    "{\"template\":\""@ + prefix + "*\",\"mappings\":{\""@ + TYPENAME@
        + "\":{\"properties\":{\"@t\":{\"type\":\"date\",\"format\":\"yyyy-MM-dd'T'HH:mm:ss.SSSZ\"}}}}}"@
}

/// No events make an empty body, whatever the template.
pub proof fn empty_batch_is_empty(template: IndexTemplateView)
    ensures
        batch_text(Seq::empty(), template) == Seq::<char>::empty(),
        encode_utf8(batch_text(Seq::empty(), template)) == Seq::<u8>::empty(),
{
}

/// A batch is the batch of its first events followed by the lines of its
/// last one: events are written in the order given, two lines for each.
pub proof fn batch_grows_by_event(
    events: Seq<EventView>,
    event: EventView,
    template: IndexTemplateView,
)
    ensures
        batch_text(events.push(event), template) == batch_text(events, template) + event_lines(
            event,
            template,
        ),
{
    assert(events.push(event).drop_last() =~= events);
}

/// Appends the line that tells the bulk API where the next document goes.
pub fn push_action_line(out: &mut String, index: &str)
    ensures
        final(out)@ == old(out)@ + action_line(index@),
{
    out.append("{\"index\":{\"_index\":\"");
    out.append(index);
    out.append("\",\"_type\":\"");
    out.append(TYPENAME);
    out.append("\"}}\n");
}

/// Builds the body of a bulk request: for every event, in the order given,
/// an action line with the index of the event's date, then the document of
/// the event, each ended by a line feed. No events give an empty body.
pub fn build_batch(events: &[Event], template: &IndexTemplate) -> (payload: Vec<u8>)
    ensures
        payload@ == encode_utf8(batch_text(views_of(events@), template@)),
        events@.len() == 0 ==> payload@.len() == 0,
{
    let mut text = String::new();
    let mut i: usize = 0;
    while i < events.len()
        invariant
            i <= events@.len(),
            text@ == batch_text(views_of(events@).take(i as int), template@),
        decreases events@.len() - i,
    {
        proof {
            assert(views_of(events@).take(i + 1).drop_last() == views_of(events@).take(i as int));
            assert(views_of(events@).take(i + 1).last() == events@[i as int]@);
        }
        let event = &events[i];
        let index = template.index(&event.timestamp());
        push_action_line(&mut text, index.as_str());
        ElasticLog::new(event).push_json(&mut text);
        text.push('\n');
        i += 1;
    }
    proof {
        assert(views_of(events@).take(events@.len() as int) == views_of(events@));
    }
    text.as_str().as_bytes_vec()
}

/// Builds the body of the request that registers the index template: the
/// prefix with `*` behind it as the pattern, and the mapping of `@t`.
pub fn build_index_template(template: &IndexTemplate) -> (payload: Vec<u8>)
    ensures
        payload@ == encode_utf8(index_template_json(template@.prefix)),
{
    let mut text = String::new();
    text.append("{\"template\":\"");
    text.append(template.prefix());
    text.append("*\",\"mappings\":{\"");
    text.append(TYPENAME);
    text.append(
        "\":{\"properties\":{\"@t\":{\"type\":\"date\",\"format\":\"yyyy-MM-dd'T'HH:mm:ss.SSSZ\"}}}}}",
    );
    text.as_str().as_bytes_vec()
}

} // verus!
