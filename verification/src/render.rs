//! Rendering of one event: its message with the holes filled, the
//! identifier of its template, and the JSON document that goes on the wire.

use vstd::prelude::*;
use vstd::string::*;
use vstd::utf8::*;
use emit::templates::repl::MessageTemplateRepl;
use std::collections::BTreeMap;
use crate::event::{template_fits, Event, EventView};
use crate::level::{level_label, LogLevel};
use crate::properties::{members_json, value_json, Properties, PropertyView, ValueView};
use crate::text::{decimal, digit, hex8, json_string, push_hex8, push_json_string};
use crate::timestamp::Timestamp;

verus! {

/// One step of the one-at-a-time hash: a byte goes into the hash.
pub open spec fn stirred(hash: u32, byte: u8) -> u32 {
    let a = hash.wrapping_add(byte as u32);
    let b = a.wrapping_add(a << 10);
    b ^ (b >> 6)
}

/// The hash after all the bytes have gone in, first to last.
pub open spec fn stirred_all(bytes: Seq<u8>) -> u32
    decreases bytes.len(),
{
    if bytes.len() == 0 {
        0
    } else {
        stirred(stirred_all(bytes.drop_last()), bytes.last())
    }
}

/// The last step of the one-at-a-time hash.
pub open spec fn settled(hash: u32) -> u32 {
    let a = hash.wrapping_add(hash << 3);
    let b = a ^ (a >> 11);
    b.wrapping_add(b << 15)
}

/// The identifier of a message template: the one-at-a-time hash of its
/// UTF-8 bytes. It is the same for every event of that template.
pub open spec fn template_id(message_template: Seq<char>) -> u32 {
    settled(stirred_all(encode_utf8(message_template)))
}

/// Computes the identifier of a message template.
pub fn event_id(message_template: &str) -> (id: u32)
    ensures
        id == template_id(message_template@),
{
    let bytes = message_template.as_bytes();
    let mut hash: u32 = 0;
    let mut i: usize = 0;
    while i < bytes.len()
        invariant
            i <= bytes.len(),
            hash == stirred_all(bytes@.take(i as int)),
        decreases bytes.len() - i,
    {
        proof {
            assert(bytes@.take(i + 1).drop_last() == bytes@.take(i as int));
        }
        let a = hash.wrapping_add(bytes[i] as u32);
        let b = a.wrapping_add(a << 10);
        hash = b ^ (b >> 6);
        i += 1;
    }
    proof {
        assert(bytes@.take(bytes@.len() as int) == bytes@);
    }
    let a = hash.wrapping_add(hash << 3);
    let b = a ^ (a >> 11);
    b.wrapping_add(b << 15)
}

/// The message that emit makes of a template and the properties of an
/// event, each property given by its name and by its value as JSON.
pub uninterp spec fn filled_template(
    message_template: Seq<char>,
    names: Seq<Seq<char>>,
    values: Seq<Seq<char>>,
) -> Seq<char>;

/// Where a text of two or more characters opens with a double quote, it
/// also closes with one.
pub open spec fn unquotes_cleanly(text: Seq<char>) -> bool {
    text.len() >= 2 && text[0] == '"' ==> text.last() == '"'
}

/// Hands a template and the properties to emit: `MessageTemplateRepl::new`
/// finds the holes, and `replace` writes the text with each hole filled by
/// the property of its name. emit takes each value as JSON and shows a
/// string without its quotes, cutting one byte off each end: the values
/// handed over must allow that. It parses by recursion, one call for each
/// stretch of the template, so the template must be short. The message is
/// the same whenever the arguments are.
#[verifier::external_body]
fn fill_template(message_template: &str, names: &Vec<String>, values: &Vec<String>) -> (message:
    String)
    requires
        template_fits(message_template@),
        names.len() == values.len(),
        forall|i: int| 0 <= i < values.len() ==> unquotes_cleanly(#[trigger] values[i]@),
    ensures
        message@ == filled_template(message_template@, names.deep_view(), values.deep_view()),
{
    let mut held: BTreeMap<&str, emit::events::Value> = BTreeMap::new();
    for i in 0..names.len() {
        held.insert(names[i].as_str(), emit::events::Value::Json(values[i].clone()));
    }
    MessageTemplateRepl::new(message_template).replace(&held)
}

/// The names of the properties, in their order.
pub open spec fn names_of(properties: Seq<PropertyView>) -> Seq<Seq<char>> {
    Seq::new(properties.len(), |i: int| properties[i].name)
}

/// The values of the properties as JSON, in their order.
pub open spec fn jsons_of(properties: Seq<PropertyView>) -> Seq<Seq<char>> {
    Seq::new(properties.len(), |i: int| value_json(properties[i].value))
}

/// The message of an event: its template with the holes filled from its
/// properties.
pub open spec fn message_of(event: EventView) -> Seq<char> {
    filled_template(
        event.message_template,
        names_of(event.properties),
        jsons_of(event.properties),
    )
}

/// A number in decimal starts with a digit.
proof fn lemma_decimal_starts_with_digit(n: nat)
    ensures
        decimal(n).len() >= 1,
        exists|d: int| 0 <= d < 10 && decimal(n)[0] == digit(d),
    decreases n,
{
    if n < 10 {
        assert(decimal(n)[0] == digit(n as int));
    } else {
        lemma_decimal_starts_with_digit(n / 10);
        let d = choose|d: int| 0 <= d < 10 && decimal(n / 10)[0] == digit(d);
        assert(decimal(n)[0] == decimal(n / 10)[0]);
        assert(decimal(n)[0] == digit(d));
    }
}

/// The JSON of a value is a text from which emit can take the quotes.
pub proof fn lemma_value_json_unquotes(value: ValueView)
    ensures
        unquotes_cleanly(value_json(value)),
{
    match value {
        ValueView::Str(s) => {
            assert(json_string(s).last() == '"');
        },
        ValueView::Number(n) => {
            if n < 0 {
                assert(value_json(value)[0] == '-');
            } else {
                lemma_decimal_starts_with_digit(n as nat);
                let d = choose|d: int| 0 <= d < 10 && decimal(n as nat)[0] == digit(d);
                assert(digit(d) as u32 == 48 + d);
                assert('"' as u32 == 34);
            }
        },
        ValueView::Bool(b) => {
            reveal_strlit("true");
            reveal_strlit("false");
        },
        ValueView::Object(entries) => {
            assert(value_json(value)[0] == '{');
            assert(value_json(value).last() == '}');
        },
    }
}

/// A rendered event as a mathematical value.
pub struct ElasticLogView {
    pub timestamp: Timestamp,
    pub level: LogLevel,
    pub message: Seq<char>,
    pub id: u32,
    pub properties: Seq<PropertyView>,
}

/// An event made ready for the wire: the fixed fields `@t`, `@m`, `@i` and
/// `@l`, and the properties of the event.
#[derive(Debug)]
pub struct ElasticLog<'a> {
    timestamp: Timestamp,
    level: LogLevel,
    message: String,
    id: u32,
    properties: &'a Properties,
}

impl<'a> View for ElasticLog<'a> {
    type V = ElasticLogView;

    closed spec fn view(&self) -> ElasticLogView {
        ElasticLogView {
            timestamp: self.timestamp,
            level: self.level,
            message: self.message@,
            id: self.id,
            properties: self.properties@,
        }
    }
}

/// An event with a given message: every other field comes from the event.
pub open spec fn rendered_with(event: EventView, message: Seq<char>) -> ElasticLogView {
    ElasticLogView {
        timestamp: event.timestamp,
        level: event.level,
        message,
        id: template_id(event.message_template),
        properties: event.properties,
    }
}

/// An event rendered: its message is its template with the holes filled.
pub open spec fn rendered(event: EventView) -> ElasticLogView {
    rendered_with(event, message_of(event))
}

/// The properties as further members of a JSON object: nothing where
/// there are none, else a comma and the members.
pub open spec fn properties_json(properties: Seq<PropertyView>) -> Seq<char> {
    if properties.len() == 0 {
        Seq::empty()
    } else {
        seq![','] + members_json(properties)
    }
}

/// The JSON document of a rendered event, on one line: the moment, the
/// message, the identifier of the template in eight hexadecimal digits, the
/// level, then the properties in the order of their names.
pub open spec fn document_json(log: ElasticLogView) -> Seq<char> {
    "{\"@t\":\""@ + log.timestamp.spec_iso8601() + "\",\"@m\":"@ + json_string(log.message)
        + ",\"@i\":\""@ + hex8(log.id as int) + "\",\"@l\":\""@ + level_label(log.level) + "\""@
        + properties_json(log.properties) + "}"@
}

/// Rendering the same event twice gives the same document, byte for byte.
pub proof fn rendering_is_repeatable(event: Event, first: ElasticLog, second: ElasticLog)
    requires
        first@ == rendered(event@),
        second@ == rendered(event@),
    ensures
        first@ == second@,
        encode_utf8(document_json(first@)) == encode_utf8(document_json(second@)),
{
}

/// The identifier belongs to the template: two events with the same
/// template have the same identifier, whatever their moments, levels and
/// properties are.
pub proof fn id_depends_on_template_only(first: EventView, second: EventView)
    requires
        first.message_template == second.message_template,
    ensures
        rendered(first).id == rendered(second).id,
        rendered(first).id == template_id(first.message_template),
{
}

impl<'a> ElasticLog<'a> {
    /// Renders an event: fills the holes of its template from its
    /// properties and computes the identifier of the template.
    pub fn new(event: &'a Event) -> (log: ElasticLog<'a>)
        ensures
            log@ == rendered(event@),
    {
        let properties = event.properties();
        let mut names: Vec<String> = Vec::new();
        let mut values: Vec<String> = Vec::new();
        let mut i: usize = 0;
        while i < properties.len()
            invariant
                i <= properties@.len(),
                names@.len() == i,
                values@.len() == i,
                forall|k: int| 0 <= k < i ==> (#[trigger] names@[k])@ == properties@[k].name,
                forall|k: int|
                    0 <= k < i ==> (#[trigger] values@[k])@ == value_json(properties@[k].value),
            decreases properties@.len() - i,
        {
            names.push(properties.name(i).to_owned());
            let mut json = String::new();
            properties.value(i).push_json(&mut json);
            values.push(json);
            i += 1;
        }
        proof {
            assert(names.deep_view() =~= names_of(properties@));
            assert(values.deep_view() =~= jsons_of(properties@));
            assert forall|k: int| 0 <= k < values.len() implies unquotes_cleanly(
                #[trigger] values[k]@,
            ) by {
                lemma_value_json_unquotes(properties@[k].value);
            }
        }
        let message = fill_template(event.message_template(), &names, &values);
        ElasticLog::with_message(event, message)
    }

    /// An event with a message made elsewhere.
    pub fn with_message(event: &'a Event, message: String) -> (log: ElasticLog<'a>)
        ensures
            log@ == rendered_with(event@, message@),
    {
        ElasticLog {
            timestamp: event.timestamp(),
            level: event.level(),
            message,
            id: event_id(event.message_template()),
            properties: event.properties(),
        }
    }

    /// When the event happened.
    pub fn timestamp(&self) -> (timestamp: Timestamp)
        ensures
            timestamp == self@.timestamp,
    {
        self.timestamp
    }

    /// How severe the event is.
    pub fn level(&self) -> (level: LogLevel)
        ensures
            level == self@.level,
    {
        self.level
    }

    /// The message, with the holes of the template filled.
    pub fn message(&self) -> (message: &str)
        ensures
            message@ == self@.message,
    {
        self.message.as_str()
    }

    /// The identifier of the template of the message.
    pub fn id(&self) -> (id: u32)
        ensures
            id == self@.id,
    {
        self.id
    }

    /// The named values of the event.
    pub fn properties(&self) -> (properties: &Properties)
        ensures
            properties@ == self@.properties,
    {
        self.properties
    }

    /// Appends the JSON document of the event.
    pub fn push_json(&self, out: &mut String)
        ensures
            final(out)@ == old(out)@ + document_json(self@),
    {
        out.append("{\"@t\":\"");
        self.timestamp.push_iso8601(out);
        out.append("\",\"@m\":");
        push_json_string(out, self.message.as_str());
        out.append(",\"@i\":\"");
        push_hex8(out, self.id);
        out.append("\",\"@l\":\"");
        out.append(self.level.label());
        out.append("\"");
        if self.properties.len() > 0 {
            out.push(',');
            self.properties.push_members(out);
        }
        out.append("}");
    }

    /// The JSON document of the event.
    pub fn to_json(&self) -> (json: String)
        ensures
            json@ == document_json(self@),
    {
        let mut json = String::new();
        self.push_json(&mut json);
        json
    }
}

} // verus!
