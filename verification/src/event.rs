//! One structured log event, as the logging pipeline hands it over.

use vstd::prelude::*;
use vstd::string::*;
use vstd::utf8::*;
use crate::level::LogLevel;
use crate::properties::{Properties, PropertyView};
use crate::timestamp::Timestamp;

verus! {

/// The longest message template that an event takes, in bytes of UTF-8.
/// The holes of a template are found by recursion, one call for each
/// stretch of it, so a template has to be short.
pub const MAX_TEMPLATE_LEN: usize = 1024;

/// An event as a mathematical value.
pub struct EventView {
    pub timestamp: Timestamp,
    pub level: LogLevel,
    pub message_template: Seq<char>,
    pub properties: Seq<PropertyView>,
}

/// A log event: when it happened, how severe it is, the template of its
/// message with holes of the form `{name}`, and the named values that go
/// with it.
#[derive(Debug)]
pub struct Event {
    timestamp: Timestamp,
    level: LogLevel,
    message_template: String,
    properties: Properties,
}

impl View for Event {
    type V = EventView;

    closed spec fn view(&self) -> EventView {
        EventView {
            timestamp: self.timestamp,
            level: self.level,
            message_template: self.message_template@,
            properties: self.properties@,
        }
    }
}

/// The template is short enough for an event.
pub open spec fn template_fits(message_template: Seq<char>) -> bool {
    encode_utf8(message_template).len() <= MAX_TEMPLATE_LEN
}

impl Event {
    /// The template is short enough.
    #[verifier::type_invariant]
    pub open spec fn is_bounded(&self) -> bool {
        template_fits(self@.message_template)
    }

    /// An event of these parts, unless the template is too long.
    pub fn new(
        timestamp: Timestamp,
        level: LogLevel,
        message_template: &str,
        properties: Properties,
    ) -> (made: Option<Event>)
        ensures
            made is Some <==> template_fits(message_template@),
            made matches Some(event) ==> event@ == (EventView {
                timestamp,
                level,
                message_template: message_template@,
                properties: properties@,
            }),
    {
        if message_template.as_bytes().len() > MAX_TEMPLATE_LEN {
            return None;
        }
        Some(Event { timestamp, level, message_template: message_template.to_owned(), properties })
    }

    /// When the event happened.
    pub fn timestamp(&self) -> (timestamp: Timestamp)
        ensures
            timestamp == self@.timestamp,
            timestamp.is_valid(),
    {
        proof {
            use_type_invariant(&self.timestamp);
        }
        self.timestamp
    }

    /// How severe the event is.
    pub fn level(&self) -> (level: LogLevel)
        ensures
            level == self@.level,
    {
        self.level
    }

    /// The template of the message.
    pub fn message_template(&self) -> (text: &str)
        ensures
            text@ == self@.message_template,
            template_fits(text@),
    {
        proof {
            use_type_invariant(self);
        }
        self.message_template.as_str()
    }

    /// The named values of the event.
    pub fn properties(&self) -> (properties: &Properties)
        ensures
            properties@ == self@.properties,
            properties.is_ordered(),
    {
        proof {
            use_type_invariant(&self.properties);
        }
        &self.properties
    }
}

} // verus!
