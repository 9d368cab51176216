//! Batches structured log events for the bulk index API of Elasticsearch.
//!
//! Every event is rendered to one JSON document and routed to an index
//! whose name is made of a prefix and the event's date.

use vstd::prelude::*;

pub use crate::batch::{build_batch, build_index_template};
pub use crate::collector::ElasticCollector;
pub use crate::event::Event;
pub use crate::index::IndexTemplate;
pub use crate::level::LogLevel;
pub use crate::properties::{Properties, Value};
pub use crate::render::ElasticLog;
pub use crate::timestamp::Timestamp;

pub mod batch;
pub mod collector;
pub mod event;
pub mod index;
pub mod level;
pub mod prelude;
pub mod properties;
pub mod render;
pub mod text;
pub mod timestamp;

verus! {

/// The value of `_type` used for indexed logs.
pub const TYPENAME: &'static str = "emitlog";

/// The default address for a local Elasticsearch node.
pub const LOCAL_SERVER_URL: &'static str = "http://localhost:9200/";

/// The default index template prefix for log indices.
pub const DEFAULT_TEMPLATE_PREFIX: &'static str = "emitlog-";

/// The default date format appended to the prefix for log indices.
pub const DEFAULT_TEMPLATE_FORMAT: &'static str = "%Y%m%d";

} // verus!
