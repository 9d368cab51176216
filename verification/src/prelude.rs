//! What most users of the collector need, in one import.

pub use crate::collector::ElasticCollector;
pub use crate::index::IndexTemplate;
pub use crate::{DEFAULT_TEMPLATE_FORMAT, DEFAULT_TEMPLATE_PREFIX, LOCAL_SERVER_URL};
