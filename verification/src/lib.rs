//! Structured application logging: typed events, correlation scopes, a JSON
//! record formatter and a router that offers every record to every sink.

pub mod context;
pub mod decimal;
pub mod emit;
pub mod error_logging;
pub mod event;
pub mod formatter;
pub mod json;
pub mod laws;
pub mod level;
pub mod router;
pub mod text;
pub mod value;
pub mod visitor;

pub use context::{new_correlation_span, with_correlation_id, CorrelationId, LogContext};
pub use emit::{log_business_event, log_performance_metric, log_security_event};
pub use event::{BusinessEventType, Category, Event, PerformanceMetric, SecurityEventType};
pub use formatter::{LogRecord, StructuredJsonFormatter};
pub use level::Level;
pub use router::{init_logging, Delivery, Destination, InitError, Sink, SinkFilter, SinkFormat, SinkRouter, Startup};
pub use value::{Field, FieldValue};
pub use visitor::JsonVisitor;
