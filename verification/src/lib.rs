//! A facade over the qrqrpar encoding engine: it maps a small set of closed
//! configuration choices onto a single encoding call, searches micro-symbol
//! capacity classes when the caller does not pin one, and normalizes the
//! engine's failures into one reportable message.

pub mod caps;
pub mod engine;
pub mod engine_types;
pub mod facade;

pub use caps::EcLevel;
pub use caps::EncodeError;
pub use caps::QrShape;
pub use caps::QrStyle;
pub use caps::QrType;
pub use caps::RmqrStrategy;
pub use caps::StyleModel;
pub use facade::get_min_micro;
pub use facade::make_qr;
pub use facade::make_qr_png;
