//! Invoice documents: from a billing record to a laid-out document, to
//! self-contained markup, and through the steps that turn the markup into a PDF.

pub mod conversion;
pub mod decimal;
pub mod invoice;
pub mod layout;
pub mod markup;
pub mod paths;
