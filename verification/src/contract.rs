//! The request contract: what a caller hands in to describe an
//! optimization, and how it turns into the domain.

pub mod certification;
pub mod choice;
pub mod error;
pub mod optimization;
pub mod perimeter;
