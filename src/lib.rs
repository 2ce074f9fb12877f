//! Diet and nutrition tracking: the rules behind the web backend.
//!
//! Quantities (nutrient amounts, serving sizes, consumed amounts, body
//! weight) are fixed-point integers in thousandths of their unit, so that
//! all scaling is exact integer arithmetic.

pub mod dates;
pub mod lookup;
pub mod models;
pub mod nutrition;
pub mod listing;
pub mod defaults;
pub mod duplication;
pub mod response;
pub mod access;
pub mod search;
pub mod validation;
pub mod session;
pub mod forms;
