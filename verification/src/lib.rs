//! A confidence-weighted type model for binary analysis: values tagged with a
//! certainty score, immutable shared type descriptors built through mutable
//! builders, and the ownership rules of engine-held resources.

pub mod confidence;
pub mod data;
pub mod display;
pub mod enumeration;
pub mod kinds;
pub mod qualified_name;
pub mod rc;
pub mod register_value;
pub mod registry;
pub mod structure;
pub mod types;
pub mod variable;
