//! Identifier generation: UUIDs (versions 1 and 3 to 8), ULIDs and BSON ObjectIds,
//! with the parsing and validation of the parameters that drive them.

pub mod codec;
pub mod error;
pub mod generate;
pub mod objectid;
pub mod ulid_gen;
pub mod uuid_gen;
pub mod validation;

pub use codec::{generate_pseudo_mac, parse_data, parse_timestamp_ns, to_pseudo_mac};
pub use error::{Argument, ParseError};
pub use generate::{Generate, Generator};
pub use objectid::ObjectIdGenerator;
pub use ulid_gen::UlidGenerator;
pub use uuid_gen::{SupportedUUIDNamespace, SupportedUUIDVersion, UuidGenerator};
pub use validation::{validate_args, Commands, ValidationError};
