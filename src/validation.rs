use vstd::prelude::*;

use vstd::string::StringExecFns;

use crate::error::{decimal, push_decimal, Argument};
use crate::uuid_gen::{SupportedUUIDNamespace, SupportedUUIDVersion};

verus! {

/// A request for identifiers, with its parameters already turned into values.
pub enum Commands {
    Uuid {
        version: SupportedUUIDVersion,
        /// Seconds and nanoseconds since the Unix epoch (versions 1, 6 and 7).
        timestamp: Option<(u64, u32)>,
        /// Versions 3 and 5.
        namespace: Option<SupportedUUIDNamespace>,
        /// Versions 3 and 5.
        name: Option<String>,
        /// A MAC address (versions 1 and 6).
        node_id: Option<[u8; 6]>,
        /// The payload of version 8.
        data: Option<[u8; 16]>,
    },
    Ulid {
        /// Milliseconds since the Unix epoch.
        timestamp: Option<u64>,
    },
    ObjectId {
        /// Seconds since the Unix epoch.
        timestamp: Option<u32>,
    },
}

/// Why a request cannot be served.
#[derive(Clone, Copy, Debug, PartialEq, Eq, Structural)]
pub enum ValidationError {
    /// The UUID version needs an argument that was not given.
    MissingRequiredArgument { argument: Argument, version: SupportedUUIDVersion },
    /// A timestamp was given for a UUID version that has none.
    UuidTimestampVersionMismatch { version: SupportedUUIDVersion },
}

impl ValidationError {
    /// The diagnostic for this error: it names the argument at fault and the version.
    pub open spec fn spec_message(self) -> Seq<char> {
        match self {
            ValidationError::MissingRequiredArgument { argument, version } => "the argument '--"@
                + argument.spec_name() + "' is required for UUID version "@ + decimal(
                version.spec_number() as nat,
            ),
            ValidationError::UuidTimestampVersionMismatch { version } =>
                "the argument '--timestamp' cannot be used with '--version "@ + decimal(
                version.spec_number() as nat,
            ) + "'"@,
        }
    }

    /// The diagnostic for this error: it names the argument at fault and the version.
    pub fn message(&self) -> (r: String)
        ensures
            r@ == self.spec_message(),
    {
        let mut s = String::new();
        match *self {
            ValidationError::MissingRequiredArgument { argument, version } => {
                s.append("the argument '--");
                argument.push_name(&mut s);
                s.append("' is required for UUID version ");
                push_decimal(&mut s, version.number() as usize);
            },
            ValidationError::UuidTimestampVersionMismatch { version } => {
                s.append("the argument '--timestamp' cannot be used with '--version ");
                push_decimal(&mut s, version.number() as usize);
                s.append("'");
            },
        }
        assert(s@ =~= self.spec_message());
        s
    }
}

/// The first argument that a request lacks: for versions 3 and 5 the namespace, then the
/// name; for version 8 the payload.
pub open spec fn missing_argument(c: Commands) -> Option<Argument> {
    match c {
        Commands::Uuid { version, namespace, name, data, .. } => {
            if version.spec_is_name_based() && namespace is None {
                Some(Argument::Namespace)
            } else if version.spec_is_name_based() && name is None {
                Some(Argument::Name)
            } else if version == SupportedUUIDVersion::V8 && data is None {
                Some(Argument::Data)
            } else {
                None
            }
        },
        _ => None,
    }
}

/// The verdict on a request: missing arguments first, then a timestamp given to a UUID
/// version other than 1, 6 and 7.
pub open spec fn validation_result(c: Commands) -> Result<(), ValidationError> {
    match c {
        Commands::Uuid { version, timestamp, .. } => {
            if missing_argument(c) is Some {
                Err(
                    ValidationError::MissingRequiredArgument {
                        argument: missing_argument(c)->Some_0,
                        version,
                    },
                )
            } else if timestamp is Some && !version.spec_takes_timestamp() {
                Err(ValidationError::UuidTimestampVersionMismatch { version })
            } else {
                Ok(())
            }
        },
        _ => Ok(()),
    }
}

fn validate_required_arguments(commands: &Commands) -> (r: Result<(), ValidationError>)
    ensures
        missing_argument(*commands) is Some ==> r == validation_result(*commands),
        missing_argument(*commands) is None ==> r == Ok::<(), ValidationError>(()),
{
    match commands {
        Commands::Uuid { version, namespace, name, data, .. } => {
            if version.is_name_based() && namespace.is_none() {
                Err(ValidationError::MissingRequiredArgument { argument: Argument::Namespace, version: *version })
            } else if version.is_name_based() && name.is_none() {
                Err(ValidationError::MissingRequiredArgument { argument: Argument::Name, version: *version })
            } else if *version == SupportedUUIDVersion::V8 && data.is_none() {
                Err(ValidationError::MissingRequiredArgument { argument: Argument::Data, version: *version })
            } else {
                Ok(())
            }
        },
        _ => Ok(()),
    }
}

fn validate_uuid_timestamp_compatibility(commands: &Commands) -> (r: Result<(), ValidationError>)
    ensures
        match *commands {
            Commands::Uuid { version, timestamp, .. } => if timestamp is Some
                && !version.spec_takes_timestamp() {
                r == Err::<(), ValidationError>(
                    ValidationError::UuidTimestampVersionMismatch { version },
                )
            } else {
                r == Ok::<(), ValidationError>(())
            },
            _ => r == Ok::<(), ValidationError>(()),
        },
{
    if let Commands::Uuid { version, timestamp, .. } = commands {
        if timestamp.is_some() && !version.takes_timestamp() {
            return Err(ValidationError::UuidTimestampVersionMismatch { version: *version });
        }
    }
    Ok(())
}

/// Checks a request before anything is generated: a UUID version must have the arguments
/// it needs, and only versions 1, 6 and 7 take a timestamp.
pub fn validate_args(commands: &Commands) -> (r: Result<(), ValidationError>)
    ensures
        r == validation_result(*commands),
{
    match validate_required_arguments(commands) {
        Ok(()) => {},
        Err(e) => {
            return Err(e);
        },
    }
    validate_uuid_timestamp_compatibility(commands)
}

} // verus!
