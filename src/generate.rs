use vstd::prelude::*;

use crate::objectid::ObjectIdGenerator;
use crate::ulid_gen::UlidGenerator;
use crate::uuid_gen::{has_required_params, is_from_params, UuidGenerator};
use crate::validation::{validation_result, Commands};

verus! {

/// A source of identifiers, each returned as text.
pub trait Generate {
    /// Whether `s` is a text that `generate` may return: where the identifier holds
    /// fresh randomness or the time, every such text; otherwise exactly one.
    spec fn produces(&self, s: Seq<char>) -> bool;

    /// Generates a new identifier and returns it as text.
    fn generate(&self) -> (r: String)
        ensures
            self.produces(r@),
    ;
}


/// A generator of one of the three kinds of identifier.
pub enum Generator {
    Uuid(UuidGenerator),
    Ulid(UlidGenerator),
    ObjectId(ObjectIdGenerator),
}

/// The view of an optional string.
pub open spec fn opt_view(o: Option<String>) -> Option<Seq<char>> {
    match o {
        Some(s) => Some(s@),
        None => None,
    }
}

impl Generator {
    /// Whether this generator is the one that a valid request asks for.
    pub open spec fn is_built_from(self, c: Commands) -> bool {
        match (self, c) {
            (
                Generator::Uuid(g),
                Commands::Uuid { version, timestamp, namespace, name, node_id, data },
            ) => is_from_params(g, version, timestamp, namespace, opt_view(name), node_id, data),
            (Generator::Ulid(g), Commands::Ulid { timestamp }) => g.timestamp == timestamp,
            (Generator::ObjectId(g), Commands::ObjectId { timestamp }) => g.timestamp == timestamp,
            _ => false,
        }
    }

    /// The generator that a request asks for. The request must have passed validation.
    pub fn from_command(command: &Commands) -> (r: Generator)
        requires
            validation_result(*command) is Ok,
        ensures
            r.is_built_from(*command),
    {
        match command {
            Commands::Uuid { version, timestamp, namespace, name, node_id, data } => {
                let ns = match namespace {
                    Some(x) => Some(x),
                    None => None,
                };
                let nm = match name {
                    Some(x) => Some(x),
                    None => None,
                };
                let node = match node_id {
                    Some(x) => Some(x),
                    None => None,
                };
                let d = match data {
                    Some(x) => Some(x),
                    None => None,
                };
                assert(has_required_params(*version, ns is Some, nm is Some, d is Some));
                Generator::Uuid(UuidGenerator::from_params(*version, *timestamp, ns, nm, node, d))
            },
            Commands::Ulid { timestamp } => Generator::Ulid(UlidGenerator::new(*timestamp)),
            Commands::ObjectId { timestamp } => Generator::ObjectId(ObjectIdGenerator::new(*timestamp)),
        }
    }

    /// Generates `count` identifiers, one after the other; none where `count` is 0.
    pub fn generate_many(&self, count: usize) -> (r: Vec<String>)
        ensures
            r.len() == count,
            forall|i: int| 0 <= i < count ==> self.produces(#[trigger] r[i]@),
    {
        let mut out: Vec<String> = Vec::new();
        let mut i: usize = 0;
        while i < count
            invariant
                i <= count,
                out.len() == i,
                forall|j: int| 0 <= j < i ==> self.produces(#[trigger] out[j]@),
            decreases count - i,
        {
            out.push(self.generate());
            i = i + 1;
        }
        out
    }
}

impl Generate for Generator {
    open spec fn produces(&self, s: Seq<char>) -> bool {
        match self {
            Generator::Uuid(g) => g.produces(s),
            Generator::Ulid(g) => g.produces(s),
            Generator::ObjectId(g) => g.produces(s),
        }
    }

    fn generate(&self) -> (r: String) {
        match self {
            Generator::Uuid(g) => g.generate(),
            Generator::Ulid(g) => g.generate(),
            Generator::ObjectId(g) => g.generate(),
        }
    }
}

} // verus!
