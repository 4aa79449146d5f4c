use vstd::prelude::*;
use crate::json::JsonValue;
use crate::registry::Lane;

verus! {

/// A durable job to enqueue: its lane, kind, JSON arguments, optional singleton key and
/// optional attempt limit.
#[derive(Debug)]
pub struct JobSpec {
    pub lane: Lane,
    pub kind: String,
    pub arguments: JsonValue,
    pub logical_key: Option<String>,
    pub max_attempts: Option<i32>,
}

/// The view of an optional owned string.
pub open spec fn opt_string(value: Option<String>) -> Option<Seq<char>> {
    match value {
        Some(s) => Some(s@),
        None => None,
    }
}

impl JobSpec {
    /// A job without logical key or attempt limit.
    pub fn new(lane: Lane, kind: &str, arguments: JsonValue) -> (job: JobSpec)
        ensures
            job.lane == lane,
            job.kind@ == kind@,
            job.arguments == arguments,
            job.logical_key is None,
            job.max_attempts is None,
    {
        JobSpec { lane, kind: kind.to_owned(), arguments, logical_key: None, max_attempts: None }
    }

    /// The same job with a singleton key.
    pub fn logical_key(self, key: String) -> (job: JobSpec)
        ensures
            job.lane == self.lane,
            job.kind@ == self.kind@,
            job.arguments == self.arguments,
            job.logical_key == Some(key),
            job.max_attempts == self.max_attempts,
    {
        JobSpec { logical_key: Some(key), ..self }
    }

    /// The same job with an attempt limit.
    pub fn max_attempts(self, attempts: i32) -> (job: JobSpec)
        ensures
            job.lane == self.lane,
            job.kind@ == self.kind@,
            job.arguments == self.arguments,
            job.logical_key == self.logical_key,
            job.max_attempts == Some(attempts),
    {
        JobSpec { max_attempts: Some(attempts), ..self }
    }

    /// The singleton key, if any.
    pub fn logical_key_value(&self) -> (key: Option<&str>)
        ensures
            match key {
                Some(k) => opt_string(self.logical_key) == Some(k@),
                None => self.logical_key is None,
            },
    {
        match &self.logical_key {
            Some(k) => Some(k.as_str()),
            None => None,
        }
    }

    /// The job's arguments.
    pub fn arguments(&self) -> (arguments: &JsonValue)
        ensures
            *arguments == self.arguments,
    {
        &self.arguments
    }
}

} // verus!
