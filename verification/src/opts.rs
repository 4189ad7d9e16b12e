//! Plain configuration values shared by the benchmark binaries: enums chosen
//! on the command line, the `KEY=VALUE` pairs handed to the broker clients,
//! and the errors that reject a configuration at startup.

use vstd::prelude::*;
use vstd::string::StrSliceExecFns;

verus! {

/// How samples are printed.
#[derive(Clone, Copy, Debug, PartialEq, Eq, Hash, Structural)]
pub enum OutputFormat {
    Human,
    Json,
}

/// How a process joins the mesh.
#[derive(Clone, Copy, Debug, PartialEq, Eq, Hash, Structural)]
pub enum Mode {
    Peer,
    Client,
}

/// Marker naming the async runtime the surrounding binaries drive their
/// transport clients with; the executor wiring itself lives with that glue,
/// outside the verified library.
#[derive(Clone, Copy, Debug)]
pub struct AsyncStdRuntime;

/// A configuration rejected at startup, before any measurement begins.
#[derive(Clone, Copy, Debug, PartialEq, Eq, Structural)]
pub enum ConfigError {
    /// The requested payload size cannot hold the probe envelope's header.
    PayloadSizeTooSmall,
    /// A `KEY=VALUE` option held no `=` separator.
    MalformedKeyVal,
}

/// One client configuration option, as a `KEY=VALUE` pair.
#[derive(Debug, Clone, PartialEq, Eq, Hash)]
pub struct KeyVal {
    pub key: String,
    pub val: String,
}

impl KeyVal {
    /// Pair a key with a value.
    pub fn new(key: String, val: String) -> (r: KeyVal)
        ensures
            r.key@ == key@,
            r.val@ == val@,
    {
        KeyVal { key, val }
    }

    /// Parse a `KEY=VALUE` string, splitting at the first `=`.  Text without
    /// a separator is rejected as a malformed option.
    pub fn from_str(text: &str) -> (r: Result<KeyVal, ConfigError>)
        ensures
            match r {
                Ok(kv) => exists|i: int|
                    {
                        &&& 0 <= i < text@.len()
                        &&& text@[i] == '='
                        &&& (forall|j: int| 0 <= j < i ==> text@[j] != '=')
                        &&& kv.key@ == text@.subrange(0, i)
                        &&& kv.val@ == text@.subrange(i + 1, text@.len() as int)
                    },
                Err(e) => e == ConfigError::MalformedKeyVal && forall|i: int|
                    0 <= i < text@.len() ==> text@[i] != '=',
            },
    {
        let len = text.unicode_len();
        let mut i: usize = 0;
        while i < len
            invariant
                len == text@.len(),
                i <= len,
                forall|j: int| 0 <= j < i ==> text@[j] != '=',
            decreases len - i,
        {
            if text.get_char(i) == '=' {
                let key = text.substring_char(0, i).to_owned();
                let val = text.substring_char(i + 1, len).to_owned();
                return Ok(KeyVal { key, val });
            }
            i = i + 1;
        }
        Err(ConfigError::MalformedKeyVal)
    }
}

} // verus!
