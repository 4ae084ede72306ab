//! What the host stores of an instance with a project: the shader source,
//! under a version number. The bytes are those of `bincode`.

use vstd::prelude::*;
use crate::types::Local;

verus! {

/// The version under which an instance is stored.
pub const SERDE_ID: u16 = 1;

/// A source as a plain value.
pub open spec fn source_text(src: Option<String>) -> Option<Seq<char>> {
    match src {
        Some(text) => Some(text@),
        None => None,
    }
}

/// The bytes that `bincode` writes for a source: a single 0 for none;
/// otherwise a 1, the length of the text in bytes as eight bytes, lowest
/// first, and the text in UTF-8.
pub open spec fn encoded_source(src: Option<Seq<char>>) -> Seq<u8> {
    match src {
        None => seq![0u8],
        Some(text) => {
            let bytes = vstd::utf8::encode_utf8(text);
            seq![1u8] + vstd::bytes::spec_u64_to_le_bytes(bytes.len() as u64) + bytes
        },
    }
}

/// The source that `bincode` reads from bytes, or `None` where it reads none.
pub uninterp spec fn decoded_source(bytes: Seq<u8>) -> Option<Option<Seq<char>>>;

/// `bincode::serialize` on an optional string. It writes into a vector
/// without a size limit, which does not fail, in its fixed-width layout: the
/// tag of the option as one byte, the length of the string as a 64-bit number
/// with the lowest byte first, then the bytes of the string.
#[verifier::external_body]
fn encode_source(src: &Option<String>) -> (r: Option<Vec<u8>>)
    ensures
        r is Some,
        r matches Some(bytes) ==> bytes@ == encoded_source(source_text(*src)),
{
    bincode::serialize(src).ok()
}

/// `bincode::deserialize` to an optional string: whether it succeeds, and
/// with what, is a function of the bytes.
#[verifier::external_body]
fn decode_source(bytes: &[u8]) -> (r: Option<Option<String>>)
    ensures
        match decoded_source(bytes@) {
            Some(src) => r matches Some(s) && source_text(s) == src,
            None => r is None,
        },
{
    bincode::deserialize(bytes).ok()
}

impl Local {
    /// The stored form of the instance: the version written here, and the
    /// source as the bytes that `bincode` writes for it.
    pub fn flatten(&self) -> (r: Result<(u16, Vec<u8>), ()>)
        ensures
            r matches Ok((version, bytes)) && version == SERDE_ID && bytes@ == encoded_source(
                source_text(self.src),
            ),
    {
        Local::stored_form(encode_source(&self.src))
    }

    /// The stored form for what was written of a source: the bytes under the
    /// version written here, and none where nothing was written.
    pub fn stored_form(encoded: Option<Vec<u8>>) -> (r: Result<(u16, Vec<u8>), ()>)
        ensures
            r == match encoded {
                Some(bytes) => Ok::<(u16, Vec<u8>), ()>((SERDE_ID, bytes)),
                None => Err::<(u16, Vec<u8>), ()>(()),
            },
    {
        match encoded {
            Some(bytes) => Ok((SERDE_ID, bytes)),
            None => Err(()),
        }
    }

    /// The instance for what was read from a stored form: one without a
    /// shader set up, holding the source that was read. Another version than
    /// the one written here, or bytes that hold no source, give none.
    pub fn restore(version: u16, decoded: Option<Option<String>>) -> (r: Result<Local, ()>)
        ensures
            match r {
                Ok(local) => version == SERDE_ID && decoded == Some(local.src)
                    && local.local_init is None,
                Err(_) => version != SERDE_ID || decoded is None,
            },
    {
        if version != SERDE_ID {
            return Err(());
        }
        match decoded {
            Some(src) => {
                let mut out = Local::new();
                out.src = src;
                Ok(out)
            },
            None => Err(()),
        }
    }

    /// The instance that a stored form holds.
    pub fn unflatten(version: u16, serialized: &[u8]) -> (r: Result<Local, ()>)
        ensures
            match r {
                Ok(local) => version == SERDE_ID && decoded_source(serialized@) == Some(
                    source_text(local.src),
                ) && local.local_init is None,
                Err(_) => version != SERDE_ID || decoded_source(serialized@) is None,
            },
    {
        if version != SERDE_ID {
            return Err(());
        }
        Local::restore(version, decode_source(serialized))
    }
}

} // verus!
