use vstd::prelude::*;
use crate::signing::{KeyPair, MIN_PKCS8_LEN, pkcs8_accepted, ed25519_public_key, ed25519_signature};

verus! {

/// Why a private key could not be loaded.
#[derive(Debug, Clone, Copy, PartialEq, Eq, Structural)]
pub enum LoadError {
    /// The file could not be opened or read.
    NotFound,
    /// The file's bytes are not a PKCS#8 v2 Ed25519 private key.
    CorruptEncoding,
}

/// Why a private key could not be saved.
#[derive(Debug, Clone, Copy, PartialEq, Eq, Structural)]
pub enum SaveError {
    /// The location already holds a file, which is left untouched.
    AlreadyExists,
    /// The file could not be created, or the key could not be written to it.
    CreateFailed,
}

/// What an exclusive create of the key file reported.
#[derive(Debug, Clone, Copy, PartialEq, Eq, Structural)]
pub enum CreateOutcome {
    /// A new, empty file was created.
    Created,
    /// A file was already present at the location.
    AlreadyPresent,
    /// The file could not be created for another reason.
    Failed,
}

/// What a save does after the exclusive create.
#[derive(Debug, Clone, Copy, PartialEq, Eq)]
pub enum SaveStep {
    /// Write the whole key to the new file in one pass, then sync it.
    WriteKey,
    /// Stop with this error; nothing is written.
    Stop(SaveError),
}

/// The step that follows an exclusive create. A file already present is never
/// written to.
pub fn save_after_create(created: CreateOutcome) -> (r: SaveStep)
    ensures
        created == CreateOutcome::Created <==> r == SaveStep::WriteKey,
        created == CreateOutcome::AlreadyPresent <==> r == SaveStep::Stop(SaveError::AlreadyExists),
        created == CreateOutcome::Failed <==> r == SaveStep::Stop(SaveError::CreateFailed),
{
    match created {
        CreateOutcome::Created => SaveStep::WriteKey,
        CreateOutcome::AlreadyPresent => SaveStep::Stop(SaveError::AlreadyExists),
        CreateOutcome::Failed => SaveStep::Stop(SaveError::CreateFailed),
    }
}

/// The result of a save once the key was written and synced (`written`), or
/// that write failed.
pub fn save_after_write(written: bool) -> (r: Result<(), SaveError>)
    ensures
        written <==> r is Ok,
        !written ==> r == Err::<(), SaveError>(SaveError::CreateFailed),
{
    if written {
        Ok(())
    } else {
        Err(SaveError::CreateFailed)
    }
}

/// Reconstructs a key pair from the full contents of a key file, or `None`
/// where the file could not be opened or read.
pub fn key_from_file_contents(contents: Option<Vec<u8>>) -> (r: Result<KeyPair, LoadError>)
    ensures
        contents is None ==> r == Err::<KeyPair, LoadError>(LoadError::NotFound),
        contents is Some ==> (r is Ok <==> pkcs8_accepted(contents->Some_0@)),
        contents is Some && r is Ok ==> r->Ok_0.encoding() == contents->Some_0@,
        contents is Some && r is Err ==> r == Err::<KeyPair, LoadError>(LoadError::CorruptEncoding),
        contents is Some && contents->Some_0@.len() < MIN_PKCS8_LEN ==> r == Err::<KeyPair, LoadError>(LoadError::CorruptEncoding),
{
    match contents {
        None => Err(LoadError::NotFound),
        Some(bytes) => match KeyPair::from_pkcs8(bytes.as_slice()) {
            Some(key_pair) => Ok(key_pair),
            None => Err(LoadError::CorruptEncoding),
        },
    }
}

/// A key pair loaded back from the document it was saved as has the same
/// public key as the original, and signs every message exactly as the
/// original does.
pub proof fn lemma_round_trip(original: KeyPair, document: Seq<u8>, loaded: KeyPair, msg: Seq<u8>)
    requires
        original.encoding() == document,
        loaded.encoding() == document,
    ensures
        ed25519_public_key(loaded.encoding()) == ed25519_public_key(original.encoding()),
        ed25519_signature(loaded.encoding(), msg) == ed25519_signature(original.encoding(), msg),
{
}

} // verus!
