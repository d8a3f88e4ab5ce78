//! Hot reload of the shader description: when to look, and whether what
//! was found is new.
//!
//! The description is a text that the user may replace while the program
//! runs. It is looked at twice a second at most, and loaded again when its
//! checksum differs from that of the description that is loaded.

use vstd::prelude::*;
use sha2::{Digest, Sha256};

verus! {

/// The shortest time between two looks at the description.
pub const SHADER_HOT_RELOAD_INTERVAL_MS: u64 = 500;

/// The SHA-256 digest of the UTF-8 form of `text`, as lower-case hex
/// digits.
pub uninterp spec fn sha256_hex(text: Seq<char>) -> Seq<char>;

/// `Sha256::digest` of the `sha2` crate over the bytes of `text`, written
/// in hex. The claim: the result is what `sha256_hex` names.
#[verifier::external_body]
fn checksum_of(text: &str) -> (checksum: String)
    ensures
        checksum@ == sha256_hex(text@),
{
    format!("{:x}", Sha256::digest(text.as_bytes()))
}

/// What is known of the description that is loaded.
#[derive(Debug)]
pub struct ShaderReload {
    /// The checksum of the description that is loaded, if one is.
    pub shader_checksum: Option<String>,
    /// The wall-clock reading of the last look.
    pub last_check_ms: u64,
}

impl ShaderReload {
    /// True if a description with checksum text `found` is to be loaded:
    /// none is loaded, or the one that is has another checksum.
    pub open spec fn is_new(&self, found: Seq<char>) -> bool {
        match self.shader_checksum {
            Some(loaded) => loaded@ != found,
            None => true,
        }
    }

    /// Nothing loaded; the last look was at `now_ms`.
    pub fn new(now_ms: u64) -> (r: ShaderReload)
        ensures
            r.shader_checksum is None,
            r.last_check_ms == now_ms,
    {
        ShaderReload { shader_checksum: None, last_check_ms: now_ms }
    }

    /// Whether it is time for a look. If it is, the look counts as made at
    /// `now_ms`.
    pub fn check_due(&mut self, now_ms: u64) -> (due: bool)
        ensures
            due == (crate::clock::elapsed_ms(old(self).last_check_ms, now_ms)
                >= SHADER_HOT_RELOAD_INTERVAL_MS),
            final(self).last_check_ms == (if due {
                now_ms
            } else {
                old(self).last_check_ms
            }),
            final(self).shader_checksum == old(self).shader_checksum,
    {
        if now_ms.saturating_sub(self.last_check_ms) < SHADER_HOT_RELOAD_INTERVAL_MS {
            false
        } else {
            self.last_check_ms = now_ms;
            true
        }
    }

    /// Looks at the description `json` that was found. Returns its
    /// checksum if the description is to be loaded, and nothing if it is
    /// the one that is loaded already.
    pub fn changed_checksum(&self, json: &str) -> (checksum: Option<String>)
        ensures
            match checksum {
                Some(c) => c@ == sha256_hex(json@) && self.is_new(sha256_hex(json@)),
                None => !self.is_new(sha256_hex(json@)),
            },
    {
        let found = checksum_of(json);
        match &self.shader_checksum {
            Some(loaded) => {
                if *loaded == found {
                    None
                } else {
                    Some(found)
                }
            },
            None => Some(found),
        }
    }

    /// Takes note that the description with checksum `checksum` has been
    /// loaded.
    pub fn loaded(&mut self, checksum: String)
        ensures
            final(self).shader_checksum == Some(checksum),
            final(self).last_check_ms == old(self).last_check_ms,
    {
        self.shader_checksum = Some(checksum);
    }
}

/// A description that has just been loaded is not loaded again as long as
/// it is found unchanged.
pub proof fn lemma_loaded_description_is_not_new(reload: ShaderReload, checksum: String)
    requires
        reload.shader_checksum == Some(checksum),
    ensures
        !reload.is_new(checksum@),
{
}

} // verus!
