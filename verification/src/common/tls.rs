//! The process-wide TLS crypto provider every HTTP adapter relies on.
use vstd::prelude::*;

verus! {

/// `rustls::crypto::CryptoProvider::get_default().is_some()`: whether this
/// process has a default crypto provider. Nothing is stated of the result:
/// it depends on what the process installed earlier.
#[verifier::external_body]
fn crypto_provider_installed() -> (r: bool) {
    rustls::crypto::CryptoProvider::get_default().is_some()
}

/// `rustls::crypto::ring::default_provider().install_default()`; the result is
/// dropped, since it fails only when another thread installed one first.
/// Nothing is stated: the call changes process-wide state the library does
/// not model.
#[verifier::external_body]
fn install_ring_provider() {
    let _ = rustls::crypto::ring::default_provider().install_default();
}

/// Make sure rustls has a process-wide crypto provider before any TLS happens:
/// a bot that also talks to Matrix compiles in two providers, and rustls then
/// refuses to guess. Whichever adapter gets there first wins; later calls do
/// nothing.
pub fn install_crypto_provider() {
    if !crypto_provider_installed() {
        install_ring_provider();
    }
}

} // verus!
