//! Keys, certificates and acceptors of OpenSSL, as far as the listener
//! needs them.

use openssl::error::ErrorStack;
use openssl::pkey::{PKey, Private};
use openssl::ssl::{SslAcceptor, SslAcceptorBuilder, SslMethod};
use openssl::x509::X509;
use vstd::prelude::*;

verus! {

/// An X.509 certificate of OpenSSL.
#[verifier::external_type_specification]
#[verifier::external_body]
pub struct ExX509(X509);

/// A key of OpenSSL; `T` tells whether it holds the private part.
#[verifier::external_type_specification]
#[verifier::external_body]
#[verifier::reject_recursive_types(T)]
pub struct ExPKey<T>(PKey<T>);

/// The mark of a key that holds its private part.
#[verifier::external_type_specification]
#[verifier::external_body]
pub struct ExPrivate(Private);

/// The errors that OpenSSL left behind when a call failed.
#[verifier::external_type_specification]
#[verifier::external_body]
pub struct ExErrorStack(ErrorStack);

/// What accepts encrypted connections for a server.
#[verifier::external_type_specification]
#[verifier::external_body]
pub struct ExSslAcceptor(SslAcceptor);

/// An acceptor that is still being set up.
#[verifier::external_type_specification]
#[verifier::external_body]
pub struct ExSslAcceptorBuilder(SslAcceptorBuilder);

/// The leaf certificate that an acceptor which is being set up holds:
/// the one that `SslContextBuilder::set_certificate` last gave it.
pub uninterp spec fn builder_certificate(builder: SslAcceptorBuilder) -> Option<X509>;

/// The leaf certificate that an acceptor presents: the one that its
/// builder held when `SslAcceptorBuilder::build` made the acceptor.
pub uninterp spec fn acceptor_certificate(acceptor: SslAcceptor) -> Option<X509>;

/// The longest input that OpenSSL reads from memory: a length must fit in
/// a C `int`.
pub const MAX_PEM_LEN: usize = 0x7fff_ffff;

/// Reads a certificate from PEM text, by `X509::from_pem`. Nothing is
/// claimed of the outcome. The text must be short enough for OpenSSL, which
/// stops the program on a longer one.
#[verifier::external_body]
pub(crate) fn certificate_from_pem(pem: &[u8]) -> (parsed: Result<X509, ErrorStack>)
    requires
        pem@.len() <= MAX_PEM_LEN,
{
    X509::from_pem(pem)
}

/// Reads a private key from PEM text, by `PKey::private_key_from_pem`.
/// Nothing is claimed of the outcome: for a key that is stored encrypted,
/// OpenSSL asks for the passphrase where the program runs. The text must be
/// short enough for OpenSSL, which stops the program on a longer one.
#[verifier::external_body]
pub(crate) fn private_key_from_pem(pem: &[u8]) -> (parsed: Result<PKey<Private>, ErrorStack>)
    requires
        pem@.len() <= MAX_PEM_LEN,
{
    PKey::private_key_from_pem(pem)
}

/// Another handle to the same certificate, by `X509::clone`, which counts
/// one more reference to the certificate and copies nothing.
#[verifier::external_body]
pub(crate) fn share_certificate(cert: &X509) -> (shared: X509)
    ensures
        shared == *cert,
{
    cert.clone()
}

/// Another handle to the same key, by `PKey::clone`, which counts one more
/// reference to the key and copies nothing.
#[verifier::external_body]
pub(crate) fn share_key(key: &PKey<Private>) -> (shared: PKey<Private>)
    ensures
        shared == *key,
{
    key.clone()
}

/// Begins an acceptor with the settings for clients that are not out of
/// date, by `SslAcceptor::mozilla_intermediate` for `SslMethod::tls`.
/// Nothing is claimed of the outcome.
#[verifier::external_body]
pub(crate) fn begin_acceptor() -> (begun: Result<SslAcceptorBuilder, ErrorStack>) {
    SslAcceptor::mozilla_intermediate(SslMethod::tls())
}

/// Gives the acceptor its private key, by
/// `SslContextBuilder::set_private_key`. Nothing is claimed of the outcome,
/// nor of what the acceptor keeps: OpenSSL drops a key again when a
/// certificate that does not fit it is set afterwards.
#[verifier::external_body]
pub(crate) fn use_private_key(builder: &mut SslAcceptorBuilder, key: &PKey<Private>) -> (set:
    Result<(), ErrorStack>) {
    builder.set_private_key(key)
}

/// Gives the acceptor its certificate, by
/// `SslContextBuilder::set_certificate`, which sets the leaf certificate.
/// The contract claims that after a success the builder holds `cert` as
/// its certificate; nothing is claimed of when the call succeeds.
#[verifier::external_body]
pub(crate) fn use_certificate(builder: &mut SslAcceptorBuilder, cert: &X509) -> (set: Result<
    (),
    ErrorStack,
>)
    ensures
        set is Ok ==> builder_certificate(*final(builder)) == Some(*cert),
{
    builder.set_certificate(cert)
}

/// Ends the setting up, by `SslAcceptorBuilder::build`, which hands the
/// builder's settings to the acceptor as they are. The contract claims that
/// the acceptor presents the certificate that the builder held.
#[verifier::external_body]
pub(crate) fn finish_acceptor(builder: SslAcceptorBuilder) -> (acceptor: SslAcceptor)
    ensures
        acceptor_certificate(acceptor) == builder_certificate(builder),
{
    builder.build()
}

} // verus!
