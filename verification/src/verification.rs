//! Which certificate chains the client trusts: those that the standard
//! verifier accepts, and those that it refuses for one reason alone, an
//! issuer that it does not know.

use std::sync::Arc;
use vstd::prelude::*;

verus! {

/// `rustls::client::WebPkiServerVerifier`: the standard verifier of chains
/// and host names.
#[verifier::external_type_specification]
#[verifier::external_body]
pub struct ExWebPkiServerVerifier(rustls::client::WebPkiServerVerifier);

/// `rustls::client::danger::ServerCertVerified`: the mark of a chain that
/// was accepted.
#[verifier::external_type_specification]
#[verifier::external_body]
pub struct ExServerCertVerified(rustls::client::danger::ServerCertVerified);

/// `rustls::pki_types::CertificateDer`: one certificate, as bytes.
#[verifier::external_type_specification]
#[verifier::external_body]
pub struct ExCertificateDer<'a>(rustls::pki_types::CertificateDer<'a>);

/// `rustls::pki_types::UnixTime`: the time at which a chain is judged.
#[verifier::external_type_specification]
#[verifier::external_body]
pub struct ExUnixTime(rustls::pki_types::UnixTime);

/// What the standard verifier found.
#[derive(Clone, Copy, Debug, PartialEq, Eq, Structural)]
pub enum ChainVerdict {
    /// The chain leads to a trusted root and fits the host.
    Verified,
    /// The chain was refused because its issuer is not known.
    UnknownIssuer,
    /// The chain was refused for any other reason.
    Rejected,
}

/// The policy: a chain passes unless the standard verifier refused it for a
/// reason other than an unknown issuer.
pub open spec fn passes(verdict: ChainVerdict) -> bool {
    verdict != ChainVerdict::Rejected
}

/// Whether a chain with this verdict is trusted.
pub fn relaxes(verdict: ChainVerdict) -> (trusted: bool)
    ensures
        trusted == passes(verdict),
{
    match verdict {
        ChainVerdict::Verified => true,
        ChainVerdict::UnknownIssuer => true,
        ChainVerdict::Rejected => false,
    }
}

/// What a failure of `rustls` is to the policy: `UnknownIssuer` where it is
/// `rustls::Error::InvalidCertificate(CertificateError::UnknownIssuer)`,
/// and `Rejected` where it is any other failure.
pub uninterp spec fn failure_class(error: rustls::Error) -> ChainVerdict;

/// What `WebPkiServerVerifier::verify_server_cert` of `rustls` answers when
/// `verifier` is asked about a chain, a server name, a stapled OCSP
/// response and a time.
pub uninterp spec fn standard_answer(
    verifier: rustls::client::WebPkiServerVerifier,
    end_entity: rustls::pki_types::CertificateDer<'static>,
    intermediates: Seq<rustls::pki_types::CertificateDer<'static>>,
    server_name: rustls::pki_types::ServerName<'static>,
    ocsp: Seq<u8>,
    now: rustls::pki_types::UnixTime,
) -> Result<rustls::client::danger::ServerCertVerified, rustls::Error>;

/// Whether `verdict` is what the policy makes of the standard verifier's
/// `answer`: an accepted chain stays accepted, a chain refused for its
/// unknown issuer is accepted, and any other failure is passed on as it
/// is.
pub open spec fn relaxed(
    answer: Result<rustls::client::danger::ServerCertVerified, rustls::Error>,
    verdict: Result<rustls::client::danger::ServerCertVerified, rustls::Error>,
) -> bool {
    match answer {
        Ok(_) => verdict == answer,
        Err(error) => if passes(failure_class(error)) {
            verdict is Ok
        } else {
            verdict == answer
        },
    }
}

/// Under the policy a chain is accepted exactly when the standard verifier
/// accepted it or refused it for its unknown issuer alone, and a failure
/// that is handed back is the standard verifier's own.
pub proof fn lemma_only_unknown_issuer_is_relaxed(
    answer: Result<rustls::client::danger::ServerCertVerified, rustls::Error>,
    verdict: Result<rustls::client::danger::ServerCertVerified, rustls::Error>,
)
    requires
        relaxed(answer, verdict),
    ensures
        verdict is Ok <==> answer is Ok || (answer matches Err(error) && failure_class(error)
            != ChainVerdict::Rejected),
        verdict is Err ==> verdict == answer,
{
}

/// Tells the variants of `rustls::Error` apart: the failure
/// `InvalidCertificate(UnknownIssuer)` is `UnknownIssuer` and every other
/// is `Rejected`, which is the class that `failure_class` names. No failure
/// is `Verified`.
#[verifier::external_body]
fn failure_verdict(error: &rustls::Error) -> (verdict: ChainVerdict)
    ensures
        verdict == failure_class(*error),
        verdict != ChainVerdict::Verified,
{
    match error {
        rustls::Error::InvalidCertificate(rustls::CertificateError::UnknownIssuer) => {
            ChainVerdict::UnknownIssuer
        },
        _ => ChainVerdict::Rejected,
    }
}

/// `ServerCertVerified::assertion` makes the mark of an accepted chain.
pub assume_specification[ rustls::client::danger::ServerCertVerified::assertion ]() -> (mark:
    rustls::client::danger::ServerCertVerified)
;

/// A verifier of server certificates that trusts what the standard verifier
/// trusts and, besides, chains whose issuer is unknown.
#[derive(Debug)]
pub struct AllowUnknownIssuerVerification {
    inner: Arc<rustls::client::WebPkiServerVerifier>,
}

impl AllowUnknownIssuerVerification {
    /// Builds the standard verifier over the roots of `webpki_roots` with
    /// `WebPkiServerVerifier::builder(..).build()`. `build` fails only on
    /// an empty set of roots or on revocation lists, of which none is
    /// given. `builder` takes the crypto provider of the process and
    /// panics where none is installed and the features of `rustls` do not
    /// name exactly one; this crate builds `rustls` with one.
    #[verifier::external_body]
    pub fn new() -> Arc<AllowUnknownIssuerVerification> {
        let roots = rustls::RootCertStore { roots: webpki_roots::TLS_SERVER_ROOTS.to_vec() };
        let inner = rustls::client::WebPkiServerVerifier::builder(Arc::new(roots)).build().unwrap();
        Arc::new(AllowUnknownIssuerVerification { inner })
    }

    /// The standard verifier that this one holds and asks.
    pub closed spec fn standard(&self) -> Arc<rustls::client::WebPkiServerVerifier> {
        self.inner
    }

    /// The standard verifier, to which all but the judgement of the chain
    /// is left.
    pub fn inner(&self) -> (verifier: &Arc<rustls::client::WebPkiServerVerifier>)
        ensures
            *verifier == self.standard(),
    {
        &self.inner
    }

    /// Asks the standard verifier with its `verify_server_cert`, handing it
    /// the five arguments as they came. The answer depends on the verifier
    /// and on them alone, so it is the one that `standard_answer` names.
    #[verifier::external_body]
    fn delegate(
        &self,
        end_entity: &rustls::pki_types::CertificateDer<'_>,
        intermediates: &[rustls::pki_types::CertificateDer<'_>],
        server_name: &rustls::pki_types::ServerName<'_>,
        ocsp: &[u8],
        now: rustls::pki_types::UnixTime,
    ) -> (answer: Result<rustls::client::danger::ServerCertVerified, rustls::Error>)
        ensures
            answer == standard_answer(
                *self.standard(),
                *end_entity,
                intermediates@,
                *server_name,
                ocsp@,
                now,
            ),
    {
        rustls::client::danger::ServerCertVerifier::verify_server_cert(
            self.inner.as_ref(),
            end_entity,
            intermediates,
            server_name,
            ocsp,
            now,
        )
    }

    /// Settles a failure of the standard verifier that was told apart as
    /// `verdict`: under a verdict that passes the chain is accepted, under
    /// any other the failure is passed on as it is.
    pub fn settle(error: rustls::Error, verdict: ChainVerdict) -> (answer: Result<
        rustls::client::danger::ServerCertVerified,
        rustls::Error,
    >)
        ensures
            passes(verdict) ==> answer is Ok,
            !passes(verdict) ==> answer == Err::<
                rustls::client::danger::ServerCertVerified,
                rustls::Error,
            >(error),
    {
        if relaxes(verdict) {
            Ok(rustls::client::danger::ServerCertVerified::assertion())
        } else {
            Err(error)
        }
    }

    /// Applies the policy to the answer of the standard verifier: an
    /// accepted chain stays accepted, a chain refused for its unknown issuer
    /// is accepted, and any other failure is passed on as it is.
    pub fn relax(
        answer: Result<rustls::client::danger::ServerCertVerified, rustls::Error>,
    ) -> (verdict: Result<rustls::client::danger::ServerCertVerified, rustls::Error>)
        ensures
            relaxed(answer, verdict),
    {
        match answer {
            Ok(mark) => Ok(mark),
            Err(error) => {
                let verdict = failure_verdict(&error);
                AllowUnknownIssuerVerification::settle(error, verdict)
            },
        }
    }

    /// Judges the chain that a server presented for `server_name` at the
    /// time `now`: the standard verifier is asked about it, and its answer
    /// stands but for the failure of an unknown issuer, which is answered
    /// with acceptance.
    pub fn verify_server_cert(
        &self,
        end_entity: &rustls::pki_types::CertificateDer<'_>,
        intermediates: &[rustls::pki_types::CertificateDer<'_>],
        server_name: &rustls::pki_types::ServerName<'_>,
        ocsp: &[u8],
        now: rustls::pki_types::UnixTime,
    ) -> (verdict: Result<rustls::client::danger::ServerCertVerified, rustls::Error>)
        ensures
            relaxed(
                standard_answer(
                    *self.standard(),
                    *end_entity,
                    intermediates@,
                    *server_name,
                    ocsp@,
                    now,
                ),
                verdict,
            ),
    {
        AllowUnknownIssuerVerification::relax(
            self.delegate(end_entity, intermediates, server_name, ocsp, now),
        )
    }
}

} // verus!
