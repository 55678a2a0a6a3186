use crate::error::{Error, Kind};
use crate::generic::api_client::{spec_effective_user_agent, spec_prepared, APIClient};
use crate::headers::Headers;
use crate::request::{Method, ReqBody, RequestDescriptor};
use crate::strutil::{spec_contains, str_contains};
use vstd::prelude::*;

verus! {

/// The three API dialects this family of backends speaks.
#[derive(Clone, Copy, Debug, PartialEq, Eq, Structural)]
pub enum SNS {
    Mastodon,
    Pleroma,
    Misskey,
}

/// The capability set every backend satisfies.  A backend owns one
/// generic client and, for each operation, lays out the one request
/// that performs it against its own dialect; the caller that owns the
/// transport performs the round trip and classifies the answer through
/// the generic client's machinery.
pub trait Megalodon {
    /// The client this backend drives, as the contracts see it.
    spec fn spec_client(&self) -> APIClient;

    /// The dialect this backend speaks.
    spec fn spec_kind(&self) -> SNS;

    /// Where this dialect checks the credentials the client carries.
    spec fn spec_credentials_path(&self) -> Seq<char>;

    /// The verb this dialect checks credentials with.
    spec fn spec_credentials_method(&self) -> Method;

    /// Where this dialect publishes the server's own metadata record.
    spec fn spec_instance_path(&self) -> Seq<char>;

    /// The verb this dialect fetches that record with.
    spec fn spec_instance_method(&self) -> Method;

    /// The client this backend drives, for the caller doing the I/O.
    fn client(&self) -> (c: &APIClient)
        ensures
            *c == self.spec_client(),
    ;

    /// The dialect this backend speaks, as a value.
    fn kind(&self) -> (k: SNS)
        ensures
            k == self.spec_kind(),
    ;

    /// Lays out the request that verifies the configured credentials.
    fn verify_account_credentials(&self) -> (r: Result<RequestDescriptor, Error>)
        ensures
            spec_prepared(
                self.spec_client(),
                self.spec_credentials_path(),
                None,
                self.spec_credentials_method(),
                ReqBody::Empty,
                r,
            ),
    ;

    /// Lays out the request that fetches the server metadata record.
    fn get_instance(&self) -> (r: Result<RequestDescriptor, Error>)
        ensures
            spec_prepared(
                self.spec_client(),
                self.spec_instance_path(),
                None,
                self.spec_instance_method(),
                ReqBody::Empty,
                r,
            ),
    ;
}

/// What the first, instance-metadata probe came back with.
pub enum InstanceProbe {
    /// The GET itself failed; the server may speak the third dialect.
    Unreachable,
    /// The GET answered but its body did not decode; `cause` says why.
    Undecodable { cause: String },
    /// The body decoded; this is its version field.
    Version { version: String },
}

/// What the second, dialect-C probe came back with.
pub enum MetaProbe {
    /// The POST got an answer, whatever its body held.
    Answered,
    /// The POST failed too; `cause` is the transport's account of it.
    Unreachable { cause: String },
}

/// The detector's position after the first probe.
pub enum FirstProbeStep {
    /// The dialect is settled.
    Decided { sns: SNS },
    /// The answer did not decode; detection fails with this error.
    Failed { error: Error },
    /// The server did not answer the GET: try the dialect-C probe.
    TryMeta,
}

/// Reads the outcome of the instance-metadata probe: a version string
/// carrying the Pleroma marker settles on Pleroma, any other version on
/// Mastodon; an undecodable body fails detection; an unreachable
/// endpoint defers to the second probe.
pub fn detect_from_instance_probe(probe: InstanceProbe) -> (step: FirstProbeStep)
    ensures
        probe matches InstanceProbe::Version { version } ==> (
        step matches FirstProbeStep::Decided { sns } && sns == (if spec_contains(
            version@,
            "Pleroma"@,
        ) {
            SNS::Pleroma
        } else {
            SNS::Mastodon
        })),
        probe matches InstanceProbe::Undecodable { cause } ==> (
        step matches FirstProbeStep::Failed { error } && error.kind == Kind::ParseError
            && error.message == cause && error.url is None && error.status is None
            && error.headers is None),
        probe is Unreachable ==> step is TryMeta,
{
    match probe {
        InstanceProbe::Version { version } => {
            if str_contains(version.as_str(), "Pleroma") {
                FirstProbeStep::Decided { sns: SNS::Pleroma }
            } else {
                FirstProbeStep::Decided { sns: SNS::Mastodon }
            }
        },
        InstanceProbe::Undecodable { cause } => FirstProbeStep::Failed {
            error: Error::new_own(cause, Kind::ParseError, None, None, None),
        },
        InstanceProbe::Unreachable => FirstProbeStep::TryMeta,
    }
}

/// Reads the outcome of the dialect-C probe: any answer at all settles
/// on Misskey; a second failure ends detection with that transport
/// error, exactly as it was reported.
pub fn detect_from_meta_probe(probe: MetaProbe) -> (r: Result<SNS, Error>)
    ensures
        probe is Answered ==> r == Ok::<SNS, Error>(SNS::Misskey),
        probe matches MetaProbe::Unreachable { cause } ==> (r matches Err(e) && e.kind
            == Kind::RequestError && e.message == cause && e.url is None && e.status is None
            && e.headers is None),
{
    match probe {
        MetaProbe::Answered => Ok(SNS::Misskey),
        MetaProbe::Unreachable { cause } => Err(
            Error::new_own(cause, Kind::RequestError, None, None, None),
        ),
    }
}

/// Builds the backend that speaks the given dialect and hands it back
/// behind the shared interface: each dialect maps to its own concrete
/// implementation.
pub fn generator(
    sns: SNS,
    base_url: String,
    access_token: Option<String>,
    user_agent: Option<String>,
) -> (r: Result<Box<dyn Megalodon>, Error>)
    ensures
        r matches Ok(b) ==> (*b).spec_kind() == sns && (*b).spec_client().base_url@ == base_url@
            && (*b).spec_client().access_token.deep_view() == access_token.deep_view()
            && (*b).spec_client().user_agent@ == spec_effective_user_agent(user_agent),
        r matches Err(e) ==> e.kind == Kind::ClientBuildError,
{
    match sns {
        SNS::Mastodon => {
            match crate::mastodon::Mastodon::new(base_url, access_token, user_agent) {
                Ok(m) => Ok(Box::new(m)),
                Err(e) => Err(e),
            }
        },
        SNS::Pleroma => {
            match crate::pleroma::Pleroma::new(base_url, access_token, user_agent) {
                Ok(m) => Ok(Box::new(m)),
                Err(e) => Err(e),
            }
        },
        SNS::Misskey => {
            match crate::misskey::Misskey::new(base_url, access_token, user_agent) {
                Ok(m) => Ok(Box::new(m)),
                Err(e) => Err(e),
            }
        },
    }
}

} // verus!
