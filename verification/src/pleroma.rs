use crate::error::{Error, Kind};
use crate::generic::api_client::{spec_effective_user_agent, APIClient};
use crate::megalodon::{Megalodon, SNS};
use crate::request::{Method, RequestDescriptor};
use vstd::prelude::*;

verus! {

/// The backend that speaks the Pleroma dialect; its core endpoints
/// share the Mastodon shape.
pub struct Pleroma {
    pub client: APIClient,
}

impl Pleroma {
    /// Builds the backend around its own generic client.
    pub fn new(base_url: String, access_token: Option<String>, user_agent: Option<String>) -> (r:
        Result<Pleroma, Error>)
        ensures
            r matches Ok(m) ==> m.client.base_url == base_url && m.client.access_token
                == access_token && m.client.user_agent@ == spec_effective_user_agent(
                user_agent,
            ),
            r matches Err(e) ==> e.kind == Kind::ClientBuildError,
    {
        match APIClient::new(base_url, access_token, user_agent) {
            Ok(client) => Ok(Pleroma { client }),
            Err(e) => Err(e),
        }
    }
}

impl Megalodon for Pleroma {
    open spec fn spec_client(&self) -> APIClient {
        self.client
    }

    open spec fn spec_kind(&self) -> SNS {
        SNS::Pleroma
    }

    open spec fn spec_credentials_path(&self) -> Seq<char> {
        "/api/v1/accounts/verify_credentials"@
    }

    open spec fn spec_credentials_method(&self) -> Method {
        Method::Get
    }

    open spec fn spec_instance_path(&self) -> Seq<char> {
        "/api/v1/instance"@
    }

    open spec fn spec_instance_method(&self) -> Method {
        Method::Get
    }

    fn client(&self) -> (c: &APIClient) {
        &self.client
    }

    fn kind(&self) -> (k: SNS) {
        SNS::Pleroma
    }

    fn verify_account_credentials(&self) -> (r: Result<RequestDescriptor, Error>) {
        self.client.get("/api/v1/accounts/verify_credentials", None)
    }

    fn get_instance(&self) -> (r: Result<RequestDescriptor, Error>) {
        self.client.get("/api/v1/instance", None)
    }
}

} // verus!
