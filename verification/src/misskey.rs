use crate::error::{Error, Kind};
use crate::generic::api_client::{spec_effective_user_agent, APIClient};
use crate::megalodon::{Megalodon, SNS};
use crate::request::{Method, ReqBody, RequestDescriptor};
use vstd::prelude::*;

verus! {

/// The backend that speaks the Misskey dialect, whose endpoints are
/// all driven by POST.
pub struct Misskey {
    pub client: APIClient,
}

impl Misskey {
    /// Builds the backend around its own generic client.
    pub fn new(base_url: String, access_token: Option<String>, user_agent: Option<String>) -> (r:
        Result<Misskey, Error>)
        ensures
            r matches Ok(m) ==> m.client.base_url == base_url && m.client.access_token
                == access_token && m.client.user_agent@ == spec_effective_user_agent(
                user_agent,
            ),
            r matches Err(e) ==> e.kind == Kind::ClientBuildError,
    {
        match APIClient::new(base_url, access_token, user_agent) {
            Ok(client) => Ok(Misskey { client }),
            Err(e) => Err(e),
        }
    }
}

impl Megalodon for Misskey {
    open spec fn spec_client(&self) -> APIClient {
        self.client
    }

    open spec fn spec_kind(&self) -> SNS {
        SNS::Misskey
    }

    open spec fn spec_credentials_path(&self) -> Seq<char> {
        "/api/i"@
    }

    open spec fn spec_credentials_method(&self) -> Method {
        Method::Post
    }

    open spec fn spec_instance_path(&self) -> Seq<char> {
        "/api/meta"@
    }

    open spec fn spec_instance_method(&self) -> Method {
        Method::Post
    }

    fn client(&self) -> (c: &APIClient) {
        &self.client
    }

    fn kind(&self) -> (k: SNS) {
        SNS::Misskey
    }

    fn verify_account_credentials(&self) -> (r: Result<RequestDescriptor, Error>) {
        self.client.request("/api/i", None, Method::Post, ReqBody::Empty)
    }

    fn get_instance(&self) -> (r: Result<RequestDescriptor, Error>) {
        self.client.request("/api/meta", None, Method::Post, ReqBody::Empty)
    }
}

} // verus!
