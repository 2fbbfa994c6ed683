//! The local REST API: bearer-token authorization and the answer of each endpoint,
//! decided from what the daemon's transports report.

use vstd::prelude::*;
use crate::text::{chars_of, concat, concat3, copy_range, starts_with, string_of};
use crate::json::{encode_string_list, json_string_list};
use crate::text::{decimal, decimal_string};

verus! {

broadcast use vstd::string::group_string_axioms;

/// The HTTP statuses the API answers with.
#[derive(PartialEq, Eq, Clone, Copy, Debug)]
pub enum ApiStatus {
    Success,
    Unauthorized,
    InternalServerError,
    ServiceUnavailable,
}

/// Numeric HTTP code of a status.
pub open spec fn spec_status_code(s: ApiStatus) -> u16 {
    match s {
        ApiStatus::Success => 200,
        ApiStatus::Unauthorized => 401,
        ApiStatus::InternalServerError => 500,
        ApiStatus::ServiceUnavailable => 503,
    }
}

impl ApiStatus {
    /// The numeric HTTP code.
    pub fn code(&self) -> (r: u16)
        ensures
            r == spec_status_code(*self),
    {
        match self {
            ApiStatus::Success => 200,
            ApiStatus::Unauthorized => 401,
            ApiStatus::InternalServerError => 500,
            ApiStatus::ServiceUnavailable => 503,
        }
    }
}

/// A status with a plain-text (or JSON) body.
pub struct ApiResponse {
    pub status: ApiStatus,
    pub body: String,
}

/// Body of `POST /connect`: the NodeID to dial.
pub struct ConnectRequest {
    pub node_id: String,
}

/// Body of `POST /chat/send`: the peer and the message.
pub struct ChatSendRequest {
    pub node_id: String,
    pub message: String,
}

/// The authentication layer of the API: it holds the key every request must present.
#[derive(Clone)]
pub struct IamLayer {
    api_key: String,
}

/// The `Authorization` header value that a request with `key` carries.
pub open spec fn bearer(key: Seq<char>) -> Seq<char> {
    "Bearer "@ + key
}

/// Lets a request through when its `Authorization` header is `Bearer <api_key>`
/// exactly, and refuses it with 401 otherwise.
pub fn authorize(api_key: &str, authorization: Option<&str>) -> (r: Result<(), ApiStatus>)
    ensures
        r is Ok <==> (authorization matches Some(h) && h@ == bearer(api_key@)),
        r matches Err(s) ==> s == ApiStatus::Unauthorized,
{
    proof {
        reveal_strlit("Bearer ");
    }
    match authorization {
        None => Err(ApiStatus::Unauthorized),
        Some(h) => {
            if !starts_with(h, "Bearer ") {
                return Err(ApiStatus::Unauthorized);
            }
            let hv = chars_of(h);
            let rest = string_of(copy_range(&hv, 7, hv.len()).as_slice());
            let key = api_key.to_owned();
            if rest == key {
                assert(h@ =~= bearer(api_key@));
                Ok(())
            } else {
                proof {
                    if h@ == bearer(api_key@) {
                        assert(h@.subrange(7, h@.len() as int) =~= api_key@);
                    }
                }
                Err(ApiStatus::Unauthorized)
            }
        },
    }
}

impl IamLayer {
    /// The key this layer checks for.
    pub closed spec fn key(&self) -> Seq<char> {
        self.api_key@
    }

    /// A layer that checks requests against `api_key`.
    pub fn new(api_key: String) -> (r: IamLayer)
        ensures
            r.key() == api_key@,
    {
        IamLayer { api_key }
    }

    /// Lets a request through exactly when it carries `Bearer <key>`; refuses it with 401 otherwise.
    pub fn check(&self, authorization: Option<&str>) -> (r: Result<(), ApiStatus>)
        ensures
            r is Ok <==> (authorization matches Some(h) && h@ == bearer(self.key())),
            r matches Err(s) ==> s == ApiStatus::Unauthorized,
    {
        authorize(self.api_key.as_str(), authorization)
    }
}

/// `127.0.0.1:port`, where the REST API listens: it serves the local machine only.
pub fn listen_addr(port: u16) -> (r: String)
    ensures
        r@ == "127.0.0.1:"@ + decimal(port as nat),
{
    let p = decimal_string(port as u64);
    concat("127.0.0.1:", p.as_str())
}

/// Answer of `GET /status`.
pub open spec fn spec_status_response(node_id: Option<Seq<char>>) -> (ApiStatus, Seq<char>) {
    match node_id {
        Some(id) => (ApiStatus::Success, "NodeID: "@ + id),
        None => (ApiStatus::Success, "Running in Reticulum-only mode, iroh disabled"@),
    }
}

/// `GET /status`: the local NodeID when Iroh runs (`node_id` is then `Some`),
/// else a note that the daemon runs Reticulum-only.
pub fn status_response(node_id: Option<&str>) -> (r: ApiResponse)
    ensures
        (r.status, r.body@) == spec_status_response(
            match node_id {
                Some(id) => Some(id@),
                None => None,
            },
        ),
{
    match node_id {
        Some(id) => ApiResponse { status: ApiStatus::Success, body: concat("NodeID: ", id) },
        None => ApiResponse {
            status: ApiStatus::Success,
            body: "Running in Reticulum-only mode, iroh disabled".to_owned(),
        },
    }
}

/// Answer carrying a JSON body, or 500 with `Failed to serialize <what>: <error>`.
pub open spec fn spec_json_response(encoded: Result<Seq<char>, Seq<char>>, what: Seq<char>) -> (
    ApiStatus,
    Seq<char>,
) {
    match encoded {
        Ok(json) => (ApiStatus::Success, json),
        Err(e) => (ApiStatus::InternalServerError, "Failed to serialize "@ + what + ": "@ + e),
    }
}

fn json_response(encoded: Result<String, String>, what: &str) -> (r: ApiResponse)
    ensures
        (r.status, r.body@) == spec_json_response(
            match encoded {
                Ok(j) => Ok(j@),
                Err(e) => Err(e@),
            },
            what@,
        ),
{
    match encoded {
        Ok(json) => ApiResponse { status: ApiStatus::Success, body: json },
        Err(e) => {
            let head = concat3("Failed to serialize ", what, ": ");
            ApiResponse { status: ApiStatus::InternalServerError, body: concat(head.as_str(), e.as_str()) }
        },
    }
}

/// `GET /peers`: the connected peers' NodeIDs as a JSON array, or 503 when Iroh
/// is disabled (`peer_ids` is `None`).
pub fn peers_response(peer_ids: Option<&Vec<String>>) -> (r: ApiResponse)
    ensures
        match peer_ids {
            Some(ids) => r.status == ApiStatus::Success && r.body@ == json_string_list(ids.deep_view()),
            None => r.status == ApiStatus::ServiceUnavailable && r.body@
                == "iroh disabled, peer list unavailable"@,
        },
{
    match peer_ids {
        Some(ids) => peers_json_response(encode_string_list(ids)),
        None => ApiResponse {
            status: ApiStatus::ServiceUnavailable,
            body: "iroh disabled, peer list unavailable".to_owned(),
        },
    }
}

/// `GET /peers` once the peer list has been encoded: the JSON on success, else 500
/// with `Failed to serialize peers: <error>`.
pub fn peers_json_response(encoded: Result<String, String>) -> (r: ApiResponse)
    ensures
        (r.status, r.body@) == spec_json_response(
            match encoded {
                Ok(j) => Ok(j@),
                Err(e) => Err(e@),
            },
            "peers"@,
        ),
{
    json_response(encoded, "peers")
}

/// `GET /chat/messages` once the drained messages have been encoded (`None` when
/// Iroh is disabled): the JSON array, 500 with `Failed to serialize messages:
/// <error>`, or 503 `iroh disabled`.
pub fn chat_messages_response(encoded: Option<Result<String, String>>) -> (r: ApiResponse)
    ensures
        match encoded {
            Some(enc) => (r.status, r.body@) == spec_json_response(
                match enc {
                    Ok(j) => Ok(j@),
                    Err(e) => Err(e@),
                },
                "messages"@,
            ),
            None => r.status == ApiStatus::ServiceUnavailable && r.body@ == "iroh disabled"@,
        },
{
    match encoded {
        Some(enc) => json_response(enc, "messages"),
        None => ApiResponse { status: ApiStatus::ServiceUnavailable, body: "iroh disabled".to_owned() },
    }
}

/// `POST /connect` once the dial has finished (`None` when Iroh is disabled):
/// `Connected to: <remote NodeID>`, 500 `Connection failed: <error>`, or 503.
pub fn connect_response(outcome: Option<Result<String, String>>) -> (r: ApiResponse)
    ensures
        match outcome {
            Some(Ok(remote)) => r.status == ApiStatus::Success && r.body@ == "Connected to: "@ + remote@,
            Some(Err(e)) => r.status == ApiStatus::InternalServerError && r.body@
                == "Connection failed: "@ + e@,
            None => r.status == ApiStatus::ServiceUnavailable && r.body@ == "iroh disabled"@,
        },
{
    match outcome {
        Some(Ok(remote)) => ApiResponse {
            status: ApiStatus::Success,
            body: concat("Connected to: ", remote.as_str()),
        },
        Some(Err(e)) => ApiResponse {
            status: ApiStatus::InternalServerError,
            body: concat("Connection failed: ", e.as_str()),
        },
        None => ApiResponse { status: ApiStatus::ServiceUnavailable, body: "iroh disabled".to_owned() },
    }
}

/// `POST /chat/send` once the send has finished (`None` when Iroh is disabled):
/// `message sent`, 500 `Failed to send message: <error>`, or 503.
pub fn chat_send_response(outcome: Option<Result<(), String>>) -> (r: ApiResponse)
    ensures
        match outcome {
            Some(Ok(())) => r.status == ApiStatus::Success && r.body@ == "message sent"@,
            Some(Err(e)) => r.status == ApiStatus::InternalServerError && r.body@
                == "Failed to send message: "@ + e@,
            None => r.status == ApiStatus::ServiceUnavailable && r.body@ == "iroh disabled"@,
        },
{
    match outcome {
        Some(Ok(())) => ApiResponse { status: ApiStatus::Success, body: "message sent".to_owned() },
        Some(Err(e)) => ApiResponse {
            status: ApiStatus::InternalServerError,
            body: concat("Failed to send message: ", e.as_str()),
        },
        None => ApiResponse { status: ApiStatus::ServiceUnavailable, body: "iroh disabled".to_owned() },
    }
}

} // verus!
