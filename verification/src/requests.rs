//! What the bridge asks of VTube Studio.
use crate::number::Real;
use vstd::prelude::*;

verus! {

/// The envelope of every request.
#[derive(Debug)]
pub struct VTSApiRequest<T> {
    pub api_name: &'static str,
    pub api_version: &'static str,
    pub request_id: &'static str,
    pub message_type: &'static str,
    pub data: Option<T>,
}

/// Asks the user to grant a token to the plugin.
#[derive(Debug)]
pub struct AuthToken {
    pub plugin_name: &'static str,
    pub plugin_developer: &'static str,
    pub plugin_icon: Option<&'static str>,
}

/// Authenticates the session with a token.
#[derive(Debug)]
pub struct Auth {
    pub plugin_name: &'static str,
    pub plugin_developer: &'static str,
    pub authentication_token: String,
}

/// Creates a custom parameter.
#[derive(Debug)]
pub struct ParameterCreation {
    pub parameter_name: String,
    pub explanation: &'static str,
    pub min: Real,
    pub max: Real,
    pub default_value: Real,
}

/// One parameter value.
#[derive(Debug)]
pub struct TrackingParam {
    pub id: String,
    pub weight: Option<Real>,
    pub value: Real,
}

/// The parameter values of one frame.
#[derive(Debug)]
pub struct InjectParams {
    pub face_found: bool,
    pub mode: &'static str,
    pub parameter_values: Vec<TrackingParam>,
}

#[derive(Clone, Copy, Debug)]
pub struct HotkeyTrigger<'a> {
    pub hotkey_id: &'a str,
}

/// The payload of a request that waits for its answer.
#[derive(Debug)]
pub enum RequestData {
    AuthToken(AuthToken),
    Auth(Auth),
    ParameterCreation(ParameterCreation),
}

/// A request that waits in the queue until VTube Studio has answered it.
pub type Pending = VTSApiRequest<RequestData>;

/// A request of the given type in the envelope that all of them share.
pub open spec fn enveloped<T>(message_type: &'static str, data: Option<T>) -> VTSApiRequest<T> {
    VTSApiRequest {
        api_name: "VTubeStudioPublicAPI",
        api_version: "1.0",
        request_id: "iiii",
        message_type,
        data,
    }
}

pub fn envelope<T>(message_type: &'static str, data: Option<T>) -> (request: VTSApiRequest<T>)
    ensures
        request == enveloped(message_type, data),
{
    VTSApiRequest {
        api_name: "VTubeStudioPublicAPI",
        api_version: "1.0",
        request_id: "iiii",
        message_type,
        data,
    }
}

/// The request for the state of the API.
pub open spec fn status_request() -> Pending {
    enveloped("APIStateRequest", None)
}

/// The request that authenticates with `token`, or asks for a token where there is none.
pub open spec fn auth_request(token: Option<String>) -> Pending {
    match token {
        Some(token) => enveloped(
            "AuthenticationRequest",
            Some(
                RequestData::Auth(
                    Auth {
                        plugin_name: "RustyBridgeUi",
                        plugin_developer: "ovROG",
                        authentication_token: token,
                    },
                ),
            ),
        ),
        None => enveloped(
            "AuthenticationTokenRequest",
            Some(
                RequestData::AuthToken(
                    AuthToken {
                        plugin_name: "RustyBridgeUi",
                        plugin_developer: "ovROG",
                        plugin_icon: None,
                    },
                ),
            ),
        ),
    }
}

/// Does the request authenticate, or ask for the token to do so with?
pub open spec fn authenticates(request: Pending) -> bool {
    request.data matches Some(data) && (data is AuthToken || data is Auth)
}

/// Does the request create a parameter?
pub open spec fn creates(request: Pending) -> bool {
    request.data matches Some(data) && data is ParameterCreation
}

pub fn is_authentication(request: &Pending) -> (yes: bool)
    ensures
        yes == authenticates(*request),
{
    match &request.data {
        Some(RequestData::AuthToken(_)) | Some(RequestData::Auth(_)) => true,
        _ => false,
    }
}

pub fn is_creation(request: &Pending) -> (yes: bool)
    ensures
        yes == creates(*request),
{
    match &request.data {
        Some(RequestData::ParameterCreation(_)) => true,
        _ => false,
    }
}

impl Clone for VTSApiRequest<RequestData> {
    fn clone(&self) -> (copy: Self)
        ensures
            copy == *self,
    {
        let data: Option<RequestData> = match &self.data {
            None => None,
            Some(RequestData::AuthToken(ask)) => Some(
                RequestData::AuthToken(
                    AuthToken {
                        plugin_name: ask.plugin_name,
                        plugin_developer: ask.plugin_developer,
                        plugin_icon: ask.plugin_icon,
                    },
                ),
            ),
            Some(RequestData::Auth(auth)) => Some(
                RequestData::Auth(
                    Auth {
                        plugin_name: auth.plugin_name,
                        plugin_developer: auth.plugin_developer,
                        authentication_token: auth.authentication_token.clone(),
                    },
                ),
            ),
            Some(RequestData::ParameterCreation(creation)) => Some(
                RequestData::ParameterCreation(
                    ParameterCreation {
                        parameter_name: creation.parameter_name.clone(),
                        explanation: creation.explanation,
                        min: creation.min,
                        max: creation.max,
                        default_value: creation.default_value,
                    },
                ),
            ),
        };
        VTSApiRequest {
            api_name: self.api_name,
            api_version: self.api_version,
            request_id: self.request_id,
            message_type: self.message_type,
            data,
        }
    }
}

/// No request is of two sorts, whatever texts it carries: both authentication requests
/// authenticate, and neither they nor the request for the state of the API create a parameter.
pub proof fn law_requests_are_told_apart(token: Option<String>, request: Pending)
    ensures
        authenticates(auth_request(token)),
        !authenticates(status_request()),
        !creates(status_request()),
        !(authenticates(request) && creates(request)),
{
}

/// Every request carries its own type and payload in the one envelope that VTube Studio expects.
pub proof fn law_envelope_carries_type_and_data<T>(message_type: &'static str, data: Option<T>)
    ensures
        enveloped(message_type, data).message_type == message_type,
        enveloped(message_type, data).data == data,
        enveloped(message_type, data).api_name == "VTubeStudioPublicAPI",
        enveloped(message_type, data).api_version == "1.0",
        enveloped(message_type, data).request_id == "iiii",
{
}

/// With a token the session is authenticated with that very token, without one a token is asked
/// for; the plugin names itself and its developer alike in both, so that the token is granted to
/// the one that presents it.
pub proof fn law_authentication_carries_the_token(token: String)
    ensures
        auth_request(Some(token)).message_type == "AuthenticationRequest",
        auth_request(None).message_type == "AuthenticationTokenRequest",
        status_request().message_type == "APIStateRequest",
        status_request().data is None,
        auth_request(Some(token)).data matches Some(RequestData::Auth(auth)) && (auth_request(
            None,
        ).data matches Some(RequestData::AuthToken(ask)) && auth.authentication_token == token
            && auth.plugin_name == ask.plugin_name && auth.plugin_developer == ask.plugin_developer
            && ask.plugin_icon is None),
{
}

/// What a request is for goes by its payload alone.
pub proof fn law_payload_decides(
    request: Pending,
    ask: AuthToken,
    auth: Auth,
    creation: ParameterCreation,
)
    ensures
        request.data == Some(RequestData::AuthToken(ask)) ==> authenticates(request) && !creates(
            request,
        ),
        request.data == Some(RequestData::Auth(auth)) ==> authenticates(request) && !creates(
            request,
        ),
        request.data == Some(RequestData::ParameterCreation(creation)) ==> creates(request)
            && !authenticates(request),
        request.data is None ==> !creates(request) && !authenticates(request),
{
}

} // verus!
