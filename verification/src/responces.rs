//! What VTube Studio answers.
use vstd::prelude::*;

verus! {

/// The announcement that VTube Studio broadcasts on the local network.
#[derive(Debug)]
pub struct Discovery {
    pub active: bool,
    pub port: u16,
    pub instance_id: String,
    pub window_title: String,
}

#[derive(Debug)]
pub struct APIStateResponse {
    pub active: bool,
    pub v_tube_studio_version: String,
    pub current_session_authenticated: bool,
}

#[derive(Debug)]
pub struct AuthenticationToken {
    pub authentication_token: String,
}

#[derive(Debug)]
pub struct AuthenticationResponse {
    pub authenticated: bool,
    pub reason: String,
}

#[derive(Debug)]
pub struct APIError {
    pub error_id: u16,
    pub message: String,
}

} // verus!
