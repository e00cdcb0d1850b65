//! The registration record: what the plugin tells the kubelet about itself.
//!
//! A registration is one call and is never retried here. Whether to try
//! again is the coordinator's decision.

use vstd::prelude::*;
use crate::service::{DevicePluginOptions, declared_options};

verus! {

/// The version of the device-plugin protocol that the plugin speaks.
pub const DEVICE_PLUGIN_VERSION: &'static str = "v1beta1";

/// The file name of the kubelet's registration socket in the plugin
/// directory.
pub const KUBELET_SOCKET_NAME: &'static str = "kubelet.sock";

/// The request of a registration call.
#[derive(Debug, PartialEq, Eq)]
pub struct RegisterRequest {
    /// The protocol version.
    pub version: String,
    /// The file name of the plugin's socket, relative to the plugin
    /// directory.
    pub endpoint: String,
    /// The resource name that the plugin advertises.
    pub resource_name: String,
    /// The plugin's capabilities.
    pub options: Option<DevicePluginOptions>,
}

/// What a `RegisterRequest` holds, as plain values.
pub struct RegisterRequestView {
    pub version: Seq<char>,
    pub endpoint: Seq<char>,
    pub resource_name: Seq<char>,
    pub options: Option<DevicePluginOptions>,
}

impl View for RegisterRequest {
    type V = RegisterRequestView;

    open spec fn view(&self) -> RegisterRequestView {
        RegisterRequestView {
            version: self.version@,
            endpoint: self.endpoint@,
            resource_name: self.resource_name@,
            options: self.options,
        }
    }
}

/// The record that announces the socket `socket_name` for the resource
/// `resource_name`: the protocol version, the two names, and the same
/// capabilities that `GetDevicePluginOptions` answers with.
pub open spec fn registration_record(
    socket_name: Seq<char>,
    resource_name: Seq<char>,
) -> RegisterRequestView {
    RegisterRequestView {
        version: DEVICE_PLUGIN_VERSION@,
        endpoint: socket_name,
        resource_name,
        options: Some(declared_options()),
    }
}

/// Builds the request of one registration call.
pub fn registration_request(socket_name: &str, resource_name: &str) -> (request: RegisterRequest)
    ensures
        request@ == registration_record(socket_name@, resource_name@),
{
    RegisterRequest {
        version: String::from_str(DEVICE_PLUGIN_VERSION),
        endpoint: String::from_str(socket_name),
        resource_name: String::from_str(resource_name),
        options: Some(
            DevicePluginOptions {
                pre_start_required: false,
                get_preferred_allocation_available: false,
            },
        ),
    }
}

} // verus!
