//! The RPC method handlers and the answer given to each request.
use vstd::prelude::*;
use std::marker::PhantomData;
use crate::text::{owned, same_text};

verus! {

/// A handler that takes typed parameters.
pub struct TypedHandler<P, R, F> {
    pub func: F,
    pub phantom: PhantomData<(P, R)>,
}

impl<P, R, F> TypedHandler<P, R, F> {
    /// The handler that calls `func`.
    pub fn new(func: F) -> (r: Self)
        ensures
            r.func == func,
    {
        TypedHandler { func, phantom: PhantomData }
    }
}

/// A handler that takes no parameters.
pub struct NoParamsHandler<R, F> {
    pub func: F,
    pub phantom: PhantomData<R>,
}

impl<R, F> NoParamsHandler<R, F> {
    /// The handler that calls `func`.
    pub fn new(func: F) -> (r: Self)
        ensures
            r.func == func,
    {
        NoParamsHandler { func, phantom: PhantomData }
    }
}

/// A handler that takes the raw parameters and answers later.
pub struct AsyncHandler<F> {
    pub func: F,
}

impl<F> AsyncHandler<F> {
    /// The handler that calls `func`.
    pub fn new(func: F) -> (r: Self)
        ensures
            r.func == func,
    {
        AsyncHandler { func }
    }
}

/// How a method takes its parameters.
#[derive(Debug, Clone, Copy, PartialEq, Eq, Structural)]
pub enum RpcKind {
    /// No parameters.
    NoParams,
    /// Parameters converted to the method's type.
    Typed,
    /// The raw parameters, answered later.
    Async,
}

/// The methods offered, each with how it takes its parameters.
pub open spec fn registered_kind(name: Seq<char>) -> Option<RpcKind> {
    if name == "ping"@ {
        Some(RpcKind::NoParams)
    } else if name == "getDeviceID"@ {
        Some(RpcKind::NoParams)
    } else if name == "getFailsafeMode"@ {
        Some(RpcKind::NoParams)
    } else if name == "reboot"@ {
        Some(RpcKind::Typed)
    } else if name == "setSerialSettings"@ {
        Some(RpcKind::Typed)
    } else if name == "getSerialSettings"@ {
        Some(RpcKind::NoParams)
    } else if name == "setDisplayRotation"@ {
        Some(RpcKind::Async)
    } else if name == "getDisplayRotation"@ {
        Some(RpcKind::Async)
    } else if name == "setBacklightSettings"@ {
        Some(RpcKind::Async)
    } else if name == "getBacklightSettings"@ {
        Some(RpcKind::Async)
    } else if name == "getStreamQualityFactor"@ {
        Some(RpcKind::NoParams)
    } else if name == "setStreamQualityFactor"@ {
        Some(RpcKind::Typed)
    } else if name == "getAutoUpdateState"@ {
        Some(RpcKind::Async)
    } else if name == "setAutoUpdateState"@ {
        Some(RpcKind::Async)
    } else if name == "getEDID"@ {
        Some(RpcKind::NoParams)
    } else if name == "setEDID"@ {
        Some(RpcKind::Typed)
    } else if name == "getUsbDevices"@ {
        Some(RpcKind::NoParams)
    } else if name == "setUsbDevices"@ {
        Some(RpcKind::Typed)
    } else if name == "setUsbDeviceState"@ {
        Some(RpcKind::Typed)
    } else if name == "getUsbEmulationState"@ {
        Some(RpcKind::NoParams)
    } else if name == "setUsbEmulationState"@ {
        Some(RpcKind::Async)
    } else if name == "keyboardReport"@ {
        Some(RpcKind::Typed)
    } else if name == "absMouseReport"@ {
        Some(RpcKind::Typed)
    } else if name == "relMouseReport"@ {
        Some(RpcKind::Typed)
    } else if name == "wheelReport"@ {
        Some(RpcKind::Typed)
    } else if name == "getKeyboardLayout"@ {
        Some(RpcKind::NoParams)
    } else if name == "setKeyboardLayout"@ {
        Some(RpcKind::Typed)
    } else if name == "getKeyboardLedState"@ {
        Some(RpcKind::NoParams)
    } else if name == "getKeyDownState"@ {
        Some(RpcKind::NoParams)
    } else if name == "keypressReport"@ {
        Some(RpcKind::Typed)
    } else if name == "getUSBState"@ {
        Some(RpcKind::NoParams)
    } else if name == "setUSBState"@ {
        Some(RpcKind::Typed)
    } else if name == "getUsbConfig"@ {
        Some(RpcKind::NoParams)
    } else if name == "setUsbConfig"@ {
        Some(RpcKind::Typed)
    } else if name == "getUpdateStatus"@ {
        Some(RpcKind::NoParams)
    } else if name == "getLocalVersion"@ {
        Some(RpcKind::Async)
    } else if name == "isUpdatePending"@ {
        Some(RpcKind::NoParams)
    } else if name == "getDevChannelState"@ {
        Some(RpcKind::Async)
    } else if name == "setDevChannelState"@ {
        Some(RpcKind::Async)
    } else if name == "getTLSState"@ {
        Some(RpcKind::Async)
    } else if name == "setTLSState"@ {
        Some(RpcKind::Async)
    } else if name == "getKeyboardMacros"@ {
        Some(RpcKind::Async)
    } else if name == "setKeyboardMacros"@ {
        Some(RpcKind::Async)
    } else if name == "getCloudState"@ {
        Some(RpcKind::Async)
    } else if name == "setCloudState"@ {
        Some(RpcKind::Typed)
    } else if name == "deregisterDevice"@ {
        Some(RpcKind::Async)
    } else if name == "resetConfig"@ {
        Some(RpcKind::Async)
    } else if name == "setCloudUrl"@ {
        Some(RpcKind::Async)
    } else if name == "getNetworkState"@ {
        Some(RpcKind::NoParams)
    } else if name == "getNetworkSettings"@ {
        Some(RpcKind::Async)
    } else if name == "setNetworkSettings"@ {
        Some(RpcKind::Async)
    } else if name == "renewDHCPLease"@ {
        Some(RpcKind::NoParams)
    } else if name == "getNetworkIpAddress"@ {
        Some(RpcKind::NoParams)
    } else if name == "setNetworkIpAddress"@ {
        Some(RpcKind::Typed)
    } else if name == "getDisplayState"@ {
        Some(RpcKind::NoParams)
    } else if name == "getLocalLoopbackOnly"@ {
        Some(RpcKind::Async)
    } else if name == "setLocalLoopbackOnly"@ {
        Some(RpcKind::Async)
    } else if name == "getWakeOnLanDevices"@ {
        Some(RpcKind::Async)
    } else if name == "setWakeOnLanDevices"@ {
        Some(RpcKind::Async)
    } else if name == "sendWOLMagicPacket"@ {
        Some(RpcKind::Async)
    } else if name == "getVirtualMediaState"@ {
        Some(RpcKind::NoParams)
    } else if name == "getVideoState"@ {
        Some(RpcKind::Async)
    } else if name == "mountWithHTTP"@ {
        Some(RpcKind::Async)
    } else if name == "mountWithWebRTC"@ {
        Some(RpcKind::Async)
    } else if name == "mountWithStorage"@ {
        Some(RpcKind::Async)
    } else if name == "unmountImage"@ {
        Some(RpcKind::Async)
    } else if name == "setMassStorageMode"@ {
        Some(RpcKind::Async)
    } else if name == "getMassStorageMode"@ {
        Some(RpcKind::Async)
    } else if name == "checkMountUrl"@ {
        Some(RpcKind::Typed)
    } else if name == "startStorageFileUpload"@ {
        Some(RpcKind::Async)
    } else if name == "listStorageFiles"@ {
        Some(RpcKind::Async)
    } else if name == "deleteStorageFile"@ {
        Some(RpcKind::Async)
    } else if name == "getStorageSpace"@ {
        Some(RpcKind::Async)
    } else if name == "mountBuiltInImage"@ {
        Some(RpcKind::Async)
    } else if name == "rpcMountBuiltInImage"@ {
        Some(RpcKind::Async)
    } else if name == "getSSHKeyState"@ {
        Some(RpcKind::Async)
    } else if name == "setSSHKeyState"@ {
        Some(RpcKind::Async)
    } else if name == "getDevModeState"@ {
        Some(RpcKind::Async)
    } else if name == "setDevModeState"@ {
        Some(RpcKind::Async)
    } else if name == "getVideoCodecPreference"@ {
        Some(RpcKind::NoParams)
    } else if name == "setVideoCodecPreference"@ {
        Some(RpcKind::Typed)
    } else if name == "getVideoSleepMode"@ {
        Some(RpcKind::NoParams)
    } else if name == "setVideoSleepMode"@ {
        Some(RpcKind::Typed)
    } else if name == "getVideoLogStatus"@ {
        Some(RpcKind::Async)
    } else if name == "getUpdateStatusChannel"@ {
        Some(RpcKind::Async)
    } else if name == "checkUpdateComponents"@ {
        Some(RpcKind::Async)
    } else if name == "tryUpdate"@ {
        Some(RpcKind::Async)
    } else if name == "tryUpdateComponents"@ {
        Some(RpcKind::Async)
    } else if name == "factoryReset"@ {
        Some(RpcKind::Async)
    } else if name == "getDefaultLogLevel"@ {
        Some(RpcKind::NoParams)
    } else if name == "setDefaultLogLevel"@ {
        Some(RpcKind::Typed)
    } else if name == "emitTestLog"@ {
        Some(RpcKind::Typed)
    } else if name == "getTimezones"@ {
        Some(RpcKind::Async)
    } else if name == "getPublicIPAddresses"@ {
        Some(RpcKind::Async)
    } else if name == "checkPublicIPAddresses"@ {
        Some(RpcKind::Async)
    } else if name == "getDCPowerState"@ {
        Some(RpcKind::NoParams)
    } else if name == "setDCPowerState"@ {
        Some(RpcKind::Async)
    } else if name == "setDCRestoreState"@ {
        Some(RpcKind::Async)
    } else if name == "getATXState"@ {
        Some(RpcKind::NoParams)
    } else if name == "setATXPowerAction"@ {
        Some(RpcKind::Async)
    } else if name == "getActiveExtension"@ {
        Some(RpcKind::NoParams)
    } else if name == "setActiveExtension"@ {
        Some(RpcKind::Async)
    } else if name == "getJigglerState"@ {
        Some(RpcKind::Async)
    } else if name == "setJigglerState"@ {
        Some(RpcKind::Async)
    } else if name == "getJigglerConfig"@ {
        Some(RpcKind::NoParams)
    } else if name == "setJigglerConfig"@ {
        Some(RpcKind::Async)
    } else if name == "getTailscaleStatus"@ {
        Some(RpcKind::Async)
    } else if name == "getTailscaleControlURL"@ {
        Some(RpcKind::NoParams)
    } else if name == "setTailscaleControlURL"@ {
        Some(RpcKind::Typed)
    } else if name == "getMqttSettings"@ {
        Some(RpcKind::Async)
    } else if name == "setMqttSettings"@ {
        Some(RpcKind::Async)
    } else if name == "getMqttStatus"@ {
        Some(RpcKind::Async)
    } else if name == "testMqttConnection"@ {
        Some(RpcKind::Async)
    } else if name == "sendCustomCommand"@ {
        Some(RpcKind::Typed)
    } else if name == "getSerialCommandHistory"@ {
        Some(RpcKind::Async)
    } else if name == "setSerialCommandHistory"@ {
        Some(RpcKind::Async)
    } else if name == "deleteSerialCommandHistory"@ {
        Some(RpcKind::Async)
    } else if name == "setTerminalPaused"@ {
        Some(RpcKind::Typed)
    } else if name == "executeKeyboardMacro"@ {
        Some(RpcKind::Async)
    } else if name == "cancelKeyboardMacro"@ {
        Some(RpcKind::NoParams)
    } else {
        None
    }
}

/// Whether a method is offered, and how it takes its parameters. The set of
/// methods is fixed, so it is a table of names here rather than a map filled
/// at start: each lookup is then proved against [`registered_kind`].
pub fn method_kind(name: &str) -> (r: Option<RpcKind>)
    ensures
        r == registered_kind(name@),
{
    if same_text(name, "ping") {
        Some(RpcKind::NoParams)
    } else if same_text(name, "getDeviceID") {
        Some(RpcKind::NoParams)
    } else if same_text(name, "getFailsafeMode") {
        Some(RpcKind::NoParams)
    } else if same_text(name, "reboot") {
        Some(RpcKind::Typed)
    } else if same_text(name, "setSerialSettings") {
        Some(RpcKind::Typed)
    } else if same_text(name, "getSerialSettings") {
        Some(RpcKind::NoParams)
    } else if same_text(name, "setDisplayRotation") {
        Some(RpcKind::Async)
    } else if same_text(name, "getDisplayRotation") {
        Some(RpcKind::Async)
    } else if same_text(name, "setBacklightSettings") {
        Some(RpcKind::Async)
    } else if same_text(name, "getBacklightSettings") {
        Some(RpcKind::Async)
    } else if same_text(name, "getStreamQualityFactor") {
        Some(RpcKind::NoParams)
    } else if same_text(name, "setStreamQualityFactor") {
        Some(RpcKind::Typed)
    } else if same_text(name, "getAutoUpdateState") {
        Some(RpcKind::Async)
    } else if same_text(name, "setAutoUpdateState") {
        Some(RpcKind::Async)
    } else if same_text(name, "getEDID") {
        Some(RpcKind::NoParams)
    } else if same_text(name, "setEDID") {
        Some(RpcKind::Typed)
    } else if same_text(name, "getUsbDevices") {
        Some(RpcKind::NoParams)
    } else if same_text(name, "setUsbDevices") {
        Some(RpcKind::Typed)
    } else if same_text(name, "setUsbDeviceState") {
        Some(RpcKind::Typed)
    } else if same_text(name, "getUsbEmulationState") {
        Some(RpcKind::NoParams)
    } else if same_text(name, "setUsbEmulationState") {
        Some(RpcKind::Async)
    } else if same_text(name, "keyboardReport") {
        Some(RpcKind::Typed)
    } else if same_text(name, "absMouseReport") {
        Some(RpcKind::Typed)
    } else if same_text(name, "relMouseReport") {
        Some(RpcKind::Typed)
    } else if same_text(name, "wheelReport") {
        Some(RpcKind::Typed)
    } else if same_text(name, "getKeyboardLayout") {
        Some(RpcKind::NoParams)
    } else if same_text(name, "setKeyboardLayout") {
        Some(RpcKind::Typed)
    } else if same_text(name, "getKeyboardLedState") {
        Some(RpcKind::NoParams)
    } else if same_text(name, "getKeyDownState") {
        Some(RpcKind::NoParams)
    } else if same_text(name, "keypressReport") {
        Some(RpcKind::Typed)
    } else if same_text(name, "getUSBState") {
        Some(RpcKind::NoParams)
    } else if same_text(name, "setUSBState") {
        Some(RpcKind::Typed)
    } else if same_text(name, "getUsbConfig") {
        Some(RpcKind::NoParams)
    } else if same_text(name, "setUsbConfig") {
        Some(RpcKind::Typed)
    } else if same_text(name, "getUpdateStatus") {
        Some(RpcKind::NoParams)
    } else if same_text(name, "getLocalVersion") {
        Some(RpcKind::Async)
    } else if same_text(name, "isUpdatePending") {
        Some(RpcKind::NoParams)
    } else if same_text(name, "getDevChannelState") {
        Some(RpcKind::Async)
    } else if same_text(name, "setDevChannelState") {
        Some(RpcKind::Async)
    } else if same_text(name, "getTLSState") {
        Some(RpcKind::Async)
    } else if same_text(name, "setTLSState") {
        Some(RpcKind::Async)
    } else if same_text(name, "getKeyboardMacros") {
        Some(RpcKind::Async)
    } else if same_text(name, "setKeyboardMacros") {
        Some(RpcKind::Async)
    } else if same_text(name, "getCloudState") {
        Some(RpcKind::Async)
    } else if same_text(name, "setCloudState") {
        Some(RpcKind::Typed)
    } else if same_text(name, "deregisterDevice") {
        Some(RpcKind::Async)
    } else if same_text(name, "resetConfig") {
        Some(RpcKind::Async)
    } else if same_text(name, "setCloudUrl") {
        Some(RpcKind::Async)
    } else if same_text(name, "getNetworkState") {
        Some(RpcKind::NoParams)
    } else if same_text(name, "getNetworkSettings") {
        Some(RpcKind::Async)
    } else if same_text(name, "setNetworkSettings") {
        Some(RpcKind::Async)
    } else if same_text(name, "renewDHCPLease") {
        Some(RpcKind::NoParams)
    } else if same_text(name, "getNetworkIpAddress") {
        Some(RpcKind::NoParams)
    } else if same_text(name, "setNetworkIpAddress") {
        Some(RpcKind::Typed)
    } else if same_text(name, "getDisplayState") {
        Some(RpcKind::NoParams)
    } else if same_text(name, "getLocalLoopbackOnly") {
        Some(RpcKind::Async)
    } else if same_text(name, "setLocalLoopbackOnly") {
        Some(RpcKind::Async)
    } else if same_text(name, "getWakeOnLanDevices") {
        Some(RpcKind::Async)
    } else if same_text(name, "setWakeOnLanDevices") {
        Some(RpcKind::Async)
    } else if same_text(name, "sendWOLMagicPacket") {
        Some(RpcKind::Async)
    } else if same_text(name, "getVirtualMediaState") {
        Some(RpcKind::NoParams)
    } else if same_text(name, "getVideoState") {
        Some(RpcKind::Async)
    } else if same_text(name, "mountWithHTTP") {
        Some(RpcKind::Async)
    } else if same_text(name, "mountWithWebRTC") {
        Some(RpcKind::Async)
    } else if same_text(name, "mountWithStorage") {
        Some(RpcKind::Async)
    } else if same_text(name, "unmountImage") {
        Some(RpcKind::Async)
    } else if same_text(name, "setMassStorageMode") {
        Some(RpcKind::Async)
    } else if same_text(name, "getMassStorageMode") {
        Some(RpcKind::Async)
    } else if same_text(name, "checkMountUrl") {
        Some(RpcKind::Typed)
    } else if same_text(name, "startStorageFileUpload") {
        Some(RpcKind::Async)
    } else if same_text(name, "listStorageFiles") {
        Some(RpcKind::Async)
    } else if same_text(name, "deleteStorageFile") {
        Some(RpcKind::Async)
    } else if same_text(name, "getStorageSpace") {
        Some(RpcKind::Async)
    } else if same_text(name, "mountBuiltInImage") {
        Some(RpcKind::Async)
    } else if same_text(name, "rpcMountBuiltInImage") {
        Some(RpcKind::Async)
    } else if same_text(name, "getSSHKeyState") {
        Some(RpcKind::Async)
    } else if same_text(name, "setSSHKeyState") {
        Some(RpcKind::Async)
    } else if same_text(name, "getDevModeState") {
        Some(RpcKind::Async)
    } else if same_text(name, "setDevModeState") {
        Some(RpcKind::Async)
    } else if same_text(name, "getVideoCodecPreference") {
        Some(RpcKind::NoParams)
    } else if same_text(name, "setVideoCodecPreference") {
        Some(RpcKind::Typed)
    } else if same_text(name, "getVideoSleepMode") {
        Some(RpcKind::NoParams)
    } else if same_text(name, "setVideoSleepMode") {
        Some(RpcKind::Typed)
    } else if same_text(name, "getVideoLogStatus") {
        Some(RpcKind::Async)
    } else if same_text(name, "getUpdateStatusChannel") {
        Some(RpcKind::Async)
    } else if same_text(name, "checkUpdateComponents") {
        Some(RpcKind::Async)
    } else if same_text(name, "tryUpdate") {
        Some(RpcKind::Async)
    } else if same_text(name, "tryUpdateComponents") {
        Some(RpcKind::Async)
    } else if same_text(name, "factoryReset") {
        Some(RpcKind::Async)
    } else if same_text(name, "getDefaultLogLevel") {
        Some(RpcKind::NoParams)
    } else if same_text(name, "setDefaultLogLevel") {
        Some(RpcKind::Typed)
    } else if same_text(name, "emitTestLog") {
        Some(RpcKind::Typed)
    } else if same_text(name, "getTimezones") {
        Some(RpcKind::Async)
    } else if same_text(name, "getPublicIPAddresses") {
        Some(RpcKind::Async)
    } else if same_text(name, "checkPublicIPAddresses") {
        Some(RpcKind::Async)
    } else if same_text(name, "getDCPowerState") {
        Some(RpcKind::NoParams)
    } else if same_text(name, "setDCPowerState") {
        Some(RpcKind::Async)
    } else if same_text(name, "setDCRestoreState") {
        Some(RpcKind::Async)
    } else if same_text(name, "getATXState") {
        Some(RpcKind::NoParams)
    } else if same_text(name, "setATXPowerAction") {
        Some(RpcKind::Async)
    } else if same_text(name, "getActiveExtension") {
        Some(RpcKind::NoParams)
    } else if same_text(name, "setActiveExtension") {
        Some(RpcKind::Async)
    } else if same_text(name, "getJigglerState") {
        Some(RpcKind::Async)
    } else if same_text(name, "setJigglerState") {
        Some(RpcKind::Async)
    } else if same_text(name, "getJigglerConfig") {
        Some(RpcKind::NoParams)
    } else if same_text(name, "setJigglerConfig") {
        Some(RpcKind::Async)
    } else if same_text(name, "getTailscaleStatus") {
        Some(RpcKind::Async)
    } else if same_text(name, "getTailscaleControlURL") {
        Some(RpcKind::NoParams)
    } else if same_text(name, "setTailscaleControlURL") {
        Some(RpcKind::Typed)
    } else if same_text(name, "getMqttSettings") {
        Some(RpcKind::Async)
    } else if same_text(name, "setMqttSettings") {
        Some(RpcKind::Async)
    } else if same_text(name, "getMqttStatus") {
        Some(RpcKind::Async)
    } else if same_text(name, "testMqttConnection") {
        Some(RpcKind::Async)
    } else if same_text(name, "sendCustomCommand") {
        Some(RpcKind::Typed)
    } else if same_text(name, "getSerialCommandHistory") {
        Some(RpcKind::Async)
    } else if same_text(name, "setSerialCommandHistory") {
        Some(RpcKind::Async)
    } else if same_text(name, "deleteSerialCommandHistory") {
        Some(RpcKind::Async)
    } else if same_text(name, "setTerminalPaused") {
        Some(RpcKind::Typed)
    } else if same_text(name, "executeKeyboardMacro") {
        Some(RpcKind::Async)
    } else if same_text(name, "cancelKeyboardMacro") {
        Some(RpcKind::NoParams)
    } else {
        None
    }
}

/// A JSON-RPC error.
#[derive(Debug, PartialEq, Eq)]
pub enum JsonRpcError {
    /// The request could not be read.
    ParseError,
    /// No such method.
    MethodNotFound,
    /// The method failed, with its message.
    InternalError(Option<String>),
}

/// A JSON-RPC response, with results of type `V` and ids of type `I`.
pub struct JsonRpcResponse<V, I> {
    pub jsonrpc: String,
    pub result: Option<V>,
    pub error: Option<JsonRpcError>,
    pub id: Option<I>,
}

/// The answer to a request that could not be read: a parse error without
/// an id.
pub fn parse_error_response<V, I>() -> (r: JsonRpcResponse<V, I>)
    ensures
        r.jsonrpc@ == "2.0"@,
        r.result is None,
        r.error == Some(JsonRpcError::ParseError),
        r.id is None,
{
    JsonRpcResponse { jsonrpc: owned("2.0"), result: None, error: Some(JsonRpcError::ParseError), id: None }
}

/// What a request for a method gets, by whether the method is offered and,
/// when it is, what its handler gave: no such method; the result; or an
/// internal error with the handler's message. The request's id is given
/// back.
pub fn method_response<V, I>(id: Option<I>, offered: bool, outcome: Option<Result<V, String>>) -> (r: JsonRpcResponse<V, I>)
    requires
        offered <==> outcome is Some,
    ensures
        r.jsonrpc@ == "2.0"@,
        r.id == id,
        !offered ==> r.result is None && r.error == Some(JsonRpcError::MethodNotFound),
        offered ==> match outcome {
            Some(Ok(v)) => r.result == Some(v) && r.error is None,
            Some(Err(m)) => r.result is None && (r.error matches Some(JsonRpcError::InternalError(Some(t)))
                && t@ == m@),
            None => false,
        },
{
    match outcome {
        None => JsonRpcResponse {
            jsonrpc: owned("2.0"),
            result: None,
            error: Some(JsonRpcError::MethodNotFound),
            id,
        },
        Some(Ok(v)) => JsonRpcResponse { jsonrpc: owned("2.0"), result: Some(v), error: None, id },
        Some(Err(m)) => JsonRpcResponse {
            jsonrpc: owned("2.0"),
            result: None,
            error: Some(JsonRpcError::InternalError(Some(m))),
            id,
        },
    }
}

/// How the parameters of a typed method are read: an object whose only
/// entry is `params` stands for that entry's value; anything else is read
/// as it is. The result says whether to take the inner value.
pub fn unwrap_single_params(is_object: bool, entries: usize, has_params_entry: bool) -> (r: bool)
    ensures
        r == (is_object && entries == 1 && has_params_entry),
{
    is_object && entries == 1 && has_params_entry
}

} // verus!
