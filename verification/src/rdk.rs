//! The closed set of RDK JSON-RPC methods the bridge consumes.
//!
//! Method identifiers travel on the wire as strings; keeping them in a
//! closed enumeration prevents a silent typo from becoming a silent
//! no-op call.

use vstd::prelude::*;

verus! {

/// An RDK plugin method the bridge may invoke.
#[derive(PartialEq, Eq, Structural, Clone, Copy, Debug)]
pub enum RdkMethod {
    /// The available application types.
    AvailableTypes,
    /// The connected video displays.
    ConnectedVideoDisplays,
    /// The current screen resolution.
    ScreenResolution,
    /// The network interface list.
    Interfaces,
    /// The IP settings of one interface.
    IpSettings,
    /// The client stacking order.
    ZOrder,
    /// Platform-wide key injection.
    InjectKey,
    /// Key generation, optionally targeted at one client.
    GenerateKey,
}

/// The wire name of each method.
pub open spec fn spec_method_name(m: RdkMethod) -> Seq<char> {
    match m {
        RdkMethod::AvailableTypes => "org.rdk.RDKShell.getAvailableTypes"@,
        RdkMethod::ConnectedVideoDisplays => "org.rdk.DisplaySettings.getConnectedVideoDisplays"@,
        RdkMethod::ScreenResolution => "org.rdk.RDKShell.getScreenResolution"@,
        RdkMethod::Interfaces => "org.rdk.Network.getInterfaces"@,
        RdkMethod::IpSettings => "org.rdk.Network.getIPSettings"@,
        RdkMethod::ZOrder => "org.rdk.RDKShell.1.getZOrder"@,
        RdkMethod::InjectKey => "org.rdk.RDKShell.1.injectKey"@,
        RdkMethod::GenerateKey => "org.rdk.RDKShell.1.generateKey"@,
    }
}

/// The wire name of a method, as sent in the JSON-RPC envelope.
pub fn method_name(m: &RdkMethod) -> (r: &'static str)
    ensures
        r@ == spec_method_name(*m),
{
    match m {
        RdkMethod::AvailableTypes => "org.rdk.RDKShell.getAvailableTypes",
        RdkMethod::ConnectedVideoDisplays => "org.rdk.DisplaySettings.getConnectedVideoDisplays",
        RdkMethod::ScreenResolution => "org.rdk.RDKShell.getScreenResolution",
        RdkMethod::Interfaces => "org.rdk.Network.getInterfaces",
        RdkMethod::IpSettings => "org.rdk.Network.getIPSettings",
        RdkMethod::ZOrder => "org.rdk.RDKShell.1.getZOrder",
        RdkMethod::InjectKey => "org.rdk.RDKShell.1.injectKey",
        RdkMethod::GenerateKey => "org.rdk.RDKShell.1.generateKey",
    }
}

} // verus!
