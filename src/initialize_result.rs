//! The result of the initialize request.
use crate::bsp::server_capabilities::ServerCapabilities;
use vstd::prelude::*;

verus! {

/// The result of the initialize request: who the server is and what it offers.
#[derive(Debug, Clone)]
pub struct InitializeBuildResult {
    /// The name of the server.
    pub display_name: String,
    /// The version of the server.
    pub version: String,
    /// The protocol version the server speaks.
    pub bsp_version: String,
    /// What the server offers.
    pub capabilities: ServerCapabilities,
    /// Additional data, if any.
    pub data: Option<serde_json::Value>,
}

impl InitializeBuildResult {
    /// The result of the initialize request, with data.
    pub fn new(display_name: String, version: String, bsp_version: String, capabilities: ServerCapabilities, data: serde_json::Value) -> (r: InitializeBuildResult)
        ensures
            r.display_name == display_name,
            r.version == version,
            r.bsp_version == bsp_version,
            r.capabilities == capabilities,
            r.data == Some(data),
    {
        InitializeBuildResult { display_name: display_name, version: version, bsp_version: bsp_version, capabilities: capabilities, data: Some(data) }
    }

    /// The result of the initialize request, without data.
    pub fn new_simple(display_name: String, version: String, bsp_version: String, capabilities: ServerCapabilities) -> (r: InitializeBuildResult)
        ensures
            r.display_name == display_name,
            r.version == version,
            r.bsp_version == bsp_version,
            r.capabilities == capabilities,
            r.data is None,
    {
        InitializeBuildResult { display_name: display_name, version: version, bsp_version: bsp_version, capabilities: capabilities, data: None }
    }

    /// Sets the protocol version the server speaks.
    pub fn set_bsp_version(&mut self, bsp_version: String)
        ensures
            final(self).bsp_version == bsp_version,
            final(self).display_name == old(self).display_name,
            final(self).version == old(self).version,
            final(self).capabilities == old(self).capabilities,
            final(self).data == old(self).data,
    {
        self.bsp_version = bsp_version;
    }

    /// The protocol version the server speaks.
    pub fn bsp_version(&self) -> (r: &str)
        ensures
            r@ == self.bsp_version@,
    {
        self.bsp_version.as_str()
    }

    /// Sets the version of the server.
    pub fn set_version(&mut self, version: String)
        ensures
            final(self).version == version,
            final(self).display_name == old(self).display_name,
            final(self).bsp_version == old(self).bsp_version,
            final(self).capabilities == old(self).capabilities,
            final(self).data == old(self).data,
    {
        self.version = version;
    }

    /// The version of the server.
    pub fn version(&self) -> (r: &str)
        ensures
            r@ == self.version@,
    {
        self.version.as_str()
    }

    /// Sets the name of the server.
    pub fn set_display_name(&mut self, display_name: String)
        ensures
            final(self).display_name == display_name,
            final(self).version == old(self).version,
            final(self).bsp_version == old(self).bsp_version,
            final(self).capabilities == old(self).capabilities,
            final(self).data == old(self).data,
    {
        self.display_name = display_name;
    }

    /// The name of the server.
    pub fn display_name(&self) -> (r: &str)
        ensures
            r@ == self.display_name@,
    {
        self.display_name.as_str()
    }

    /// Sets what the server offers.
    pub fn set_capabilities(&mut self, capabilities: ServerCapabilities)
        ensures
            final(self).capabilities == capabilities,
            final(self).display_name == old(self).display_name,
            final(self).version == old(self).version,
            final(self).bsp_version == old(self).bsp_version,
            final(self).data == old(self).data,
    {
        self.capabilities = capabilities;
    }

    /// What the server offers.
    pub fn capabilities(&self) -> (r: &ServerCapabilities)
        ensures
            *r == self.capabilities,
    {
        &self.capabilities
    }

    /// Sets the additional data.
    pub fn set_data(&mut self, data: Option<serde_json::Value>)
        ensures
            final(self).data == data,
            final(self).display_name == old(self).display_name,
            final(self).version == old(self).version,
            final(self).bsp_version == old(self).bsp_version,
            final(self).capabilities == old(self).capabilities,
    {
        self.data = data;
    }

    /// The additional data, if any.
    pub fn data(&self) -> (r: Option<&serde_json::Value>)
        ensures
            r is None <==> self.data is None,
            r matches Some(x) ==> self.data == Some(*x),
    {
        match &self.data {
            Some(x) => Some(x),
            None => None,
        }
    }

    /// The additional data, to change in place.
    pub fn data_mut(&mut self) -> (r: &mut Option<serde_json::Value>)
        ensures
            *r == old(self).data,
            final(self).data == *final(r),
            final(self).display_name == old(self).display_name,
            final(self).version == old(self).version,
            final(self).bsp_version == old(self).bsp_version,
            final(self).capabilities == old(self).capabilities,
    {
        &mut self.data
    }
}

} // verus!
