//! The params of the initialize request.
use crate::client_capabilities::ClientCapabilities;
use vstd::prelude::*;

verus! {

/// The params of the initialize request, with the workspace root as a path.
#[derive(Debug, Clone)]
pub struct InitializeBuildParams {
    /// The name of the client.
    pub display_name: String,
    /// The version of the client.
    pub version: String,
    /// The protocol version the client speaks.
    pub bsp_version: String,
    /// The path of the workspace root.
    pub root_uri: String,
    /// What the client supports.
    pub capabilities: ClientCapabilities,
    /// Additional data, if any.
    pub data: Option<serde_json::Value>,
}

impl InitializeBuildParams {
    /// The params of an initialize request.
    pub fn new(display_name: String, version: String, bsp_version: String, root_uri: String, capabilities: ClientCapabilities, data: Option<serde_json::Value>) -> (r: InitializeBuildParams)
        ensures
            r.display_name == display_name,
            r.version == version,
            r.bsp_version == bsp_version,
            r.root_uri == root_uri,
            r.capabilities == capabilities,
            r.data == data,
    {
        InitializeBuildParams { display_name: display_name, version: version, bsp_version: bsp_version, root_uri: root_uri, capabilities: capabilities, data: data }
    }

    /// The params of an initialize request, without data.
    pub fn new_simple(display_name: String, version: String, bsp_version: String, root_uri: String, capabilities: ClientCapabilities) -> (r: InitializeBuildParams)
        ensures
            r.display_name == display_name,
            r.version == version,
            r.bsp_version == bsp_version,
            r.root_uri == root_uri,
            r.capabilities == capabilities,
            r.data is None,
    {
        InitializeBuildParams { display_name: display_name, version: version, bsp_version: bsp_version, root_uri: root_uri, capabilities: capabilities, data: None }
    }

    /// Sets the additional data.
    pub fn set_data(&mut self, data: Option<serde_json::Value>)
        ensures
            final(self).data == data,
            final(self).display_name == old(self).display_name,
            final(self).version == old(self).version,
            final(self).bsp_version == old(self).bsp_version,
            final(self).root_uri == old(self).root_uri,
            final(self).capabilities == old(self).capabilities,
    {
        self.data = data;
    }

    /// The additional data, if any.
    pub fn data(&self) -> (r: Option<&serde_json::Value>)
        ensures
            r is None <==> self.data is None,
            r matches Some(x) ==> self.data == Some(*x),
    {
        match &self.data {
            Some(x) => Some(x),
            None => None,
        }
    }

    /// What the client supports.
    pub fn capabilities(&self) -> (r: &ClientCapabilities)
        ensures
            *r == self.capabilities,
    {
        &self.capabilities
    }

    /// Sets what the client supports.
    pub fn set_capabilities(&mut self, capabilities: ClientCapabilities)
        ensures
            final(self).capabilities == capabilities,
            final(self).display_name == old(self).display_name,
            final(self).version == old(self).version,
            final(self).bsp_version == old(self).bsp_version,
            final(self).root_uri == old(self).root_uri,
            final(self).data == old(self).data,
    {
        self.capabilities = capabilities;
    }

    /// The path of the workspace root.
    pub fn root_uri(&self) -> (r: &str)
        ensures
            r@ == self.root_uri@,
    {
        self.root_uri.as_str()
    }

    /// Sets the path of the workspace root.
    pub fn set_root_uri(&mut self, root_uri: String)
        ensures
            final(self).root_uri == root_uri,
            final(self).display_name == old(self).display_name,
            final(self).version == old(self).version,
            final(self).bsp_version == old(self).bsp_version,
            final(self).capabilities == old(self).capabilities,
            final(self).data == old(self).data,
    {
        self.root_uri = root_uri;
    }

    /// The protocol version the client speaks.
    pub fn bsp_version(&self) -> (r: &str)
        ensures
            r@ == self.bsp_version@,
    {
        self.bsp_version.as_str()
    }

    /// Sets the protocol version the client speaks.
    pub fn set_bsp_version(&mut self, bsp_version: String)
        ensures
            final(self).bsp_version == bsp_version,
            final(self).display_name == old(self).display_name,
            final(self).version == old(self).version,
            final(self).root_uri == old(self).root_uri,
            final(self).capabilities == old(self).capabilities,
            final(self).data == old(self).data,
    {
        self.bsp_version = bsp_version;
    }

    /// The version of the client.
    pub fn version(&self) -> (r: &str)
        ensures
            r@ == self.version@,
    {
        self.version.as_str()
    }

    /// Sets the version of the client.
    pub fn set_version(&mut self, version: String)
        ensures
            final(self).version == version,
            final(self).display_name == old(self).display_name,
            final(self).bsp_version == old(self).bsp_version,
            final(self).root_uri == old(self).root_uri,
            final(self).capabilities == old(self).capabilities,
            final(self).data == old(self).data,
    {
        self.version = version;
    }

    /// The name of the client.
    pub fn display_name(&self) -> (r: &str)
        ensures
            r@ == self.display_name@,
    {
        self.display_name.as_str()
    }

    /// Sets the name of the client.
    pub fn set_display_name(&mut self, display_name: String)
        ensures
            final(self).display_name == display_name,
            final(self).version == old(self).version,
            final(self).bsp_version == old(self).bsp_version,
            final(self).root_uri == old(self).root_uri,
            final(self).capabilities == old(self).capabilities,
            final(self).data == old(self).data,
    {
        self.display_name = display_name;
    }
}

} // verus!
