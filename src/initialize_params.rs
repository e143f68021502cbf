//! The params of the initialize request.
use crate::client_capabilities::ClientCapabilities;
use vstd::string::*;
use vstd::prelude::*;

verus! {

/// The params of the initialize request: who the client is and what it supports.
#[derive(Debug, Clone)]
pub struct InitializeBuild {
    /// The name of the client.
    pub display_name: String,
    /// The version of the client.
    pub version: String,
    /// The protocol version the client speaks.
    pub bsp_version: String,
    /// The URI of the workspace root.
    pub root_uri: String,
    /// What the client supports.
    pub capabilities: ClientCapabilities,
    /// Additional data, if any.
    pub data: Option<serde_json::Value>,
}

impl InitializeBuild {
    /// The params of an initialize request, with data.
    pub fn new(display_name: String, version: String, bsp_version: String, root_uri: String, capabilities: ClientCapabilities, data: serde_json::Value) -> (r: InitializeBuild)
        ensures
            r.display_name == display_name,
            r.version == version,
            r.bsp_version == bsp_version,
            r.root_uri == root_uri,
            r.capabilities == capabilities,
            r.data == Some(data),
    {
        InitializeBuild { display_name: display_name, version: version, bsp_version: bsp_version, root_uri: root_uri, capabilities: capabilities, data: Some(data) }
    }

    /// The params of an initialize request, without data.
    pub fn new_simple(display_name: String, version: String, bsp_version: String, root_uri: String, capabilities: ClientCapabilities) -> (r: InitializeBuild)
        ensures
            r.display_name == display_name,
            r.version == version,
            r.bsp_version == bsp_version,
            r.root_uri == root_uri,
            r.capabilities == capabilities,
            r.data is None,
    {
        InitializeBuild { display_name: display_name, version: version, bsp_version: bsp_version, root_uri: root_uri, capabilities: capabilities, data: None }
    }

    /// Sets the additional data.
    pub fn set_data(&mut self, data: Option<serde_json::Value>)
        ensures
            final(self).data == data,
            final(self).display_name == old(self).display_name,
            final(self).version == old(self).version,
            final(self).bsp_version == old(self).bsp_version,
            final(self).root_uri == old(self).root_uri,
            final(self).capabilities == old(self).capabilities,
    {
        self.data = data;
    }

    /// The additional data, if any.
    pub fn data(&self) -> (r: Option<&serde_json::Value>)
        ensures
            r is None <==> self.data is None,
            r matches Some(x) ==> self.data == Some(*x),
    {
        match &self.data {
            Some(x) => Some(x),
            None => None,
        }
    }

    /// What the client supports.
    pub fn capabilities(&self) -> (r: &ClientCapabilities)
        ensures
            *r == self.capabilities,
    {
        &self.capabilities
    }

    /// Sets what the client supports.
    pub fn set_capabilities(&mut self, capabilities: ClientCapabilities)
        ensures
            final(self).capabilities == capabilities,
            final(self).display_name == old(self).display_name,
            final(self).version == old(self).version,
            final(self).bsp_version == old(self).bsp_version,
            final(self).root_uri == old(self).root_uri,
            final(self).data == old(self).data,
    {
        self.capabilities = capabilities;
    }

    /// The URI of the workspace root.
    pub fn root_uri(&self) -> (r: &str)
        ensures
            r@ == self.root_uri@,
    {
        self.root_uri.as_str()
    }

    /// The file system path of the workspace root: the root URI without its
    /// `file://` scheme, where it has one.
    pub fn root_path(&self) -> (r: Option<String>)
        ensures
            r is Some <==> (self.root_uri@.len() >= 7 && self.root_uri@.subrange(0, 7) == "file://"@),
            r matches Some(p) ==> p@ == self.root_uri@.subrange(7, self.root_uri@.len() as int),
    {
        proof {
            reveal_strlit("file://");
        }
        let uri = self.root_uri.as_str();
        let n = uri.unicode_len();
        if n >= 7 && uri.get_char(0) == 'f' && uri.get_char(1) == 'i' && uri.get_char(2) == 'l'
            && uri.get_char(3) == 'e' && uri.get_char(4) == ':' && uri.get_char(5) == '/'
            && uri.get_char(6) == '/' {
            assert(uri@.subrange(0, 7) =~= "file://"@);
            Some(String::from_str(uri.substring_char(7, n)))
        } else {
            proof {
                if uri@.len() >= 7 && uri@.subrange(0, 7) == "file://"@ {
                    assert(uri@.subrange(0, 7)[0] == 'f');
                    assert(uri@.subrange(0, 7)[1] == 'i');
                    assert(uri@.subrange(0, 7)[2] == 'l');
                    assert(uri@.subrange(0, 7)[3] == 'e');
                    assert(uri@.subrange(0, 7)[4] == ':');
                    assert(uri@.subrange(0, 7)[5] == '/');
                    assert(uri@.subrange(0, 7)[6] == '/');
                }
            }
            None
        }
    }

    /// Sets the URI of the workspace root.
    pub fn set_root_uri(&mut self, root_uri: String)
        ensures
            final(self).root_uri == root_uri,
            final(self).display_name == old(self).display_name,
            final(self).version == old(self).version,
            final(self).bsp_version == old(self).bsp_version,
            final(self).capabilities == old(self).capabilities,
            final(self).data == old(self).data,
    {
        self.root_uri = root_uri;
    }

    /// The protocol version the client speaks.
    pub fn bsp_version(&self) -> (r: &str)
        ensures
            r@ == self.bsp_version@,
    {
        self.bsp_version.as_str()
    }

    /// Sets the protocol version the client speaks.
    pub fn set_bsp_version(&mut self, bsp_version: String)
        ensures
            final(self).bsp_version == bsp_version,
            final(self).display_name == old(self).display_name,
            final(self).version == old(self).version,
            final(self).root_uri == old(self).root_uri,
            final(self).capabilities == old(self).capabilities,
            final(self).data == old(self).data,
    {
        self.bsp_version = bsp_version;
    }

    /// The version of the client.
    pub fn version(&self) -> (r: &str)
        ensures
            r@ == self.version@,
    {
        self.version.as_str()
    }

    /// Sets the version of the client.
    pub fn set_version(&mut self, version: String)
        ensures
            final(self).version == version,
            final(self).display_name == old(self).display_name,
            final(self).bsp_version == old(self).bsp_version,
            final(self).root_uri == old(self).root_uri,
            final(self).capabilities == old(self).capabilities,
            final(self).data == old(self).data,
    {
        self.version = version;
    }

    /// The name of the client.
    pub fn display_name(&self) -> (r: &str)
        ensures
            r@ == self.display_name@,
    {
        self.display_name.as_str()
    }

    /// Sets the name of the client.
    pub fn set_display_name(&mut self, display_name: String)
        ensures
            final(self).display_name == display_name,
            final(self).version == old(self).version,
            final(self).bsp_version == old(self).bsp_version,
            final(self).root_uri == old(self).root_uri,
            final(self).capabilities == old(self).capabilities,
            final(self).data == old(self).data,
    {
        self.display_name = display_name;
    }
}

/// Empty params.
impl Default for InitializeBuild {
    fn default() -> (r: InitializeBuild)
        ensures
            r.capabilities.language_ids@.len() == 0,
            r.data is None,
            r.display_name@.len() == 0,
            r.version@.len() == 0,
            r.bsp_version@.len() == 0,
            r.root_uri@.len() == 0,
    {
        InitializeBuild { display_name: String::new(), version: String::new(), bsp_version: String::new(), root_uri: String::new(), capabilities: ClientCapabilities::default(), data: None }
    }
}

} // verus!
