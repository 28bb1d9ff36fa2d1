//! The shapes of the anonymous file-hosting API's responses and the URLs
//! the upload client derives from them.

use vstd::prelude::*;
use vstd::string::StringExecFns;

verus! {

#[derive(Debug, Clone)]
pub struct ServerEntry {
    pub name: String,
    pub zone: String,
}

#[derive(Debug, Clone)]
pub struct ServerListEntry {
    pub servers: Vec<ServerEntry>,
    pub servers_all_zone: Vec<ServerEntry>,
}

#[derive(Debug, Clone)]
pub struct ServersJson {
    pub status: String,
    pub data: ServerListEntry,
}

#[derive(Debug, Clone)]
pub struct UploadFileResponseData {
    pub create_time: u32,
    pub download_page: String,
    pub guest_token: String,
    pub id: String,
    pub md5: String,
    pub mimetype: String,
    pub mod_time: u32,
    pub name: String,
    pub parent_folder: String,
    pub parent_folder_code: String,
    pub servers: Vec<String>,
    pub size: u64,
    pub file_type: String,
}

#[derive(Debug, Clone)]
pub struct UploadFileResponse {
    pub status: String,
    pub data: UploadFileResponseData,
}

/// Whether an API response reports success.
pub fn status_is_ok(status: &String) -> (r: bool)
    ensures
        r == (status@ == ("ok")@),
{
    let ok: String = "ok".to_owned();
    *status == ok
}

impl ServersJson {
    /// The first listed server, the one uploads go to.
    pub fn first_server(&self) -> (r: Option<&ServerEntry>)
        ensures
            r matches Some(s) ==> self.data.servers@.len() > 0 && *s == self.data.servers@[0],
            r is None ==> self.data.servers@.len() == 0,
    {
        if self.data.servers.len() > 0 {
            Some(&self.data.servers[0])
        } else {
            None
        }
    }
}

/// The endpoint URL of a storage server, from its name.
pub fn server_url(server_name: &str) -> (r: String)
    ensures
        r@ == ("https://")@ + server_name@ + (".gofile.io")@,
{
    let mut s = "https://".to_owned();
    s.append(server_name);
    s.append(".gofile.io");
    s
}

/// The upload endpoint under a server URL.
pub fn upload_url(server_url: &str) -> (r: String)
    ensures
        r@ == server_url@ + ("/contents/uploadFile")@,
{
    let mut s = server_url.to_owned();
    s.append("/contents/uploadFile");
    s
}

/// The server-list endpoint of the API.
pub fn servers_list_url() -> (r: String)
    ensures
        r@ == ("https://api.gofile.io/servers")@,
{
    proof {
        reveal_strlit("https://api.gofile.io/servers");
    }
    "https://api.gofile.io/servers".to_owned()
}

} // verus!
