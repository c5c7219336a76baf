//! The HTTP file API's decisions: which folder a request names, how entries
//! are described, and the texts of its answers and notices.
use vstd::prelude::*;
use vstd::string::StringExecFns;
use crate::text::same_text;
use crate::text::concat;
use crate::text::concat3;
use crate::paths::joined;
use crate::paths::path_join;
use crate::paths::extension_of;
use crate::paths::path_extension;

verus! {

/// The folders the server knows by name.
#[derive(Debug)]
pub struct AppState {
    pub root_dir: String,
    pub home_dir: String,
    pub download_dir: String,
    pub shared_dir: String,
}

/// The user's special folders, as the platform reports them.
#[derive(Debug)]
pub struct SpecialDirs {
    pub music: String,
    pub desktop: String,
    pub pictures: String,
    pub videos: String,
    pub documents: String,
}

/// The folder a request names: one of the aliases "root", "Music",
/// "Desktop", "Pictures", "Videos", "Downloads", "Documents", "home" and
/// "Anvel shared", or else the path itself.
pub open spec fn resolved_dir(req: Seq<char>, st: AppState, sp: SpecialDirs) -> Seq<char> {
    if req == "root"@ {
        st.root_dir@
    } else if req == "Music"@ {
        sp.music@
    } else if req == "Desktop"@ {
        sp.desktop@
    } else if req == "Pictures"@ {
        sp.pictures@
    } else if req == "Videos"@ {
        sp.videos@
    } else if req == "Downloads"@ {
        st.download_dir@
    } else if req == "Documents"@ {
        sp.documents@
    } else if req == "home"@ {
        st.home_dir@
    } else if req == "Anvel shared"@ {
        st.shared_dir@
    } else {
        req
    }
}

/// Resolves the folder a directory request names.
pub fn resolve_directory(req: &str, st: &AppState, sp: &SpecialDirs) -> (r: String)
    ensures
        r@ == resolved_dir(req@, *st, *sp),
{
    let chosen: &str = if same_text(req, "root") {
        st.root_dir.as_str()
    } else if same_text(req, "Music") {
        sp.music.as_str()
    } else if same_text(req, "Desktop") {
        sp.desktop.as_str()
    } else if same_text(req, "Pictures") {
        sp.pictures.as_str()
    } else if same_text(req, "Videos") {
        sp.videos.as_str()
    } else if same_text(req, "Downloads") {
        st.download_dir.as_str()
    } else if same_text(req, "Documents") {
        sp.documents.as_str()
    } else if same_text(req, "home") {
        st.home_dir.as_str()
    } else if same_text(req, "Anvel shared") {
        st.shared_dir.as_str()
    } else {
        req
    };
    String::from_str(chosen)
}

/// What the API says of an entry's kind.
#[derive(Debug)]
pub struct FileMeta {
    pub is_file: bool,
    pub file_extension: Option<String>,
}

/// One entry of a directory answer.
#[derive(Debug)]
pub struct DirectoryObject {
    pub root: String,
    pub name: String,
    pub path: String,
    pub metadata: FileMeta,
}

/// The extension text of an entry: its extension for files ("no file
/// extension" when it has none), "folder" for anything else.
pub open spec fn extension_text(path: Seq<char>, is_file: bool) -> Seq<char> {
    if is_file {
        match extension_of(path) {
            Some(x) => x,
            None => "no file extension"@,
        }
    } else {
        "folder"@
    }
}

/// Describes the entry `name` of folder `dir`; `is_file` is what the file
/// system says of it.
pub fn directory_object(dir: &str, name: &str, is_file: bool) -> (o: DirectoryObject)
    ensures
        o.root@ == dir@,
        o.name@ == name@,
        o.path@ == joined(dir@, name@),
        o.metadata.is_file == is_file,
        o.metadata.file_extension matches Some(x) && x@ == extension_text(joined(dir@, name@), is_file),
{
    let path = path_join(dir, name);
    let ext = if is_file {
        match path_extension(path.as_str()) {
            Some(x) => x,
            None => String::from_str("no file extension"),
        }
    } else {
        String::from_str("folder")
    };
    DirectoryObject {
        root: String::from_str(dir),
        name: String::from_str(name),
        path,
        metadata: FileMeta { is_file, file_extension: Some(ext) },
    }
}

/// The error answer when a folder cannot be read.
pub fn read_error_message(err: &str, dir: &str) -> (m: String)
    ensures
        m@ == err@ + " with the name '"@ + dir@ + "'"@,
{
    let mut m = String::from_str(err);
    m.append(" with the name '");
    m.append(dir);
    m.append("'");
    m
}

/// The address a ping is answered at: the sender's "pong" route, naming this
/// device's address.
pub fn pong_url(sender_ip: &str, local_ip: &str) -> (u: String)
    ensures
        u@ == "http://"@ + sender_ip@ + ":80/api/pong/"@ + local_ip@,
{
    let mut u = String::from_str("http://");
    u.append(sender_ip);
    u.append(":80/api/pong/");
    u.append(local_ip);
    u
}

/// The answer when a ping got an error status.
pub fn ping_failure_message(status: &str) -> (m: String)
    ensures
        m@ == "Failed to ping. Status code: "@ + status@,
{
    concat("Failed to ping. Status code: ", status)
}

/// The body of the notice shown when another device pings this one.
pub fn pong_notice_body(recipient_ip: &str) -> (m: String)
    ensures
        m@ == "Device '"@ + recipient_ip@ + "' can now send you files."@,
{
    concat3("Device '", recipient_ip, "' can now send you files.")
}

/// Where an uploaded file is stored: the shared folder, a slash, the name.
pub fn received_file_path(shared_dir: &str, filename: &str) -> (p: String)
    ensures
        p@ == shared_dir@ + "/"@ + filename@,
{
    concat3(shared_dir, "/", filename)
}

/// The answer when forwarding a file got an error status.
pub fn send_failure_message(file_name: &str, server_url: &str, status: &str) -> (m: String)
    ensures
        m@ == "Failed to send '"@ + file_name@ + "' to '"@ + server_url@ + "'.  Status code: "@ + status@,
{
    let mut m = String::from_str("Failed to send '");
    m.append(file_name);
    m.append("' to '");
    m.append(server_url);
    m.append("'.  Status code: ");
    m.append(status);
    m
}

/// The addresses of this device, as the API reports them.
#[derive(Debug)]
pub struct IpContent {
    pub internal: String,
    pub external: String,
}

/// This device's addresses: the external one is the "origin" text of the
/// lookup service's answer, "Unknown" when the answer has none, and "No
/// internet" when the lookup failed (`lookup` is `None`).
pub fn ip_content(internal: String, lookup: Option<Option<String>>) -> (c: IpContent)
    ensures
        c.internal@ == internal@,
        lookup is None ==> c.external@ == "No internet"@,
        lookup matches Some(None) ==> c.external@ == "Unknown"@,
        lookup matches Some(Some(o)) ==> c.external@ == o@,
{
    let external = match lookup {
        None => String::from_str("No internet"),
        Some(None) => String::from_str("Unknown"),
        Some(Some(o)) => o,
    };
    IpContent { internal, external }
}

/// A WebSocket message, as far as the echo service tells them apart.
#[derive(Debug)]
pub enum WsFrame {
    Text(String),
    Binary(Vec<u8>),
    Other,
}

/// The echo service's reply: text and binary messages come back unchanged;
/// anything else, and protocol errors (`None`), get no reply.
pub fn echo_reply(msg: Option<WsFrame>) -> (r: Option<WsFrame>)
    ensures
        msg matches Some(WsFrame::Text(t)) ==> (r matches Some(WsFrame::Text(u)) && u == t),
        msg matches Some(WsFrame::Binary(b)) ==> (r matches Some(WsFrame::Binary(c)) && c == b),
        !(msg matches Some(WsFrame::Text(_))) && !(msg matches Some(WsFrame::Binary(_))) ==> r is None,
{
    match msg {
        Some(WsFrame::Text(t)) => Some(WsFrame::Text(t)),
        Some(WsFrame::Binary(b)) => Some(WsFrame::Binary(b)),
        _ => None,
    }
}

} // verus!
