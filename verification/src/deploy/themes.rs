//! The request to host a site, and the replies about site directories.
use crate::nginx::obj::{Reply, ReplySpec};
use vstd::prelude::*;

verus! {

/// A file to write into a hosted site: its name, an optional directory
/// inside the site, and its content (the JSON text of the value sent).
pub struct FilesData {
    filename: String,
    path: Option<String>,
    data: String,
}

impl FilesData {
    pub closed spec fn filename_view(&self) -> Seq<char> {
        self.filename@
    }

    pub closed spec fn path_view(&self) -> Option<Seq<char>> {
        self.path.deep_view()
    }

    pub closed spec fn data_view(&self) -> Seq<char> {
        self.data@
    }

    pub fn new(filename: String, path: Option<String>, data: String) -> (r: Self)
        ensures
            r.filename_view() == filename@,
            r.path_view() == path.deep_view(),
            r.data_view() == data@,
    {
        FilesData { filename, path, data }
    }

    pub fn get_filename(&self) -> (r: &String)
        ensures
            r@ == self.filename_view(),
    {
        &self.filename
    }

    pub fn get_path(&self) -> (r: &Option<String>)
        ensures
            r.deep_view() == self.path_view(),
    {
        &self.path
    }

    pub fn get_data(&self) -> (r: &String)
        ensures
            r@ == self.data_view(),
    {
        &self.data
    }
}

/// A request to host a site: its name, its theme's git URL, its
/// environment variables and the files to write into it.
pub struct ThemesData {
    server_name: String,
    theme_link: String,
    env: Vec<(String, String)>,
    files: Vec<FilesData>,
}

impl ThemesData {
    pub closed spec fn server_name_view(&self) -> Seq<char> {
        self.server_name@
    }

    pub closed spec fn theme_link_view(&self) -> Seq<char> {
        self.theme_link@
    }

    pub closed spec fn env_view(&self) -> Seq<(String, String)> {
        self.env@
    }

    pub closed spec fn files_view(&self) -> Seq<FilesData> {
        self.files@
    }

    pub fn new(server_name: String, theme_link: String, env: Vec<(String, String)>, files: Vec<FilesData>) -> (r: Self)
        ensures
            r.server_name_view() == server_name@,
            r.theme_link_view() == theme_link@,
            r.env_view() == env@,
            r.files_view() == files@,
    {
        ThemesData { server_name, theme_link, env, files }
    }

    /// The environment variables, as key/value pairs.
    pub fn get_env(&self) -> (r: &Vec<(String, String)>)
        ensures
            r@ == self.env_view(),
    {
        &self.env
    }

    pub fn get_theme_link(&self) -> (r: &String)
        ensures
            r@ == self.theme_link_view(),
    {
        &self.theme_link
    }

    pub fn get_server_name(&self) -> (r: &String)
        ensures
            r@ == self.server_name_view(),
    {
        &self.server_name
    }

    pub fn get_files(&self) -> (r: &Vec<FilesData>)
        ensures
            r@ == self.files_view(),
    {
        &self.files
    }
}

/// The directory of a hosted site: `basepath/themepath/server_name`.
pub open spec fn site_dir_of(basepath: Seq<char>, themepath: Seq<char>, server_name: Seq<char>) -> Seq<char> {
    basepath + "/"@ + themepath + "/"@ + server_name
}

/// The directory of a hosted site (see `site_dir_of`).
pub fn site_dir(basepath: &str, themepath: &str, server_name: &str) -> (r: String)
    ensures
        r@ == site_dir_of(basepath@, themepath@, server_name@),
{
    let mut s = String::from_str(basepath);
    s.append("/");
    s.append(themepath);
    s.append("/");
    s.append(server_name);
    s
}

/// The reply for a site that does not exist.
pub open spec fn missing_site_of(server_name: Seq<char>) -> ReplySpec {
    (400u16, "Server Name '"@ + server_name + "' does not exists!"@)
}

/// The reply for a site that does not exist.
pub fn missing_site_reply(server_name: &str) -> (r: Reply)
    ensures
        (r.0, r.1@) == missing_site_of(server_name@),
{
    let mut m = String::from_str("Server Name '");
    m.append(server_name);
    m.append("' does not exists!");
    (400, m)
}

/// The reply for a site that exists already.
pub open spec fn existing_site_of(server_name: Seq<char>) -> ReplySpec {
    (400u16, "Server Name '"@ + server_name + "' already existed!"@)
}

/// The reply for a site that exists already.
pub fn existing_site_reply(server_name: &str) -> (r: Reply)
    ensures
        (r.0, r.1@) == existing_site_of(server_name@),
{
    let mut m = String::from_str("Server Name '");
    m.append(server_name);
    m.append("' already existed!");
    (400, m)
}

/// Where a requested file is written: into its own directory inside the
/// site when it has one (which is created first), else into the site.
pub open spec fn file_destination_of(site: Seq<char>, path: Option<Seq<char>>, filename: Seq<char>) -> (Option<Seq<char>>, Seq<char>) {
    match path {
        Some(p) => (Some(site + "/"@ + p), site + "/"@ + p + "/"@ + filename),
        None => (None, site + "/"@ + filename),
    }
}

/// The directory to create (if any) and the destination of a requested file.
pub fn file_destination(site: &str, file: &FilesData) -> (r: (Option<String>, String))
    ensures
        (r.0.deep_view(), r.1@) == file_destination_of(site@, file.path_view(), file.filename_view()),
{
    match file.get_path() {
        Some(p) => {
            let mut d = String::from_str(site);
            d.append("/");
            d.append(p.as_str());
            let mut f = String::from_str(d.as_str());
            f.append("/");
            f.append(file.get_filename().as_str());
            (Some(d), f)
        },
        None => {
            let mut f = String::from_str(site);
            f.append("/");
            f.append(file.get_filename().as_str());
            (None, f)
        },
    }
}

/// The answer to a request for a site's installation log, given the log's
/// state: a log that finished without error also needs the container's
/// logs (`None`); a failed one is answered with 500, a running one with 202.
pub fn log_reply(finished: bool, error: bool, logs: String) -> (r: Option<(u16, String)>)
    ensures
        finished && !error ==> r is None,
        finished && error ==> (r matches Some((c, m)) && c == 500 && m@ == logs@),
        !finished ==> (r matches Some((c, m)) && c == 202 && m@ == logs@),
{
    if finished {
        if error {
            Some((500, logs))
        } else {
            None
        }
    } else {
        Some((202, logs))
    }
}

/// The text answered for a finished installation: the log, the two
/// characters `/n`, then the container's logs.
pub fn combined_logs(logs: &str, docker_logs: &str) -> (r: String)
    ensures
        r@ == logs@ + "/n"@ + docker_logs@,
{
    let mut s = String::from_str(logs);
    s.append("/n");
    s.append(docker_logs);
    s
}

} // verus!
