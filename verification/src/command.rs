//! The programs the library has run, with their arguments, and the outcome
//! of a run, as plain values.
use vstd::prelude::*;

verus! {

/// What a finished program left: its exit code (`None` when a signal ended
/// it) and the bytes it wrote to its standard streams.
pub struct CommandOutput {
    pub code: Option<i32>,
    pub stdout: Vec<u8>,
    pub stderr: Vec<u8>,
}

impl CommandOutput {
    /// The program exited with code 0 (`ExitStatus::success`).
    pub open spec fn succeeded(&self) -> bool {
        self.code == Some(0i32)
    }

    pub fn success(&self) -> (b: bool)
        ensures
            b == self.succeeded(),
    {
        match self.code {
            Some(c) => c == 0,
            None => false,
        }
    }
}

/// The texts of a list of arguments.
pub open spec fn arg_views(v: Seq<String>) -> Seq<Seq<char>> {
    v.map_values(|s: String| s@)
}

/// The arguments as owned strings.
pub fn owned_args(parts: &[&str]) -> (r: Vec<String>)
    ensures
        arg_views(r@) == parts@.map_values(|s: &str| s@),
{
    let mut r: Vec<String> = Vec::new();
    let mut i: usize = 0;
    while i < parts.len()
        invariant
            0 <= i <= parts@.len(),
            arg_views(r@) == parts@.take(i as int).map_values(|s: &str| s@),
        decreases parts.len() - i,
    {
        let ghost before = r@;
        r.push(String::from_str(parts[i]));
        assert(arg_views(r@) =~= arg_views(before).push(parts@[i as int]@));
        assert(parts@.take(i + 1).map_values(|s: &str| s@) =~= parts@.take(i as int).map_values(|s: &str| s@).push(parts@[i as int]@));
        i = i + 1;
    }
    assert(parts@.take(i as int) =~= parts@);
    r
}

/// The arguments of certbot that install a site's certificate in nginx.
pub open spec fn certbot_install(server_name: Seq<char>) -> Seq<Seq<char>> {
    seq!["--nginx"@, "--agree-tos"@, "-m"@, "pi@koompi.com"@, "--reinstall"@, "--expand"@, "-d"@, server_name]
}

/// Arguments of `certbot` for a new site's certificate.
pub fn certbot_install_args(server_name: &str) -> (r: Vec<String>)
    ensures
        arg_views(r@) == certbot_install(server_name@),
{
    let r = owned_args(&["--nginx", "--agree-tos", "-m", "pi@koompi.com", "--reinstall", "--expand", "-d", server_name]);
    assert(arg_views(r@) =~= certbot_install(server_name@));
    r
}

/// The arguments of certbot that quietly reinstall a site's certificate.
pub open spec fn certbot_reinstall(server_name: Seq<char>) -> Seq<Seq<char>> {
    seq!["--nginx"@, "--agree-tos"@, "--reinstall"@, "--expand"@, "--quiet"@, "-d"@, server_name]
}

/// Arguments of `certbot` for a forced renewal of a site's certificate.
pub fn certbot_reinstall_args(server_name: &str) -> (r: Vec<String>)
    ensures
        arg_views(r@) == certbot_reinstall(server_name@),
{
    let r = owned_args(&["--nginx", "--agree-tos", "--reinstall", "--expand", "--quiet", "-d", server_name]);
    assert(arg_views(r@) =~= certbot_reinstall(server_name@));
    r
}

/// Arguments of `certbot` that delete a site's certificate.
pub fn certbot_delete_args(server_name: &str) -> (r: Vec<String>)
    ensures
        arg_views(r@) == seq!["delete"@, "-n"@, "--cert-name"@, server_name@],
{
    let r = owned_args(&["delete", "-n", "--cert-name", server_name]);
    assert(arg_views(r@) =~= seq!["delete"@, "-n"@, "--cert-name"@, server_name@]);
    r
}

/// The arguments of openssl that make the default self-signed certificate
/// of the web server, its key and certificate named after the program.
pub open spec fn default_cert(cert_path: Seq<char>, base_name: Seq<char>) -> Seq<Seq<char>> {
    seq![
        "req"@,
        "-x509"@,
        "-nodes"@,
        "-days"@,
        "365"@,
        "-newkey"@,
        "rsa:2048"@,
        "-subj"@,
        "/C=KH/ST=Cambodia/L=Phnom Penh/O=KOOMPI Co., Ltd./CN="@,
        "-keyout"@,
        cert_path + "/"@ + base_name + ".key"@,
        "-out"@,
        cert_path + "/"@ + base_name + ".crt"@,
    ]
}

/// Arguments of `openssl` for the default certificate (see `default_cert`).
pub fn default_cert_args(cert_path: &str, base_name: &str) -> (r: Vec<String>)
    ensures
        arg_views(r@) == default_cert(cert_path@, base_name@),
{
    let mut key = String::from_str(cert_path);
    key.append("/");
    key.append(base_name);
    key.append(".key");
    let mut crt = String::from_str(cert_path);
    crt.append("/");
    crt.append(base_name);
    crt.append(".crt");
    let r = owned_args(
        &[
            "req",
            "-x509",
            "-nodes",
            "-days",
            "365",
            "-newkey",
            "rsa:2048",
            "-subj",
            "/C=KH/ST=Cambodia/L=Phnom Penh/O=KOOMPI Co., Ltd./CN=",
            "-keyout",
            key.as_str(),
            "-out",
            crt.as_str(),
        ],
    );
    assert(arg_views(r@) =~= default_cert(cert_path@, base_name@));
    r
}

/// The compose file of a hosted site.
pub open spec fn compose_file(theme_path: Seq<char>) -> Seq<char> {
    theme_path + "/docker-compose.yaml"@
}

/// The docker compose actions on a hosted site.
pub enum ComposeAction {
    Build,
    Down,
    Up,
}

/// The arguments of `docker` for a compose action on a site's compose file:
/// `build`, `down`, or `up -d`.
pub open spec fn compose(theme_path: Seq<char>, action: ComposeAction) -> Seq<Seq<char>> {
    let head = seq!["compose"@, "-f"@, compose_file(theme_path)];
    match action {
        ComposeAction::Build => head.push("build"@),
        ComposeAction::Down => head.push("down"@),
        ComposeAction::Up => head.push("up"@).push("-d"@),
    }
}

/// Arguments of `docker` for a compose action (see `compose`).
pub fn compose_args(theme_path: &str, action: ComposeAction) -> (r: Vec<String>)
    ensures
        arg_views(r@) == compose(theme_path@, action),
{
    let mut file = String::from_str(theme_path);
    file.append("/docker-compose.yaml");
    let r = match action {
        ComposeAction::Build => owned_args(&["compose", "-f", file.as_str(), "build"]),
        ComposeAction::Down => owned_args(&["compose", "-f", file.as_str(), "down"]),
        ComposeAction::Up => owned_args(&["compose", "-f", file.as_str(), "up", "-d"]),
    };
    assert(arg_views(r@) =~= compose(theme_path@, action));
    r
}

} // verus!
