//! A Cloudflare tunnel: its settings, the `cloudflared` command that opens it,
//! and whether it runs.
//!
//! The library holds the process id of a started `cloudflared`; spawning and
//! killing the process is the caller's part.
use vstd::prelude::*;

use crate::text::copy_str;

verus! {

broadcast use vstd::string::group_string_axioms;

/// A tunnel exposing the local server at `url`.
#[derive(Debug)]
pub struct CloudflareTunnel {
    pub hostname: Option<String>,
    pub url: String,
    pub token: Option<String>,
    /// The id of the running `cloudflared`, if one was started and not stopped.
    pub process: Option<u32>,
}

/// The state of a tunnel.
pub struct TunnelView {
    pub hostname: Option<Seq<char>>,
    pub url: Seq<char>,
    pub token: Option<Seq<char>>,
    /// The id of the running `cloudflared`, if one was started and not stopped.
    pub process: Option<u32>,
}

/// The view of an optional string.
pub open spec fn opt_view(s: Option<String>) -> Option<Seq<char>> {
    match s {
        Some(t) => Some(t@),
        None => None,
    }
}

impl View for CloudflareTunnel {
    type V = TunnelView;

    open spec fn view(&self) -> TunnelView {
        TunnelView {
            hostname: opt_view(self.hostname),
            url: self.url@,
            token: opt_view(self.token),
            process: self.process,
        }
    }
}

/// A fresh tunnel to `url`: no hostname, no token, not running.
pub open spec fn new_tunnel(url: Seq<char>) -> TunnelView {
    TunnelView { hostname: None, url, token: None, process: None }
}

/// The tunnel with its hostname set.
pub open spec fn set_hostname(t: TunnelView, hostname: Seq<char>) -> TunnelView {
    TunnelView { hostname: Some(hostname), ..t }
}

/// The tunnel with its token set.
pub open spec fn set_token(t: TunnelView, token: Seq<char>) -> TunnelView {
    TunnelView { token: Some(token), ..t }
}

/// The tunnel once `cloudflared` runs as process `pid`.
pub open spec fn started(t: TunnelView, pid: u32) -> TunnelView {
    TunnelView { process: Some(pid), ..t }
}

/// The tunnel once its process is stopped.
pub open spec fn stopped(t: TunnelView) -> TunnelView {
    TunnelView { process: None, ..t }
}

/// The arguments of `cloudflared` for a tunnel:
/// `tunnel --url <url>`, then `--hostname <hostname>` and `--token <token>` when set.
pub open spec fn tunnel_args(t: TunnelView) -> Seq<Seq<char>> {
    seq!["tunnel"@, "--url"@, t.url] + match t.hostname {
        Some(h) => seq!["--hostname"@, h],
        None => Seq::empty(),
    } + match t.token {
        Some(k) => seq!["--token"@, k],
        None => Seq::empty(),
    }
}

/// A tunnel with a hostname passes it to `cloudflared` as `--hostname <hostname>`,
/// right after `tunnel --url <url>`, whether or not it has a token.
pub proof fn law_hostname_is_passed(t: TunnelView, h: Seq<char>)
    requires
        t.hostname == Some(h),
    ensures
        tunnel_args(t).len() >= 5,
        tunnel_args(t)[0] == "tunnel"@,
        tunnel_args(t)[1] == "--url"@,
        tunnel_args(t)[2] == t.url,
        tunnel_args(t)[3] == "--hostname"@,
        tunnel_args(t)[4] == h,
{
}

/// The arguments for a tunnel to `url`: `tunnel --url <url>`, then
/// `--hostname <hostname>` when a hostname is set, then `--token <token>` when a
/// token is set, in whichever order they were set.
pub proof fn law_tunnel_arguments(url: Seq<char>, h: Seq<char>, k: Seq<char>)
    ensures
        tunnel_args(new_tunnel(url)) == seq!["tunnel"@, "--url"@, url],
        tunnel_args(set_hostname(new_tunnel(url), h)) == seq![
            "tunnel"@,
            "--url"@,
            url,
            "--hostname"@,
            h,
        ],
        tunnel_args(set_token(new_tunnel(url), k)) == seq!["tunnel"@, "--url"@, url, "--token"@, k],
        tunnel_args(set_token(set_hostname(new_tunnel(url), h), k)) == seq![
            "tunnel"@,
            "--url"@,
            url,
            "--hostname"@,
            h,
            "--token"@,
            k,
        ],
        tunnel_args(set_hostname(set_token(new_tunnel(url), k), h)) == tunnel_args(
            set_token(set_hostname(new_tunnel(url), h), k),
        ),
{
    assert(tunnel_args(new_tunnel(url)) =~= seq!["tunnel"@, "--url"@, url]);
    assert(tunnel_args(set_hostname(new_tunnel(url), h)) =~= seq![
        "tunnel"@,
        "--url"@,
        url,
        "--hostname"@,
        h,
    ]);
    assert(tunnel_args(set_token(new_tunnel(url), k)) =~= seq![
        "tunnel"@,
        "--url"@,
        url,
        "--token"@,
        k,
    ]);
    assert(tunnel_args(set_token(set_hostname(new_tunnel(url), h), k)) =~= seq![
        "tunnel"@,
        "--url"@,
        url,
        "--hostname"@,
        h,
        "--token"@,
        k,
    ]);
    assert(set_hostname(set_token(new_tunnel(url), k), h) == set_token(
        set_hostname(new_tunnel(url), h),
        k,
    ));
}

/// Architectures `cloudflared` is built for.
pub open spec fn is_supported_arch(arch: Seq<char>) -> bool {
    arch == "x86_64"@ || arch == "aarch64"@ || arch == "arm64"@ || arch == "amd64"@ || arch
        == "arm"@
}

impl CloudflareTunnel {
    /// A tunnel exposing `url`, not yet running.
    pub fn new(url: &str) -> (r: CloudflareTunnel)
        ensures
            r@ == new_tunnel(url@),
    {
        CloudflareTunnel { hostname: None, url: copy_str(url), token: None, process: None }
    }

    /// The tunnel under a hostname.
    pub fn with_hostname(self, hostname: &str) -> (r: CloudflareTunnel)
        ensures
            r@ == set_hostname(self@, hostname@),
    {
        CloudflareTunnel { hostname: Some(copy_str(hostname)), ..self }
    }

    /// The tunnel with an execution token.
    pub fn with_token(self, token: &str) -> (r: CloudflareTunnel)
        ensures
            r@ == set_token(self@, token@),
    {
        CloudflareTunnel { token: Some(copy_str(token)), ..self }
    }

    /// The program that opens tunnels.
    pub fn program() -> (r: &'static str)
        ensures
            r@ == "cloudflared"@,
    {
        "cloudflared"
    }

    /// The arguments of `cloudflared` for this tunnel.
    pub fn start_args(&self) -> (r: Vec<String>)
        ensures
            r@.map_values(|a: String| a@) == tunnel_args(self@),
    {
        let mut args: Vec<String> = Vec::new();
        args.push(copy_str("tunnel"));
        args.push(copy_str("--url"));
        args.push(self.url.clone());
        match &self.hostname {
            Some(h) => {
                args.push(copy_str("--hostname"));
                args.push(h.clone());
            },
            None => {},
        }
        match &self.token {
            Some(k) => {
                args.push(copy_str("--token"));
                args.push(k.clone());
            },
            None => {},
        }
        assert(args@.map_values(|a: String| a@) =~= tunnel_args(self@));
        args
    }

    /// Records that `cloudflared` was started for this tunnel as process `pid`.
    pub fn record_started(&mut self, pid: u32)
        ensures
            final(self)@ == started(old(self)@, pid),
    {
        self.process = Some(pid);
    }

    /// Stops the tunnel: hands back the id of the process to end, if one runs,
    /// and forgets it.
    pub fn stop(&mut self) -> (r: Option<u32>)
        ensures
            r == old(self)@.process,
            final(self)@ == stopped(old(self)@),
    {
        let pid = self.process;
        self.process = None;
        pid
    }

    /// Whether a `cloudflared` process runs for this tunnel.
    pub fn is_running(&self) -> (r: bool)
        ensures
            r == (self@.process is Some),
    {
        self.process.is_some()
    }

    /// Whether `cloudflared` supports the architecture `arch`
    /// (x86_64, aarch64, arm64, amd64, arm).
    pub fn supports_arch(arch: &str) -> (r: bool)
        ensures
            r == is_supported_arch(arch@),
    {
        let a = crate::text::chars_of(arch);
        let names = ["x86_64", "aarch64", "arm64", "amd64", "arm"];
        let mut i: usize = 0;
        while i < 5
            invariant
                i <= 5,
                a@ == arch@,
                names@ == seq!["x86_64", "aarch64", "arm64", "amd64", "arm"],
                forall|k: int| 0 <= k < i ==> arch@ != names@[k]@,
            decreases 5 - i,
        {
            let n = crate::text::chars_of(names[i]);
            if crate::json::vec_eq(&a, &n) {
                return true;
            }
            i += 1;
        }
        false
    }
}

/// The lines the tool prints for the tunnel it knows of, on architecture `arch`.
pub open spec fn tunnel_status_text(
    running: bool,
    url: Seq<char>,
    hostname: Option<Seq<char>>,
    arch: Seq<char>,
) -> Seq<Seq<char>> {
    if running {
        seq!["Cloudflare tunnel is running"@, "URL: "@ + url] + match hostname {
            Some(h) => seq!["Hostname: "@ + h],
            None => Seq::empty(),
        } + seq!["System architecture: "@ + arch]
    } else {
        seq!["Cloudflare tunnel is not running"@]
    }
}

/// The status report of the tunnel, if one was started.
pub fn tunnel_status_lines(tunnel: Option<&CloudflareTunnel>, arch: &str) -> (r: Vec<String>)
    ensures
        r@.map_values(|l: String| l@) == match tunnel {
            Some(t) => tunnel_status_text(t@.process is Some, t@.url, t@.hostname, arch@),
            None => seq!["Cloudflare tunnel is not running"@],
        },
{
    let mut lines: Vec<String> = Vec::new();
    match tunnel {
        Some(t) => {
            if t.is_running() {
                lines.push(copy_str("Cloudflare tunnel is running"));
                lines.push(crate::text::joined("URL: ", t.url.as_str()));
                match &t.hostname {
                    Some(h) => {
                        lines.push(crate::text::joined("Hostname: ", h.as_str()));
                    },
                    None => {},
                }
                lines.push(crate::text::joined("System architecture: ", arch));
            } else {
                lines.push(copy_str("Cloudflare tunnel is not running"));
            }
        },
        None => {
            lines.push(copy_str("Cloudflare tunnel is not running"));
        },
    }
    assert(lines@.map_values(|l: String| l@) =~= match tunnel {
        Some(t) => tunnel_status_text(t@.process is Some, t@.url, t@.hostname, arch@),
        None => seq!["Cloudflare tunnel is not running"@],
    });
    lines
}

/// A new tunnel does not run; stopping any tunnel leaves it not running, and the
/// process stopped is the one last started; starting and stopping keep the
/// tunnel's settings and so its `cloudflared` arguments.
pub proof fn law_tunnel_lifecycle(url: Seq<char>, t: TunnelView, pid: u32)
    ensures
        new_tunnel(url).process is None,
        stopped(t).process is None,
        started(t, pid).process == Some(pid),
        stopped(started(t, pid)).process is None,
        tunnel_args(started(t, pid)) == tunnel_args(t),
        tunnel_args(stopped(t)) == tunnel_args(t),
        set_hostname(t, url).url == t.url,
        set_token(t, url).url == t.url,
{
}

/// Setting the hostname and the token gives the same tunnel in either order.
pub proof fn law_settings_commute(t: TunnelView, hostname: Seq<char>, token: Seq<char>)
    ensures
        set_token(set_hostname(t, hostname), token) == set_hostname(set_token(t, token), hostname),
{
}

} // verus!
