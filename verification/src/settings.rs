//! Resolution of the installation parameters from their sources: the
//! command line comes before the environment, the environment before the
//! configuration file, and the file before the defaults. The sources are
//! read elsewhere and handed over as plain values.

use crate::config::{ConfigView, TenguConfig};
use crate::error::{ErrorView, ProvisionError};
use crate::steps::{optional_line, push_optional};
use crate::text::{chars_of, find_char, find_from, opt_view, string_of};
use vstd::prelude::*;
use vstd::string::*;

verus! {

/// What the configuration file holds. Every value may be absent.
#[derive(Debug, Clone, PartialEq, Eq)]
pub struct FileConfig {
    pub server_name: Option<String>,
    pub server_type: Option<String>,
    pub location: Option<String>,
    pub image: Option<String>,
    pub release: Option<String>,
    pub domain_platform: Option<String>,
    pub domain_apps: Option<String>,
    pub cf_api_key: Option<String>,
    pub cf_email: Option<String>,
    pub resend_api_key: Option<String>,
    pub ssh_public_key: Option<String>,
    pub notify_email: Option<String>,
}

/// What the environment holds of the variables that are looked at.
#[derive(Debug, Clone, PartialEq, Eq)]
pub struct Environment {
    pub cf_api_key: Option<String>,
    pub cf_email: Option<String>,
    pub resend_api_key: Option<String>,
    pub ssh_public_key: Option<String>,
}

/// What the command line asks of a run against an existing host.
#[derive(Debug, Clone, PartialEq, Eq)]
pub struct BaremetalRequest {
    /// The host address: `user@host` or `host`.
    pub host: String,
    pub domain_platform: Option<String>,
    pub domain_apps: Option<String>,
    pub cf_api_key: Option<String>,
    pub cf_email: Option<String>,
    pub resend_api_key: Option<String>,
    pub notify_email: Option<String>,
    pub ssh_key: Option<String>,
    pub release: Option<String>,
}

/// What the command line asks of a run that creates a server.
#[derive(Debug, Clone, PartialEq, Eq)]
pub struct HetznerRequest {
    pub name: Option<String>,
    pub server_type: Option<String>,
    pub location: Option<String>,
    pub image: Option<String>,
    pub domain_platform: Option<String>,
    pub domain_apps: Option<String>,
    pub cf_api_key: Option<String>,
    pub cf_email: Option<String>,
    pub resend_api_key: Option<String>,
    pub notify_email: Option<String>,
    pub ssh_key: Option<String>,
    pub release: Option<String>,
}

/// Mathematical model of the resolved parameters of a new server.
pub ghost struct ResolvedView {
    pub name: Seq<char>,
    pub server_type: Seq<char>,
    pub location: Seq<char>,
    pub image: Seq<char>,
    pub domain_platform: Seq<char>,
    pub domain_apps: Seq<char>,
    pub cf_api_key: Seq<char>,
    pub cf_email: Seq<char>,
    pub resend_api_key: Seq<char>,
    pub notify_email: Seq<char>,
    pub ssh_key: Seq<char>,
    pub release: Seq<char>,
}

/// The resolved parameters of a new server.
#[derive(Debug, Clone, PartialEq, Eq)]
pub struct ResolvedConfig {
    pub name: String,
    pub server_type: String,
    pub location: String,
    pub image: String,
    pub domain_platform: String,
    pub domain_apps: String,
    pub cf_api_key: String,
    pub cf_email: String,
    pub resend_api_key: String,
    pub notify_email: String,
    pub ssh_key: String,
    pub release: String,
}

impl View for ResolvedConfig {
    type V = ResolvedView;

    open spec fn view(&self) -> ResolvedView {
        ResolvedView {
            name: self.name@,
            server_type: self.server_type@,
            location: self.location@,
            image: self.image@,
            domain_platform: self.domain_platform@,
            domain_apps: self.domain_apps@,
            cf_api_key: self.cf_api_key@,
            cf_email: self.cf_email@,
            resend_api_key: self.resend_api_key@,
            notify_email: self.notify_email@,
            ssh_key: self.ssh_key@,
            release: self.release@,
        }
    }
}

/// The release that is installed where none is asked for.
pub open spec fn default_release() -> Seq<char> {
    "v0.1.0-a680bf0"@
}

/// The first of two values that is given.
pub open spec fn first_of(a: Option<String>, b: Option<String>) -> Option<Seq<char>> {
    match a {
        Some(v) => Some(v@),
        None => opt_view(b),
    }
}

/// A credential: the command line's value, else the environment's, else
/// the file's.
pub open spec fn credential(cli: Option<String>, env: Option<String>, file: Option<String>) -> Option<
    Seq<char>,
> {
    match cli {
        Some(v) => Some(v@),
        None => first_of(env, file),
    }
}

/// A setting: the command line's value, else the file's, else the default.
pub open spec fn setting(cli: Option<String>, file: Option<String>, default: Seq<char>) -> Seq<
    char,
> {
    match first_of(cli, file) {
        Some(v) => v,
        None => default,
    }
}

/// The value, or the empty text where there is none.
pub open spec fn or_empty(value: Option<Seq<char>>) -> Seq<char> {
    match value {
        Some(v) => v,
        None => Seq::empty(),
    }
}

/// The name of a required credential if it is absent.
pub open spec fn missing_name(value: Option<Seq<char>>, name: Seq<char>) -> Option<Seq<char>> {
    match value {
        Some(_) => None,
        None => Some(name),
    }
}

/// The required credentials that are absent, by the names of their fields
/// in the configuration file.
pub open spec fn missing_credentials(
    cf_api_key: Option<Seq<char>>,
    cf_email: Option<Seq<char>>,
    resend_api_key: Option<Seq<char>>,
) -> Seq<Seq<char>> {
    optional_line(missing_name(cf_api_key, "cloudflare.api_key"@)) + optional_line(
        missing_name(cf_email, "cloudflare.email"@),
    ) + optional_line(missing_name(resend_api_key, "resend.api_key"@))
}

/// The user that a host address names, or the default user.
pub open spec fn request_user(host: Seq<char>) -> Seq<char> {
    let at = find_from(host, '@', 0);
    if at < host.len() {
        host.subrange(0, at)
    } else {
        "chi"@
    }
}

/// The credentials that a run against an existing host lacks.
pub open spec fn baremetal_missing(args: BaremetalRequest, env: Environment, file: FileConfig) -> Seq<
    Seq<char>,
> {
    missing_credentials(
        credential(args.cf_api_key, env.cf_api_key, file.cf_api_key),
        credential(args.cf_email, env.cf_email, file.cf_email),
        credential(args.resend_api_key, env.resend_api_key, file.resend_api_key),
    )
}

/// The configuration of a run against an existing host.
pub open spec fn baremetal_config(args: BaremetalRequest, env: Environment, file: FileConfig) -> ConfigView {
    ConfigView {
        user: request_user(args.host@),
        domain_platform: setting(args.domain_platform, file.domain_platform, "tengu.to"@),
        domain_apps: setting(args.domain_apps, file.domain_apps, "tengu.host"@),
        cf_api_key: or_empty(credential(args.cf_api_key, env.cf_api_key, file.cf_api_key)),
        cf_email: or_empty(credential(args.cf_email, env.cf_email, file.cf_email)),
        resend_api_key: or_empty(
            credential(args.resend_api_key, env.resend_api_key, file.resend_api_key),
        ),
        notify_email: setting(args.notify_email, file.notify_email, "admin@example.com"@),
        ssh_keys: optional_line(credential(args.ssh_key, env.ssh_public_key, file.ssh_public_key)),
        release: setting(args.release, file.release, default_release()),
    }
}

/// The credentials that a run that creates a server lacks.
pub open spec fn hetzner_missing(args: HetznerRequest, env: Environment, file: FileConfig) -> Seq<
    Seq<char>,
> {
    missing_credentials(
        credential(args.cf_api_key, env.cf_api_key, file.cf_api_key),
        credential(args.cf_email, env.cf_email, file.cf_email),
        credential(args.resend_api_key, env.resend_api_key, file.resend_api_key),
    )
}

/// The parameters of a run that creates a server.
pub open spec fn hetzner_config(args: HetznerRequest, env: Environment, file: FileConfig) -> ResolvedView {
    ResolvedView {
        name: setting(args.name, file.server_name, "tengu"@),
        server_type: setting(args.server_type, file.server_type, "cax41"@),
        location: setting(args.location, file.location, "hel1"@),
        image: setting(args.image, file.image, "ubuntu-24.04"@),
        domain_platform: setting(args.domain_platform, file.domain_platform, "tengu.to"@),
        domain_apps: setting(args.domain_apps, file.domain_apps, "tengu.host"@),
        cf_api_key: or_empty(credential(args.cf_api_key, env.cf_api_key, file.cf_api_key)),
        cf_email: or_empty(credential(args.cf_email, env.cf_email, file.cf_email)),
        resend_api_key: or_empty(
            credential(args.resend_api_key, env.resend_api_key, file.resend_api_key),
        ),
        notify_email: setting(args.notify_email, file.notify_email, "admin@example.com"@),
        ssh_key: or_empty(credential(args.ssh_key, env.ssh_public_key, file.ssh_public_key)),
        release: setting(args.release, file.release, default_release()),
    }
}

/// The configuration that is shown where nothing but the file is known:
/// the file's values, with placeholders for what it leaves out.
pub open spec fn preview_config(file: FileConfig) -> ConfigView {
    ConfigView {
        user: setting(None, file.server_name, "chi"@),
        domain_platform: setting(None, file.domain_platform, "tengu.to"@),
        domain_apps: setting(None, file.domain_apps, "tengu.host"@),
        cf_api_key: setting(None, file.cf_api_key, "<CF_API_KEY>"@),
        cf_email: setting(None, file.cf_email, "<CF_EMAIL>"@),
        resend_api_key: setting(None, file.resend_api_key, "<RESEND_API_KEY>"@),
        notify_email: setting(None, file.notify_email, "admin@example.com"@),
        ssh_keys: optional_line(opt_view(file.ssh_public_key)),
        release: setting(None, file.release, default_release()),
    }
}

fn pick(cli: &Option<String>, env: &Option<String>, file: &Option<String>) -> (r: Option<String>)
    ensures
        opt_view(r) == credential(*cli, *env, *file),
{
    match cli {
        Some(v) => Some(v.clone()),
        None => match env {
            Some(v) => Some(v.clone()),
            None => match file {
                Some(v) => Some(v.clone()),
                None => None,
            },
        },
    }
}

fn pick_or(cli: &Option<String>, file: &Option<String>, default: &str) -> (r: String)
    ensures
        r@ == setting(*cli, *file, default@),
{
    match cli {
        Some(v) => v.clone(),
        None => match file {
            Some(v) => v.clone(),
            None => String::from_str(default),
        },
    }
}

fn unwrap_or_empty(value: Option<String>) -> (r: String)
    ensures
        r@ == or_empty(opt_view(value)),
{
    match value {
        Some(v) => v,
        None => String::new(),
    }
}

fn name_if_missing(value: &Option<String>, name: &str) -> (r: Option<String>)
    ensures
        opt_view(r) == missing_name(opt_view(*value), name@),
{
    match value {
        Some(_) => None,
        None => Some(String::from_str(name)),
    }
}

fn missing(
    cf_api_key: &Option<String>,
    cf_email: &Option<String>,
    resend_api_key: &Option<String>,
) -> (r: Vec<String>)
    ensures
        r.deep_view() == missing_credentials(
            opt_view(*cf_api_key),
            opt_view(*cf_email),
            opt_view(*resend_api_key),
        ),
        r.len() == 0 <==> (cf_api_key is Some && cf_email is Some && resend_api_key is Some),
{
    let mut names: Vec<String> = Vec::new();
    assert(names.deep_view() =~= Seq::<Seq<char>>::empty());
    push_optional(&mut names, name_if_missing(cf_api_key, "cloudflare.api_key"));
    push_optional(&mut names, name_if_missing(cf_email, "cloudflare.email"));
    push_optional(&mut names, name_if_missing(resend_api_key, "resend.api_key"));
    assert(names.deep_view() =~= missing_credentials(
        opt_view(*cf_api_key),
        opt_view(*cf_email),
        opt_view(*resend_api_key),
    ));
    assert(names.len() == names.deep_view().len());
    names
}

fn single(value: Option<String>) -> (r: Vec<String>)
    ensures
        r.deep_view() == optional_line(opt_view(value)),
{
    let mut list: Vec<String> = Vec::new();
    assert(list.deep_view() =~= Seq::<Seq<char>>::empty());
    push_optional(&mut list, value);
    assert(list.deep_view() =~= optional_line(opt_view(value)));
    list
}

fn user_of(host: &str) -> (r: String)
    ensures
        r@ == request_user(host@),
{
    let chars = chars_of(host);
    let at = find_char(&chars, '@', 0);
    if at < chars.len() {
        string_of(&chars, 0, at)
    } else {
        String::from_str("chi")
    }
}

/// Resolves the configuration of a run against an existing host. The run
/// cannot start without the three required credentials: where one is
/// absent, the error names all that are.
pub fn resolve_tengu_config(args: &BaremetalRequest, env: &Environment, file: &FileConfig) -> (r:
    Result<TenguConfig, ProvisionError>)
    ensures
        match r {
            Ok(config) => baremetal_missing(*args, *env, *file).len() == 0 && config@
                == baremetal_config(*args, *env, *file),
            Err(error) => baremetal_missing(*args, *env, *file).len() > 0 && error@
                == (ErrorView::ConfigurationInvalid {
                missing: baremetal_missing(*args, *env, *file),
            }),
        },
{
    let cf_api_key = pick(&args.cf_api_key, &env.cf_api_key, &file.cf_api_key);
    let cf_email = pick(&args.cf_email, &env.cf_email, &file.cf_email);
    let resend_api_key = pick(&args.resend_api_key, &env.resend_api_key, &file.resend_api_key);
    let ssh_key = pick(&args.ssh_key, &env.ssh_public_key, &file.ssh_public_key);
    let absent = missing(&cf_api_key, &cf_email, &resend_api_key);
    if absent.len() > 0 {
        assert(absent.len() == absent.deep_view().len());
        return Err(ProvisionError::ConfigurationInvalid { missing: absent });
    }
    assert(absent.len() == absent.deep_view().len());
    Ok(
        TenguConfig {
            user: user_of(args.host.as_str()),
            domain_platform: pick_or(&args.domain_platform, &file.domain_platform, "tengu.to"),
            domain_apps: pick_or(&args.domain_apps, &file.domain_apps, "tengu.host"),
            cf_api_key: unwrap_or_empty(cf_api_key),
            cf_email: unwrap_or_empty(cf_email),
            resend_api_key: unwrap_or_empty(resend_api_key),
            notify_email: pick_or(&args.notify_email, &file.notify_email, "admin@example.com"),
            ssh_keys: single(ssh_key),
            release: pick_or(&args.release, &file.release, "v0.1.0-a680bf0"),
        },
    )
}

/// Resolves the parameters of a run that creates a server. Where a
/// required credential is absent, the error names all that are.
pub fn resolve_hetzner_config(args: &HetznerRequest, env: &Environment, file: &FileConfig) -> (r:
    Result<ResolvedConfig, ProvisionError>)
    ensures
        match r {
            Ok(config) => hetzner_missing(*args, *env, *file).len() == 0 && config@
                == hetzner_config(*args, *env, *file),
            Err(error) => hetzner_missing(*args, *env, *file).len() > 0 && error@
                == (ErrorView::ConfigurationInvalid {
                missing: hetzner_missing(*args, *env, *file),
            }),
        },
{
    let cf_api_key = pick(&args.cf_api_key, &env.cf_api_key, &file.cf_api_key);
    let cf_email = pick(&args.cf_email, &env.cf_email, &file.cf_email);
    let resend_api_key = pick(&args.resend_api_key, &env.resend_api_key, &file.resend_api_key);
    let ssh_key = pick(&args.ssh_key, &env.ssh_public_key, &file.ssh_public_key);
    let absent = missing(&cf_api_key, &cf_email, &resend_api_key);
    if absent.len() > 0 {
        assert(absent.len() == absent.deep_view().len());
        return Err(ProvisionError::ConfigurationInvalid { missing: absent });
    }
    assert(absent.len() == absent.deep_view().len());
    Ok(
        ResolvedConfig {
            name: pick_or(&args.name, &file.server_name, "tengu"),
            server_type: pick_or(&args.server_type, &file.server_type, "cax41"),
            location: pick_or(&args.location, &file.location, "hel1"),
            image: pick_or(&args.image, &file.image, "ubuntu-24.04"),
            domain_platform: pick_or(&args.domain_platform, &file.domain_platform, "tengu.to"),
            domain_apps: pick_or(&args.domain_apps, &file.domain_apps, "tengu.host"),
            cf_api_key: unwrap_or_empty(cf_api_key),
            cf_email: unwrap_or_empty(cf_email),
            resend_api_key: unwrap_or_empty(resend_api_key),
            notify_email: pick_or(&args.notify_email, &file.notify_email, "admin@example.com"),
            ssh_key: unwrap_or_empty(ssh_key),
            release: pick_or(&args.release, &file.release, "v0.1.0-a680bf0"),
        },
    )
}

/// The configuration that is shown where nothing but the file is known.
pub fn resolve_preview_config(file: &FileConfig) -> (r: TenguConfig)
    ensures
        r@ == preview_config(*file),
{
    let none: Option<String> = None;
    let key = match &file.ssh_public_key {
        Some(k) => Some(k.clone()),
        None => None,
    };
    TenguConfig {
        user: pick_or(&none, &file.server_name, "chi"),
        domain_platform: pick_or(&none, &file.domain_platform, "tengu.to"),
        domain_apps: pick_or(&none, &file.domain_apps, "tengu.host"),
        cf_api_key: pick_or(&none, &file.cf_api_key, "<CF_API_KEY>"),
        cf_email: pick_or(&none, &file.cf_email, "<CF_EMAIL>"),
        resend_api_key: pick_or(&none, &file.resend_api_key, "<RESEND_API_KEY>"),
        notify_email: pick_or(&none, &file.notify_email, "admin@example.com"),
        ssh_keys: single(key),
        release: pick_or(&none, &file.release, "v0.1.0-a680bf0"),
    }
}

} // verus!
