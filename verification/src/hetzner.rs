//! Creation of a fresh server through the provider's command-line client:
//! the arguments of each call, what its output means, and what to do about
//! a server that exists already. The calls themselves are made elsewhere.

use crate::progress::{trim, trimmed};
use crate::text::{chars_of, contains, has_substring, push_line, string_of};
use vstd::prelude::*;
use vstd::string::*;

verus! {

/// Parameters of a server to create.
#[derive(Debug, Clone, PartialEq, Eq)]
pub struct ServerParams {
    pub name: String,
    pub server_type: String,
    pub image: String,
    pub location: String,
    /// Path of the file that holds the boot-time document.
    pub cloud_init_path: String,
}

/// The provider, reached through its command-line client.
#[derive(Debug, Clone, Copy, PartialEq, Eq, Structural)]
pub struct Hetzner;

/// Arguments that describe a server type as cores, memory and
/// architecture.
pub open spec fn describe_type_args_of(server_type: Seq<char>) -> Seq<Seq<char>> {
    seq![
        "server-type"@,
        "describe"@,
        server_type,
        "-o"@,
        "format={{.Cores}} cores, {{.Memory}}GB RAM, {{.Architecture}}"@,
    ]
}

/// A call on a server by its name.
pub open spec fn server_args_of(verb: Seq<char>, name: Seq<char>) -> Seq<Seq<char>> {
    seq!["server"@, verb, name]
}

/// Arguments that create a server.
pub open spec fn create_args_of(params: ServerParams) -> Seq<Seq<char>> {
    seq![
        "server"@,
        "create"@,
        "--name"@,
        params.name@,
        "--type"@,
        params.server_type@,
        "--image"@,
        params.image@,
        "--location"@,
        params.location@,
        "--user-data-from-file"@,
        params.cloud_init_path@,
    ]
}

/// What the answer to the question for a server type means: the trimmed
/// output, or that the type is unknown.
pub open spec fn type_info_of(success: bool, stdout: Seq<char>, server_type: Seq<char>) -> Result<
    Seq<char>,
    Seq<char>,
> {
    if success {
        Ok(trimmed(stdout))
    } else {
        Err("Unknown server type: "@ + server_type)
    }
}

/// What to do about the server's name before a server is created.
#[derive(Debug, Clone, Copy, PartialEq, Eq, Structural)]
pub enum Replacement {
    /// No server has the name: create one.
    Create,
    /// A server has the name: ask whether it may be deleted.
    Ask,
    /// A server has the name and is to be replaced: delete it, then create.
    Replace,
    /// A server has the name and stays: end the run.
    Keep,
}

/// What to do about the server's name, before anybody was asked.
pub open spec fn replacement_of(exists: bool, force: bool) -> Replacement {
    if !exists {
        Replacement::Create
    } else if force {
        Replacement::Replace
    } else {
        Replacement::Ask
    }
}

/// What to do once the question was answered.
pub open spec fn answered_replacement(confirmed: bool) -> Replacement {
    if confirmed {
        Replacement::Replace
    } else {
        Replacement::Keep
    }
}

/// Whether a line of the first-boot log tells of progress. All other lines
/// are noise.
pub open spec fn boot_line_shown(line: Seq<char>) -> bool {
    ||| has_substring(line, "Setting up"@)
    ||| has_substring(line, "Unpacking"@)
    ||| has_substring(line, "Created symlink"@)
    ||| has_substring(line, "enabled"@)
    ||| has_substring(line, "Processing"@)
    ||| has_substring(line, "tengu"@)
    ||| has_substring(line, "Tengu"@)
}

/// The first twelve characters of a key, followed by three dots.
pub open spec fn masked_key(key: Seq<char>) -> Seq<char> {
    key.take(if key.len() < 12 {
        key.len() as int
    } else {
        12
    }) + "..."@
}

fn server_args(verb: &str, name: &str) -> (r: Vec<String>)
    ensures
        r.deep_view() == server_args_of(verb@, name@),
{
    let mut args: Vec<String> = Vec::new();
    assert(args.deep_view() =~= Seq::<Seq<char>>::empty());
    push_line(&mut args, String::from_str("server"));
    push_line(&mut args, String::from_str(verb));
    push_line(&mut args, String::from_str(name));
    assert(args.deep_view() =~= server_args_of(verb@, name@));
    args
}

impl Hetzner {
    /// Arguments that ask for a server type's cores, memory and
    /// architecture.
    pub fn describe_type_args(server_type: &str) -> (r: Vec<String>)
        ensures
            r.deep_view() == describe_type_args_of(server_type@),
    {
        let mut args: Vec<String> = Vec::new();
        assert(args.deep_view() =~= Seq::<Seq<char>>::empty());
        push_line(&mut args, String::from_str("server-type"));
        push_line(&mut args, String::from_str("describe"));
        push_line(&mut args, String::from_str(server_type));
        push_line(&mut args, String::from_str("-o"));
        push_line(
            &mut args,
            String::from_str("format={{.Cores}} cores, {{.Memory}}GB RAM, {{.Architecture}}"),
        );
        assert(args.deep_view() =~= describe_type_args_of(server_type@));
        args
    }

    /// Reads the answer to the question for a server type.
    pub fn type_info(success: bool, stdout: &str, server_type: &str) -> (r: Result<String, String>)
        ensures
            match r {
                Ok(info) => type_info_of(success, stdout@, server_type@) == Ok::<
                    Seq<char>,
                    Seq<char>,
                >(info@),
                Err(reason) => type_info_of(success, stdout@, server_type@) == Err::<
                    Seq<char>,
                    Seq<char>,
                >(reason@),
            },
    {
        if success {
            Ok(trim(stdout))
        } else {
            let mut reason = String::from_str("Unknown server type: ");
            reason.append(server_type);
            Err(reason)
        }
    }

    /// Arguments that ask whether a server of this name exists.
    pub fn exists_args(name: &str) -> (r: Vec<String>)
        ensures
            r.deep_view() == server_args_of("describe"@, name@),
    {
        server_args("describe", name)
    }

    /// Arguments that delete a server.
    pub fn delete_args(name: &str) -> (r: Vec<String>)
        ensures
            r.deep_view() == server_args_of("delete"@, name@),
    {
        server_args("delete", name)
    }

    /// Arguments that create a server.
    pub fn create_args(params: &ServerParams) -> (r: Vec<String>)
        ensures
            r.deep_view() == create_args_of(*params),
    {
        let mut args: Vec<String> = Vec::new();
        assert(args.deep_view() =~= Seq::<Seq<char>>::empty());
        push_line(&mut args, String::from_str("server"));
        push_line(&mut args, String::from_str("create"));
        push_line(&mut args, String::from_str("--name"));
        push_line(&mut args, params.name.clone());
        push_line(&mut args, String::from_str("--type"));
        push_line(&mut args, params.server_type.clone());
        push_line(&mut args, String::from_str("--image"));
        push_line(&mut args, params.image.clone());
        push_line(&mut args, String::from_str("--location"));
        push_line(&mut args, params.location.clone());
        push_line(&mut args, String::from_str("--user-data-from-file"));
        push_line(&mut args, params.cloud_init_path.clone());
        assert(args.deep_view() =~= create_args_of(*params));
        args
    }

    /// Arguments that ask for a server's address.
    pub fn ip_args(name: &str) -> (r: Vec<String>)
        ensures
            r.deep_view() == server_args_of("ip"@, name@),
    {
        server_args("ip", name)
    }

    /// The address in the answer to the question for it.
    pub fn server_ip(stdout: &str) -> (r: String)
        ensures
            r@ == trimmed(stdout@),
    {
        trim(stdout)
    }

    /// Arguments, for the key generator, that forget the host key of an
    /// address.
    pub fn clear_host_key_args(ip: &str) -> (r: Vec<String>)
        ensures
            r.deep_view() == seq!["-R"@, ip@],
    {
        let mut args: Vec<String> = Vec::new();
        assert(args.deep_view() =~= Seq::<Seq<char>>::empty());
        push_line(&mut args, String::from_str("-R"));
        push_line(&mut args, String::from_str(ip));
        assert(args.deep_view() =~= seq!["-R"@, ip@]);
        args
    }

    /// What to do about the server's name, before anybody was asked.
    pub fn replacement(exists: bool, force: bool) -> (r: Replacement)
        ensures
            r == replacement_of(exists, force),
    {
        if !exists {
            Replacement::Create
        } else if force {
            Replacement::Replace
        } else {
            Replacement::Ask
        }
    }

    /// What to do once the question was answered.
    pub fn answered(confirmed: bool) -> (r: Replacement)
        ensures
            r == answered_replacement(confirmed),
    {
        if confirmed {
            Replacement::Replace
        } else {
            Replacement::Keep
        }
    }
}

/// Whether a line of the first-boot log is shown.
pub fn boot_log_line_shown(line: &str) -> (r: bool)
    ensures
        r == boot_line_shown(line@),
{
    contains(line, "Setting up") || contains(line, "Unpacking") || contains(
        line,
        "Created symlink",
    ) || contains(line, "enabled") || contains(line, "Processing") || contains(line, "tengu")
        || contains(line, "Tengu")
}

/// Masks a key for display.
pub fn mask_key(key: &str) -> (r: String)
    ensures
        r@ == masked_key(key@),
{
    let chars = chars_of(key);
    let shown: usize = if chars.len() < 12 {
        chars.len()
    } else {
        12
    };
    let mut out = string_of(&chars, 0, shown);
    assert(chars@.subrange(0, shown as int) =~= key@.take(shown as int));
    out.append("...");
    out
}

} // verus!
