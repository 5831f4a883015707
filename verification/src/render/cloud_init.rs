//! The boot-time document renderer: the steps' fragments are merged into
//! one document with a fixed preamble, and the document is written as YAML
//! behind its type marker line.

use super::yaml::{
    flag_value, list_value, text_trees, text_value, texts_value, value_tree, value_trees,
    write_value, yaml_text, Mapping, YamlTree,
};
use super::{RenderError, Renderer};
use crate::config::{ConfigView, TenguConfig};
use crate::manifest::{Manifest, ManifestView};
use crate::steps::{
    commands_only, files_view, CloudInitFile, CloudInitFragment, FileView, FragmentView, Step,
    StepView,
};
use crate::text::{
    copy_optional, copy_texts, join, joined, lemma_sorted_unique, occurs_at, opt_view,
    sort_unique, sorted_unique, strictly_increasing,
};
use vstd::prelude::*;
use vstd::string::*;

verus! {

/// Mathematical model of the user record of a document.
pub ghost struct UserView {
    pub name: Seq<char>,
    pub groups: Seq<Seq<char>>,
    pub shell: Seq<char>,
    pub sudo: Seq<char>,
    pub ssh_authorized_keys: Seq<Seq<char>>,
}

/// The user record of a document.
#[derive(Debug, Clone)]
pub struct CloudInitUserConfig {
    pub name: String,
    pub groups: Vec<String>,
    pub shell: String,
    pub sudo: String,
    pub ssh_authorized_keys: Vec<String>,
}

impl View for CloudInitUserConfig {
    type V = UserView;

    open spec fn view(&self) -> UserView {
        UserView {
            name: self.name@,
            groups: self.groups.deep_view(),
            shell: self.shell@,
            sudo: self.sudo@,
            ssh_authorized_keys: self.ssh_authorized_keys.deep_view(),
        }
    }
}

/// Zero or one user records, as the document lists them.
pub open spec fn users_view(user: Option<CloudInitUserConfig>) -> Seq<UserView> {
    match user {
        Some(u) => seq![u@],
        None => Seq::empty(),
    }
}

/// The user record for a configuration: the configured user with the sudo
/// and container groups, the default shell, password-less sudo, and the
/// configured keys.
pub open spec fn config_user(c: ConfigView) -> UserView {
    UserView {
        name: c.user,
        groups: seq!["sudo"@, "docker"@],
        shell: "/bin/bash"@,
        sudo: "ALL=(ALL) NOPASSWD:ALL"@,
        ssh_authorized_keys: c.ssh_keys,
    }
}

/// Mathematical model of a boot-time document. Its fixed settings (no
/// password logins, no root login, update and upgrade on first boot, the
/// final message) are no part of the model: they are the same in every
/// document.
pub ghost struct DocumentView {
    pub hostname: Seq<char>,
    pub fqdn: Option<Seq<char>>,
    pub timezone: Seq<char>,
    pub locale: Seq<char>,
    pub users: Seq<UserView>,
    pub packages: Seq<Seq<char>>,
    pub write_files: Seq<FileView>,
    pub runcmd: Seq<Seq<char>>,
}

/// A boot-time document.
#[derive(Debug, Clone)]
pub struct CloudInitDocument {
    pub hostname: String,
    pub fqdn: Option<String>,
    pub timezone: String,
    pub locale: String,
    /// Zero or one user records.
    pub user: Option<CloudInitUserConfig>,
    /// Packages to install: sorted, each once.
    pub packages: Vec<String>,
    /// Files to write, in step order.
    pub write_files: Vec<CloudInitFile>,
    /// Commands to run, in step order.
    pub runcmd: Vec<String>,
}

impl View for CloudInitDocument {
    type V = DocumentView;

    open spec fn view(&self) -> DocumentView {
        DocumentView {
            hostname: self.hostname@,
            fqdn: opt_view(self.fqdn),
            timezone: self.timezone@,
            locale: self.locale@,
            users: users_view(self.user),
            packages: self.packages.deep_view(),
            write_files: files_view(self.write_files@),
            runcmd: self.runcmd.deep_view(),
        }
    }
}

/// The fragments of the steps, concatenated in step order.
pub open spec fn merged(steps: Seq<StepView>) -> FragmentView
    decreases steps.len(),
{
    if steps.len() == 0 {
        commands_only(Seq::empty())
    } else {
        let before = merged(steps.drop_last());
        let fragment = steps.last().cloud_init();
        FragmentView {
            packages: before.packages + fragment.packages,
            write_files: before.write_files + fragment.write_files,
            runcmd: before.runcmd + fragment.runcmd,
        }
    }
}

/// The document for a manifest: the host's metadata, the user records, the
/// packages of all steps sorted and each once, and the files and commands
/// of all steps in step order.
pub open spec fn document_of(m: ManifestView, users: Seq<UserView>) -> DocumentView {
    let all = merged(m.steps);
    DocumentView {
        hostname: m.hostname,
        fqdn: m.fqdn,
        timezone: m.timezone,
        locale: m.locale,
        users,
        packages: sorted_unique(all.packages),
        write_files: all.write_files,
        runcmd: all.runcmd,
    }
}

/// A mapping entry that holds a text, where the text is given.
pub open spec fn optional_text_entry(key: Seq<char>, value: Option<Seq<char>>) -> Seq<
    (Seq<char>, YamlTree),
> {
    match value {
        Some(text) => seq![(key, YamlTree::Text(text))],
        None => Seq::empty(),
    }
}

/// A mapping entry that holds a list, unless the list is empty.
pub open spec fn list_entry(key: Seq<char>, items: Seq<YamlTree>) -> Seq<(Seq<char>, YamlTree)> {
    if items.len() == 0 {
        Seq::empty()
    } else {
        seq![(key, YamlTree::List(items))]
    }
}

/// A user record as a YAML mapping; the groups are joined by commas.
pub open spec fn user_tree(u: UserView) -> YamlTree {
    YamlTree::Table(
        seq![
            ("name"@, YamlTree::Text(u.name)),
            ("groups"@, YamlTree::Text(joined(u.groups, ", "@))),
            ("shell"@, YamlTree::Text(u.shell)),
            ("sudo"@, YamlTree::Text(u.sudo)),
        ] + list_entry("ssh_authorized_keys"@, text_trees(u.ssh_authorized_keys)),
    )
}

/// A file as a YAML mapping.
pub open spec fn file_tree(f: FileView) -> YamlTree {
    YamlTree::Table(
        seq![("path"@, YamlTree::Text(f.path)), ("content"@, YamlTree::Text(f.content))]
            + optional_text_entry("permissions"@, f.permissions) + optional_text_entry(
            "owner"@,
            f.owner,
        ),
    )
}

/// The user records as YAML mappings.
pub open spec fn user_trees(users: Seq<UserView>) -> Seq<YamlTree> {
    Seq::new(users.len(), |i: int| user_tree(users[i]))
}

/// The files as YAML mappings.
pub open spec fn file_trees(files: Seq<FileView>) -> Seq<YamlTree> {
    Seq::new(files.len(), |i: int| file_tree(files[i]))
}

/// A document as a YAML mapping. Keys appear in this order; an absent
/// domain name and empty lists are left out.
pub open spec fn document_tree(d: DocumentView) -> YamlTree {
    YamlTree::Table(
        seq![("hostname"@, YamlTree::Text(d.hostname))] + optional_text_entry("fqdn"@, d.fqdn)
            + seq![
            ("timezone"@, YamlTree::Text(d.timezone)),
            ("locale"@, YamlTree::Text(d.locale)),
            ("ssh_pwauth"@, YamlTree::Flag(false)),
            ("disable_root"@, YamlTree::Flag(true)),
        ] + list_entry("users"@, user_trees(d.users)) + seq![
            ("package_update"@, YamlTree::Flag(true)),
            ("package_upgrade"@, YamlTree::Flag(true)),
        ] + list_entry("packages"@, text_trees(d.packages)) + list_entry(
            "write_files"@,
            file_trees(d.write_files),
        ) + list_entry("runcmd"@, text_trees(d.runcmd)) + seq![
            ("final_message"@, YamlTree::Text("Tengu PaaS server ready!"@)),
        ],
    )
}

/// The line by which a boot-time document is recognised.
pub open spec fn document_marker() -> Seq<char> {
    "#cloud-config\n"@
}

/// The rendered document for a manifest and its user records: the marker
/// line and the YAML text of the document, or nothing where the YAML
/// writer writes none.
pub open spec fn rendered(m: ManifestView, users: Seq<UserView>) -> Option<Seq<char>> {
    match yaml_text(document_tree(document_of(m, users))) {
        Some(body) => Some(document_marker() + body),
        None => None,
    }
}

/// Puts the marker line before the YAML text of a document; a failure of
/// the YAML writer becomes a rendering error with the writer's message.
pub fn frame_document(yaml: Result<String, String>) -> (r: Result<String, RenderError>)
    ensures
        match (yaml, r) {
            (Ok(body), Ok(document)) => document@ == document_marker() + body@,
            (Err(reason), Err(RenderError::Serialization(message))) => message@ == reason@,
            _ => false,
        },
{
    match yaml {
        Ok(body) => {
            let mut document = String::from_str("#cloud-config\n");
            document.append(body.as_str());
            Ok(document)
        },
        Err(reason) => Err(RenderError::Serialization(reason)),
    }
}

fn put_text(mapping: &mut Mapping, key: &str, text: &str)
    requires
        old(mapping).wf(),
        !old(mapping).used@.contains(key@),
    ensures
        final(mapping).wf(),
        final(mapping).trees() == old(mapping).trees() + seq![(key@, YamlTree::Text(text@))],
        final(mapping).used@ == old(mapping).used@.insert(key@),
{
    mapping.put(key, text_value(text));
    proof {
        assert(mapping.trees() =~= old(mapping).trees() + seq![(key@, YamlTree::Text(text@))]);
    }
}

fn put_flag(mapping: &mut Mapping, key: &str, flag: bool)
    requires
        old(mapping).wf(),
        !old(mapping).used@.contains(key@),
    ensures
        final(mapping).wf(),
        final(mapping).trees() == old(mapping).trees() + seq![(key@, YamlTree::Flag(flag))],
        final(mapping).used@ == old(mapping).used@.insert(key@),
{
    mapping.put(key, flag_value(flag));
    proof {
        assert(mapping.trees() =~= old(mapping).trees() + seq![(key@, YamlTree::Flag(flag))]);
    }
}

fn put_optional_text(mapping: &mut Mapping, key: &str, text: &Option<String>)
    requires
        old(mapping).wf(),
        !old(mapping).used@.contains(key@),
    ensures
        final(mapping).wf(),
        final(mapping).trees() == old(mapping).trees() + optional_text_entry(
            key@,
            opt_view(*text),
        ),
        final(mapping).used@ == old(mapping).used@.insert(key@),
{
    match text {
        Some(t) => {
            put_text(mapping, key, t.as_str());
        },
        None => {
            mapping.omit(key);
            assert(mapping.trees() =~= old(mapping).trees() + Seq::<
                (Seq<char>, YamlTree),
            >::empty());
        },
    }
}

fn put_list(mapping: &mut Mapping, key: &str, items: Vec<serde_yaml::Value>)
    requires
        old(mapping).wf(),
        !old(mapping).used@.contains(key@),
    ensures
        final(mapping).wf(),
        final(mapping).trees() == old(mapping).trees() + list_entry(key@, value_trees(items@)),
        final(mapping).used@ == old(mapping).used@.insert(key@),
{
    if items.len() == 0 {
        mapping.omit(key);
        assert(mapping.trees() =~= old(mapping).trees() + Seq::<(Seq<char>, YamlTree)>::empty());
    } else {
        let ghost trees = value_trees(items@);
        mapping.put(key, list_value(items));
        proof {
            assert(mapping.trees() =~= old(mapping).trees() + list_entry(key@, trees));
            }
    }
}

fn put_texts(mapping: &mut Mapping, key: &str, texts: &Vec<String>)
    requires
        old(mapping).wf(),
        !old(mapping).used@.contains(key@),
    ensures
        final(mapping).wf(),
        final(mapping).trees() == old(mapping).trees() + list_entry(
            key@,
            text_trees(texts.deep_view()),
        ),
        final(mapping).used@ == old(mapping).used@.insert(key@),
{
    if texts.len() == 0 {
        mapping.omit(key);
        assert(mapping.trees() =~= old(mapping).trees() + Seq::<(Seq<char>, YamlTree)>::empty());
        assert(text_trees(texts.deep_view()).len() == 0);
    } else {
        assert(text_trees(texts.deep_view()).len() > 0);
        mapping.put(key, texts_value(texts));
        proof {
            assert(mapping.trees() =~= old(mapping).trees() + list_entry(
                key@,
                text_trees(texts.deep_view()),
            ));
            }
    }
}

/// The keys of a user record differ in length or in their first letter.
proof fn lemma_user_keys()
    ensures
        "name"@.len() == 4 && "name"@[0] == 'n',
        "groups"@.len() == 6,
        "shell"@.len() == 5,
        "sudo"@.len() == 4 && "sudo"@[0] == 's',
        "ssh_authorized_keys"@.len() == 19,
{
    reveal_strlit("name");
    reveal_strlit("groups");
    reveal_strlit("shell");
    reveal_strlit("sudo");
    reveal_strlit("ssh_authorized_keys");
}

/// The keys of a file differ in length.
proof fn lemma_file_keys()
    ensures
        "path"@.len() == 4,
        "content"@.len() == 7,
        "permissions"@.len() == 11,
        "owner"@.len() == 5,
{
    reveal_strlit("path");
    reveal_strlit("content");
    reveal_strlit("permissions");
    reveal_strlit("owner");
}

/// The keys of a document differ in length or in their first letter.
proof fn lemma_document_keys()
    ensures
        "hostname"@.len() == 8 && "hostname"@[0] == 'h',
        "fqdn"@.len() == 4,
        "timezone"@.len() == 8 && "timezone"@[0] == 't',
        "locale"@.len() == 6 && "locale"@[0] == 'l',
        "ssh_pwauth"@.len() == 10,
        "disable_root"@.len() == 12,
        "users"@.len() == 5,
        "package_update"@.len() == 14,
        "package_upgrade"@.len() == 15,
        "packages"@.len() == 8 && "packages"@[0] == 'p',
        "write_files"@.len() == 11,
        "runcmd"@.len() == 6 && "runcmd"@[0] == 'r',
        "final_message"@.len() == 13,
{
    reveal_strlit("hostname");
    reveal_strlit("fqdn");
    reveal_strlit("timezone");
    reveal_strlit("locale");
    reveal_strlit("ssh_pwauth");
    reveal_strlit("disable_root");
    reveal_strlit("users");
    reveal_strlit("package_update");
    reveal_strlit("package_upgrade");
    reveal_strlit("packages");
    reveal_strlit("write_files");
    reveal_strlit("runcmd");
    reveal_strlit("final_message");
}

impl CloudInitUserConfig {
    /// A copy of the record.
    pub fn duplicate(&self) -> (r: Self)
        ensures
            r@ == self@,
    {
        CloudInitUserConfig {
            name: self.name.clone(),
            groups: copy_texts(&self.groups),
            shell: self.shell.clone(),
            sudo: self.sudo.clone(),
            ssh_authorized_keys: copy_texts(&self.ssh_authorized_keys),
        }
    }

    /// The record as a YAML mapping.
    pub fn to_yaml(&self) -> (r: serde_yaml::Value)
        ensures
            value_tree(r) == user_tree(self@),
    {
        proof {
            lemma_user_keys();
        }
        let mut mapping = Mapping::new();
        put_text(&mut mapping, "name", self.name.as_str());
        put_text(&mut mapping, "groups", join(&self.groups, ", ").as_str());
        put_text(&mut mapping, "shell", self.shell.as_str());
        put_text(&mut mapping, "sudo", self.sudo.as_str());
        put_texts(&mut mapping, "ssh_authorized_keys", &self.ssh_authorized_keys);
        assert(mapping.trees() =~= user_tree(self@)->Table_0);
        mapping.finish()
    }
}

impl CloudInitFile {
    /// The file as a YAML mapping.
    pub fn to_yaml(&self) -> (r: serde_yaml::Value)
        ensures
            value_tree(r) == file_tree(self@),
    {
        proof {
            lemma_file_keys();
        }
        let mut mapping = Mapping::new();
        put_text(&mut mapping, "path", self.path.as_str());
        put_text(&mut mapping, "content", self.content.as_str());
        put_optional_text(&mut mapping, "permissions", &self.permissions);
        put_optional_text(&mut mapping, "owner", &self.owner);
        assert(mapping.trees() =~= file_tree(self@)->Table_0);
        mapping.finish()
    }
}

impl CloudInitDocument {
    fn user_values(&self) -> (r: Vec<serde_yaml::Value>)
        ensures
            value_trees(r@) == user_trees(self@.users),
    {
        let mut values: Vec<serde_yaml::Value> = Vec::new();
        match &self.user {
            Some(user) => {
                values.push(user.to_yaml());
                assert(value_trees(values@) =~= user_trees(self@.users));
            },
            None => {
                assert(value_trees(values@) =~= user_trees(self@.users));
            },
        }
        values
    }

    fn file_values(&self) -> (r: Vec<serde_yaml::Value>)
        ensures
            value_trees(r@) == file_trees(self@.write_files),
    {
        let ghost files = self@.write_files;
        let mut values: Vec<serde_yaml::Value> = Vec::new();
        let mut i: usize = 0;
        while i < self.write_files.len()
            invariant
                i <= self.write_files.len(),
                files == self@.write_files,
                values.len() == i,
                value_trees(values@) == file_trees(files.take(i as int)),
            decreases self.write_files.len() - i,
        {
            let ghost before = values@;
            values.push(self.write_files[i].to_yaml());
            assert forall|k: int| 0 <= k <= i implies value_trees(values@)[k] == file_trees(
                files.take(i + 1),
            )[k] by {
                if k < i {
                    assert(value_trees(before)[k] == file_trees(files.take(i as int))[k]);
                }
            }
            assert(value_trees(values@) =~= file_trees(files.take(i + 1)));
            i += 1;
        }
        assert(files.take(self.write_files.len() as int) =~= files);
        values
    }

    /// The document as a YAML mapping.
    pub fn to_yaml(&self) -> (r: serde_yaml::Value)
        ensures
            value_tree(r) == document_tree(self@),
    {
        proof {
            lemma_document_keys();
        }
        let mut mapping = Mapping::new();
        put_text(&mut mapping, "hostname", self.hostname.as_str());
        put_optional_text(&mut mapping, "fqdn", &self.fqdn);
        put_text(&mut mapping, "timezone", self.timezone.as_str());
        put_text(&mut mapping, "locale", self.locale.as_str());
        put_flag(&mut mapping, "ssh_pwauth", false);
        put_flag(&mut mapping, "disable_root", true);
        put_list(&mut mapping, "users", self.user_values());
        put_flag(&mut mapping, "package_update", true);
        put_flag(&mut mapping, "package_upgrade", true);
        put_texts(&mut mapping, "packages", &self.packages);
        put_list(&mut mapping, "write_files", self.file_values());
        put_texts(&mut mapping, "runcmd", &self.runcmd);
        put_text(&mut mapping, "final_message", "Tengu PaaS server ready!");
        assert(mapping.trees() =~= document_tree(self@)->Table_0);
        mapping.finish()
    }
}

/// Renders a manifest as a boot-time document.
#[derive(Debug, Clone)]
pub struct CloudInitRenderer {
    /// The user record of the documents, if they have one.
    pub user_config: Option<CloudInitUserConfig>,
}

/// Merges the fragments of the steps, in step order.
pub fn merge_fragments(manifest: &Manifest) -> (r: CloudInitFragment)
    ensures
        r@ == merged(manifest@.steps),
{
    let ghost steps = manifest@.steps;
    let mut packages: Vec<String> = Vec::new();
    let mut write_files: Vec<CloudInitFile> = Vec::new();
    let mut runcmd: Vec<String> = Vec::new();
    assert(packages.deep_view() =~= Seq::empty() && runcmd.deep_view() =~= Seq::empty()
        && files_view(write_files@) =~= Seq::empty());
    let mut i: usize = 0;
    while i < manifest.steps.len()
        invariant
            i <= manifest.steps.len(),
            steps == manifest@.steps,
            packages.deep_view() == merged(steps.take(i as int)).packages,
            files_view(write_files@) == merged(steps.take(i as int)).write_files,
            runcmd.deep_view() == merged(steps.take(i as int)).runcmd,
        decreases manifest.steps.len() - i,
    {
        let fragment = manifest.steps[i].to_cloud_init();
        let ghost f = fragment@;
        let ghost p = packages.deep_view();
        let ghost w = files_view(write_files@);
        let ghost c = runcmd.deep_view();
        let CloudInitFragment { packages: mut more_packages, write_files: mut more_files, runcmd: mut more_commands } =
            fragment;
        packages.append(&mut more_packages);
        write_files.append(&mut more_files);
        runcmd.append(&mut more_commands);
        proof {
            assert(steps.take(i + 1).drop_last() =~= steps.take(i as int));
            assert(steps.take(i + 1).last() == manifest.steps[i as int]@);
            assert(packages.deep_view() =~= p + f.packages);
            assert(files_view(write_files@) =~= w + f.write_files);
            assert(runcmd.deep_view() =~= c + f.runcmd);
        }
        i += 1;
    }
    assert(steps.take(manifest.steps.len() as int) =~= steps);
    CloudInitFragment { packages, write_files, runcmd }
}

impl CloudInitRenderer {
    /// A renderer for documents without a user record.
    pub fn new() -> (r: Self)
        ensures
            r.user_config is None,
    {
        CloudInitRenderer { user_config: None }
    }

    /// A renderer for documents with the user record of a configuration.
    pub fn for_config(config: &TenguConfig) -> (r: Self)
        ensures
            users_view(r.user_config) == seq![config_user(config@)],
    {
        let mut groups: Vec<String> = Vec::new();
        groups.push(String::from_str("sudo"));
        groups.push(String::from_str("docker"));
        assert(groups.deep_view() =~= seq!["sudo"@, "docker"@]);
        let keys = copy_texts(&config.ssh_keys);
        CloudInitRenderer {
            user_config: Some(
                CloudInitUserConfig {
                    name: config.user.clone(),
                    groups,
                    shell: String::from_str("/bin/bash"),
                    sudo: String::from_str("ALL=(ALL) NOPASSWD:ALL"),
                    ssh_authorized_keys: keys,
                },
            ),
        }
    }

    /// The document for a manifest.
    pub fn document(&self, manifest: &Manifest) -> (r: CloudInitDocument)
        ensures
            r@ == document_of(manifest@, users_view(self.user_config)),
            strictly_increasing(r@.packages),
    {
        let fragment = merge_fragments(manifest);
        let packages = sort_unique(&fragment.packages);
        proof {
            lemma_sorted_unique(fragment.packages.deep_view());
        }
        let user = match &self.user_config {
            Some(u) => Some(u.duplicate()),
            None => None,
        };
        CloudInitDocument {
            hostname: manifest.hostname.clone(),
            fqdn: copy_optional(&manifest.fqdn),
            timezone: manifest.timezone.clone(),
            locale: manifest.locale.clone(),
            user,
            packages,
            write_files: fragment.write_files,
            runcmd: fragment.runcmd,
        }
    }

    /// Renders a manifest with the user record of a configuration. The
    /// renderer's own user record is not used. It succeeds exactly where
    /// the YAML writer writes the document.
    pub fn render_with_config(&self, manifest: &Manifest, config: &TenguConfig) -> (r: Result<
        String,
        RenderError,
    >)
        ensures
            match r {
                Ok(document) => rendered(manifest@, seq![config_user(config@)]) == Some(document@)
                    && occurs_at(document@, document_marker(), 0),
                Err(_) => rendered(manifest@, seq![config_user(config@)]) is None,
            },
    {
        CloudInitRenderer::for_config(config).render(manifest)
    }
}

impl Default for CloudInitRenderer {
    fn default() -> (r: Self)
        ensures
            r.user_config is None,
    {
        CloudInitRenderer::new()
    }
}

impl Renderer for CloudInitRenderer {
    type Output = String;

    type Error = RenderError;

    /// Renders the manifest as a boot-time document. It succeeds exactly
    /// where the YAML writer writes the document, and then returns the
    /// marker line followed by what the writer wrote; where the writer
    /// fails, the error carries the writer's message.
    fn render(&self, manifest: &Manifest) -> (r: Result<String, RenderError>)
        ensures
            match r {
                Ok(document) => rendered(manifest@, users_view(self.user_config)) == Some(
                    document@,
                ) && occurs_at(document@, document_marker(), 0),
                Err(_) => rendered(manifest@, users_view(self.user_config)) is None,
            },
    {
        let document = self.document(manifest);
        let written = write_value(&document.to_yaml());
        proof {
            if let Some(body) = yaml_text(document_tree(document@)) {
                lemma_document_begins_with_marker(body);
            }
        }
        frame_document(written)
    }
}

/// Whatever the YAML text is, the framed document begins with the marker
/// line.
pub proof fn lemma_document_begins_with_marker(body: Seq<char>)
    ensures
        occurs_at(document_marker() + body, document_marker(), 0),
{
    let document = document_marker() + body;
    assert(document.subrange(0, document_marker().len() as int) =~= document_marker());
}

/// The package list of a document is sorted and free of duplicates, and it
/// holds exactly the packages that the steps contribute, however many steps
/// contribute the same package.
pub proof fn lemma_document_packages(m: ManifestView, users: Seq<UserView>)
    ensures
        strictly_increasing(document_of(m, users).packages),
        forall|p: Seq<char>|
            document_of(m, users).packages.contains(p) <==> merged(m.steps).packages.contains(p),
{
    lemma_sorted_unique(merged(m.steps).packages);
}

} // verus!
