//! Files that must hold a given content.

use super::{
    optional_line, push_optional, AnyStep, CloudInitFile, CloudInitFragment, FileView, Step,
    StepView,
};
use crate::digest::{content_digest, content_hash};
use crate::text::{contains, has_substring, opt_view, push_line};
use vstd::prelude::*;
use vstd::string::*;

verus! {

/// Description of a file step.
pub open spec fn file_description(path: Seq<char>) -> Seq<char> {
    "Write "@ + path
}

/// The here-document delimiter for a content: the first of three candidates
/// that does not occur in the content, and the last one where all three
/// occur.
pub open spec fn heredoc_delimiter_for(content: Seq<char>) -> Seq<char> {
    if !has_substring(content, "TENGU_EOF"@) {
        "TENGU_EOF"@
    } else if !has_substring(content, "__TENGU_FILE_END__"@) {
        "__TENGU_FILE_END__"@
    } else {
        "__FILE_CONTENT_END_MARKER__"@
    }
}

/// Creates the directory that holds the file.
pub open spec fn file_parent_line(path: Seq<char>) -> Seq<char> {
    "mkdir -p \"$(dirname '"@ + path + "')\""@
}

/// What a here-document hands to its command: the content, and the line
/// feed that ends the document's last line.
pub open spec fn heredoc_text(content: Seq<char>) -> Seq<char> {
    content + "\n"@
}

/// What the rewrite leaves in the file: the here-document's text without
/// its last character, which `head -c -1` holds back.
pub open spec fn file_written(content: Seq<char>) -> Seq<char> {
    heredoc_text(content).drop_last()
}

/// Rewrites the file from a quoted here-document where the digest of what
/// is on disk differs from `digest`. The line feed that the here-document
/// adds is not written.
pub open spec fn file_write_command(
    path: Seq<char>,
    digest: Seq<char>,
    delimiter: Seq<char>,
    content: Seq<char>,
) -> Seq<char> {
    "CURRENT=$(sha256sum '"@ + path
        + "' 2>/dev/null | cut -d' ' -f1 || echo 'none')\nif [ \"$CURRENT\" != \""@ + digest
        + "\" ]; then\n    head -c -1 > '"@ + path + "' << '"@ + delimiter + "'\n"@
        + heredoc_text(content) + delimiter + "\nfi"@
}

/// `chmod` or `chown` of a quoted path, where the value is given.
pub open spec fn quoted_setting(verb: Seq<char>, value: Option<Seq<char>>, path: Seq<char>) -> Option<
    Seq<char>,
> {
    match value {
        Some(v) => Some(verb + v + " '"@ + path + "'"@),
        None => None,
    }
}

/// Shell statements of a file step.
pub open spec fn file_bash(
    path: Seq<char>,
    content: Seq<char>,
    permissions: Option<Seq<char>>,
    owner: Option<Seq<char>>,
) -> Seq<Seq<char>> {
    seq![
        file_parent_line(path),
        file_write_command(path, content_digest(content), heredoc_delimiter_for(content), content),
    ] + optional_line(quoted_setting("chmod "@, permissions, path)) + optional_line(
        quoted_setting("chown "@, owner, path),
    )
}

/// The guard that holds where a regular file stands at `path` whose
/// SHA-256 digest, as `sha256sum` prints it, is `digest`.
pub open spec fn digest_guard(path: Seq<char>, digest: Seq<char>) -> Seq<char> {
    "[ -f '"@ + path + "' ] && [ \"$(sha256sum '"@ + path + "' | cut -d' ' -f1)\" = \""@ + digest
        + "\" ]"@
}

/// Guard of a file step: the file exists and has the digest of the
/// configured content.
pub open spec fn file_check(path: Seq<char>, content: Seq<char>) -> Seq<char> {
    digest_guard(path, content_digest(content))
}

/// Write a file with a given content.
#[derive(Debug, Clone)]
pub struct WriteFile {
    /// File path.
    pub path: String,
    /// File content.
    pub content: String,
    /// File permissions, such as `0644`.
    pub permissions: Option<String>,
    /// File owner, such as `root:root`.
    pub owner: Option<String>,
    /// Description.
    pub description: String,
}

impl View for WriteFile {
    type V = StepView;

    open spec fn view(&self) -> StepView {
        StepView::File {
            path: self.path@,
            content: self.content@,
            permissions: opt_view(self.permissions),
            owner: opt_view(self.owner),
            description: self.description@,
        }
    }
}

/// The guard that holds where the file at `path` has the digest `digest`.
pub fn digest_guard_command(path: &str, digest: &str) -> (r: String)
    ensures
        r@ == digest_guard(path@, digest@),
{
    let mut check = String::from_str("[ -f '");
    check.append(path);
    check.append("' ] && [ \"$(sha256sum '");
    check.append(path);
    check.append("' | cut -d' ' -f1)\" = \"");
    check.append(digest);
    check.append("\" ]");
    check
}

/// The command that rewrites the file at `path` from a here-document
/// where its digest on disk differs from `digest`. It leaves exactly
/// `content` in the file.
pub fn write_command(path: &str, digest: &str, delimiter: &str, content: &str) -> (r: String)
    ensures
        r@ == file_write_command(path@, digest@, delimiter@, content@),
{
    let mut write = String::from_str("CURRENT=$(sha256sum '");
    write.append(path);
    write.append("' 2>/dev/null | cut -d' ' -f1 || echo 'none')\nif [ \"$CURRENT\" != \"");
    write.append(digest);
    write.append("\" ]; then\n    head -c -1 > '");
    write.append(path);
    write.append("' << '");
    write.append(delimiter);
    write.append("'\n");
    let ghost head = write@;
    write.append(content);
    write.append("\n");
    assert(write@ =~= head + heredoc_text(content@));
    write.append(delimiter);
    write.append("\nfi");
    write
}

fn quoted_setting_line(verb: &str, value: &Option<String>, path: &str) -> (r: Option<String>)
    ensures
        opt_view(r) == quoted_setting(verb@, opt_view(*value), path@),
{
    match value {
        Some(v) => {
            let mut line = String::from_str(verb);
            line.append(v.as_str());
            line.append(" '");
            line.append(path);
            line.append("'");
            Some(line)
        },
        None => None,
    }
}

impl WriteFile {
    /// A file step without mode or owner.
    pub fn new(path: &str, content: &str) -> (r: Self)
        ensures
            r@ == (StepView::File {
                path: path@,
                content: content@,
                permissions: None,
                owner: None,
                description: file_description(path@),
            }),
    {
        let mut description = String::from_str("Write ");
        description.append(path);
        WriteFile {
            path: String::from_str(path),
            content: String::from_str(content),
            permissions: None,
            owner: None,
            description,
        }
    }

    /// Sets the file's permissions.
    pub fn with_permissions(self, perms: &str) -> (r: Self)
        ensures
            r@ == (StepView::File {
                path: self.path@,
                content: self.content@,
                permissions: Some(perms@),
                owner: opt_view(self.owner),
                description: self.description@,
            }),
    {
        WriteFile {
            path: self.path,
            content: self.content,
            permissions: Some(String::from_str(perms)),
            owner: self.owner,
            description: self.description,
        }
    }

    /// Sets the file's owner.
    pub fn with_owner(self, owner: &str) -> (r: Self)
        ensures
            r@ == (StepView::File {
                path: self.path@,
                content: self.content@,
                permissions: opt_view(self.permissions),
                owner: Some(owner@),
                description: self.description@,
            }),
    {
        WriteFile {
            path: self.path,
            content: self.content,
            permissions: self.permissions,
            owner: Some(String::from_str(owner)),
            description: self.description,
        }
    }

    /// The digest of the configured content, computed when the step is
    /// rendered.
    pub fn content_hash(&self) -> (r: String)
        ensures
            r@ == content_digest(self.content@),
            r@.len() == 64,
    {
        content_hash(self.content.as_str())
    }

    /// The here-document delimiter for this file's content.
    pub fn heredoc_delimiter(&self) -> (r: &'static str)
        ensures
            r@ == heredoc_delimiter_for(self.content@),
    {
        if !contains(self.content.as_str(), "TENGU_EOF") {
            "TENGU_EOF"
        } else if !contains(self.content.as_str(), "__TENGU_FILE_END__") {
            "__TENGU_FILE_END__"
        } else {
            "__FILE_CONTENT_END_MARKER__"
        }
    }
}

impl Step for WriteFile {
    open spec fn model(&self) -> StepView {
        self@
    }

    fn description(&self) -> (r: &str) {
        self.description.as_str()
    }

    fn to_cloud_init(&self) -> (r: CloudInitFragment) {
        let mut write_files: Vec<CloudInitFile> = Vec::new();
        let file = CloudInitFile {
            path: self.path.clone(),
            content: self.content.clone(),
            permissions: self.permissions.clone(),
            owner: self.owner.clone(),
        };
        write_files.push(file);
        let r = CloudInitFragment { packages: Vec::new(), write_files, runcmd: Vec::new() };
        assert(r@.packages =~= Seq::empty());
        assert(r@.runcmd =~= Seq::empty());
        assert(r@.write_files =~= seq![
            FileView {
                path: self.path@,
                content: self.content@,
                permissions: opt_view(self.permissions),
                owner: opt_view(self.owner),
            },
        ]);
        r
    }

    fn to_bash(&self) -> (r: Vec<String>) {
        let path = self.path.as_str();
        let mut cmds: Vec<String> = Vec::new();

        let mut parent = String::from_str("mkdir -p \"$(dirname '");
        parent.append(path);
        parent.append("')\"");
        push_line(&mut cmds, parent);

        let expected = self.content_hash();
        let write = write_command(
            path,
            expected.as_str(),
            self.heredoc_delimiter(),
            self.content.as_str(),
        );
        push_line(&mut cmds, write);
        assert(cmds.deep_view() =~= seq![
            file_parent_line(self.path@),
            file_write_command(
                self.path@,
                content_digest(self.content@),
                heredoc_delimiter_for(self.content@),
                self.content@,
            ),
        ]);

        push_optional(&mut cmds, quoted_setting_line("chmod ", &self.permissions, path));
        push_optional(&mut cmds, quoted_setting_line("chown ", &self.owner, path));
        cmds
    }

    fn check_command(&self) -> (r: Option<String>) {
        let expected = self.content_hash();
        Some(digest_guard_command(self.path.as_str(), expected.as_str()))
    }

    fn into_any(self) -> (r: AnyStep) {
        AnyStep::File(self)
    }
}

/// The rewrite leaves exactly the configured content in the file.
pub proof fn lemma_file_written(content: Seq<char>)
    ensures
        file_written(content) == content,
{
    reveal_strlit("\n");
    assert((content + "\n"@).drop_last() =~= content);
}

/// A file step is satisfied once it ran: what its rewrite leaves in the
/// file has the digest that the guard asks for, and that the rewrite
/// itself tests before it writes. So a second run finds the guard holding
/// and writes nothing.
pub proof fn lemma_file_step_settles(
    path: Seq<char>,
    content: Seq<char>,
    permissions: Option<Seq<char>>,
    owner: Option<Seq<char>>,
)
    ensures
        file_check(path, content) == digest_guard(path, content_digest(file_written(content))),
        file_bash(path, content, permissions, owner)[1] == file_write_command(
            path,
            content_digest(file_written(content)),
            heredoc_delimiter_for(content),
            content,
        ),
{
    lemma_file_written(content);
}

/// The delimiter of the here-document does not occur in the content,
/// unless all three candidates occur in it.
pub proof fn lemma_heredoc_delimiter(content: Seq<char>)
    ensures
        has_substring(content, heredoc_delimiter_for(content)) ==> has_substring(
            content,
            "TENGU_EOF"@,
        ) && has_substring(content, "__TENGU_FILE_END__"@) && has_substring(
            content,
            "__FILE_CONTENT_END_MARKER__"@,
        ),
{
}

} // verus!
