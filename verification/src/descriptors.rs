//! The tools that a model is offered, as they are described to it.
use vstd::prelude::*;

use crate::json::{fields, trees, Json, JsonV, Obj};
use crate::text::str_eq;

verus! {

/// What a tool is like.
#[derive(Debug, Clone, Copy, PartialEq, Eq, Structural)]
pub struct ToolAnnotations {
    pub read_only_hint: bool,
    pub destructive_hint: bool,
    pub idempotent_hint: bool,
    pub open_world_hint: bool,
}

impl View for ToolAnnotations {
    type V = ToolAnnotations;

    open spec fn view(&self) -> ToolAnnotations {
        *self
    }
}

impl DeepView for ToolAnnotations {
    type V = ToolAnnotations;

    open spec fn deep_view(&self) -> ToolAnnotations {
        *self
    }
}

/// A tool that only looks.
pub open spec fn read_only() -> ToolAnnotations {
    ToolAnnotations {
        read_only_hint: true,
        destructive_hint: false,
        idempotent_hint: true,
        open_world_hint: false,
    }
}

/// A tool that only looks.
pub fn read_only_annotations() -> (r: ToolAnnotations)
    ensures
        r == read_only(),
{
    ToolAnnotations {
        read_only_hint: true,
        destructive_hint: false,
        idempotent_hint: true,
        open_world_hint: false,
    }
}

/// A tool that changes the project.
pub open spec fn mutating() -> ToolAnnotations {
    ToolAnnotations {
        read_only_hint: false,
        destructive_hint: true,
        idempotent_hint: true,
        open_world_hint: false,
    }
}

/// A tool that changes the project.
pub fn mutating_annotations() -> (r: ToolAnnotations)
    ensures
        r == mutating(),
{
    ToolAnnotations {
        read_only_hint: false,
        destructive_hint: true,
        idempotent_hint: true,
        open_world_hint: false,
    }
}

/// A tool that can do anything.
pub open spec fn shell_like() -> ToolAnnotations {
    ToolAnnotations {
        read_only_hint: false,
        destructive_hint: true,
        idempotent_hint: false,
        open_world_hint: true,
    }
}

/// A tool that can do anything.
pub fn shell_like_annotations() -> (r: ToolAnnotations)
    ensures
        r == shell_like(),
{
    ToolAnnotations {
        read_only_hint: false,
        destructive_hint: true,
        idempotent_hint: false,
        open_world_hint: true,
    }
}

/// A tool, as it is described to a model.
#[derive(Debug, PartialEq, Eq)]
pub struct ToolDescriptor {
    pub name: String,
    pub description: String,
    pub input_schema: Json,
    pub annotations: ToolAnnotations,
}

/// Model of [`ToolDescriptor`].
pub struct ToolDescriptorV {
    pub name: Seq<char>,
    pub description: Seq<char>,
    pub input_schema: JsonV,
    pub annotations: ToolAnnotations,
}

impl View for ToolDescriptor {
    type V = ToolDescriptorV;

    open spec fn view(&self) -> ToolDescriptorV {
        ToolDescriptorV {
            name: self.name.deep_view(),
            description: self.description.deep_view(),
            input_schema: self.input_schema.deep_view(),
            annotations: self.annotations.deep_view(),
        }
    }
}

impl DeepView for ToolDescriptor {
    type V = ToolDescriptorV;

    open spec fn deep_view(&self) -> ToolDescriptorV {
        self@
    }
}

/// A list of one name.
pub open spec fn names1_v(a: Seq<char>) -> JsonV {
    JsonV::Array(Seq::empty().push(JsonV::Str(a)))
}

/// A list of two names.
pub open spec fn names2_v(a: Seq<char>, b: Seq<char>) -> JsonV {
    JsonV::Array(Seq::empty().push(JsonV::Str(a)).push(JsonV::Str(b)))
}

fn names1(a: &str) -> (r: Json)
    ensures
        r@ == names1_v(a@),
{
    let mut v: Vec<Json> = Vec::new();
    v.push(Json::string(a));
    assert(trees(v@) =~= names1_v(a@)->Array_0);
    Json::array(v)
}

fn names2(a: &str, b: &str) -> (r: Json)
    ensures
        r@ == names2_v(a@, b@),
{
    let mut v: Vec<Json> = Vec::new();
    v.push(Json::string(a));
    v.push(Json::string(b));
    assert(trees(v@) =~= names2_v(a@, b@)->Array_0);
    Json::array(v)
}

/// The model of the description of `read_file`.
pub open spec fn read_file_v() -> ToolDescriptorV {
    ToolDescriptorV {
        name: "read_file"@,
        description: "Read a UTF-8 text file from the user's local project. Paths are RELATIVE to the project root (e.g. \"src/main.rs\"). Do NOT prepend the workspace's absolute path that appears in session context. Use this instead of any built-in read tools — the project lives on the user's machine, not yours. If you're unsure whether a path exists, call list_dir first — never tell the user a file is missing without verifying."@,
        input_schema: JsonV::Object(fields().push(("type"@, JsonV::Str("object"@))).push(("properties"@, JsonV::Object(fields().push(("path"@, JsonV::Object(fields().push(("type"@, JsonV::Str("string"@))).push(("description"@, JsonV::Str("Relative path inside the project root (e.g. \"src/main.rs\"). Do not prepend the workspace's absolute path."@))))))))).push(("required"@, names1_v("path"@)))),
        annotations: read_only(),
    }
}

fn describe_read_file() -> (r: ToolDescriptor)
    ensures
        r@ == read_file_v(),
{
    ToolDescriptor {
        name: "read_file".to_owned(),
        description: "Read a UTF-8 text file from the user's local project. Paths are RELATIVE to the project root (e.g. \"src/main.rs\"). Do NOT prepend the workspace's absolute path that appears in session context. Use this instead of any built-in read tools — the project lives on the user's machine, not yours. If you're unsure whether a path exists, call list_dir first — never tell the user a file is missing without verifying.".to_owned(),
        input_schema: Obj::new().put_str("type", "object").put("properties", Obj::new().put("path", Obj::new().put_str("type", "string").put_str("description", "Relative path inside the project root (e.g. \"src/main.rs\"). Do not prepend the workspace's absolute path.").build()).build()).put("required", names1("path")).build(),
        annotations: read_only_annotations(),
    }
}

/// The model of the description of `write_file`.
pub open spec fn write_file_v() -> ToolDescriptorV {
    ToolDescriptorV {
        name: "write_file"@,
        description: "Create or overwrite a UTF-8 text file in the user's local project. Paths are RELATIVE to the project root (e.g. \"src/main.rs\"). Do NOT prepend the workspace's absolute path that appears in session context. Use this instead of any built-in write tools — the project lives on the user's machine, not yours."@,
        input_schema: JsonV::Object(fields().push(("type"@, JsonV::Str("object"@))).push(("properties"@, JsonV::Object(fields().push(("path"@, JsonV::Object(fields().push(("type"@, JsonV::Str("string"@))).push(("description"@, JsonV::Str("Relative path inside the project root. Do not prepend the workspace's absolute path."@)))))).push(("content"@, JsonV::Object(fields().push(("type"@, JsonV::Str("string"@))))))))).push(("required"@, names2_v("path"@, "content"@)))),
        annotations: mutating(),
    }
}

fn describe_write_file() -> (r: ToolDescriptor)
    ensures
        r@ == write_file_v(),
{
    ToolDescriptor {
        name: "write_file".to_owned(),
        description: "Create or overwrite a UTF-8 text file in the user's local project. Paths are RELATIVE to the project root (e.g. \"src/main.rs\"). Do NOT prepend the workspace's absolute path that appears in session context. Use this instead of any built-in write tools — the project lives on the user's machine, not yours.".to_owned(),
        input_schema: Obj::new().put_str("type", "object").put("properties", Obj::new().put("path", Obj::new().put_str("type", "string").put_str("description", "Relative path inside the project root. Do not prepend the workspace's absolute path.").build()).put("content", Obj::new().put_str("type", "string").build()).build()).put("required", names2("path", "content")).build(),
        annotations: mutating_annotations(),
    }
}

/// The model of the description of `list_dir`.
pub open spec fn list_dir_v() -> ToolDescriptorV {
    ToolDescriptorV {
        name: "list_dir"@,
        description: "List directory entries in the user's local project. Pass \"\" or \".\" for the project root. Subdirectories are RELATIVE (e.g. \"src\" or \"docs/api\"). Do NOT prepend the workspace's absolute path that appears in session context. Call this whenever you need to confirm what is or isn't present — do not assume from prior turns. Re-list after any write/delete/rename if subsequent decisions depend on the new layout."@,
        input_schema: JsonV::Object(fields().push(("type"@, JsonV::Str("object"@))).push(("properties"@, JsonV::Object(fields().push(("path"@, JsonV::Object(fields().push(("type"@, JsonV::Str("string"@))).push(("default"@, JsonV::Str(""@))).push(("description"@, JsonV::Str("\"\" or \".\" for the project root, otherwise a relative subdirectory (e.g. \"src\"). Do not prepend the workspace's absolute path."@)))))))))),
        annotations: read_only(),
    }
}

fn describe_list_dir() -> (r: ToolDescriptor)
    ensures
        r@ == list_dir_v(),
{
    ToolDescriptor {
        name: "list_dir".to_owned(),
        description: "List directory entries in the user's local project. Pass \"\" or \".\" for the project root. Subdirectories are RELATIVE (e.g. \"src\" or \"docs/api\"). Do NOT prepend the workspace's absolute path that appears in session context. Call this whenever you need to confirm what is or isn't present — do not assume from prior turns. Re-list after any write/delete/rename if subsequent decisions depend on the new layout.".to_owned(),
        input_schema: Obj::new().put_str("type", "object").put("properties", Obj::new().put("path", Obj::new().put_str("type", "string").put_str("default", "").put_str("description", "\"\" or \".\" for the project root, otherwise a relative subdirectory (e.g. \"src\"). Do not prepend the workspace's absolute path.").build()).build()).build(),
        annotations: read_only_annotations(),
    }
}

/// The model of the description of `grep_dir`.
pub open spec fn grep_dir_v() -> ToolDescriptorV {
    ToolDescriptorV {
        name: "grep_dir"@,
        description: "Search for a regular expression across files in the user's local project. Respects .gitignore. `path` is RELATIVE to project root (default: project root). Do NOT prepend the workspace's absolute path that appears in session context."@,
        input_schema: JsonV::Object(fields().push(("type"@, JsonV::Str("object"@))).push(("properties"@, JsonV::Object(fields().push(("pattern"@, JsonV::Object(fields().push(("type"@, JsonV::Str("string"@))).push(("description"@, JsonV::Str("Regex pattern."@)))))).push(("path"@, JsonV::Object(fields().push(("type"@, JsonV::Str("string"@))).push(("default"@, JsonV::Str(""@))).push(("description"@, JsonV::Str("Relative subdirectory; \"\" for the project root. Do not prepend the workspace's absolute path."@)))))).push(("case_insensitive"@, JsonV::Object(fields().push(("type"@, JsonV::Str("boolean"@))).push(("default"@, JsonV::Bool(false))))))))).push(("required"@, names1_v("pattern"@)))),
        annotations: read_only(),
    }
}

fn describe_grep_dir() -> (r: ToolDescriptor)
    ensures
        r@ == grep_dir_v(),
{
    ToolDescriptor {
        name: "grep_dir".to_owned(),
        description: "Search for a regular expression across files in the user's local project. Respects .gitignore. `path` is RELATIVE to project root (default: project root). Do NOT prepend the workspace's absolute path that appears in session context.".to_owned(),
        input_schema: Obj::new().put_str("type", "object").put("properties", Obj::new().put("pattern", Obj::new().put_str("type", "string").put_str("description", "Regex pattern.").build()).put("path", Obj::new().put_str("type", "string").put_str("default", "").put_str("description", "Relative subdirectory; \"\" for the project root. Do not prepend the workspace's absolute path.").build()).put("case_insensitive", Obj::new().put_str("type", "boolean").put_bool("default", false).build()).build()).put("required", names1("pattern")).build(),
        annotations: read_only_annotations(),
    }
}

/// The model of the description of `delete_file`.
pub open spec fn delete_file_v() -> ToolDescriptorV {
    ToolDescriptorV {
        name: "delete_file"@,
        description: "Delete a file in the user's local project. Paths are RELATIVE to project root. Do NOT prepend the workspace's absolute path that appears in session context."@,
        input_schema: JsonV::Object(fields().push(("type"@, JsonV::Str("object"@))).push(("properties"@, JsonV::Object(fields().push(("path"@, JsonV::Object(fields().push(("type"@, JsonV::Str("string"@))).push(("description"@, JsonV::Str("Relative path inside the project root. Do not prepend the workspace's absolute path."@))))))))).push(("required"@, names1_v("path"@)))),
        annotations: mutating(),
    }
}

fn describe_delete_file() -> (r: ToolDescriptor)
    ensures
        r@ == delete_file_v(),
{
    ToolDescriptor {
        name: "delete_file".to_owned(),
        description: "Delete a file in the user's local project. Paths are RELATIVE to project root. Do NOT prepend the workspace's absolute path that appears in session context.".to_owned(),
        input_schema: Obj::new().put_str("type", "object").put("properties", Obj::new().put("path", Obj::new().put_str("type", "string").put_str("description", "Relative path inside the project root. Do not prepend the workspace's absolute path.").build()).build()).put("required", names1("path")).build(),
        annotations: mutating_annotations(),
    }
}

/// The model of the description of `rename`.
pub open spec fn rename_v() -> ToolDescriptorV {
    ToolDescriptorV {
        name: "rename"@,
        description: "Rename or move a file within the user's local project. Both paths RELATIVE to project root. Do NOT prepend the workspace's absolute path that appears in session context."@,
        input_schema: JsonV::Object(fields().push(("type"@, JsonV::Str("object"@))).push(("properties"@, JsonV::Object(fields().push(("from"@, JsonV::Object(fields().push(("type"@, JsonV::Str("string"@))).push(("description"@, JsonV::Str("Relative source path. Do not prepend the workspace's absolute path."@)))))).push(("to"@, JsonV::Object(fields().push(("type"@, JsonV::Str("string"@))).push(("description"@, JsonV::Str("Relative destination path. Do not prepend the workspace's absolute path."@))))))))).push(("required"@, names2_v("from"@, "to"@)))),
        annotations: mutating(),
    }
}

fn describe_rename() -> (r: ToolDescriptor)
    ensures
        r@ == rename_v(),
{
    ToolDescriptor {
        name: "rename".to_owned(),
        description: "Rename or move a file within the user's local project. Both paths RELATIVE to project root. Do NOT prepend the workspace's absolute path that appears in session context.".to_owned(),
        input_schema: Obj::new().put_str("type", "object").put("properties", Obj::new().put("from", Obj::new().put_str("type", "string").put_str("description", "Relative source path. Do not prepend the workspace's absolute path.").build()).put("to", Obj::new().put_str("type", "string").put_str("description", "Relative destination path. Do not prepend the workspace's absolute path.").build()).build()).put("required", names2("from", "to")).build(),
        annotations: mutating_annotations(),
    }
}

/// The model of the description of `run_shell`.
pub open spec fn run_shell_v() -> ToolDescriptorV {
    ToolDescriptorV {
        name: "run_shell"@,
        description: "Run a shell command on the USER'S LOCAL machine — where their project actually lives — and return its stdout, stderr, and exit code. Use this to verify your work: build, run tests, run linters/formatters, git, or any terminal command. Your own built-in/remote shell cannot see this project, so this is the ONLY way to execute commands against it. The command runs in the project root using the user's native shell (the session context states which OS/shell — write the command in that syntax). IMPORTANT: every call requires the user to approve the exact command before it runs, so combine related steps into one command rather than issuing many small ones."@,
        input_schema: JsonV::Object(fields().push(("type"@, JsonV::Str("object"@))).push(("properties"@, JsonV::Object(fields().push(("command"@, JsonV::Object(fields().push(("type"@, JsonV::Str("string"@))).push(("description"@, JsonV::Str("The exact command line to run in the user's native shell, in that shell's syntax."@))))))))).push(("required"@, names1_v("command"@)))),
        annotations: shell_like(),
    }
}

fn describe_run_shell() -> (r: ToolDescriptor)
    ensures
        r@ == run_shell_v(),
{
    ToolDescriptor {
        name: "run_shell".to_owned(),
        description: "Run a shell command on the USER'S LOCAL machine — where their project actually lives — and return its stdout, stderr, and exit code. Use this to verify your work: build, run tests, run linters/formatters, git, or any terminal command. Your own built-in/remote shell cannot see this project, so this is the ONLY way to execute commands against it. The command runs in the project root using the user's native shell (the session context states which OS/shell — write the command in that syntax). IMPORTANT: every call requires the user to approve the exact command before it runs, so combine related steps into one command rather than issuing many small ones.".to_owned(),
        input_schema: Obj::new().put_str("type", "object").put("properties", Obj::new().put("command", Obj::new().put_str("type", "string").put_str("description", "The exact command line to run in the user's native shell, in that shell's syntax.").build()).build()).put("required", names1("command")).build(),
        annotations: shell_like_annotations(),
    }
}

/// The tools, in the order in which they are described.
pub open spec fn tools_v() -> Seq<ToolDescriptorV> {
    Seq::empty().push(read_file_v()).push(write_file_v()).push(list_dir_v()).push(grep_dir_v()).push(delete_file_v()).push(rename_v()).push(run_shell_v())
}

/// The tools, in the order in which they are described.
pub fn all_tool_descriptors() -> (r: Vec<ToolDescriptor>)
    ensures
        r.deep_view() == tools_v(),
{
    let mut v: Vec<ToolDescriptor> = Vec::new();
    v.push(describe_read_file());
    v.push(describe_write_file());
    v.push(describe_list_dir());
    v.push(describe_grep_dir());
    v.push(describe_delete_file());
    v.push(describe_rename());
    v.push(describe_run_shell());
    assert(v.deep_view() =~= tools_v());
    v
}

/// Passes the tools that can be used: the shell only where someone can approve its
/// commands.
pub open spec fn usable(has_approver: bool) -> spec_fn(ToolDescriptorV) -> bool {
    |d: ToolDescriptorV| d.name != "run_shell"@ || has_approver
}

/// The tools that are offered.
pub fn tool_descriptors_for_state(has_approver: bool) -> (r: Vec<ToolDescriptor>)
    ensures
        r.deep_view() == tools_v().filter(usable(has_approver)),
{
    let mut all = all_tool_descriptors();
    let ghost av = all.deep_view();
    let ghost p = usable(has_approver);
    let mut out: Vec<ToolDescriptor> = Vec::new();
    proof {
        crate::collections::filter_start(av, p);
        assert(out.deep_view() =~= Seq::<ToolDescriptorV>::empty());
        assert(all.deep_view() =~= av.skip(0));
    }
    let ghost mut n: int = 0;
    while all.len() > 0
        invariant
            0 <= n <= av.len(),
            p == usable(has_approver),
            all.deep_view() == av.skip(n),
            out.deep_view() == av.take(n).filter(p),
        decreases all.len(),
    {
        let ghost ov = out.deep_view();
        let ghost lv = all.deep_view();
        let d = all.remove(0);
        proof {
            assert(all.deep_view() =~= lv.drop_first());
            assert(lv[0] == av[n]);
            crate::collections::filter_step(av, n, p);
            assert(av.skip(n).drop_first() =~= av.skip(n + 1));
        }
        if has_approver || !str_eq(d.name.as_str(), "run_shell") {
            out.push(d);
            assert(out.deep_view() =~= ov.push(av[n]));
        }
        proof {
            n = n + 1;
        }
    }
    assert(av.take(n) =~= av);
    out
}

/// Without someone to approve its commands, no shell is offered.
pub proof fn no_shell_without_approver(d: ToolDescriptorV)
    ensures
        tools_v().filter(usable(false)).contains(d) ==> d.name != "run_shell"@,
{
    crate::collections::filter_members(tools_v(), usable(false));
}

/// With someone to approve, every tool is offered.
pub proof fn everything_with_approver()
    ensures
        tools_v().filter(usable(true)) == tools_v(),
{
    lemma_filter_all(tools_v(), usable(true));
}

proof fn lemma_filter_all<T>(s: Seq<T>, p: spec_fn(T) -> bool)
    requires
        forall|i: int| 0 <= i < s.len() ==> p(#[trigger] s[i]),
    ensures
        s.filter(p) == s,
    decreases s.len(),
{
    reveal(Seq::filter);
    if s.len() > 0 {
        lemma_filter_all(s.drop_last(), p);
        assert(s.drop_last().push(s.last()) =~= s);
    }
}


} // verus!
