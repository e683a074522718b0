//! What the local tools do for the model: what it is told of a file, a listing, a search
//! and a command, and which calls do which work.
use vstd::prelude::*;

use crate::collections::{filter_start, filter_step};
use crate::descriptors::{tools_v, usable};
use crate::fs_tools::{
    changed_files, delete_refusal, entry_v, first_step, found, fresh_search, hits, kind_word,
    lines_of, list_refusal, listing_v, match_v, read_of, read_refusal, regex_error, regex_matches,
    rename_of, search_v, searched, settled, shell_refusal, shown_entries, tool_named,
    without_return, write_of, EntryKind, FileStatV, GrepMatchV, GrepRunV, ListEntryV, ToolKind,
    ToolRequestV, ToolStepV,
};
use crate::json::{fields, json_text, lemma_lookup_push, lookup, JsonV, NumberV};
use crate::rpc::{
    handled, tool_result, RpcFault, RpcHeadersV, RpcReplyV, RpcRequestV, RpcStepV, ServerIdentityV,
};
use crate::shell::{
    base_of, bounded, byte_len, full_report, last_separator, report_of, shell_of, ShellEnvV,
    ShellRunV,
};
use crate::text::{dec, lossy_text, pieces, signed_dec, trimmed};
use crate::types::ShellApproval;

verus! {

// ---- Searching ----

/// The lines of a file that a pattern is found in, each with its number, in order.
pub open spec fn matching_lines(
    path: Seq<char>,
    contents: Option<Seq<char>>,
    pattern: Seq<char>,
    case_insensitive: bool,
) -> Seq<GrepMatchV> {
    match contents {
        Some(c) => Seq::new(
            lines_of(c).len(),
            |i: int| GrepMatchV { path, line: (i + 1) as u64, text: lines_of(c)[i] },
        ).filter(|m: GrepMatchV| regex_matches(pattern, case_insensitive, m.text)),
        None => Seq::empty(),
    }
}

/// The lines of several files that a pattern is found in, file by file.
pub open spec fn all_matching_lines(
    files: Seq<(Seq<char>, Option<Seq<char>>)>,
    pattern: Seq<char>,
    case_insensitive: bool,
) -> Seq<GrepMatchV>
    decreases files.len(),
{
    if files.len() == 0 {
        Seq::empty()
    } else {
        all_matching_lines(files.drop_last(), pattern, case_insensitive) + matching_lines(
            files.last().0,
            files.last().1,
            pattern,
            case_insensitive,
        )
    }
}

/// A search after it looked into files one after the other.
pub open spec fn searched_all(
    g: GrepRunV,
    files: Seq<(Seq<char>, Option<Seq<char>>)>,
) -> GrepRunV
    decreases files.len(),
{
    if files.len() == 0 {
        g
    } else {
        let before = searched_all(g, files.drop_last());
        searched(
            before,
            files.last().0,
            files.last().1,
            match files.last().1 {
                Some(c) => hits(before.pattern, before.case_insensitive, lines_of(c)),
                None => Seq::empty(),
            },
        )
    }
}

proof fn lemma_found_is_filter(
    path: Seq<char>,
    contents: Seq<char>,
    pattern: Seq<char>,
    case_insensitive: bool,
    n: nat,
)
    requires
        regex_error(pattern, case_insensitive) is None,
        n <= lines_of(contents).len(),
    ensures
        ({
            let lines = lines_of(contents);
            let all = Seq::new(
                lines.len(),
                |i: int| GrepMatchV { path, line: (i + 1) as u64, text: lines_of(contents)[i] },
            );
            found(path, lines, hits(pattern, case_insensitive, lines), n) == all.take(n as int).filter(
                |m: GrepMatchV| regex_matches(pattern, case_insensitive, m.text),
            )
        }),
    decreases n,
{
    let lines = lines_of(contents);
    let p = |m: GrepMatchV| regex_matches(pattern, case_insensitive, m.text);
    let all = Seq::new(
        lines.len(),
        |i: int| GrepMatchV { path, line: (i + 1) as u64, text: lines_of(contents)[i] },
    );
    if n == 0 {
        filter_start(all, p);
    } else {
        lemma_found_is_filter(path, contents, pattern, case_insensitive, (n - 1) as nat);
        filter_step(all, n - 1, p);
        assert(all[n - 1].text == lines[n - 1]);
    }
}

proof fn lemma_found(path: Seq<char>, contents: Seq<char>, pattern: Seq<char>, case_insensitive: bool)
    requires
        regex_error(pattern, case_insensitive) is None,
    ensures
        found(
            path,
            lines_of(contents),
            hits(pattern, case_insensitive, lines_of(contents)),
            lines_of(contents).len(),
        ) == matching_lines(path, Some(contents), pattern, case_insensitive),
{
    lemma_found_is_filter(path, contents, pattern, case_insensitive, lines_of(contents).len());
    let all = Seq::new(
        lines_of(contents).len(),
        |i: int| GrepMatchV { path, line: (i + 1) as u64, text: lines_of(contents)[i] },
    );
    assert(all.take(all.len() as int) =~= all);
}

/// What a search reports: the lines that the pattern is found in, in the order of the
/// files and of their lines, from the first on. While it goes on it has looked into every
/// file and left none of their lines out. It is over only with five hundred lines found
/// or five thousand files seen, and where it found more than it may report, or saw a file
/// more than it may look into, it says so.
pub proof fn searches_report_what_they_find(
    pattern: Seq<char>,
    case_insensitive: bool,
    files: Seq<(Seq<char>, Option<Seq<char>>)>,
)
    requires
        regex_error(pattern, case_insensitive) is None,
    ensures
        ({
            let g = searched_all(fresh_search(pattern, case_insensitive), files);
            let all = all_matching_lines(files, pattern, case_insensitive);
            &&& g.pattern == pattern
            &&& g.case_insensitive == case_insensitive
            &&& g.matches.is_prefix_of(all)
            &&& !g.done ==> g.matches == all && g.files_scanned == files.len() && !g.truncated
            &&& g.done && !g.truncated ==> g.matches.len() == 500
            &&& g.truncated ==> g.done && (g.matches.len() == 500 || g.files_scanned == 5000)
            &&& all.len() < 500 && files.len() <= 5000 ==> !g.done && g.matches == all && g.files_scanned
                == files.len() && !g.truncated
            &&& g.matches.len() <= 500
            &&& g.files_scanned <= files.len()
            &&& g.files_scanned <= 5000
        }),
    decreases files.len(),
{
    let g = searched_all(fresh_search(pattern, case_insensitive), files);
    let all = all_matching_lines(files, pattern, case_insensitive);
    if files.len() > 0 {
        let d = files.drop_last();
        searches_report_what_they_find(pattern, case_insensitive, d);
        let before = searched_all(fresh_search(pattern, case_insensitive), d);
        let had = all_matching_lines(d, pattern, case_insensitive);
        let (path, contents) = files.last();
        let more = matching_lines(path, contents, pattern, case_insensitive);
        match contents {
            Some(c) => {
                lemma_found(path, c, pattern, case_insensitive);
            },
            None => {
                assert(all =~= had);
            },
        }
        assert(all == had + more);
        assert(all.take(had.len() as int) =~= had);
        if before.done {
            assert(before.matches =~= all.take(before.matches.len() as int));
        } else if before.files_scanned >= 5000 {
            assert(g.matches =~= all.take(g.matches.len() as int));
        } else {
            match contents {
                Some(c) => {
                    assert(before.matches + more == all);
                    assert(g.matches =~= all.take(g.matches.len() as int));
                },
                None => {
                    assert(g.matches =~= all.take(g.matches.len() as int));
                },
            }
        }
    } else {
        assert(g.matches =~= all.take(0));
    }
}

/// A search that found too much reports the first five hundred lines and says that there
/// were more.
pub proof fn searches_say_what_they_leave_out(
    g: GrepRunV,
    path: Seq<char>,
    contents: Seq<char>,
)
    requires
        !g.done,
        g.files_scanned < 5000,
        regex_error(g.pattern, g.case_insensitive) is None,
        g.matches.len() + matching_lines(path, Some(contents), g.pattern, g.case_insensitive).len() > 500,
        g.matches.len() <= 500,
    ensures
        ({
            let after = searched(
                g,
                path,
                Some(contents),
                hits(g.pattern, g.case_insensitive, lines_of(contents)),
            );
            &&& after.truncated
            &&& after.done
            &&& after.matches == (g.matches + matching_lines(
                path,
                Some(contents),
                g.pattern,
                g.case_insensitive,
            )).take(500)
        }),
{
    lemma_found(path, contents, g.pattern, g.case_insensitive);
}

/// What a search found is shown under the names that the model knows: the pattern, how
/// many files were looked into, whether lines were left out, and of each line the file,
/// the number and the text.
pub proof fn searches_are_shown(g: GrepRunV, i: int)
    requires
        0 <= i < g.matches.len(),
    ensures
        search_v(g).field_text("pattern"@) == Some(g.pattern),
        search_v(g).field("files_scanned"@) == Some(JsonV::Number(NumberV::Unsigned(g.files_scanned as u64))),
        search_v(g).field("truncated"@) == Some(JsonV::Bool(g.truncated)),
        search_v(g).field("matches"@) matches Some(JsonV::Array(shown)) && shown.len() == g.matches.len()
            && shown[i].field_text("path"@) == Some(g.matches[i].path) && shown[i].field("line"@) == Some(
            JsonV::Number(NumberV::Unsigned(g.matches[i].line)),
        ) && shown[i].field_text("text"@) == Some(g.matches[i].text),
{
    reveal_strlit("pattern");
    reveal_strlit("files_scanned");
    reveal_strlit("truncated");
    reveal_strlit("matches");
    reveal_strlit("path");
    reveal_strlit("line");
    reveal_strlit("text");
    assert("pattern"@.len() == 7 && "files_scanned"@.len() == 13 && "truncated"@.len() == 9
        && "matches"@.len() == 7 && "path"@.len() == 4 && "line"@.len() == 4 && "text"@.len() == 4);
    assert("pattern"@[0] != "matches"@[0]);
    assert("path"@[0] != "line"@[0]);
    assert("path"@[0] != "text"@[0]);
    assert("line"@[0] != "text"@[0]);
    let m = g.matches[i];
    let a = ("path"@, JsonV::Str(m.path));
    let b = ("line"@, JsonV::Number(NumberV::Unsigned(m.line)));
    let c = ("text"@, JsonV::Str(m.text));
    lemma_three(a, b, c);
    let p = ("pattern"@, JsonV::Str(g.pattern));
    let f = ("files_scanned"@, JsonV::Number(NumberV::Unsigned(g.files_scanned as u64)));
    let t = ("truncated"@, JsonV::Bool(g.truncated));
    lemma_three(p, f, t);
    let shown = JsonV::Array(Seq::new(g.matches.len(), |i: int| match_v(g.matches[i])));
    let o = fields().push(p).push(f).push(t);
    lemma_lookup_push(o, ("matches"@, shown), "pattern"@);
    lemma_lookup_push(o, ("matches"@, shown), "files_scanned"@);
    lemma_lookup_push(o, ("matches"@, shown), "truncated"@);
    lemma_lookup_push(o, ("matches"@, shown), "matches"@);
    assert(shown->Array_0[i] == match_v(g.matches[i]));
}

/// An object of three entries under different names holds each under its own, and nothing
/// under another name.
pub proof fn lemma_three(a: (Seq<char>, JsonV), b: (Seq<char>, JsonV), c: (Seq<char>, JsonV))
    requires
        a.0 != b.0,
        a.0 != c.0,
        b.0 != c.0,
    ensures
        lookup(fields().push(a).push(b).push(c), a.0) == Some(a.1),
        lookup(fields().push(a).push(b).push(c), b.0) == Some(b.1),
        lookup(fields().push(a).push(b).push(c), c.0) == Some(c.1),
        forall|key: Seq<char>|
            key != a.0 && key != b.0 && key != c.0 ==> #[trigger] lookup(
                fields().push(a).push(b).push(c),
                key,
            ) is None,
{
    assert forall|key: Seq<char>| #[trigger] lookup(fields().push(a).push(b).push(c), key) == (if key == a.0 {
        Some(a.1)
    } else if key == b.0 {
        Some(b.1)
    } else if key == c.0 {
        Some(c.1)
    } else {
        None
    }) by {
        lemma_lookup_push(fields(), a, key);
        lemma_lookup_push(fields().push(a), b, key);
        lemma_lookup_push(fields().push(a).push(b), c, key);
    }
}

proof fn lemma_pieces_behind(a: Seq<char>, b: Seq<char>, c: char)
    ensures
        pieces(a.push(c) + b, c) == pieces(a, c) + pieces(b, c),
        pieces(b, c).len() > 0,
    decreases b.len(),
{
    let w = a.push(c) + b;
    if b.len() == 0 {
        assert(w =~= a.push(c));
        assert(w.drop_last() =~= a);
        assert(pieces(w, c) =~= pieces(a, c) + pieces(b, c));
    } else {
        let d = b.drop_last();
        lemma_pieces_behind(a, d, c);
        assert(w.drop_last() =~= a.push(c) + d);
        assert(w.last() == b.last());
        let p = pieces(a, c);
        let q = pieces(d, c);
        assert((p + q).last() == q.last());
        assert((p + q).drop_last() =~= p + q.drop_last());
        assert(pieces(w, c) =~= p + pieces(b, c));
    }
}

proof fn lemma_one_piece(a: Seq<char>, c: char)
    requires
        !a.contains(c),
    ensures
        pieces(a, c) == seq![a],
    decreases a.len(),
{
    if a.len() > 0 {
        let d = a.drop_last();
        assert(a[a.len() - 1] != c);
        assert(!d.contains(c)) by {
            if d.contains(c) {
                let i = choose|i: int| 0 <= i < d.len() && d[i] == c;
                assert(a[i] == c);
            }
        }
        lemma_one_piece(d, c);
        assert(d.push(a.last()) =~= a);
        assert(pieces(a, c) =~= seq![a]);
    } else {
        assert(a =~= Seq::<char>::empty());
    }
}

/// A line ends with its line feed, and with a carriage return before it where there is
/// one; what is behind the last line feed is a line unless it is empty.
pub proof fn lines_end_with_line_feeds(line: Seq<char>, rest: Seq<char>)
    requires
        !line.contains('\n'),
    ensures
        lines_of(Seq::empty()) == Seq::<Seq<char>>::empty(),
        line.len() > 0 ==> lines_of(line) == seq![line],
        lines_of(line.push('\n') + rest) == seq![
            if line.len() > 0 && line.last() == '\r' {
                line.drop_last()
            } else {
                line
            },
        ] + lines_of(rest),
{
    lemma_one_piece(line, '\n');
    lemma_one_piece(Seq::empty(), '\n');
    lemma_pieces_behind(line, rest, '\n');
    assert(lines_of(Seq::empty()) =~= Seq::<Seq<char>>::empty());
    if line.len() > 0 {
        assert(lines_of(line) =~= seq![line]);
    }
    let q = pieces(rest, '\n');
    let p = pieces(line.push('\n') + rest, '\n');
    assert(p == seq![line] + q);
    assert(p.last() == q.last());
    assert(lines_of(line.push('\n') + rest) =~= seq![without_return(line)] + lines_of(rest));
}

// ---- Files and directories ----

/// Each tool goes by its name, and no other name is a tool's.
pub proof fn tools_go_by_their_names(name: Seq<char>)
    ensures
        tool_named(name) == Some(ToolKind::ReadFile) <==> name == "read_file"@,
        tool_named(name) == Some(ToolKind::WriteFile) <==> name == "write_file"@,
        tool_named(name) == Some(ToolKind::ListDir) <==> name == "list_dir"@,
        tool_named(name) == Some(ToolKind::GrepDir) <==> name == "grep_dir"@,
        tool_named(name) == Some(ToolKind::DeleteFile) <==> name == "delete_file"@,
        tool_named(name) == Some(ToolKind::Rename) <==> name == "rename"@,
        tool_named(name) == Some(ToolKind::RunShell) <==> name == "run_shell"@,
{
    reveal_strlit("read_file");
    reveal_strlit("write_file");
    reveal_strlit("list_dir");
    reveal_strlit("grep_dir");
    reveal_strlit("delete_file");
    reveal_strlit("rename");
    reveal_strlit("run_shell");
    assert("read_file"@.len() == 9 && "write_file"@.len() == 10 && "list_dir"@.len() == 8
        && "grep_dir"@.len() == 8 && "delete_file"@.len() == 11 && "rename"@.len() == 6
        && "run_shell"@.len() == 9);
    assert("read_file"@[1] != "run_shell"@[1]);
    assert("list_dir"@[0] != "grep_dir"@[0]);
}

/// The files are worked on as asked, a command is put to the user as it was written but
/// for blanks round it, and what is no call is refused.
pub proof fn calls_are_done_asked_or_refused(request: ToolRequestV, command: Seq<char>, has_approver: bool)
    ensures
        request is Read || request is Write || request is List || request is Grep || request is Delete
            || request is Rename ==> first_step(request, has_approver) is Perform,
        request is Unknown || request is Invalid ==> first_step(request, has_approver) is Refuse,
        trimmed(command).len() > 0 ==> first_step(ToolRequestV::Shell { command }, true) == (ToolStepV::Ask {
            command: trimmed(command),
        }),
        trimmed(command).len() == 0 ==> first_step(ToolRequestV::Shell { command }, true) is Refuse,
        shell_refusal(ShellApproval::Allow) is None,
        shell_refusal(ShellApproval::Reject) is Some,
        shell_refusal(ShellApproval::TimedOut) is Some,
{
}

/// What a call returned is what the model is told, as an error exactly where it is one;
/// the files that it changed are those that it was asked to change.
pub proof fn calls_tell_what_they_did(
    request: ToolRequestV,
    path: Seq<char>,
    content: Seq<char>,
    to: Seq<char>,
    text: Seq<char>,
    failed: bool,
    has_call_id: bool,
    has_hook: bool,
)
    ensures
        settled(request, Ok((text, failed)), has_call_id, has_hook).text == text,
        settled(request, Ok((text, failed)), has_call_id, has_hook).is_error == failed,
        settled(request, Err(text), has_call_id, has_hook).text == text,
        settled(request, Err(text), has_call_id, has_hook).is_error,
        settled(ToolRequestV::Write { path, content }, Ok((text, false)), true, true).snapshot == Some(
            seq![path],
        ),
        settled(ToolRequestV::Delete { path }, Ok((text, false)), true, true).snapshot == Some(seq![path]),
        settled(ToolRequestV::Rename { from: path, to }, Ok((text, false)), true, true).snapshot == Some(
            seq![path, to],
        ),
{
    assert(changed_files(ToolRequestV::Write { path, content }) =~= seq![path]);
    assert(changed_files(ToolRequestV::Delete { path }) =~= seq![path]);
    assert(changed_files(ToolRequestV::Rename { from: path, to }) =~= seq![path, to]);
}

/// A regular file of up to four mebibytes is read, and nothing else is.
pub proof fn only_files_of_some_size_are_read(rel: Seq<char>, stat: FileStatV, e: Seq<char>)
    ensures
        read_refusal(rel, Ok(stat)) is None <==> stat.is_file && stat.len <= 4194304,
        read_refusal(rel, Err(e)) == Some("stat failed: "@ + e),
        !stat.is_file ==> read_refusal(rel, Ok(stat)) == Some("not a regular file: "@ + rel),
        delete_refusal(rel, Ok(stat)) is None <==> stat.is_file,
        delete_refusal(rel, Err(e)) == Some("stat failed: "@ + e),
        !stat.is_file ==> delete_refusal(rel, Ok(stat)) == Some("not a regular file: "@ + rel),
        list_refusal(rel, Ok(stat)) is None <==> stat.is_dir,
        list_refusal(rel, Err(e)) == Some("stat failed: "@ + e),
        !stat.is_dir ==> list_refusal(rel, Ok(stat)) == Some("not a directory: "@ + rel),
{
}

/// What is no text is shown in base64, and a file that could not be read is told as such.
pub proof fn other_files_are_shown_in_base64(bytes: Seq<u8>, e: Seq<char>)
    requires
        !vstd::utf8::valid_utf8(bytes),
    ensures
        exists|shown: JsonV|
            read_of(Ok(bytes)) == Ok::<Seq<char>, Seq<char>>(#[trigger] json_text(shown))
                && shown.field_text("encoding"@) == Some("base64"@) && shown.field_text("content"@) == Some(
                crate::config::base64_of(bytes),
            ),
        read_of(Err(e)) == Err::<Seq<char>, Seq<char>>("read failed: "@ + e),
{
    reveal_strlit("encoding");
    reveal_strlit("content");
    assert("encoding"@.len() != "content"@.len());
    let a = ("encoding"@, JsonV::Str("base64"@));
    let b = ("content"@, JsonV::Str(crate::config::base64_of(bytes)));
    let shown = JsonV::Object(fields().push(a).push(b));
    lemma_lookup_push(fields(), a, "encoding"@);
    lemma_lookup_push(fields(), a, "content"@);
    lemma_lookup_push(fields().push(a), b, "encoding"@);
    lemma_lookup_push(fields().push(a), b, "content"@);
    assert(read_of(Ok(bytes)) == Ok::<Seq<char>, Seq<char>>(json_text(shown)));
}

/// A write tells how many bytes went where, a renaming what was moved where; what failed
/// is told as an error, with what failed first.
pub proof fn changes_are_told(rel: Seq<char>, to: Seq<char>, content: Seq<char>, e: Seq<char>, f: Option<Seq<char>>)
    ensures
        write_of(rel, content, None, None) == Ok::<Seq<char>, Seq<char>>(
            "wrote "@ + dec(vstd::utf8::encode_utf8(content).len()) + " bytes to "@ + rel,
        ),
        write_of(rel, content, None, Some(e)) == Err::<Seq<char>, Seq<char>>("write failed: "@ + e),
        write_of(rel, content, Some(e), f) == Err::<Seq<char>, Seq<char>>("mkdir failed: "@ + e),
        rename_of(rel, to, None, None) == Ok::<Seq<char>, Seq<char>>("renamed "@ + rel + " -> "@ + to),
        rename_of(rel, to, None, Some(e)) == Err::<Seq<char>, Seq<char>>("rename failed: "@ + e),
        rename_of(rel, to, Some(e), f) == Err::<Seq<char>, Seq<char>>("mkdir failed: "@ + e),
{
}

/// A listing shows the first thousand entries in the order in which they were read, each
/// with its name, what it is, and the size of a file; it names the directory, and says
/// whether there are more.
pub proof fn listings_show_the_entries(rel: Seq<char>, entries: Seq<ListEntryV>, i: int)
    requires
        0 <= i < entries.len(),
        i < 1000,
    ensures
        trimmed(rel).len() > 0 ==> listing_v(rel, entries).field_text("path"@) == Some(rel),
        trimmed(rel).len() == 0 ==> listing_v(rel, entries).field_text("path"@) == Some("."@),
        listing_v(rel, entries).field("truncated"@) == Some(JsonV::Bool(entries.len() > 1000)),
        listing_v(rel, entries).field("entries"@) matches Some(JsonV::Array(shown)) && shown.len() == (
        if entries.len() > 1000 {
            1000nat
        } else {
            entries.len()
        }) && shown[i].field_text("name"@) == Some(entries[i].name) && (entries[i].kind == EntryKind::Dir
            ==> shown[i].field_text("type"@) == Some("dir"@)) && (entries[i].kind == EntryKind::File
            ==> shown[i].field_text("type"@) == Some("file"@)) && (entries[i].kind == EntryKind::Symlink
            ==> shown[i].field_text("type"@) == Some("symlink"@)) && (entries[i].kind == EntryKind::File
            && entries[i].size is Some ==> shown[i].field("size"@) == Some(
            JsonV::Number(NumberV::Unsigned(entries[i].size->0)),
        )) && (entries[i].kind != EntryKind::File ==> shown[i].field("size"@) == Some(JsonV::Null)),
{
    reveal_strlit("path");
    reveal_strlit("truncated");
    reveal_strlit("entries");
    reveal_strlit("name");
    reveal_strlit("type");
    reveal_strlit("size");
    assert("path"@.len() == 4 && "truncated"@.len() == 9 && "entries"@.len() == 7);
    assert("name"@.len() == 4 && "type"@.len() == 4 && "size"@.len() == 4);
    assert("name"@[0] != "type"@[0]);
    assert("name"@[0] != "size"@[0]);
    assert("type"@[0] != "size"@[0]);
    let e = entries[i];
    lemma_three(
        ("name"@, JsonV::Str(e.name)),
        ("type"@, JsonV::Str(kind_word(e.kind))),
        (
            "size"@,
            match e.size {
                Some(n) => if e.kind == EntryKind::File {
                    JsonV::Number(NumberV::Unsigned(n))
                } else {
                    JsonV::Null
                },
                None => JsonV::Null,
            },
        ),
    );
    lemma_three(
        (
            "path"@,
            JsonV::Str(
                if trimmed(rel).len() == 0 {
                    "."@
                } else {
                    rel
                },
            ),
        ),
        ("truncated"@, JsonV::Bool(entries.len() > 1000)),
        ("entries"@, JsonV::Array(shown_entries(entries))),
    );
    assert(shown_entries(entries)[i] == entry_v(e));
}

// ---- Commands ----

/// A report that is not cut is the code, then what the command printed under its title,
/// then what it printed as errors under theirs, each ended with a line feed; a stream
/// that is blank is left out with its title.
pub proof fn reports_tell_each_stream_under_its_title(
    code: i32,
    stdout: Seq<char>,
    stderr: Seq<char>,
)
    requires
        byte_len(full_report(Some(code), stdout, stderr)) <= 1048576,
        trimmed(stdout).len() > 0 ==> stdout.last() == '\n',
        trimmed(stderr).len() > 0 ==> stderr.last() == '\n',
    ensures
        bounded(full_report(Some(code), stdout, stderr)) == "exit code: "@ + signed_dec(code as int) + "\n"@ + (
        if trimmed(stdout).len() > 0 {
            "--- stdout ---\n"@ + stdout
        } else {
            Seq::empty()
        }) + (if trimmed(stderr).len() > 0 {
            "--- stderr ---\n"@ + stderr
        } else {
            Seq::empty()
        }),
{
}

/// A stream that does not end with a line feed gets one.
pub proof fn reports_end_their_lines(exit: Option<i32>, stdout: Seq<char>, stderr: Seq<char>)
    requires
        trimmed(stdout).len() > 0,
        trimmed(stdout.push('\n')).len() > 0,
        trimmed(stderr).len() > 0,
        trimmed(stderr.push('\n')).len() > 0,
        stdout.last() != '\n',
        stderr.last() != '\n',
    ensures
        full_report(exit, stdout, stderr) == full_report(exit, stdout.push('\n'), stderr.push('\n')),
{
    reveal_strlit("\n");
    assert("--- stdout ---\n"@ + stdout + "\n"@ =~= "--- stdout ---\n"@ + stdout.push('\n'));
    assert("--- stderr ---\n"@ + stderr + "\n"@ =~= "--- stderr ---\n"@ + stderr.push('\n'));
}

/// A command that a signal ended has no code, and its report says so.
pub proof fn signals_are_told(stdout: Seq<char>, stderr: Seq<char>)
    requires
        trimmed(stdout).len() == 0,
        trimmed(stderr).len() == 0,
    ensures
        full_report(None, stdout, stderr) == "exit code: "@ + "terminated by signal"@ + "\n"@,
{
    let head = "exit code: "@ + "terminated by signal"@ + "\n"@;
    assert(head + Seq::<char>::empty() + Seq::<char>::empty() =~= head);
}

/// A code is told in decimal notation, with a sign where it is negative.
pub proof fn codes_are_told_in_decimal(code: i32)
    ensures
        code >= 0 ==> signed_dec(code as int) == dec(code as nat),
        code < 0 ==> signed_dec(code as int) == "-"@ + dec((-code) as nat),
{
}

/// A command that ended is told by its report, as an error exactly where it failed; one
/// that could not be started or took too long is an error.
pub proof fn outcomes_of_commands_are_told(
    program: Seq<char>,
    exit: Option<i32>,
    success: bool,
    stdout: Seq<u8>,
    stderr: Seq<u8>,
    e: Seq<char>,
)
    ensures
        report_of(program, ShellRunV::Ended { exit, success, stdout, stderr }).0 == bounded(
            full_report(exit, lossy_text(stdout), lossy_text(stderr)),
        ),
        report_of(program, ShellRunV::Ended { exit, success, stdout, stderr }).1 == !success,
        report_of(program, ShellRunV::TimedOut) == ("command timed out after 120s"@, true),
        report_of(program, ShellRunV::LaunchFailed(e)) == (
            "failed to launch shell ("@ + program + "): "@ + e,
            true,
        ),
{
}

/// The shell of a machine: the one that was set for it, else the user's own, else the
/// system's. The command is handed to it as such shells take one, and its label names
/// the system and the program.
pub proof fn commands_run_in_the_users_shell(env: ShellEnvV, program: Seq<char>)
    requires
        trimmed(program).len() > 0,
        trimmed(program) == program,
    ensures
        !env.windows && env.override_shell == Some(program) ==> shell_of(env).program == program,
        !env.windows && env.override_shell is None && env.shell == Some(program) ==> shell_of(env).program
            == program,
        !env.windows && env.override_shell is None && env.shell is None ==> shell_of(env).program
            == "/bin/sh"@,
        !env.windows ==> shell_of(env).arg == "-c"@ && shell_of(env).label == env.os + "/"@ + base_of(
            shell_of(env).program,
        ),
        env.windows && env.override_shell == Some(program) ==> shell_of(env).program == program,
        env.windows && env.override_shell is None && env.comspec == Some(program) ==> shell_of(env).program
            == program && shell_of(env).arg == "/C"@,
        env.windows && env.override_shell is None && env.comspec is None ==> shell_of(env).program
            == "cmd.exe"@ && shell_of(env).arg == "/C"@,
        env.windows ==> shell_of(env).label == "windows/"@ + base_of(shell_of(env).program),
{
}

/// The name of a program is what is behind the last separator of its path.
pub proof fn programs_go_by_their_base_name(dir: Seq<char>, separator: char, name: Seq<char>)
    requires
        separator == '/' || separator == '\\',
        forall|i: int| 0 <= i < name.len() ==> #[trigger] name[i] != '/' && name[i] != '\\',
    ensures
        base_of(dir.push(separator) + name) == name,
        base_of(name) == name,
{
    let path = dir.push(separator) + name;
    lemma_last_separator(path, dir.len() + 1, path.len());
    assert(path.skip(dir.len() as int + 1) =~= name);
    lemma_last_separator(name, 0, name.len());
    assert(name.skip(0) =~= name);
}

proof fn lemma_last_separator(path: Seq<char>, at: nat, n: nat)
    requires
        at <= n <= path.len(),
        at > 0 ==> path[at - 1] == '/' || path[at - 1] == '\\',
        forall|i: int| at <= i < n ==> #[trigger] path[i] != '/' && path[i] != '\\',
    ensures
        last_separator(path, n) == at,
    decreases n - at,
{
    if n > at {
        assert(path[n - 1] != '/' && path[n - 1] != '\\');
        lemma_last_separator(path, at, (n - 1) as nat);
    }
}

// ---- The server of the tools ----

/// With the token every method is answered as what it is: the tools are listed, a call
/// goes to the tool that it names with its arguments and the caller's sessions, a ping is
/// answered, and an unknown method is refused as unknown.
pub proof fn methods_do_what_they_name(
    req: RpcRequestV,
    headers: RpcHeadersV,
    token: Seq<char>,
    who: ServerIdentityV,
    has_approver: bool,
    tool: Seq<char>,
    arguments: JsonV,
    params: JsonV,
)
    requires
        headers.authorization == Some("Bearer "@ + token),
        req.params == Some(params),
        params.field_text("name"@) == Some(tool),
        tool.len() > 0,
        params.field("arguments"@) == Some(arguments),
    ensures
        ({
            let step = handled(req, headers, token, who, has_approver);
            &&& req.method == "tools/call"@ ==> (step matches RpcStepV::Call {
                tool: t,
                arguments: a,
                context,
                tool_call_id,
            } && t == tool && a == arguments && (headers.session_id matches Some(s) ==> s.len() > 0
                ==> context.session_id == Some(s)) && (headers.parent_session_id matches Some(s)
                ==> s.len() > 0 ==> context.parent_session_id == Some(s)) && (req.id matches Some(
                JsonV::Str(s),
            ) ==> s.len() > 0 ==> tool_call_id == Some(s)))
            &&& req.method == "tools/list"@ ==> (step matches RpcStepV::Answer {
                status,
                reply: RpcReplyV::Success { id, result },
            } && status == 200 && id == req.id && (result.field("tools"@) matches Some(JsonV::Array(shown))
                && shown.len() == (if has_approver {
                7nat
            } else {
                6nat
            })))
            &&& req.method == "ping"@ ==> (step matches RpcStepV::Answer {
                status,
                reply: RpcReplyV::Success { id, .. },
            } && status == 200 && id == req.id)
            &&& !(req.method == "initialize"@ || req.method == "notifications/initialized"@ || req.method
                == "notifications/cancelled"@ || req.method == "tools/list"@ || req.method == "tools/call"@
                || req.method == "ping"@) ==> (step matches RpcStepV::Answer {
                status,
                reply: RpcReplyV::Failure { id, fault, message },
            } && status == 200 && id == req.id && fault == RpcFault::MethodNotFound && message
                == "method not found: "@ + req.method)
        }),
{
    reveal_strlit("initialize");
    reveal_strlit("notifications/initialized");
    reveal_strlit("notifications/cancelled");
    reveal_strlit("tools/list");
    reveal_strlit("tools/call");
    reveal_strlit("ping");
    assert("initialize"@.len() == 10 && "notifications/initialized"@.len() == 25
        && "notifications/cancelled"@.len() == 23 && "tools/list"@.len() == 10 && "tools/call"@.len() == 10
        && "ping"@.len() == 4);
    assert("tools/list"@[0] != "initialize"@[0]);
    assert("tools/call"@[0] != "initialize"@[0]);
    assert("tools/list"@[6] != "tools/call"@[6]);
    lemma_usable_tools(has_approver);
    let listed = tools_v().filter(usable(has_approver));
    let result = crate::rpc::listed_tools(listed);
    lemma_lookup_push(fields(), result->Object_0[0], "tools"@);
    assert(result->Object_0 =~= fields().push(result->Object_0[0]));
}

proof fn lemma_usable_tools(has_approver: bool)
    ensures
        tools_v().filter(usable(has_approver)) == if has_approver {
            tools_v()
        } else {
            tools_v().drop_last()
        },
        tools_v().len() == 7,
{
    let t = tools_v();
    let p = usable(has_approver);
    reveal_strlit("read_file");
    reveal_strlit("write_file");
    reveal_strlit("list_dir");
    reveal_strlit("grep_dir");
    reveal_strlit("delete_file");
    reveal_strlit("rename");
    reveal_strlit("run_shell");
    assert("read_file"@.len() == 9 && "write_file"@.len() == 10 && "list_dir"@.len() == 8
        && "grep_dir"@.len() == 8 && "delete_file"@.len() == 11 && "rename"@.len() == 6
        && "run_shell"@.len() == 9);
    assert("read_file"@[1] != "run_shell"@[1]);
    filter_start(t, p);
    filter_step(t, 0, p);
    filter_step(t, 1, p);
    filter_step(t, 2, p);
    filter_step(t, 3, p);
    filter_step(t, 4, p);
    filter_step(t, 5, p);
    filter_step(t, 6, p);
    assert(t.take(7) =~= t);
    let all = t.filter(p);
    if has_approver {
        assert(all =~= t);
    } else {
        assert(all =~= t.drop_last());
    }
}

/// What a tool answered reaches the model as its text, marked as an error where it is one.
pub proof fn answers_of_tools_are_shown(text: Seq<char>, is_error: bool)
    ensures
        tool_result(text, is_error).field("isError"@) == Some(JsonV::Bool(is_error)),
        tool_result(text, is_error).field("content"@) matches Some(JsonV::Array(parts)) && parts.len() == 1
            && parts[0].field_text("type"@) == Some("text"@) && parts[0].field_text("text"@) == Some(text),
{
    reveal_strlit("isError");
    reveal_strlit("content");
    reveal_strlit("type");
    reveal_strlit("text");
    assert("isError"@.len() == 7 && "content"@.len() == 7);
    assert("isError"@[0] != "content"@[0]);
    assert("type"@[1] != "text"@[1]);
    let r = tool_result(text, is_error)->Object_0;
    lemma_lookup_push(fields(), r[0], "isError"@);
    lemma_lookup_push(fields(), r[0], "content"@);
    lemma_lookup_push(fields().push(r[0]), r[1], "isError"@);
    lemma_lookup_push(fields().push(r[0]), r[1], "content"@);
    assert(r =~= fields().push(r[0]).push(r[1]));
    let a = ("type"@, JsonV::Str("text"@));
    let b = ("text"@, JsonV::Str(text));
    lemma_lookup_push(fields(), a, "type"@);
    lemma_lookup_push(fields(), a, "text"@);
    lemma_lookup_push(fields().push(a), b, "type"@);
    lemma_lookup_push(fields().push(a), b, "text"@);
}

} // verus!
