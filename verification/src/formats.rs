//! The two report formats side by side: what a structured report and a
//! line-oriented report of the same files look like, and the proof that
//! both decode to the same state.

use crate::json::{spec_member, Json};
use crate::raw::{spec_optional_rc, spec_raw_state, spec_rc_status, RCStatusView, StateView};
use crate::state::{
    spec_from_document, spec_from_lines, spec_from_raw, spec_scan_line, spec_scan_lines,
    DirenvStateView,
};
use crate::status::{AllowStatus, ParseError};
use crate::text::{
    join_lines, lemma_lines_of_joined, lemma_trimmed_ends, spec_is_whitespace, spec_lines,
    spec_strip_prefix, spec_trim, spec_trim_end, spec_trim_start, strip_cr,
};
use vstd::prelude::*;

verus! {

/// A text that survives a line-oriented report as it is: it holds no line
/// feed and has no whitespace at either end.
pub open spec fn plain(value: Seq<char>) -> bool {
    &&& forall|i: int| 0 <= i < value.len() ==> value[i] != '\n'
    &&& spec_trim(value) == value
}

/// The token that a report writes for a status code: the decimal digit, or
/// in the older style `true` for 0 and `false` for 2.
pub open spec fn code_token(code: u8, booleans: bool) -> Seq<char> {
    if code == 0 {
        if booleans {
            "true"@
        } else {
            "0"@
        }
    } else if code == 1 {
        "1"@
    } else {
        if booleans {
            "false"@
        } else {
            "2"@
        }
    }
}

/// A line of a report: a label, a space, and a value.
pub open spec fn report_line(label: Seq<char>, value: Seq<char>) -> Seq<char> {
    label.push(' ') + value
}

/// The lines of a line-oriented report of the given files: the loaded file
/// first, where there is one, then the found file.
pub open spec fn legacy_lines(raw: StateView, booleans: bool) -> Seq<Seq<char>> {
    let loaded = match raw.loaded_rc {
        Some(rc) => seq![
            report_line("Loaded RC path"@, rc.path),
            report_line("Loaded RC allowed"@, code_token(rc.allowed, booleans)),
        ],
        None => Seq::empty(),
    };
    let found = match raw.found_rc {
        Some(rc) => seq![
            report_line("Found RC path"@, rc.path),
            report_line("Found RC allowed"@, code_token(rc.allowed, booleans)),
        ],
        None => Seq::empty(),
    };
    loaded + found
}

/// A line-oriented report of the given files.
pub open spec fn legacy_report(raw: StateView, booleans: bool) -> Seq<char> {
    join_lines(legacy_lines(raw, booleans))
}

/// The JSON value of one file of a structured report.
pub open spec fn rc_document(rc: Option<RCStatusView>) -> Json {
    match rc {
        Some(rc) => Json::Object(
            Map::empty().insert("allowed"@, Json::Unsigned(rc.allowed as u64)).insert(
                "path"@,
                Json::Text(rc.path),
            ),
        ),
        None => Json::Null,
    }
}

/// A structured report of the given files.
pub open spec fn report_document(raw: StateView) -> Json {
    Json::Object(
        Map::empty().insert(
            "state"@,
            Json::Object(
                Map::empty().insert("foundRC"@, rc_document(raw.found_rc)).insert(
                    "loadedRC"@,
                    rc_document(raw.loaded_rc),
                ),
            ),
        ),
    )
}

/// A structured report reads back as the files it was written from.
pub proof fn lemma_document_reads_back(raw: StateView)
    ensures
        spec_raw_state(report_document(raw)) == Some(raw),
{
    reveal_strlit("allowed");
    reveal_strlit("path");
    reveal_strlit("foundRC");
    reveal_strlit("loadedRC");
    assert("allowed"@.len() == 7 && "path"@.len() == 4);
    assert("foundRC"@.len() == 7 && "loadedRC"@.len() == 8);
    assert(spec_rc_status(rc_document(raw.found_rc)) == raw.found_rc || raw.found_rc is None);
    assert(spec_rc_status(rc_document(raw.loaded_rc)) == raw.loaded_rc || raw.loaded_rc is None);
    let st = Json::Object(
        Map::empty().insert("foundRC"@, rc_document(raw.found_rc)).insert(
            "loadedRC"@,
            rc_document(raw.loaded_rc),
        ),
    );
    assert(spec_optional_rc(st, "foundRC"@) == Some(raw.found_rc));
    assert(spec_optional_rc(st, "loadedRC"@) == Some(raw.loaded_rc));
    assert(spec_member(report_document(raw), "state"@) == Some(st));
}

/// The value of a report line comes back: what follows the label is a
/// space and the value, and trimming removes the space alone.
proof fn lemma_line_value(label: Seq<char>, value: Seq<char>)
    requires
        spec_trim(value) == value,
    ensures
        spec_strip_prefix(report_line(label, value), label) matches Some(rest) && spec_trim(rest)
            == value,
{
    let line = report_line(label, value);
    assert(line.subrange(0, label.len() as int) =~= label);
    let rest = line.skip(label.len() as int);
    assert(rest =~= seq![' '] + value);
    assert(spec_is_whitespace(' '));
    assert(rest.drop_first() =~= value);
    assert(spec_trim_start(rest) == spec_trim_start(value));
}

/// A report line holds no line feed and ends with no carriage return,
/// where its label holds no line feed and its value is plain.
proof fn lemma_line_is_whole(label: Seq<char>, value: Seq<char>)
    requires
        forall|i: int| 0 <= i < label.len() ==> label[i] != '\n',
        plain(value),
    ensures
        forall|i: int|
            0 <= i < report_line(label, value).len() ==> report_line(label, value)[i] != '\n',
        strip_cr(report_line(label, value)) == report_line(label, value),
{
    let line = report_line(label, value);
    assert forall|i: int| 0 <= i < line.len() implies line[i] != '\n' by {
        if i < label.len() {
            assert(line[i] == label[i]);
        } else if i == label.len() {
            assert(line[i] == ' ');
        } else {
            assert(line[i] == value[i - label.len() - 1]);
        }
    }
    if value.len() > 0 {
        lemma_trimmed_ends(value);
        assert(line.last() == value.last());
        assert(spec_is_whitespace('\r'));
    } else {
        assert(line.last() == ' ');
    }
}

/// Every token is plain and stands for the status of its code.
proof fn lemma_code_token(code: u8, booleans: bool)
    requires
        code <= 2,
    ensures
        plain(code_token(code, booleans)),
        AllowStatus::spec_from_token(code_token(code, booleans)) == AllowStatus::spec_from_code(
            code,
        ),
{
    reveal_strlit("0");
    reveal_strlit("1");
    reveal_strlit("2");
    reveal_strlit("true");
    reveal_strlit("false");
    let t = code_token(code, booleans);
    assert("0"@.len() == 1 && "1"@.len() == 1 && "2"@.len() == 1);
    assert("true"@.len() == 4 && "false"@.len() == 5);
    assert("0"@[0] == '0' && "1"@[0] == '1' && "2"@[0] == '2');
    assert("true"@[0] == 't' && "true"@[1] == 'r' && "true"@[2] == 'u' && "true"@[3] == 'e');
    assert("false"@[0] == 'f' && "false"@[1] == 'a' && "false"@[2] == 'l' && "false"@[3] == 's'
        && "false"@[4] == 'e');
    assert(!spec_is_whitespace(t[0]));
    assert(!spec_is_whitespace(t.last()));
    assert(spec_trim_start(t) == t);
    assert(spec_trim_end(t) == t);
}

/// The four labels hold no line feed.
proof fn lemma_labels_hold_no_line_feed()
    ensures
        forall|i: int| 0 <= i < "Found RC path"@.len() ==> "Found RC path"@[i] != '\n',
        forall|i: int| 0 <= i < "Found RC allowed"@.len() ==> "Found RC allowed"@[i] != '\n',
        forall|i: int| 0 <= i < "Loaded RC path"@.len() ==> "Loaded RC path"@[i] != '\n',
        forall|i: int| 0 <= i < "Loaded RC allowed"@.len() ==> "Loaded RC allowed"@[i] != '\n',
{
    reveal_strlit("Found RC path");
    reveal_strlit("Found RC allowed");
    reveal_strlit("Loaded RC path");
    reveal_strlit("Loaded RC allowed");
}

/// A line does not begin with a label from which it differs at some
/// index within the label.
proof fn lemma_other_label(line: Seq<char>, label: Seq<char>, at: int)
    requires
        0 <= at < label.len(),
        at < line.len() ==> line[at] != label[at],
    ensures
        spec_strip_prefix(line, label) is None,
{
    if label.len() <= line.len() {
        assert(line.subrange(0, label.len() as int)[at] == line[at]);
    }
}

/// What the line of the found path adds.
proof fn lemma_scan_found_path(acc: DirenvStateView, value: Seq<char>)
    requires
        spec_trim(value) == value,
    ensures
        spec_scan_line(acc, report_line("Found RC path"@, value)) == Ok::<
            DirenvStateView,
            ParseError,
        >(DirenvStateView { rc_path: Some(value), ..acc }),
{
    lemma_line_value("Found RC path"@, value);
}

/// What the line of the found status adds.
proof fn lemma_scan_found_allowed(acc: DirenvStateView, code: u8, booleans: bool)
    requires
        code <= 2,
    ensures
        spec_scan_line(acc, report_line("Found RC allowed"@, code_token(code, booleans)))
            == Ok::<DirenvStateView, ParseError>(
            DirenvStateView { allowed: Some(AllowStatus::spec_from_code(code)->Ok_0), ..acc },
        ),
{
    let line = report_line("Found RC allowed"@, code_token(code, booleans));
    lemma_code_token(code, booleans);
    lemma_line_value("Found RC allowed"@, code_token(code, booleans));
    reveal_strlit("Found RC path");
    reveal_strlit("Found RC allowed");
    assert(line[9] == "Found RC allowed"@[9]);
    lemma_other_label(line, "Found RC path"@, 9);
}

/// What the line of the loaded path adds.
proof fn lemma_scan_loaded_path(acc: DirenvStateView, value: Seq<char>)
    requires
        spec_trim(value) == value,
    ensures
        spec_scan_line(acc, report_line("Loaded RC path"@, value)) == Ok::<
            DirenvStateView,
            ParseError,
        >(DirenvStateView { loaded_rc_path: Some(value), ..acc }),
{
    let line = report_line("Loaded RC path"@, value);
    lemma_line_value("Loaded RC path"@, value);
    reveal_strlit("Found RC path");
    reveal_strlit("Found RC allowed");
    reveal_strlit("Loaded RC path");
    assert(line[0] == "Loaded RC path"@[0]);
    lemma_other_label(line, "Found RC path"@, 0);
    lemma_other_label(line, "Found RC allowed"@, 0);
}

/// What the line of the loaded status adds.
proof fn lemma_scan_loaded_allowed(acc: DirenvStateView, code: u8, booleans: bool)
    requires
        code <= 2,
    ensures
        spec_scan_line(acc, report_line("Loaded RC allowed"@, code_token(code, booleans)))
            == Ok::<DirenvStateView, ParseError>(
            DirenvStateView {
                loaded_allowed: Some(AllowStatus::spec_from_code(code)->Ok_0),
                ..acc
            },
        ),
{
    let line = report_line("Loaded RC allowed"@, code_token(code, booleans));
    lemma_code_token(code, booleans);
    lemma_line_value("Loaded RC allowed"@, code_token(code, booleans));
    reveal_strlit("Found RC path");
    reveal_strlit("Found RC allowed");
    reveal_strlit("Loaded RC path");
    reveal_strlit("Loaded RC allowed");
    assert(line[0] == "Loaded RC allowed"@[0]);
    assert(line[10] == "Loaded RC allowed"@[10]);
    lemma_other_label(line, "Found RC path"@, 0);
    lemma_other_label(line, "Found RC allowed"@, 0);
    lemma_other_label(line, "Loaded RC path"@, 10);
}

/// Whether a line-oriented report can carry the files: there is a found
/// file, every status code is one of the three, and every path is plain.
pub open spec fn reportable(raw: StateView) -> bool {
    &&& raw.found_rc matches Some(rc) && rc.allowed <= 2 && plain(rc.path)
    &&& raw.loaded_rc matches Some(rc) ==> rc.allowed <= 2 && plain(rc.path)
}

/// The lines of a line-oriented report are the lines it was written from.
pub proof fn lemma_legacy_report_lines(raw: StateView, booleans: bool)
    requires
        reportable(raw),
    ensures
        spec_lines(legacy_report(raw, booleans)) == legacy_lines(raw, booleans),
{
    let lines = legacy_lines(raw, booleans);
    lemma_labels_hold_no_line_feed();
    let found = raw.found_rc->0;
    lemma_code_token(found.allowed, booleans);
    lemma_line_is_whole("Found RC path"@, found.path);
    lemma_line_is_whole("Found RC allowed"@, code_token(found.allowed, booleans));
    if let Some(loaded) = raw.loaded_rc {
        lemma_code_token(loaded.allowed, booleans);
        lemma_line_is_whole("Loaded RC path"@, loaded.path);
        lemma_line_is_whole("Loaded RC allowed"@, code_token(loaded.allowed, booleans));
        assert(lines.len() == 4);
        assert(lines[0] == report_line("Loaded RC path"@, loaded.path));
        assert(lines[1] == report_line("Loaded RC allowed"@, code_token(loaded.allowed, booleans)));
        assert(lines[2] == report_line("Found RC path"@, found.path));
        assert(lines[3] == report_line("Found RC allowed"@, code_token(found.allowed, booleans)));
    } else {
        assert(lines.len() == 2);
        assert(lines[0] == report_line("Found RC path"@, found.path));
        assert(lines[1] == report_line("Found RC allowed"@, code_token(found.allowed, booleans)));
    }
    lemma_lines_of_joined(lines);
}

/// A line that gives a state passes the rest of the scan on to it.
proof fn lemma_scan_step(acc: DirenvStateView, next: DirenvStateView, lines: Seq<Seq<char>>)
    requires
        lines.len() > 0,
        spec_scan_line(acc, lines[0]) == Ok::<DirenvStateView, ParseError>(next),
    ensures
        spec_scan_lines(acc, lines) == spec_scan_lines(next, lines.drop_first()),
{
}

/// What the two lines of the found file add.
proof fn lemma_scan_found(acc: DirenvStateView, rc: RCStatusView, booleans: bool)
    requires
        rc.allowed <= 2,
        plain(rc.path),
    ensures
        spec_scan_lines(
            acc,
            seq![
                report_line("Found RC path"@, rc.path),
                report_line("Found RC allowed"@, code_token(rc.allowed, booleans)),
            ],
        ) == Ok::<DirenvStateView, ParseError>(
            DirenvStateView {
                rc_path: Some(rc.path),
                allowed: Some(AllowStatus::spec_from_code(rc.allowed)->Ok_0),
                ..acc
            },
        ),
{
    let lines = seq![
        report_line("Found RC path"@, rc.path),
        report_line("Found RC allowed"@, code_token(rc.allowed, booleans)),
    ];
    let s1 = DirenvStateView { rc_path: Some(rc.path), ..acc };
    let s2 = DirenvStateView {
        allowed: Some(AllowStatus::spec_from_code(rc.allowed)->Ok_0),
        ..s1
    };
    lemma_scan_found_path(acc, rc.path);
    lemma_scan_found_allowed(s1, rc.allowed, booleans);
    let l1 = lines.drop_first();
    assert(l1[0] == lines[1]);
    lemma_scan_step(acc, s1, lines);
    lemma_scan_step(s1, s2, l1);
    assert(l1.drop_first().len() == 0);
}

/// What the two lines of the loaded file add, before the lines that follow
/// them.
proof fn lemma_scan_loaded(
    acc: DirenvStateView,
    rc: RCStatusView,
    booleans: bool,
    rest: Seq<Seq<char>>,
)
    requires
        rc.allowed <= 2,
        plain(rc.path),
    ensures
        spec_scan_lines(
            acc,
            seq![
                report_line("Loaded RC path"@, rc.path),
                report_line("Loaded RC allowed"@, code_token(rc.allowed, booleans)),
            ] + rest,
        ) == spec_scan_lines(
            DirenvStateView {
                loaded_rc_path: Some(rc.path),
                loaded_allowed: Some(AllowStatus::spec_from_code(rc.allowed)->Ok_0),
                ..acc
            },
            rest,
        ),
{
    let lines = seq![
        report_line("Loaded RC path"@, rc.path),
        report_line("Loaded RC allowed"@, code_token(rc.allowed, booleans)),
    ] + rest;
    let s1 = DirenvStateView { loaded_rc_path: Some(rc.path), ..acc };
    let s2 = DirenvStateView {
        loaded_allowed: Some(AllowStatus::spec_from_code(rc.allowed)->Ok_0),
        ..s1
    };
    lemma_scan_loaded_path(acc, rc.path);
    lemma_scan_loaded_allowed(s1, rc.allowed, booleans);
    let l1 = lines.drop_first();
    assert(lines[0] == report_line("Loaded RC path"@, rc.path));
    assert(l1[0] == lines[1]);
    assert(l1.drop_first() =~= rest);
    lemma_scan_step(acc, s1, lines);
    lemma_scan_step(s1, s2, l1);
}

/// What the lines of a report of the given files add up to.
proof fn lemma_scan_report(raw: StateView, booleans: bool)
    requires
        reportable(raw),
    ensures
        spec_scan_lines(DirenvStateView::unknown(), legacy_lines(raw, booleans)) == spec_from_raw(
            raw,
        ),
        spec_from_raw(raw) matches Ok(state) && state.rc_path is Some && state.allowed is Some,
{
    let found = raw.found_rc->0;
    let s0 = DirenvStateView::unknown();
    let found_lines = seq![
        report_line("Found RC path"@, found.path),
        report_line("Found RC allowed"@, code_token(found.allowed, booleans)),
    ];
    if let Some(loaded) = raw.loaded_rc {
        let s2 = DirenvStateView {
            loaded_rc_path: Some(loaded.path),
            loaded_allowed: Some(AllowStatus::spec_from_code(loaded.allowed)->Ok_0),
            ..s0
        };
        lemma_scan_loaded(s0, loaded, booleans, found_lines);
        lemma_scan_found(s2, found, booleans);
    } else {
        assert(legacy_lines(raw, booleans) =~= found_lines);
        lemma_scan_found(s0, found, booleans);
    }
}

/// Format independence: a structured report and a line-oriented report of
/// the same files decode to the same state, whichever style of token the
/// line-oriented report uses.
pub proof fn lemma_formats_agree(raw: StateView, booleans: bool)
    requires
        reportable(raw),
    ensures
        spec_from_raw(raw) is Ok,
        spec_from_lines(legacy_report(raw, booleans)) == spec_from_raw(raw),
        forall|text: Seq<char>|
            spec_from_document(Some(report_document(raw)), text) == spec_from_raw(raw),
        spec_from_document(None, legacy_report(raw, booleans)) == spec_from_raw(raw),
{
    lemma_document_reads_back(raw);
    lemma_legacy_report_lines(raw, booleans);
    lemma_scan_report(raw, booleans);
}

/// Whether a line begins with none of the four labels.
pub open spec fn unlabelled(line: Seq<char>) -> bool {
    &&& spec_strip_prefix(line, "Found RC path"@) is None
    &&& spec_strip_prefix(line, "Found RC allowed"@) is None
    &&& spec_strip_prefix(line, "Loaded RC path"@) is None
    &&& spec_strip_prefix(line, "Loaded RC allowed"@) is None
}

/// A line without a label adds nothing: a report gives the same with the
/// line as without it, wherever the line stands.
pub proof fn lemma_unlabelled_line_adds_nothing(
    acc: DirenvStateView,
    before: Seq<Seq<char>>,
    line: Seq<char>,
    after: Seq<Seq<char>>,
)
    requires
        unlabelled(line),
    ensures
        spec_scan_lines(acc, before + seq![line] + after) == spec_scan_lines(acc, before + after),
    decreases before.len(),
{
    let with = before + seq![line] + after;
    let without = before + after;
    if before.len() == 0 {
        assert(with[0] == line);
        assert(with.drop_first() =~= after);
        assert(without =~= after);
    } else {
        assert(with[0] == before[0] && without[0] == before[0]);
        assert(with.drop_first() =~= before.drop_first() + seq![line] + after);
        assert(without.drop_first() =~= before.drop_first() + after);
        match spec_scan_line(acc, before[0]) {
            Ok(next) => {
                lemma_unlabelled_line_adds_nothing(next, before.drop_first(), line, after);
            },
            Err(_) => {},
        }
    }
}

/// A member that a file of a structured report does not define adds
/// nothing to the file.
pub proof fn lemma_unknown_member_of_file(fields: Map<Seq<char>, Json>, key: Seq<char>, value: Json)
    requires
        key != "allowed"@,
        key != "path"@,
    ensures
        spec_rc_status(Json::Object(fields.insert(key, value))) == spec_rc_status(
            Json::Object(fields),
        ),
{
}

/// A member that the state of a structured report does not define adds
/// nothing to the report.
pub proof fn lemma_unknown_member_of_state(
    doc: Map<Seq<char>, Json>,
    state: Map<Seq<char>, Json>,
    key: Seq<char>,
    value: Json,
)
    requires
        key != "foundRC"@,
        key != "loadedRC"@,
    ensures
        spec_raw_state(Json::Object(doc.insert("state"@, Json::Object(state.insert(key, value)))))
            == spec_raw_state(Json::Object(doc.insert("state"@, Json::Object(state)))),
{
    let with = Json::Object(state.insert(key, value));
    let without = Json::Object(state);
    assert(spec_optional_rc(with, "foundRC"@) == spec_optional_rc(without, "foundRC"@));
    assert(spec_optional_rc(with, "loadedRC"@) == spec_optional_rc(without, "loadedRC"@));
}

/// A member beside `state` adds nothing to a structured report.
pub proof fn lemma_unknown_member_of_document(
    doc: Map<Seq<char>, Json>,
    key: Seq<char>,
    value: Json,
)
    requires
        key != "state"@,
    ensures
        spec_raw_state(Json::Object(doc.insert(key, value))) == spec_raw_state(Json::Object(doc)),
{
}

} // verus!
