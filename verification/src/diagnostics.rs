//! A read-only report on what the keystroke injector depends on.
//!
//! The host looks at the disk; the functions here say what to look at and
//! turn what was seen into the report, a JSON object. No supervisor is
//! touched.

use crate::locator::{install_dir_of, join_path, joined, EXECUTABLE_NAME, INSTALLER_URL};
use crate::text::{concat2, decimal, to_decimal};
use serde_json::Value;
use vstd::prelude::*;

verus! {

/// The JSON object of serde_json, a map from keys to values, carried as an
/// opaque value.
#[verifier::external_type_specification]
#[verifier::external_body]
#[verifier::reject_recursive_types(K)]
#[verifier::reject_recursive_types(V)]
pub struct ExJsonObject<K, V>(serde_json::Map<K, V>);

/// What a JSON value of a report holds: a flag, a text, a number, or an
/// object of such values.
pub enum JsonView {
    Flag(bool),
    Text(Seq<char>),
    Number(u64),
    Object(Map<Seq<char>, JsonView>),
}

/// What the JSON object `m` holds: under each of its keys, what the value
/// there holds.
pub uninterp spec fn json_entries(m: serde_json::Map<String, Value>) -> Map<Seq<char>, JsonView>;

/// What the JSON value `v` holds.
pub uninterp spec fn json_view(v: Value) -> JsonView;

/// The object without members.
pub open spec fn no_entries() -> Map<Seq<char>, JsonView> {
    Map::empty()
}

/// Calls `serde_json::Map::new`, which makes an object without members.
#[verifier::external_body]
fn new_object() -> (m: serde_json::Map<String, Value>)
    ensures
        json_entries(m) == no_entries(),
{
    serde_json::Map::new()
}

/// Calls `serde_json::Map::insert`, which puts the value under the key and
/// replaces what was there.
#[verifier::external_body]
fn insert(m: &mut serde_json::Map<String, Value>, key: String, value: Value)
    ensures
        json_entries(*final(m)) == json_entries(*old(m)).insert(key@, json_view(value)),
{
    m.insert(key, value);
}

/// Calls `Value::from` on a `bool`, which gives the JSON boolean.
#[verifier::external_body]
fn flag_value(b: bool) -> (v: Value)
    ensures
        json_view(v) == JsonView::Flag(b),
{
    Value::from(b)
}

/// Calls `Value::from` on a `String`, which gives the JSON string.
#[verifier::external_body]
fn text_value(s: String) -> (v: Value)
    ensures
        json_view(v) == JsonView::Text(s@),
{
    Value::from(s)
}

/// Calls `Value::from` on a `u64`, which gives the JSON number.
#[verifier::external_body]
fn number_value(n: u64) -> (v: Value)
    ensures
        json_view(v) == JsonView::Number(n),
{
    Value::from(n)
}

/// Calls `Value::from` on an object, which gives the JSON value that is
/// this object.
#[verifier::external_body]
fn object_value(m: serde_json::Map<String, Value>) -> (v: Value)
    ensures
        json_view(v) == JsonView::Object(json_entries(m)),
{
    Value::from(m)
}

/// What was seen at one well-known place.
#[derive(Debug, PartialEq, Eq)]
pub struct PathProbe {
    /// The place.
    pub path: String,
    /// Whether a file is there.
    pub exists: bool,
    /// The file's size, where its metadata could be read.
    pub size: Option<u64>,
}

/// How creating and writing a temporary file went.
#[derive(Debug, PartialEq, Eq)]
pub enum TempProbe {
    /// No temporary directory could be created.
    DirFailed(String),
    /// The directory `dir` was created, but no file could be written in it.
    WriteFailed { dir: String, error: String },
    /// A file was written in the directory `dir`.
    Writable { dir: String },
}

/// All that the host has looked at.
#[derive(Debug, PartialEq, Eq)]
pub struct DiagnosticProbes {
    /// The application's resource directory, or why it is not known.
    pub resource_dir: Result<String, String>,
    /// Whether the interpreter lies in the managed directory below it.
    pub ahk_in_resources: bool,
    /// The well-known places outside the resource directory.
    pub known_paths: Vec<PathProbe>,
    /// Whether temporary files can be made.
    pub temp: TempProbe,
}

/// `PathProbe` as the contracts see it.
pub struct PathProbeView {
    pub path: Seq<char>,
    pub exists: bool,
    pub size: Option<u64>,
}

/// `TempProbe` as the contracts see it.
pub enum TempProbeView {
    DirFailed(Seq<char>),
    WriteFailed { dir: Seq<char>, error: Seq<char> },
    Writable { dir: Seq<char> },
}

/// `DiagnosticProbes` as the contracts see it.
pub struct DiagnosticProbesView {
    pub resource_dir: Result<Seq<char>, Seq<char>>,
    pub ahk_in_resources: bool,
    pub known_paths: Seq<PathProbeView>,
    pub temp: TempProbeView,
}

/// One line of the report: a key and what stands under it.
pub struct Line {
    pub key: Seq<char>,
    pub value: JsonView,
}

impl DeepView for PathProbe {
    type V = PathProbeView;

    open spec fn deep_view(&self) -> PathProbeView {
        PathProbeView { path: self.path@, exists: self.exists, size: self.size }
    }
}

impl View for TempProbe {
    type V = TempProbeView;

    open spec fn view(&self) -> TempProbeView {
        match self {
            TempProbe::DirFailed(e) => TempProbeView::DirFailed(e@),
            TempProbe::WriteFailed { dir, error } => TempProbeView::WriteFailed {
                dir: dir@,
                error: error@,
            },
            TempProbe::Writable { dir } => TempProbeView::Writable { dir: dir@ },
        }
    }
}

impl View for DiagnosticProbes {
    type V = DiagnosticProbesView;

    open spec fn view(&self) -> DiagnosticProbesView {
        DiagnosticProbesView {
            resource_dir: crate::protocol::text_result(self.resource_dir),
            ahk_in_resources: self.ahk_in_resources,
            known_paths: self.known_paths.deep_view(),
            temp: self.temp@,
        }
    }
}

/// A line that holds a flag.
pub open spec fn flag(key: Seq<char>, value: bool) -> Line {
    Line { key, value: JsonView::Flag(value) }
}

/// A line that holds a text.
pub open spec fn text(key: Seq<char>, value: Seq<char>) -> Line {
    Line { key, value: JsonView::Text(value) }
}

/// A line that holds a number.
pub open spec fn number(key: Seq<char>, value: u64) -> Line {
    Line { key, value: JsonView::Number(value) }
}

/// The object `m` after `lines` have been put into it one after the other,
/// a later line replacing an earlier one of the same key.
pub open spec fn with_lines(m: Map<Seq<char>, JsonView>, lines: Seq<Line>) -> Map<
    Seq<char>,
    JsonView,
>
    decreases lines.len(),
{
    if lines.len() == 0 {
        m
    } else {
        with_lines(m, lines.drop_last()).insert(lines.last().key, lines.last().value)
    }
}

/// The object that holds `lines` and nothing else.
pub open spec fn object_of(lines: Seq<Line>) -> Map<Seq<char>, JsonView> {
    with_lines(no_entries(), lines)
}

/// The well-known places outside the resource directory, in the order in
/// which the report numbers them.
pub open spec fn known_places() -> Seq<Seq<char>> {
    seq![
        "C:\\Program Files\\AutoHotkey\\v2\\AutoHotkey64.exe"@,
        "C:\\Program Files (x86)\\AutoHotkey\\v2\\AutoHotkey64.exe"@,
    ]
}

/// Where the interpreter lies when it is in the managed directory.
pub open spec fn resource_place(resource_dir: Seq<char>) -> Seq<char> {
    joined(install_dir_of(resource_dir), EXECUTABLE_NAME@)
}

/// The advice that closes every report.
pub open spec fn advice_text() -> Seq<char> {
    "O sistema tentará baixar e instalar automaticamente o AutoHotkey V2 do site oficial. Se a instalação automática falhar, você pode baixar manualmente o instalador e executá-lo."@
}

/// The lines on the resource directory: its path and whether the
/// interpreter lies below it, or why it is not known.
pub open spec fn resource_lines(resource_dir: Result<Seq<char>, Seq<char>>, in_resources: bool) -> Seq<
    Line,
> {
    match resource_dir {
        Ok(dir) => seq![
            flag("resource_dir_accessible"@, true),
            text("resource_dir_path"@, dir),
            flag("ahk_in_resources"@, in_resources),
            text("ahk_resource_path"@, resource_place(dir)),
        ],
        Err(e) => seq![flag("resource_dir_accessible"@, false), text("resource_dir_error"@, e)],
    }
}

/// The lines on temporary files. Whether a file can be written is told only
/// where a directory could be created.
pub open spec fn temp_lines(temp: TempProbeView) -> Seq<Line> {
    match temp {
        TempProbeView::DirFailed(e) => seq![
            flag("temp_file_creation"@, false),
            text("temp_file_error"@, e),
        ],
        TempProbeView::WriteFailed { dir, error } => seq![
            flag("temp_file_creation"@, true),
            text("temp_dir_path"@, dir),
            flag("temp_file_writing"@, false),
            text("temp_file_error"@, error),
        ],
        TempProbeView::Writable { dir } => seq![
            flag("temp_file_creation"@, true),
            text("temp_dir_path"@, dir),
            flag("temp_file_writing"@, true),
        ],
    }
}

/// The lines on the well-known place number `i`: its path and whether a
/// file is there; for a file that is there, its size where that could be
/// read, and whether it could.
pub open spec fn place_lines(probe: PathProbeView, i: nat) -> Seq<Line> {
    let n = decimal(i);
    let head = seq![text("path_"@ + n, probe.path), flag("exists_"@ + n, probe.exists)];
    if !probe.exists {
        head
    } else {
        match probe.size {
            Some(size) => head + seq![number("size_"@ + n, size), flag("readable_"@ + n, true)],
            None => head + seq![flag("readable_"@ + n, false)],
        }
    }
}

/// The lines on all well-known places, numbered from 0.
pub open spec fn places_lines(probes: Seq<PathProbeView>) -> Seq<Line>
    decreases probes.len(),
{
    if probes.len() == 0 {
        Seq::empty()
    } else {
        places_lines(probes.drop_last()) + place_lines(probes.last(), (probes.len() - 1) as nat)
    }
}

/// The lines of advice.
pub open spec fn recommendation_lines() -> Seq<Line> {
    seq![
        flag("auto_install_available"@, true),
        text("download_url"@, INSTALLER_URL@),
        text("message"@, advice_text()),
    ]
}

/// The lines of the report on `probes`, sections included: first those on
/// the resource directory, then the section on the well-known places, then
/// those on temporary files, then the section of advice.
pub open spec fn report_lines(probes: DiagnosticProbesView) -> Seq<Line> {
    resource_lines(probes.resource_dir, probes.ahk_in_resources) + seq![
        Line {
            key: "autohotkey_paths"@,
            value: JsonView::Object(object_of(places_lines(probes.known_paths))),
        },
    ] + temp_lines(probes.temp) + seq![
        Line {
            key: "recommendations"@,
            value: JsonView::Object(object_of(recommendation_lines())),
        },
    ]
}

/// The report on `probes`.
pub open spec fn diagnostic_report(probes: DiagnosticProbesView) -> JsonView {
    JsonView::Object(object_of(report_lines(probes)))
}

/// An object being filled, together with the lines that have gone into it.
struct Filling {
    object: serde_json::Map<String, Value>,
    lines: Ghost<Seq<Line>>,
}

impl Filling {
    spec fn wf(&self) -> bool {
        json_entries(self.object) == object_of(self.lines@)
    }

    fn new() -> (f: Filling)
        ensures
            f.wf(),
            f.lines@ == Seq::<Line>::empty(),
    {
        Filling { object: new_object(), lines: Ghost(Seq::empty()) }
    }

    fn put(&mut self, key: &str, value: Value)
        requires
            old(self).wf(),
        ensures
            final(self).wf(),
            final(self).lines@ == old(self).lines@.push(Line { key: key@, value: json_view(value) }),
    {
        insert(&mut self.object, key.to_string(), value);
        self.lines = Ghost(self.lines@.push(Line { key: key@, value: json_view(value) }));
        assert(self.lines@.drop_last() =~= old(self).lines@);
    }

    fn put_flag(&mut self, key: &str, value: bool)
        requires
            old(self).wf(),
        ensures
            final(self).wf(),
            final(self).lines@ == old(self).lines@.push(flag(key@, value)),
    {
        self.put(key, flag_value(value));
    }

    fn put_text(&mut self, key: &str, value: &str)
        requires
            old(self).wf(),
        ensures
            final(self).wf(),
            final(self).lines@ == old(self).lines@.push(text(key@, value@)),
    {
        self.put(key, text_value(value.to_string()));
    }

    fn put_number(&mut self, key: &str, value: u64)
        requires
            old(self).wf(),
        ensures
            final(self).wf(),
            final(self).lines@ == old(self).lines@.push(number(key@, value)),
    {
        self.put(key, number_value(value));
    }

    fn put_section(&mut self, key: &str, section: Filling)
        requires
            old(self).wf(),
            section.wf(),
        ensures
            final(self).wf(),
            final(self).lines@ == old(self).lines@.push(
                Line { key: key@, value: JsonView::Object(object_of(section.lines@)) },
            ),
    {
        self.put(key, object_value(section.object));
    }

    fn put_place(&mut self, probe: &PathProbe, i: usize)
        requires
            old(self).wf(),
        ensures
            final(self).wf(),
            final(self).lines@ == old(self).lines@ + place_lines(probe.deep_view(), i as nat),
    {
        let n = to_decimal(i as u64);
        self.put_text(concat2("path_", n.as_str()).as_str(), probe.path.as_str());
        self.put_flag(concat2("exists_", n.as_str()).as_str(), probe.exists);
        if probe.exists {
            match probe.size {
                Some(size) => {
                    self.put_number(concat2("size_", n.as_str()).as_str(), size);
                    self.put_flag(concat2("readable_", n.as_str()).as_str(), true);
                },
                None => {
                    self.put_flag(concat2("readable_", n.as_str()).as_str(), false);
                },
            }
        }
        assert(self.lines@ =~= old(self).lines@ + place_lines(probe.deep_view(), i as nat));
    }
}

/// The well-known places that the host is to look at, in order.
pub fn known_paths() -> (paths: Vec<String>)
    ensures
        paths.deep_view() == known_places(),
{
    let mut paths: Vec<String> = Vec::new();
    paths.push("C:\\Program Files\\AutoHotkey\\v2\\AutoHotkey64.exe".to_string());
    paths.push("C:\\Program Files (x86)\\AutoHotkey\\v2\\AutoHotkey64.exe".to_string());
    assert(paths.deep_view() =~= known_places());
    paths
}

/// Where the host is to look for the interpreter below the resource
/// directory.
pub fn resource_path(resource_dir: &str) -> (path: String)
    ensures
        path@ == resource_place(resource_dir@),
{
    let managed = join_path(resource_dir, "AutoHotkey");
    let install_dir = join_path(managed.as_str(), "v2");
    join_path(install_dir.as_str(), EXECUTABLE_NAME)
}

/// Turns what the host has seen into the report.
pub fn diagnose_hotkey_system(probes: &DiagnosticProbes) -> (report: Value)
    ensures
        json_view(report) == diagnostic_report(probes@),
{
    let mut report = Filling::new();
    match &probes.resource_dir {
        Ok(dir) => {
            report.put_flag("resource_dir_accessible", true);
            report.put_text("resource_dir_path", dir.as_str());
            report.put_flag("ahk_in_resources", probes.ahk_in_resources);
            report.put_text("ahk_resource_path", resource_path(dir.as_str()).as_str());
        },
        Err(e) => {
            report.put_flag("resource_dir_accessible", false);
            report.put_text("resource_dir_error", e.as_str());
        },
    }
    assert(report.lines@ =~= resource_lines(probes@.resource_dir, probes@.ahk_in_resources));

    let mut places = Filling::new();
    let mut i: usize = 0;
    assert(probes.known_paths.deep_view().take(0) =~= Seq::<PathProbeView>::empty());
    while i < probes.known_paths.len()
        invariant
            i <= probes.known_paths.len(),
            places.wf(),
            places.lines@ == places_lines(probes.known_paths.deep_view().take(i as int)),
        decreases probes.known_paths.len() - i,
    {
        proof {
            let t = probes.known_paths.deep_view().take(i + 1);
            assert(t.drop_last() == probes.known_paths.deep_view().take(i as int));
            assert(t.last() == probes.known_paths[i as int].deep_view());
        }
        places.put_place(&probes.known_paths[i], i);
        i = i + 1;
    }
    assert(probes.known_paths.deep_view().take(probes.known_paths.len() as int)
        == probes.known_paths.deep_view());
    report.put_section("autohotkey_paths", places);
    let ghost head = report.lines@;

    match &probes.temp {
        TempProbe::DirFailed(e) => {
            report.put_flag("temp_file_creation", false);
            report.put_text("temp_file_error", e.as_str());
        },
        TempProbe::WriteFailed { dir, error } => {
            report.put_flag("temp_file_creation", true);
            report.put_text("temp_dir_path", dir.as_str());
            report.put_flag("temp_file_writing", false);
            report.put_text("temp_file_error", error.as_str());
        },
        TempProbe::Writable { dir } => {
            report.put_flag("temp_file_creation", true);
            report.put_text("temp_dir_path", dir.as_str());
            report.put_flag("temp_file_writing", true);
        },
    }
    assert(report.lines@ =~= head + temp_lines(probes@.temp));

    let mut advice = Filling::new();
    advice.put_flag("auto_install_available", true);
    advice.put_text("download_url", INSTALLER_URL);
    advice.put_text(
        "message",
        "O sistema tentará baixar e instalar automaticamente o AutoHotkey V2 do site oficial. Se a instalação automática falhar, você pode baixar manualmente o instalador e executá-lo.",
    );
    assert(advice.lines@ =~= recommendation_lines());
    report.put_section("recommendations", advice);
    assert(report.lines@ =~= report_lines(probes@));
    object_value(report.object)
}

} // verus!
