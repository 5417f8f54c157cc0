//! Reversioning of a binary package: the package is unpacked, its control
//! metadata is patched, a changelog entry is written, and a new package is
//! built beside the source, which is never changed.

use std::fmt::Write;
use vstd::prelude::*;
use crate::paths::{join_path, joined_path, sibling, sibling_path};
use crate::process::{
    Action, ActionView, check_command, command, command_failure, CommandLine, CommandLineView,
    Event, EventView,
};
use crate::errors::{
    ErrorView, IoErrorKind, IoFailure, IoFailureView, ManagerError, ManagerResult, text_view,
    unit_view,
};
use crate::text::{
    has_prefix, is_space, join, joined, lines, lines_of, opt_text, replace_all, replaced, split,
    split_on, starts_with, str_eq, strip_cr, trim_end, trimmed_end,
};

verus! {

/// What a reversioning is asked to do.
#[derive(Clone, Debug)]
pub struct ReversionConfig {
    /// Path of the source package.
    pub deb_path: String,
    /// Name of the package as the source has it.
    pub package_name: String,
    /// Version that the source has.
    pub source_version: String,
    /// Version that the new package gets.
    pub new_version: String,
    /// Channel that the source belongs to.
    pub suite: String,
    /// Channel that the new package belongs to.
    pub new_suite: String,
    /// Name of the new package, where it differs from the source's.
    pub new_name: Option<String>,
}

/// The mathematical content of a [`ReversionConfig`].
pub struct ReversionConfigView {
    pub deb_path: Seq<char>,
    pub package_name: Seq<char>,
    pub source_version: Seq<char>,
    pub new_version: Seq<char>,
    pub suite: Seq<char>,
    pub new_suite: Seq<char>,
    pub new_name: Option<Seq<char>>,
}

impl View for ReversionConfig {
    type V = ReversionConfigView;

    open spec fn view(&self) -> ReversionConfigView {
        ReversionConfigView {
            deb_path: self.deb_path@,
            package_name: self.package_name@,
            source_version: self.source_version@,
            new_version: self.new_version@,
            suite: self.suite@,
            new_suite: self.new_suite@,
            new_name: match self.new_name {
                Some(name) => Some(name@),
                None => None,
            },
        }
    }
}

impl ReversionConfigView {
    /// The name that the new package has.
    pub open spec fn final_name(self) -> Seq<char> {
        match self.new_name {
            Some(name) => name,
            None => self.package_name,
        }
    }

    /// The file name of the new package: its name, an underscore, its
    /// version, and `.deb`.
    pub open spec fn output_name(self) -> Seq<char> {
        self.final_name() + "_"@ + self.new_version + ".deb"@
    }

    /// The path of the new package: beside the source.
    pub open spec fn output_path(self) -> Seq<char> {
        sibling_path(self.deb_path, self.output_name())
    }

    /// What is wrong with the names and versions, if anything: the source
    /// version, the new version and the package name must not be empty.
    pub open spec fn field_error(self) -> Option<ErrorView> {
        if self.source_version.len() == 0 {
            Some(ErrorView::ValidationError("Source version cannot be empty"@))
        } else if self.new_version.len() == 0 {
            Some(ErrorView::ValidationError("New version cannot be empty"@))
        } else if self.package_name.len() == 0 {
            Some(ErrorView::ValidationError("Package name cannot be empty"@))
        } else {
            None
        }
    }
}

/// Each of `rows` without the white space at its end.
pub open spec fn trimmed_rows(rows: Seq<Seq<char>>) -> Seq<Seq<char>> {
    Seq::new(rows.len(), |i: int| trimmed_end(rows[i]))
}

/// The line of a control file that names the package.
pub open spec fn package_line(name: Seq<char>) -> Seq<char> {
    "Package: "@ + name
}

/// The line of a control file that names the channel.
pub open spec fn distribution_line(suite: Seq<char>) -> Seq<char> {
    "Distribution: "@ + suite
}

/// Whether `row` is the line that names the package `name`: it begins with
/// that line, and holds nothing but white space after it.
pub open spec fn names_package(row: Seq<char>, name: Seq<char>) -> bool {
    has_prefix(row, package_line(name)) && trimmed_end(
        row.skip(package_line(name).len() as int),
    ).len() == 0
}

/// `rows` with each line that names the package `old` naming `new` instead.
pub open spec fn renamed_rows(rows: Seq<Seq<char>>, old: Seq<char>, new: Option<Seq<char>>) -> Seq<
    Seq<char>,
> {
    match new {
        Some(name) => Seq::new(
            rows.len(),
            |i: int|
                if names_package(rows[i], old) {
                    package_line(name)
                } else {
                    rows[i]
                },
        ),
        None => rows,
    }
}

/// The number of rows before the first one that begins with `prefix`, or the
/// number of rows where none does.
pub open spec fn first_prefixed(rows: Seq<Seq<char>>, prefix: Seq<char>) -> int
    decreases rows.len(),
{
    if rows.len() == 0 || has_prefix(rows[0], prefix) {
        0
    } else {
        1 + first_prefixed(rows.drop_first(), prefix)
    }
}

/// `first_prefixed` stays within the rows, passes over no row that begins
/// with the prefix, and stops at one that does.
pub proof fn lemma_first_prefixed(rows: Seq<Seq<char>>, prefix: Seq<char>)
    ensures
        0 <= first_prefixed(rows, prefix) <= rows.len(),
        forall|j: int| 0 <= j < first_prefixed(rows, prefix) ==> !has_prefix(rows[j], prefix),
        first_prefixed(rows, prefix) < rows.len() ==> has_prefix(
            rows[first_prefixed(rows, prefix)],
            prefix,
        ),
    decreases rows.len(),
{
    if !(rows.len() == 0 || has_prefix(rows[0], prefix)) {
        let rest = rows.drop_first();
        lemma_first_prefixed(rest, prefix);
        assert forall|j: int| 0 <= j < first_prefixed(rows, prefix) implies !has_prefix(
            rows[j],
            prefix,
        ) by {
            if j > 0 {
                assert(rows[j] == rest[j - 1]);
            }
        }
    }
}

/// A position that no row with the prefix precedes, and that holds such a
/// row or ends the rows, is what `first_prefixed` gives.
pub proof fn lemma_first_prefixed_is(rows: Seq<Seq<char>>, prefix: Seq<char>, i: int)
    requires
        0 <= i <= rows.len(),
        forall|j: int| 0 <= j < i ==> !has_prefix(rows[j], prefix),
        i < rows.len() ==> has_prefix(rows[i], prefix),
    ensures
        first_prefixed(rows, prefix) == i,
    decreases rows.len(),
{
    if !(rows.len() == 0 || has_prefix(rows[0], prefix)) {
        let rest = rows.drop_first();
        lemma_first_prefixed_is(rest, prefix, i - 1);
    }
}

/// `rows` with the version changed: in the first line that begins with
/// `Version: `, each occurrence of `from` is replaced by `to`. No other line
/// is read for it.
pub open spec fn reversioned_rows(rows: Seq<Seq<char>>, from: Seq<char>, to: Seq<char>) -> Seq<
    Seq<char>,
> {
    let i = first_prefixed(rows, "Version: "@);
    if 0 <= i < rows.len() {
        rows.update(i, replaced(rows[i], from, to))
    } else {
        rows
    }
}

/// `rows` with the channel changed: the first line that begins with
/// `Distribution: ` names `suite` instead. Where there is no such line, none
/// is added.
pub open spec fn rechanneled_rows(rows: Seq<Seq<char>>, suite: Seq<char>) -> Seq<Seq<char>> {
    let i = first_prefixed(rows, "Distribution: "@);
    if 0 <= i < rows.len() {
        rows.update(i, distribution_line(suite))
    } else {
        rows
    }
}

/// `rows` without the empty rows at its end.
pub open spec fn without_trailing_blank(rows: Seq<Seq<char>>) -> Seq<Seq<char>>
    decreases rows.len(),
{
    if rows.len() > 0 && rows.last().len() == 0 {
        without_trailing_blank(rows.drop_last())
    } else {
        rows
    }
}

/// The rows of a control file as they are read: what stands between the
/// line feeds, with nothing cut off. A line feed at the end of the file ends
/// the last row and begins no other.
pub open spec fn source_rows(content: Seq<char>) -> Seq<Seq<char>> {
    let pieces = split_on(content, '\n');
    if pieces.len() > 0 && pieces.last().len() == 0 {
        pieces.drop_last()
    } else {
        pieces
    }
}

/// The rows of a control file after the name, the version and the channel
/// were patched, one for each row that was read. Each field is looked for in
/// the row as it was read.
pub open spec fn patched_rows(config: ReversionConfigView, content: Seq<char>) -> Seq<Seq<char>> {
    rechanneled_rows(
        reversioned_rows(
            renamed_rows(source_rows(content), config.package_name, config.new_name),
            config.source_version,
            config.new_version,
        ),
        config.new_suite,
    )
}

/// The patched rows as one text, a line feed between each two.
pub open spec fn patched_text(config: ReversionConfigView, content: Seq<char>) -> Seq<char> {
    joined(patched_rows(config, content), "\n"@)
}

/// The lines of the patched control file as they are written: the patched
/// text read line by line once more, each line without white space at its
/// end, and without empty lines at the end of the file.
pub open spec fn patched_lines(config: ReversionConfigView, content: Seq<char>) -> Seq<Seq<char>> {
    without_trailing_blank(trimmed_rows(lines_of(patched_text(config, content))))
}

/// The patched control file: its lines, each ended by one line feed. A file
/// without lines is a single line feed.
pub open spec fn patched_control(config: ReversionConfigView, content: Seq<char>) -> Seq<char> {
    joined(patched_lines(config, content), "\n"@) + "\n"@
}

/// Whether patching changes a row of the control file: the package line
/// where a new name is given, the version where its line holds the source
/// version, or the channel.
pub open spec fn patch_applies(config: ReversionConfigView, content: Seq<char>) -> bool {
    patched_rows(config, content) != source_rows(content)
}

/// Each of `rows` without the white space at its end.
fn trim_rows(rows: &Vec<String>) -> (trimmed: Vec<String>)
    ensures
        trimmed.deep_view() == trimmed_rows(rows.deep_view()),
{
    let mut trimmed: Vec<String> = Vec::new();
    let mut i: usize = 0;
    while i < rows.len()
        invariant
            i <= rows.len(),
            trimmed.deep_view() == trimmed_rows(rows.deep_view().take(i as int)),
        decreases rows.len() - i,
    {
        let row = String::from_str(trim_end(rows[i].as_str()));
        let ghost before = trimmed.deep_view();
        trimmed.push(row);
        assert(trimmed.deep_view() =~= before.push(row@));
        i += 1;
    }
    trimmed
}

/// Whether `row` is the line `target`, with nothing but white space after
/// it.
fn is_line(row: &str, target: &str) -> (found: bool)
    ensures
        found == (has_prefix(row@, target@) && trimmed_end(row@.skip(target@.len() as int)).len()
            == 0),
{
    if !starts_with(row, target) {
        return false;
    }
    let from: usize = target.unicode_len();
    let to: usize = row.unicode_len();
    let tail = row.substring_char(from, to);
    trim_end(tail).is_empty()
}

/// The rows of `content` as they are read.
fn read_rows(content: &str) -> (rows: Vec<String>)
    ensures
        rows.deep_view() == source_rows(content@),
{
    let mut rows = split(content, '\n');
    let n = rows.len();
    if n > 0 && rows[n - 1].as_str().is_empty() {
        rows.pop();
    } else {
    }
    rows
}

/// `rows` with each line that names the package `old` naming `new` instead.
fn rename_rows(rows: &Vec<String>, old: &str, new: &str) -> (renamed: Vec<String>)
    ensures
        renamed.deep_view() == renamed_rows(rows.deep_view(), old@, Some(new@)),
{
    let target = crate::errors::describe("Package: ", old);
    let mut renamed: Vec<String> = Vec::new();
    let mut i: usize = 0;
    while i < rows.len()
        invariant
            i <= rows.len(),
            target@ == package_line(old@),
            renamed.deep_view() == renamed_rows(rows.deep_view().take(i as int), old@, Some(new@)),
        decreases rows.len() - i,
    {
        let row = if is_line(rows[i].as_str(), target.as_str()) {
            crate::errors::describe("Package: ", new)
        } else {
            rows[i].clone()
        };
        let ghost before = renamed.deep_view();
        renamed.push(row);
        assert(renamed.deep_view() =~= before.push(row@));
        i += 1;
    }
    renamed
}

/// Whether two lists of rows hold the same rows.
fn same_rows(a: &Vec<String>, b: &Vec<String>) -> (same: bool)
    ensures
        same == (a.deep_view() == b.deep_view()),
{
    if a.len() != b.len() {
        assert(a.deep_view().len() != b.deep_view().len());
        return false;
    }
    let mut i: usize = 0;
    while i < a.len()
        invariant
            i <= a.len(),
            a.len() == b.len(),
            forall|k: int| 0 <= k < i ==> a.deep_view()[k] == b.deep_view()[k],
        decreases a.len() - i,
    {
        if !str_eq(a[i].as_str(), b[i].as_str()) {
            assert(a.deep_view()[i as int] != b.deep_view()[i as int]);
            return false;
        }
        i += 1;
    }
    assert(a.deep_view() =~= b.deep_view());
    true
}

/// The number of rows before the first one that begins with `prefix`.
fn find_prefixed(rows: &Vec<String>, prefix: &str) -> (i: usize)
    ensures
        i == first_prefixed(rows.deep_view(), prefix@),
        i <= rows.len(),
{
    let mut i: usize = 0;
    while i < rows.len() && !starts_with(rows[i].as_str(), prefix)
        invariant
            i <= rows.len(),
            forall|j: int| 0 <= j < i ==> !has_prefix(#[trigger] rows.deep_view()[j], prefix@),
        decreases rows.len() - i,
    {
        i += 1;
    }
    proof {
        lemma_first_prefixed_is(rows.deep_view(), prefix@, i as int);
    }
    i
}

/// `rows` without the empty rows at its end.
fn drop_trailing_blank(rows: Vec<String>) -> (kept: Vec<String>)
    ensures
        kept.deep_view() == without_trailing_blank(rows.deep_view()),
{
    let mut kept = rows;
    while kept.len() > 0 && kept[kept.len() - 1].as_str().is_empty()
        invariant
            without_trailing_blank(kept.deep_view()) == without_trailing_blank(rows.deep_view()),
        decreases kept.len(),
    {
        let ghost before = kept.deep_view();
        kept.pop();
        assert(kept.deep_view() =~= before.drop_last());
    }
    kept
}

/// Reversions one package. It holds what is asked for and the directory in
/// which the package is unpacked.
#[derive(Debug)]
pub struct DebianReversioner {
    pub config: ReversionConfig,
    pub temp_dir: String,
}

/// The mathematical content of a [`DebianReversioner`].
pub struct DebianReversionerView {
    pub config: ReversionConfigView,
    pub temp_dir: Seq<char>,
}

impl View for DebianReversioner {
    type V = DebianReversionerView;

    open spec fn view(&self) -> DebianReversionerView {
        DebianReversionerView { config: self.config@, temp_dir: self.temp_dir@ }
    }
}

/// What checking the inputs of a reversioning gives: the source must exist,
/// the names and versions must be acceptable, and the new package must not
/// take the place of the source.
pub open spec fn input_error(config: ReversionConfigView, source_exists: bool) -> Option<
    ErrorView,
> {
    if !source_exists {
        Some(
            ErrorView::ValidationError("Source .deb file does not exist: "@ + config.deb_path),
        )
    } else if config.field_error() is Some {
        config.field_error()
    } else if config.output_path() == config.deb_path {
        Some(
            ErrorView::ValidationError(
                "New package would overwrite the source: "@ + config.deb_path,
            ),
        )
    } else {
        None
    }
}

/// What patching a control file gives: an error where the names and versions
/// are not acceptable, the patched file otherwise.
pub open spec fn control_update(config: ReversionConfigView, content: Seq<char>) -> Result<
    Seq<char>,
    ErrorView,
> {
    match config.field_error() {
        Some(e) => Err(e),
        None => Ok(patched_control(config, content)),
    }
}

impl ReversionConfig {
    /// Checks the names and versions: none of the source version, the new
    /// version and the package name may be empty.
    pub fn validate_fields(&self) -> (r: ManagerResult<()>)
        ensures
            unit_view(r) == match self@.field_error() {
                Some(e) => Err::<(), ErrorView>(e),
                None => Ok::<(), ErrorView>(()),
            },
    {
        if self.source_version.as_str().is_empty() {
            Err(ManagerError::validation("Source version cannot be empty"))
        } else if self.new_version.as_str().is_empty() {
            Err(ManagerError::validation("New version cannot be empty"))
        } else if self.package_name.as_str().is_empty() {
            Err(ManagerError::validation("Package name cannot be empty"))
        } else {
            Ok(())
        }
    }

    /// The name that the new package has.
    pub fn final_name(&self) -> (name: &str)
        ensures
            name@ == self@.final_name(),
    {
        match &self.new_name {
            Some(name) => name.as_str(),
            None => self.package_name.as_str(),
        }
    }

    /// The path of the new package: beside the source, named by the name and
    /// the version that it gets.
    pub fn output_path(&self) -> (path: String)
        ensures
            path@ == self@.output_path(),
    {
        let mut name = String::from_str(self.final_name());
        name.append("_");
        name.append(self.new_version.as_str());
        name.append(".deb");
        sibling(self.deb_path.as_str(), name.as_str())
    }
}

impl DebianReversioner {
    /// A reversioner for `config` that unpacks into `temp_dir`. Where the
    /// directory could not be made, `temp_dir` holds the failure, and so
    /// does the result.
    pub fn new(config: ReversionConfig, temp_dir: Result<String, IoFailure>) -> (r: ManagerResult<
        DebianReversioner,
    >)
        ensures
            match temp_dir {
                Ok(dir) => r matches Ok(made) && made@ == (DebianReversionerView {
                    config: config@,
                    temp_dir: dir@,
                }),
                Err(failure) => r matches Err(e) && e@ == ErrorView::IoError(
                    IoFailureView {
                        kind: IoErrorKind::Other,
                        message: "Failed to create temp directory: "@ + failure.message@,
                    },
                ),
            },
    {
        match temp_dir {
            Ok(dir) => Ok(DebianReversioner { config, temp_dir: dir }),
            Err(failure) => Err(
                ManagerError::IoError(
                    IoFailure {
                        kind: IoErrorKind::Other,
                        message: crate::errors::describe(
                            "Failed to create temp directory: ",
                            failure.message.as_str(),
                        ),
                    },
                ),
            ),
        }
    }

    /// Checks the inputs before anything is unpacked. `source_exists` tells
    /// whether the source package is there.
    pub fn validate_inputs(&self, source_exists: bool) -> (r: ManagerResult<()>)
        ensures
            unit_view(r) == match input_error(self@.config, source_exists) {
                Some(e) => Err::<(), ErrorView>(e),
                None => Ok::<(), ErrorView>(()),
            },
    {
        if !source_exists {
            return Err(
                ManagerError::ValidationError(
                    crate::errors::describe(
                        "Source .deb file does not exist: ",
                        self.config.deb_path.as_str(),
                    ),
                ),
            );
        }
        match self.config.validate_fields() {
            Err(e) => {
                return Err(e);
            },
            Ok(_) => {},
        }
        if str_eq(self.config.output_path().as_str(), self.config.deb_path.as_str()) {
            return Err(
                ManagerError::ValidationError(
                    crate::errors::describe(
                        "New package would overwrite the source: ",
                        self.config.deb_path.as_str(),
                    ),
                ),
            );
        }
        Ok(())
    }

    /// The rows of the control file `content` with the package name, the
    /// version and the channel patched.
    fn patch_rows(&self, content: &str) -> (rows: Vec<String>)
        ensures
            rows.deep_view() == patched_rows(self@.config, content@),
    {
        let mut rows = read_rows(content);
        match &self.config.new_name {
            Some(name) => {
                rows = rename_rows(&rows, self.config.package_name.as_str(), name.as_str());
            },
            None => {},
        }
        let v = find_prefixed(&rows, "Version: ");
        if v < rows.len() {
            let line = replace_all(
                rows[v].as_str(),
                self.config.source_version.as_str(),
                self.config.new_version.as_str(),
            );
            let ghost before = rows.deep_view();
            rows.set(v, line);
            assert(rows.deep_view() =~= before.update(v as int, line@));
        }
        let d = find_prefixed(&rows, "Distribution: ");
        if d < rows.len() {
            let line = crate::errors::describe("Distribution: ", self.config.new_suite.as_str());
            rows.set(d, line);
        }
        rows
    }

    /// The control file `content` with the package name, the version and
    /// the channel patched. Each field is looked for in its line as it
    /// stands in `content`. Every other line is kept, but for white space at
    /// its end. No line of the result ends in white space, and the result
    /// ends in exactly one line feed.
    pub fn update_control_content(&self, content: &str) -> (r: ManagerResult<String>)
        ensures
            text_view(r) == control_update(self@.config, content@),
            r matches Ok(text) ==> crate::text::ends_in_one_line_feed(text@),
            r matches Ok(text) ==> forall|i: int|
                0 <= i < lines_of(text@).len() ==> trimmed_end(#[trigger] lines_of(text@)[i])
                    == lines_of(text@)[i],
    {
        proof {
            lemma_patched_control_ends_in_one_line_feed(self@.config, content@);
            lemma_patched_control_lines_are_trimmed(self@.config, content@);
        }
        match self.config.validate_fields() {
            Err(e) => {
                return Err(e);
            },
            Ok(_) => {},
        }
        let rows = self.patch_rows(content);
        let patched = join(&rows, "\n");
        let read = lines(patched.as_str());
        let kept = drop_trailing_blank(trim_rows(&read));
        let mut text = join(&kept, "\n");
        text.append("\n");
        Ok(text)
    }

    /// Whether patching the control file `content` changes a field. Where it
    /// changes none, the reversioning still goes on, but the operator should
    /// be warned.
    pub fn modifies_control(&self, content: &str) -> (changed: bool)
        ensures
            changed == patch_applies(self@.config, content@),
    {
        let rows = read_rows(content);
        let patched = self.patch_rows(content);
        !same_rows(&patched, &rows)
    }
}

/// Whether patching aims at no field of this row: it is not the package
/// line that is renamed, and it begins neither with `Version: ` nor with
/// `Distribution: `.
pub open spec fn is_untouched(config: ReversionConfigView, row: Seq<char>) -> bool {
    &&& config.new_name is Some ==> !names_package(row, config.package_name)
    &&& !has_prefix(row, "Version: "@)
    &&& !has_prefix(row, "Distribution: "@)
}

/// Whether the values that patching writes into a control file hold no line
/// feed.
pub open spec fn writes_single_lines(config: ReversionConfigView) -> bool {
    &&& crate::text::is_single_line(config.new_version)
    &&& crate::text::is_single_line(config.new_suite)
    &&& config.new_name matches Some(name) ==> crate::text::is_single_line(name)
}

/// A continuation line, which begins with a blank, is a row that patching
/// does not aim at.
pub proof fn lemma_continuation_is_untouched(config: ReversionConfigView, row: Seq<char>)
    requires
        row.len() > 0,
        row[0] == ' ' || row[0] == '\t',
    ensures
        is_untouched(config, row),
{
    reveal_strlit("Package: ");
    reveal_strlit("Version: ");
    reveal_strlit("Distribution: ");
    let named = package_line(config.package_name);
    assert(named[0] == 'P');
    if has_prefix(row, "Version: "@) {
        assert(row.subrange(0, 9)[0] == 'V');
    }
    if has_prefix(row, "Distribution: "@) {
        assert(row.subrange(0, 14)[0] == 'D');
    }
}

/// Patching keeps the number of rows, and keeps each row that it does not
/// aim at as it was read.
pub proof fn lemma_patched_rows(config: ReversionConfigView, content: Seq<char>)
    ensures
        patched_rows(config, content).len() == source_rows(content).len(),
        forall|i: int|
            0 <= i < source_rows(content).len() && is_untouched(
                config,
                #[trigger] source_rows(content)[i],
            ) ==> patched_rows(config, content)[i] == source_rows(content)[i],
{
    let rows = source_rows(content);
    let renamed = renamed_rows(rows, config.package_name, config.new_name);
    let reversioned = reversioned_rows(renamed, config.source_version, config.new_version);
    lemma_first_prefixed(renamed, "Version: "@);
    lemma_first_prefixed(reversioned, "Distribution: "@);
}

/// Dropping the empty rows at the end leaves the first rows, the last of
/// them not empty, and drops only empty rows.
pub proof fn lemma_without_trailing_blank(rows: Seq<Seq<char>>)
    ensures
        without_trailing_blank(rows).len() <= rows.len(),
        without_trailing_blank(rows) == rows.take(without_trailing_blank(rows).len() as int),
        without_trailing_blank(rows).len() > 0 ==> without_trailing_blank(rows).last().len() > 0,
        forall|i: int|
            without_trailing_blank(rows).len() <= i < rows.len() ==> (#[trigger] rows[i]).len()
                == 0,
    decreases rows.len(),
{
    if rows.len() > 0 && rows.last().len() == 0 {
        let shorter = rows.drop_last();
        lemma_without_trailing_blank(shorter);
        let n = without_trailing_blank(shorter).len() as int;
        assert forall|i: int| n <= i < rows.len() implies (#[trigger] rows[i]).len() == 0 by {
            if i < shorter.len() {
                assert(rows[i] == shorter[i]);
            }
        }
    } else {
    }
}

/// The lines that are written are lines: each is without a line feed and
/// without white space at its end, whatever the control file and the
/// configuration hold.
pub proof fn lemma_patched_lines_are_trimmed(config: ReversionConfigView, content: Seq<char>)
    ensures
        forall|i: int|
            0 <= i < patched_lines(config, content).len() ==> crate::text::is_single_line(
                #[trigger] patched_lines(config, content)[i],
            ),
        forall|i: int|
            0 <= i < patched_lines(config, content).len() ==> trimmed_end(
                #[trigger] patched_lines(config, content)[i],
            ) == patched_lines(config, content)[i],
        forall|i: int|
            0 <= i < patched_lines(config, content).len() ==> strip_cr(
                #[trigger] patched_lines(config, content)[i],
            ) == patched_lines(config, content)[i],
{
    let text = patched_text(config, content);
    let read = lines_of(text);
    let trimmed = trimmed_rows(read);
    let kept = patched_lines(config, content);
    crate::text::lemma_lines_are_single(text);
    lemma_without_trailing_blank(trimmed);
    assert forall|i: int| 0 <= i < kept.len() implies crate::text::is_single_line(
        #[trigger] kept[i],
    ) && trimmed_end(kept[i]) == kept[i] && strip_cr(kept[i]) == kept[i] by {
        crate::text::lemma_trimmed_end(read[i]);
    }
}

/// The lines of the patched control file, read back from it, are the lines
/// that were written; a file without lines reads as one empty line.
pub proof fn lemma_lines_of_patched_control(config: ReversionConfigView, content: Seq<char>)
    ensures
        lines_of(patched_control(config, content)) == if patched_lines(config, content).len()
            > 0 {
            patched_lines(config, content)
        } else {
            seq![Seq::<char>::empty()]
        },
{
    reveal_strlit("\n");
    let kept = patched_lines(config, content);
    let text = patched_control(config, content);
    lemma_patched_lines_are_trimmed(config, content);
    if kept.len() > 0 {
        crate::text::lemma_lines_of_joined(kept);
    } else {
        assert(text =~= seq!['\n']);
        crate::text::lemma_offset_of_is(text, '\n', 0);
        assert(text.take(0) =~= Seq::<char>::empty());
        assert(text.skip(1) =~= Seq::<char>::empty());
        assert(lines_of(Seq::<char>::empty()) =~= Seq::<Seq<char>>::empty());
        assert(lines_of(text) =~= seq![Seq::<char>::empty()]);
    }
}

/// No line of the patched control file ends in white space, whatever the
/// control file and the configuration hold.
pub proof fn lemma_patched_control_lines_are_trimmed(
    config: ReversionConfigView,
    content: Seq<char>,
)
    ensures
        forall|i: int|
            0 <= i < lines_of(patched_control(config, content)).len() ==> trimmed_end(
                #[trigger] lines_of(patched_control(config, content))[i],
            ) == lines_of(patched_control(config, content))[i],
{
    lemma_lines_of_patched_control(config, content);
    lemma_patched_lines_are_trimmed(config, content);
}

/// The patched control file ends in exactly one line feed, whatever the
/// control file and the configuration hold.
pub proof fn lemma_patched_control_ends_in_one_line_feed(
    config: ReversionConfigView,
    content: Seq<char>,
)
    ensures
        crate::text::ends_in_one_line_feed(patched_control(config, content)),
{
    reveal_strlit("\n");
    let read = lines_of(patched_text(config, content));
    let rows = trimmed_rows(read);
    let kept = patched_lines(config, content);
    lemma_without_trailing_blank(rows);
    if kept.len() > 0 {
        let k = kept.len() - 1;
        crate::text::lemma_trimmed_end(read[k]);
    } else {
    }
}

/// Every patched row is without a line feed, provided that the values
/// written into it are.
pub proof fn lemma_patched_rows_are_single(config: ReversionConfigView, content: Seq<char>)
    requires
        writes_single_lines(config),
    ensures
        forall|i: int|
            0 <= i < patched_rows(config, content).len() ==> crate::text::is_single_line(
                #[trigger] patched_rows(config, content)[i],
            ),
{
    reveal_strlit("Package: ");
    reveal_strlit("Distribution: ");
    let rows = source_rows(content);
    let renamed = renamed_rows(rows, config.package_name, config.new_name);
    let reversioned = reversioned_rows(renamed, config.source_version, config.new_version);
    let patched = patched_rows(config, content);
    crate::text::lemma_split_rows_are_single(content);
    assert forall|i: int| 0 <= i < patched.len() implies crate::text::is_single_line(
        #[trigger] patched[i],
    ) by {
        assert(crate::text::is_single_line(reversioned[i])) by {
            crate::text::lemma_replaced_is_single(
                renamed[i],
                config.source_version,
                config.new_version,
            );
        }
    }
}

/// Patching a control file preserves what it does not aim at. Read back as
/// lines, the patched file holds each row of the source that is not the
/// renamed package line, the version line or the channel line exactly as
/// the source had it, but for white space at its end; a row that is left
/// out is an empty line at the end of the file. In particular every
/// continuation line of a field that spans several lines is kept. The
/// patched file has no more lines than the source has rows, and ends in
/// exactly one line feed.
pub proof fn lemma_patch_preserves_untouched_lines(config: ReversionConfigView, content: Seq<char>)
    requires
        writes_single_lines(config),
    ensures
        crate::text::ends_in_one_line_feed(patched_control(config, content)),
        lines_of(patched_control(config, content)).len() <= source_rows(content).len()
            || lines_of(patched_control(config, content)).len() == 1,
        forall|i: int|
            0 <= i < source_rows(content).len() && is_untouched(
                config,
                #[trigger] source_rows(content)[i],
            ) ==> if i < lines_of(patched_control(config, content)).len() {
                lines_of(patched_control(config, content))[i] == trimmed_end(
                    source_rows(content)[i],
                )
            } else {
                trimmed_end(source_rows(content)[i]).len() == 0
            },
        forall|i: int|
            0 <= i < source_rows(content).len() && i < lines_of(
                patched_control(config, content),
            ).len() && (#[trigger] source_rows(content)[i]).len() > 0 && (source_rows(
                content,
            )[i][0] == ' ' || source_rows(content)[i][0] == '\t') ==> lines_of(
                patched_control(config, content),
            )[i] == trimmed_end(source_rows(content)[i]),
{
    let before = source_rows(content);
    let patched = patched_rows(config, content);
    let read = lines_of(patched_text(config, content));
    let trimmed = trimmed_rows(read);
    let kept = patched_lines(config, content);
    let after = lines_of(patched_control(config, content));
    lemma_patched_control_ends_in_one_line_feed(config, content);
    lemma_lines_of_patched_control(config, content);
    lemma_patched_rows(config, content);
    lemma_patched_rows_are_single(config, content);
    crate::text::lemma_lines_of_joined_rows(patched);
    lemma_without_trailing_blank(trimmed);
    assert forall|i: int|
        0 <= i < before.len() && is_untouched(config, #[trigger] before[i]) implies if i
        < after.len() {
        after[i] == trimmed_end(before[i])
    } else {
        trimmed_end(before[i]).len() == 0
    } by {
        assert(patched[i] == before[i]);
        if i < read.len() {
            assert(trimmed[i] == trimmed_end(read[i]));
            assert(trimmed_end(read[i]) == trimmed_end(patched[i]));
            if i < kept.len() {
                assert(kept[i] == trimmed[i]);
            } else {
                assert(trimmed[i].len() == 0);
            }
        } else {
            assert(patched[i].len() == 0);
        }
    }
    assert forall|i: int|
        0 <= i < before.len() && i < after.len() && (#[trigger] before[i]).len() > 0 && (
        before[i][0] == ' ' || before[i][0] == '\t') implies after[i] == trimmed_end(
        before[i],
    ) by {
        lemma_continuation_is_untouched(config, before[i]);
    }
}

/// Where patching aims at nothing, the control file comes back as it was.
/// With no new name, with no channel line, and with the source version
/// nowhere in the file, a file whose lines are without white space at their
/// end and which ends in exactly one line feed is patched to itself.
pub proof fn lemma_unaimed_content_is_kept(config: ReversionConfigView, content: Seq<char>)
    requires
        config.field_error() is None,
        config.new_name is None,
        !crate::text::has_substring(content, "Distribution: "@),
        !crate::text::has_substring(content, config.source_version),
        forall|i: int|
            0 <= i < source_rows(content).len() ==> trimmed_end(#[trigger] source_rows(content)[i])
                == source_rows(content)[i],
        crate::text::ends_in_one_line_feed(content),
    ensures
        control_update(config, content) == Ok::<Seq<char>, ErrorView>(content),
        !patch_applies(config, content),
{
    reveal_strlit("\n");
    let rows = source_rows(content);
    crate::text::lemma_joined_split(content, '\n');
    crate::text::lemma_split_rows_are_single(content);
    assert("\n"@ =~= seq!['\n']);
    let text = joined(rows, "\n"@);
    assert(patched_rows(config, content) =~= rows) by {
        let v = first_prefixed(rows, "Version: "@);
        let reversioned = reversioned_rows(rows, config.source_version, config.new_version);
        if 0 <= v < rows.len() {
            if crate::text::has_substring(rows[v], config.source_version) {
                crate::text::lemma_split_piece_occurrence(
                    content,
                    '\n',
                    v,
                    config.source_version,
                );
            }
            crate::text::lemma_replaced_without_occurrence(
                rows[v],
                config.source_version,
                config.new_version,
            );
        }
        assert(reversioned =~= rows);
        assert forall|j: int| 0 <= j < rows.len() implies !has_prefix(
            #[trigger] rows[j],
            "Distribution: "@,
        ) by {
            if has_prefix(rows[j], "Distribution: "@) {
                crate::text::lemma_split_piece_occurrence(content, '\n', j, "Distribution: "@);
            }
        }
        lemma_first_prefixed_is(rows, "Distribution: "@, rows.len() as int);
    }
    let read = lines_of(text);
    let trimmed = trimmed_rows(read);
    crate::text::lemma_lines_of_joined_rows(rows);
    if content.len() >= 2 {
        assert(trimmed =~= rows);
    }
}

/// Patching is a function of the control file and of the names, versions
/// and channel to write. Two configurations that agree on these give the
/// same patched file, wherever the source lies and whatever channel it came
/// from.
pub proof fn lemma_patch_is_deterministic(
    a: ReversionConfigView,
    b: ReversionConfigView,
    content: Seq<char>,
)
    requires
        a.package_name == b.package_name,
        a.source_version == b.source_version,
        a.new_version == b.new_version,
        a.new_suite == b.new_suite,
        a.new_name == b.new_name,
    ensures
        control_update(a, content) == control_update(b, content),
{
}

/// How far a reversioning has come. Each stage but the first and the last
/// waits for the outcome of the action that led to it.
#[derive(Clone, Copy, Debug, PartialEq, Eq, Structural)]
pub enum ReversionStage {
    /// Nothing was done yet.
    Start,
    /// Looking whether the source package is there.
    CheckingSource,
    /// Making the directory to unpack into.
    CreatingExtractDir,
    /// Unpacking the source package.
    Extracting,
    /// Looking whether the unpacked package has a control file.
    CheckingControl,
    /// Reading the control file.
    ReadingControl,
    /// Writing the patched control file.
    WritingControl,
    /// Looking for the changelog under its first name.
    CheckingDebianChangelog,
    /// Looking for the changelog under its second name.
    CheckingChangelog,
    /// Making the directory of the new changelog.
    CreatingDocDir,
    /// Writing the new changelog entry.
    WritingChangelog,
    /// Compressing the new changelog.
    Compressing,
    /// Looking whether a file already has the name of the new package.
    CheckingOutput,
    /// Removing the file that has the name of the new package.
    RemovingOutput,
    /// Building the new package.
    Building,
    /// Looking whether the new package is there.
    ConfirmingOutput,
    /// The reversioning is over.
    Done,
}

/// The time of the entry that a changelog gets, as it is written there.
pub const CHANGELOG_TIME_FORMAT: &'static str = "%a, %d %b %Y %H:%M:%S +0000";

/// The entry that the changelog of the new package gets: the package with
/// its new version and channel, the version that it came from, who made the
/// change, and when.
pub open spec fn changelog_entry(config: ReversionConfigView, timestamp: Seq<char>) -> Seq<char> {
    config.final_name() + " ("@ + config.new_version + ") "@ + config.new_suite
        + "; urgency=medium\n\n  * Reversion from "@ + config.source_version + " to "@
        + config.new_version
        + "\n  * Automated reversion by release-manager\n\n -- Release Manager <release@minaprotocol.com>  "@
        + timestamp + "\n\n"@
}

impl DebianReversionerView {
    /// The directory that the source package is unpacked into.
    pub open spec fn extract_dir(self) -> Seq<char> {
        joined_path(self.temp_dir, "extracted"@)
    }

    /// The control file of the unpacked package.
    pub open spec fn control_file(self) -> Seq<char> {
        joined_path(joined_path(self.extract_dir(), "DEBIAN"@), "control"@)
    }

    /// The documentation directory of `package` in the unpacked package.
    pub open spec fn doc_dir(self, package: Seq<char>) -> Seq<char> {
        joined_path(
            joined_path(joined_path(joined_path(self.extract_dir(), "usr"@), "share"@), "doc"@),
            package,
        )
    }

    /// The file called `name` among the documentation of the source package.
    pub open spec fn source_changelog(self, name: Seq<char>) -> Seq<char> {
        joined_path(self.doc_dir(self.config.package_name), name)
    }

    /// The file that the new changelog entry is written to.
    pub open spec fn changelog_file(self) -> Seq<char> {
        joined_path(self.doc_dir(self.config.final_name()), "changelog.Debian"@)
    }

    /// The path of the new package: beside the source.
    pub open spec fn output_path(self) -> Seq<char> {
        self.config.output_path()
    }

    /// The command that unpacks the source package.
    pub open spec fn extract_command(self) -> CommandLineView {
        command("dpkg-deb"@).arg("-R"@).arg(self.config.deb_path).arg(self.extract_dir())
    }

    /// The command that compresses the new changelog over the old one.
    pub open spec fn compress_command(self) -> CommandLineView {
        command("gzip"@).arg("-f"@).arg(self.changelog_file())
    }

    /// The command that builds the new package.
    pub open spec fn build_command(self) -> CommandLineView {
        command("dpkg-deb"@).arg("--build"@).arg(self.extract_dir()).arg(self.output_path())
    }

    /// The failure that ends a reversioning.
    pub open spec fn fail(e: ErrorView) -> (ReversionStage, ActionView) {
        (ReversionStage::Done, ActionView::Fail(e))
    }

    /// What is done after the changelog was seen to: the way is cleared for
    /// the new package.
    pub open spec fn begin_rebuild(self) -> (ReversionStage, ActionView) {
        (ReversionStage::CheckingOutput, ActionView::PathExists(self.output_path()))
    }

    /// What is done once a changelog was found: a place is made for the new
    /// entry.
    pub open spec fn begin_changelog(self) -> (ReversionStage, ActionView) {
        (
            ReversionStage::CreatingDocDir,
            ActionView::CreateDirAll(self.doc_dir(self.config.final_name())),
        )
    }

    /// The step that a reversioning takes at `stage` when `event` comes in:
    /// the stage that follows, and what is to be done next. `timestamp` is
    /// the time that the changelog entry carries.
    ///
    /// The stages follow each other in one line. The inputs are checked
    /// before anything is unpacked. A failure to unpack, to read or write
    /// the control file, to clear the way for the new package or to build it
    /// ends the reversioning; a failure on the changelog does not. The
    /// source package is never written to.
    pub open spec fn step(self, stage: ReversionStage, event: EventView, timestamp: Seq<char>) -> (
        ReversionStage,
        ActionView,
    ) {
        match (stage, event) {
            (ReversionStage::Start, EventView::Begin) => (
                ReversionStage::CheckingSource,
                ActionView::PathExists(self.config.deb_path),
            ),
            (ReversionStage::CheckingSource, EventView::Exists(found)) => match input_error(
                self.config,
                found,
            ) {
                Some(e) => Self::fail(e),
                None => (
                    ReversionStage::CreatingExtractDir,
                    ActionView::CreateDirAll(self.extract_dir()),
                ),
            },
            (ReversionStage::CreatingExtractDir, EventView::Io(Err(failure))) => Self::fail(
                ErrorView::IoError(failure),
            ),
            (ReversionStage::CreatingExtractDir, EventView::Io(Ok(_))) => (
                ReversionStage::Extracting,
                ActionView::Run(self.extract_command()),
            ),
            (ReversionStage::Extracting, EventView::Command(outcome)) => match command_failure(
                outcome,
                "Failed to execute dpkg-deb: "@,
                "dpkg-deb extraction failed: "@,
            ) {
                Some(e) => Self::fail(e),
                None => (
                    ReversionStage::CheckingControl,
                    ActionView::PathExists(self.control_file()),
                ),
            },
            (ReversionStage::CheckingControl, EventView::Exists(found)) => if found {
                (ReversionStage::ReadingControl, ActionView::ReadToString(self.control_file()))
            } else {
                Self::fail(
                    ErrorView::IoError(
                        IoFailureView {
                            kind: IoErrorKind::NotFound,
                            message: "Control file not found: "@ + self.control_file(),
                        },
                    ),
                )
            },
            (ReversionStage::ReadingControl, EventView::Text(Err(failure))) => Self::fail(
                ErrorView::IoError(failure),
            ),
            (ReversionStage::ReadingControl, EventView::Text(Ok(content))) => match control_update(
                self.config,
                content,
            ) {
                Err(e) => Self::fail(e),
                Ok(patched) => (
                    ReversionStage::WritingControl,
                    ActionView::WriteFile { path: self.control_file(), content: patched },
                ),
            },
            (ReversionStage::WritingControl, EventView::Io(Err(failure))) => Self::fail(
                ErrorView::IoError(failure),
            ),
            (ReversionStage::WritingControl, EventView::Io(Ok(_))) => (
                ReversionStage::CheckingDebianChangelog,
                ActionView::PathExists(self.source_changelog("changelog.Debian.gz"@)),
            ),
            (ReversionStage::CheckingDebianChangelog, EventView::Exists(found)) => if found {
                self.begin_changelog()
            } else {
                (
                    ReversionStage::CheckingChangelog,
                    ActionView::PathExists(self.source_changelog("changelog.gz"@)),
                )
            },
            (ReversionStage::CheckingChangelog, EventView::Exists(found)) => if found {
                self.begin_changelog()
            } else {
                self.begin_rebuild()
            },
            (ReversionStage::CreatingDocDir, EventView::Io(Err(_))) => self.begin_rebuild(),
            (ReversionStage::CreatingDocDir, EventView::Io(Ok(_))) => (
                ReversionStage::WritingChangelog,
                ActionView::WriteFile {
                    path: self.changelog_file(),
                    content: changelog_entry(self.config, timestamp),
                },
            ),
            (ReversionStage::WritingChangelog, EventView::Io(_)) => (
                ReversionStage::Compressing,
                ActionView::Run(self.compress_command()),
            ),
            (ReversionStage::Compressing, EventView::Command(_)) => self.begin_rebuild(),
            (ReversionStage::CheckingOutput, EventView::Exists(found)) => if found {
                (ReversionStage::RemovingOutput, ActionView::RemoveFile(self.output_path()))
            } else {
                (ReversionStage::Building, ActionView::Run(self.build_command()))
            },
            (ReversionStage::RemovingOutput, EventView::Io(Err(failure))) => Self::fail(
                ErrorView::IoError(failure),
            ),
            (ReversionStage::RemovingOutput, EventView::Io(Ok(_))) => (
                ReversionStage::Building,
                ActionView::Run(self.build_command()),
            ),
            (ReversionStage::Building, EventView::Command(outcome)) => match command_failure(
                outcome,
                "Failed to execute dpkg-deb build: "@,
                "dpkg-deb build failed: "@,
            ) {
                Some(e) => Self::fail(e),
                None => (
                    ReversionStage::ConfirmingOutput,
                    ActionView::PathExists(self.output_path()),
                ),
            },
            (ReversionStage::ConfirmingOutput, EventView::Exists(found)) => if found {
                (ReversionStage::Done, ActionView::Complete(Some(self.output_path())))
            } else {
                Self::fail(
                    ErrorView::IoError(
                        IoFailureView {
                            kind: IoErrorKind::NotFound,
                            message: "New .deb package was not created: "@ + self.output_path(),
                        },
                    ),
                )
            },
            _ => Self::fail(ErrorView::ValidationError("unexpected event"@)),
        }
    }
}

/// Whether the step of a reversioning at `stage` on `event` reads the
/// clock: it is the step that writes the changelog entry.
pub open spec fn reads_clock(stage: ReversionStage, event: EventView) -> bool {
    match (stage, event) {
        (ReversionStage::CreatingDocDir, EventView::Io(Ok(_))) => true,
        _ => false,
    }
}

/// Asks `chrono::Utc::now` for the time and writes it as `format` says, with
/// `DateTime::format`. The result depends on the clock, so nothing is
/// claimed of it. It is `None` where `format` cannot be written out.
#[verifier::external_body]
fn utc_now_formatted(format: &str) -> (time: Option<String>) {
    let mut text = String::new();
    match write!(text, "{}", chrono::Utc::now().format(format)) {
        Ok(_) => Some(text),
        Err(_) => None,
    }
}

/// The failure that ends a reversioning.
fn fail(e: ManagerError) -> (r: (ReversionStage, Action))
    ensures
        (r.0, r.1@) == DebianReversionerView::fail(e@),
{
    (ReversionStage::Done, Action::Fail(e))
}

impl DebianReversioner {
    /// The directory that the source package is unpacked into.
    pub fn extract_dir(&self) -> (path: String)
        ensures
            path@ == self@.extract_dir(),
    {
        join_path(self.temp_dir.as_str(), "extracted")
    }

    /// The control file of the unpacked package.
    pub fn control_file(&self) -> (path: String)
        ensures
            path@ == self@.control_file(),
    {
        let dir = join_path(self.extract_dir().as_str(), "DEBIAN");
        join_path(dir.as_str(), "control")
    }

    /// The documentation directory of `package` in the unpacked package.
    pub fn doc_dir(&self, package: &str) -> (path: String)
        ensures
            path@ == self@.doc_dir(package@),
    {
        let usr = join_path(self.extract_dir().as_str(), "usr");
        let share = join_path(usr.as_str(), "share");
        let doc = join_path(share.as_str(), "doc");
        join_path(doc.as_str(), package)
    }

    /// The file called `name` among the documentation of the source package.
    pub fn source_changelog(&self, name: &str) -> (path: String)
        ensures
            path@ == self@.source_changelog(name@),
    {
        let dir = self.doc_dir(self.config.package_name.as_str());
        join_path(dir.as_str(), name)
    }

    /// The file that the new changelog entry is written to.
    pub fn changelog_file(&self) -> (path: String)
        ensures
            path@ == self@.changelog_file(),
    {
        let dir = self.doc_dir(self.config.final_name());
        join_path(dir.as_str(), "changelog.Debian")
    }

    /// The path of the new package: beside the source, named by the name and
    /// the version that it gets.
    pub fn output_path(&self) -> (path: String)
        ensures
            path@ == self@.output_path(),
    {
        self.config.output_path()
    }

    /// The entry that the changelog of the new package gets.
    pub fn create_changelog_entry(&self, timestamp: &str) -> (entry: String)
        ensures
            entry@ == changelog_entry(self@.config, timestamp@),
    {
        let mut entry = String::from_str(self.config.final_name());
        entry.append(" (");
        entry.append(self.config.new_version.as_str());
        entry.append(") ");
        entry.append(self.config.new_suite.as_str());
        entry.append("; urgency=medium\n\n  * Reversion from ");
        entry.append(self.config.source_version.as_str());
        entry.append(" to ");
        entry.append(self.config.new_version.as_str());
        entry.append(
            "\n  * Automated reversion by release-manager\n\n -- Release Manager <release@minaprotocol.com>  ",
        );
        entry.append(timestamp);
        entry.append("\n\n");
        entry
    }

    /// The command that unpacks the source package.
    pub fn extract_package(&self) -> (line: CommandLine)
        ensures
            line@ == self@.extract_command(),
    {
        CommandLine::new("dpkg-deb").arg("-R").arg(self.config.deb_path.as_str()).arg(
            self.extract_dir().as_str(),
        )
    }

    /// The command that builds the new package.
    pub fn rebuild_package(&self) -> (line: CommandLine)
        ensures
            line@ == self@.build_command(),
    {
        CommandLine::new("dpkg-deb").arg("--build").arg(self.extract_dir().as_str()).arg(
            self.output_path().as_str(),
        )
    }

    fn begin_rebuild(&self) -> (r: (ReversionStage, Action))
        ensures
            (r.0, r.1@) == self@.begin_rebuild(),
    {
        (ReversionStage::CheckingOutput, Action::PathExists(self.output_path()))
    }

    fn begin_changelog(&self) -> (r: (ReversionStage, Action))
        ensures
            (r.0, r.1@) == self@.begin_changelog(),
    {
        (
            ReversionStage::CreatingDocDir,
            Action::CreateDirAll(self.doc_dir(self.config.final_name())),
        )
    }

    /// The step that the reversioning takes at `stage` when `event` comes
    /// in, with the time that the changelog entry carries given.
    pub fn reversion_at(&self, stage: ReversionStage, event: Event, timestamp: &str) -> (r: (
        ReversionStage,
        Action,
    ))
        ensures
            (r.0, r.1@) == self@.step(stage, event@, timestamp@),
    {
        match (stage, event) {
            (ReversionStage::Start, Event::Begin) => (
                ReversionStage::CheckingSource,
                Action::PathExists(self.config.deb_path.clone()),
            ),
            (ReversionStage::CheckingSource, Event::Exists(found)) => match self.validate_inputs(
                found,
            ) {
                Err(e) => fail(e),
                Ok(_) => (
                    ReversionStage::CreatingExtractDir,
                    Action::CreateDirAll(self.extract_dir()),
                ),
            },
            (ReversionStage::CreatingExtractDir, Event::Io(Err(failure))) => fail(
                ManagerError::IoError(failure),
            ),
            (ReversionStage::CreatingExtractDir, Event::Io(Ok(_))) => (
                ReversionStage::Extracting,
                Action::Run(self.extract_package()),
            ),
            (ReversionStage::Extracting, Event::Command(outcome)) => match check_command(
                &outcome,
                "Failed to execute dpkg-deb: ",
                "dpkg-deb extraction failed: ",
            ) {
                Some(e) => fail(e),
                None => (ReversionStage::CheckingControl, Action::PathExists(self.control_file())),
            },
            (ReversionStage::CheckingControl, Event::Exists(found)) => if found {
                (ReversionStage::ReadingControl, Action::ReadToString(self.control_file()))
            } else {
                fail(
                    ManagerError::not_found(
                        crate::errors::describe(
                            "Control file not found: ",
                            self.control_file().as_str(),
                        ),
                    ),
                )
            },
            (ReversionStage::ReadingControl, Event::Text(Err(failure))) => fail(
                ManagerError::IoError(failure),
            ),
            (ReversionStage::ReadingControl, Event::Text(Ok(content))) => {
                match self.update_control_content(content.as_str()) {
                    Err(e) => fail(e),
                    Ok(patched) => (
                        ReversionStage::WritingControl,
                        Action::WriteFile { path: self.control_file(), content: patched },
                    ),
                }
            },
            (ReversionStage::WritingControl, Event::Io(Err(failure))) => fail(
                ManagerError::IoError(failure),
            ),
            (ReversionStage::WritingControl, Event::Io(Ok(_))) => (
                ReversionStage::CheckingDebianChangelog,
                Action::PathExists(self.source_changelog("changelog.Debian.gz")),
            ),
            (ReversionStage::CheckingDebianChangelog, Event::Exists(found)) => if found {
                self.begin_changelog()
            } else {
                (
                    ReversionStage::CheckingChangelog,
                    Action::PathExists(self.source_changelog("changelog.gz")),
                )
            },
            (ReversionStage::CheckingChangelog, Event::Exists(found)) => if found {
                self.begin_changelog()
            } else {
                self.begin_rebuild()
            },
            (ReversionStage::CreatingDocDir, Event::Io(Err(_))) => self.begin_rebuild(),
            (ReversionStage::CreatingDocDir, Event::Io(Ok(_))) => (
                ReversionStage::WritingChangelog,
                Action::WriteFile {
                    path: self.changelog_file(),
                    content: self.create_changelog_entry(timestamp),
                },
            ),
            (ReversionStage::WritingChangelog, Event::Io(_)) => (
                ReversionStage::Compressing,
                Action::Run(
                    CommandLine::new("gzip").arg("-f").arg(self.changelog_file().as_str()),
                ),
            ),
            (ReversionStage::Compressing, Event::Command(_)) => self.begin_rebuild(),
            (ReversionStage::CheckingOutput, Event::Exists(found)) => if found {
                (ReversionStage::RemovingOutput, Action::RemoveFile(self.output_path()))
            } else {
                (ReversionStage::Building, Action::Run(self.rebuild_package()))
            },
            (ReversionStage::RemovingOutput, Event::Io(Err(failure))) => fail(
                ManagerError::IoError(failure),
            ),
            (ReversionStage::RemovingOutput, Event::Io(Ok(_))) => (
                ReversionStage::Building,
                Action::Run(self.rebuild_package()),
            ),
            (ReversionStage::Building, Event::Command(outcome)) => match check_command(
                &outcome,
                "Failed to execute dpkg-deb build: ",
                "dpkg-deb build failed: ",
            ) {
                Some(e) => fail(e),
                None => (ReversionStage::ConfirmingOutput, Action::PathExists(self.output_path())),
            },
            (ReversionStage::ConfirmingOutput, Event::Exists(found)) => if found {
                (ReversionStage::Done, Action::Complete(Some(self.output_path())))
            } else {
                fail(
                    ManagerError::not_found(
                        crate::errors::describe(
                            "New .deb package was not created: ",
                            self.output_path().as_str(),
                        ),
                    ),
                )
            },
            _ => fail(ManagerError::validation("unexpected event")),
        }
    }

    /// The step that the reversioning takes at `stage` when `event` comes
    /// in. The first call takes [`ReversionStage::Start`] and
    /// [`Event::Begin`]; each later call takes the stage that the call
    /// before gave, and the outcome of the action that it asked for. The
    /// time of the changelog entry is read from the clock, in the step that
    /// writes the entry and in no other. Where the time cannot be written
    /// out, the entry is written without it.
    pub fn reversion(&self, stage: ReversionStage, event: Event) -> (r: (ReversionStage, Action))
        ensures
            exists|timestamp: Seq<char>|
                (r.0, r.1@) == #[trigger] self@.step(stage, event@, timestamp),
            !reads_clock(stage, event@) ==> forall|timestamp: Seq<char>|
                (r.0, r.1@) == #[trigger] self@.step(stage, event@, timestamp),
    {
        let reads = match (stage, &event) {
            (ReversionStage::CreatingDocDir, Event::Io(Ok(_))) => true,
            _ => false,
        };
        let timestamp = if reads {
            match utc_now_formatted(CHANGELOG_TIME_FORMAT) {
                Some(time) => time,
                None => String::new(),
            }
        } else {
            String::new()
        };
        self.reversion_at(stage, event, timestamp.as_str())
    }
}

/// A reversioner for the package at `deb_path`, ready to take its first
/// step. `temp_dir` is the directory to unpack into, or why it could not be
/// made.
pub fn reversion_debian_package(
    deb_path: &str,
    package_name: &str,
    source_version: &str,
    new_version: &str,
    suite: &str,
    new_suite: &str,
    new_name: Option<&str>,
    temp_dir: Result<String, IoFailure>,
) -> (r: ManagerResult<DebianReversioner>)
    ensures
        match temp_dir {
            Ok(dir) => r matches Ok(made) && made@ == (DebianReversionerView {
                config: ReversionConfigView {
                    deb_path: deb_path@,
                    package_name: package_name@,
                    source_version: source_version@,
                    new_version: new_version@,
                    suite: suite@,
                    new_suite: new_suite@,
                    new_name: opt_text(new_name),
                },
                temp_dir: dir@,
            }),
            Err(failure) => r matches Err(e) && e@ == ErrorView::IoError(
                IoFailureView {
                    kind: IoErrorKind::Other,
                    message: "Failed to create temp directory: "@ + failure.message@,
                },
            ),
        },
{
    let config = ReversionConfig {
        deb_path: String::from_str(deb_path),
        package_name: String::from_str(package_name),
        source_version: String::from_str(source_version),
        new_version: String::from_str(new_version),
        suite: String::from_str(suite),
        new_suite: String::from_str(new_suite),
        new_name: match new_name {
            Some(name) => Some(String::from_str(name)),
            None => None,
        },
    };
    DebianReversioner::new(config, temp_dir)
}

/// A reversioning whose inputs are not acceptable ends before anything is
/// unpacked. Its first step only looks whether the source is there; with the
/// source missing, or a name or version empty, the next step is the
/// validation failure, and no command was asked for.
pub proof fn lemma_invalid_inputs_end_before_extraction(
    reversioner: DebianReversionerView,
    found: bool,
    timestamp: Seq<char>,
)
    requires
        input_error(reversioner.config, found) is Some,
    ensures
        reversioner.step(ReversionStage::Start, EventView::Begin, timestamp) == (
            ReversionStage::CheckingSource,
            ActionView::PathExists(reversioner.config.deb_path),
        ),
        reversioner.step(ReversionStage::CheckingSource, EventView::Exists(found), timestamp)
            == DebianReversionerView::fail(input_error(reversioner.config, found)->0),
        !found ==> input_error(reversioner.config, found)->0 is ValidationError,
{
}

/// The time goes into one step only: the one that writes the changelog
/// entry. Every other step of a reversioning is the same at every time.
pub proof fn lemma_time_is_read_in_one_step(
    reversioner: DebianReversionerView,
    stage: ReversionStage,
    event: EventView,
    now: Seq<char>,
    then: Seq<char>,
)
    requires
        !reads_clock(stage, event),
    ensures
        reversioner.step(stage, event, now) == reversioner.step(stage, event, then),
{
}

/// A changelog that is found gets its new entry, whatever the time: once
/// the place for it was made, the step that follows writes the entry, and
/// the one after that compresses it.
pub proof fn lemma_found_changelog_is_written(
    reversioner: DebianReversionerView,
    timestamp: Seq<char>,
)
    ensures
        reversioner.step(
            ReversionStage::CheckingDebianChangelog,
            EventView::Exists(true),
            timestamp,
        ) == reversioner.begin_changelog(),
        reversioner.step(ReversionStage::CheckingChangelog, EventView::Exists(true), timestamp)
            == reversioner.begin_changelog(),
        reversioner.step(ReversionStage::CreatingDocDir, EventView::Io(Ok(())), timestamp) == (
            ReversionStage::WritingChangelog,
            ActionView::WriteFile {
                path: reversioner.changelog_file(),
                content: changelog_entry(reversioner.config, timestamp),
            },
        ),
{
}

/// What is written into the control file does not depend on where the
/// package is unpacked, nor on the time. Two reversionings that agree on
/// the names, the versions and the new channel write the same content for
/// the same control file, whatever their directories and clocks.
pub proof fn lemma_control_write_is_deterministic(
    a: DebianReversionerView,
    b: DebianReversionerView,
    content: Seq<char>,
    time_a: Seq<char>,
    time_b: Seq<char>,
)
    requires
        a.config.package_name == b.config.package_name,
        a.config.source_version == b.config.source_version,
        a.config.new_version == b.config.new_version,
        a.config.new_suite == b.config.new_suite,
        a.config.new_name == b.config.new_name,
    ensures
        ({
            let read = EventView::Text(Ok(content));
            let step_a = a.step(ReversionStage::ReadingControl, read, time_a);
            let step_b = b.step(ReversionStage::ReadingControl, read, time_b);
            &&& step_a.0 == step_b.0
            &&& step_a.1 is Fail ==> step_a.1 == step_b.1
            &&& step_a.1 matches ActionView::WriteFile { content: written_a, .. } ==> step_b.1
                is WriteFile && step_b.1->WriteFile_content == written_a && written_a
                == patched_control(a.config, content)
            &&& step_a.1 is Fail || step_a.1 is WriteFile
        }),
{
}

/// The changelog entry is the same for the same names, versions and channel
/// at the same time: nothing else goes into it.
pub proof fn lemma_changelog_entry_is_deterministic(
    a: ReversionConfigView,
    b: ReversionConfigView,
    timestamp: Seq<char>,
)
    requires
        a.package_name == b.package_name,
        a.source_version == b.source_version,
        a.new_version == b.new_version,
        a.new_suite == b.new_suite,
        a.new_name == b.new_name,
    ensures
        changelog_entry(a, timestamp) == changelog_entry(b, timestamp),
{
}

/// The source package is never written to. For inputs that passed the
/// check, whatever the stage and the event: a file that a step removes is
/// not the source, a file that a step writes is the control file or the new
/// changelog in the directory of the unpacked package, and the package that
/// a step builds does not take the place of the source.
pub proof fn lemma_source_is_never_overwritten(
    reversioner: DebianReversionerView,
    stage: ReversionStage,
    event: EventView,
    timestamp: Seq<char>,
)
    requires
        input_error(reversioner.config, true) is None,
    ensures
        ({
            let action = reversioner.step(stage, event, timestamp).1;
            &&& action matches ActionView::RemoveFile(path) ==> path != reversioner.config.deb_path
            &&& action matches ActionView::WriteFile { path, .. } ==> path
                == reversioner.control_file() || path == reversioner.changelog_file()
            &&& action matches ActionView::Run(line) ==> line == reversioner.extract_command()
                || line == reversioner.compress_command() || line == reversioner.build_command()
            &&& reversioner.build_command().args.last() != reversioner.config.deb_path
        }),
{
}

} // verus!
