//! The error and report taxonomy for data ingestion.
//!
//! Each ingestion format has a closed error kind, converted at the
//! boundary where the format-specific decoder runs. A `DatafilesReport`
//! is the immutable, reportable unit describing one ingestion attempt:
//! success, one per-file failure tagged with the offending path, or the
//! aggregate of per-entity deep-validation failures.

use crate::strutil::{
    i32_to_dec, last_segment, line_at, spec_dec_int, spec_lines, spec_split, u64_to_dec,
};
use ellipse::Ellipse;
use vstd::prelude::*;
use vstd::string::StringExecFns;

verus! {

/// A failure while reading one data file, as a closed tagged union:
/// the shape of the underlying decoder error, with its human-readable
/// message and (where the decoder knows one) the offending position.
/// A line or column of zero means unknown.
#[derive(Debug)]
pub enum DataReadError {
    /// JSON deserialization failed.
    SerdeJson { message: String, line: usize, column: usize },
    /// Tabular (CSV) deserialization failed.
    SerdeCsv { message: String, line: usize },
    /// Reading the file itself failed.
    Io { message: String },
    /// Domain-validity failure: a duplicate credit id in the
    /// credit-name list.
    CreditsDuplicateCreditId(String),
}

/// A failure opening or structurally validating one per-entity
/// animation-data file.
#[derive(Debug)]
pub enum AnimDataXmlOpenError {
    /// Reading the file failed.
    Io(String),
    /// The file's structure is invalid.
    Parse(String),
}

/// One deep-validation failure: which entity and form, and why.
#[derive(Debug)]
pub struct XmlCheckFailure {
    pub monster_id: i32,
    pub form_path: Vec<i32>,
    pub error: AnimDataXmlOpenError,
}

/// The outcome of one data-ingestion attempt, immutable once built.
#[derive(Debug)]
pub enum DatafilesReport {
    /// The ingestion succeeded.
    Success,
    /// A JSON file could not be decoded.
    JsonDeserializeError { path: String, message: String, line: usize, column: usize },
    /// A tabular file could not be decoded.
    CsvDeserializeError { path: String, message: String, line: usize },
    /// A file could not be read.
    IoError { path: String, message: String },
    /// The credit-name list held a duplicate credit id.
    CreditsDuplicateCreditId { path: String, credit_id: String },
    /// The aggregate of all per-entity deep-validation failures of one
    /// refresh cycle.
    AnimDataXmlErrors(Vec<XmlCheckFailure>),
}

impl DataReadError {
    /// An exact copy; unlike a derived clone, its contract says so.
    pub fn duplicate(&self) -> (r: DataReadError)
        ensures
            r == *self,
    {
        match self {
            DataReadError::SerdeJson { message, line, column } => DataReadError::SerdeJson {
                message: message.clone(),
                line: *line,
                column: *column,
            },
            DataReadError::SerdeCsv { message, line } => DataReadError::SerdeCsv {
                message: message.clone(),
                line: *line,
            },
            DataReadError::Io { message } => DataReadError::Io { message: message.clone() },
            DataReadError::CreditsDuplicateCreditId(id) => DataReadError::CreditsDuplicateCreditId(
                id.clone(),
            ),
        }
    }
}

/// How a file-read failure is classified into a report: the error's
/// shape picks the report variant, and the offending path is attached.
pub open spec fn from_data_read_error_spec(file_path: String, err: DataReadError) -> DatafilesReport {
    match err {
        DataReadError::SerdeJson { message, line, column } => DatafilesReport::JsonDeserializeError {
            path: file_path,
            message,
            line,
            column,
        },
        DataReadError::SerdeCsv { message, line } => DatafilesReport::CsvDeserializeError {
            path: file_path,
            message,
            line,
        },
        DataReadError::Io { message } => DatafilesReport::IoError { path: file_path, message },
        DataReadError::CreditsDuplicateCreditId(id) => DatafilesReport::CreditsDuplicateCreditId {
            path: file_path,
            credit_id: id,
        },
    }
}

impl DatafilesReport {
    /// Builds the report for a failed file read.
    pub fn from_data_read_error(file_path: String, err: DataReadError) -> (r: DatafilesReport)
        ensures
            r == from_data_read_error_spec(file_path, err),
    {
        match err {
            DataReadError::SerdeJson { message, line, column } => {
                DatafilesReport::JsonDeserializeError { path: file_path, message, line, column }
            },
            DataReadError::SerdeCsv { message, line } => {
                DatafilesReport::CsvDeserializeError { path: file_path, message, line }
            },
            DataReadError::Io { message } => {
                DatafilesReport::IoError { path: file_path, message }
            },
            DataReadError::CreditsDuplicateCreditId(id) => {
                DatafilesReport::CreditsDuplicateCreditId { path: file_path, credit_id: id }
            },
        }
    }
}

/// Pairs the outcome of a format-specific decoder with the report the
/// notification sink must receive. Every failure is both propagated to
/// the caller and turned into a report tagged with the offending path;
/// no failure path loses either obligation, and a success reports
/// nothing.
pub fn read_and_report_error<T>(path: String, out: Result<T, DataReadError>) -> (r: (
    Result<T, DataReadError>,
    Option<DatafilesReport>,
))
    ensures
        out matches Ok(v) ==> (r.0 matches Ok(v0) && v0 == v) && r.1 is None,
        out matches Err(e) ==> (r.0 matches Err(e0) && e0 == e) && r.1 == Some(
            from_data_read_error_spec(path, e),
        ),
{
    match out {
        Ok(v) => (Ok(v), None),
        Err(e) => {
            let copy = e.duplicate();
            let report = DatafilesReport::from_data_read_error(path, copy);
            (Err(e), Some(report))
        },
    }
}

/// What the result of the ellipsis truncation of a text to a grapheme
/// budget is; it depends on the characters and the budget alone.
pub uninterp spec fn truncated_of(s: Seq<char>, len: nat) -> Seq<char>;

/// Relies on ellipse's truncate_ellipse: it keeps at most `len` leading
/// extended grapheme clusters -- a prefix of the text -- and appends
/// three dots exactly when it had to cut; a text of at most `len`
/// characters has at most `len` grapheme clusters and is kept whole,
/// and a budget of zero yields the empty string.
#[verifier::external_body]
fn truncate_ellipse_str(s: &str, len: usize) -> (r: String)
    ensures
        r@ == truncated_of(s@, len as nat),
        s@.len() <= len ==> r@ == s@,
        len == 0 ==> r@.len() == 0,
        r@.len() <= s@.len() + 3,
{
    s.truncate_ellipse(len).into_owned()
}

/// The file-name part of a path: everything after the last slash.
pub open spec fn spec_file_name(path: Seq<char>) -> Seq<char> {
    spec_split(path, '/').last()
}

/// The grapheme budget of a source-line excerpt.
pub const PREVIEW_WIDTH: usize = 300;

/// The rendering of an AnimData failure's reason.
pub open spec fn spec_describe_xml_error(e: AnimDataXmlOpenError) -> Seq<char> {
    match e {
        AnimDataXmlOpenError::Io(m) => "I/O error: "@ + m@,
        AnimDataXmlOpenError::Parse(m) => "invalid animation data: "@ + m@,
    }
}

impl AnimDataXmlOpenError {
    /// Renders the failure's reason.
    pub fn describe(&self) -> (r: String)
        ensures
            r@ == spec_describe_xml_error(*self),
    {
        match self {
            AnimDataXmlOpenError::Io(m) => {
                let mut r = "I/O error: ".to_owned();
                r.append(m.as_str());
                r
            },
            AnimDataXmlOpenError::Parse(m) => {
                let mut r = "invalid animation data: ".to_owned();
                r.append(m.as_str());
                r
            },
        }
    }
}

/// A form path joined with slashes, without padding: the per-entity
/// line of an aggregate report names forms this way.
pub open spec fn spec_form_plain(path: Seq<i32>) -> Seq<char>
    decreases path.len(),
{
    if path.len() == 0 {
        Seq::empty()
    } else if path.len() == 1 {
        spec_dec_int(path[0] as int)
    } else {
        spec_form_plain(path.drop_last()) + seq!['/'] + spec_dec_int(path.last() as int)
    }
}

fn form_plain(path: &Vec<i32>) -> (r: String)
    ensures
        r@ == spec_form_plain(path@),
{
    let mut r = String::new();
    let n = path.len();
    let mut i: usize = 0;
    proof {
        assert(path@.take(0) =~= Seq::<i32>::empty());
        assert(r@ =~= spec_form_plain(path@.take(0)));
    }
    while i < n
        invariant
            n == path@.len(),
            i <= n,
            r@ == spec_form_plain(path@.take(i as int)),
        decreases n - i,
    {
        if i > 0 {
            r.append("/");
        }
        let d = i32_to_dec(path[i]);
        r.append(d.as_str());
        proof {
            reveal_strlit("/");
            assert("/"@ =~= seq!['/']);
            assert(path@.take(i as int + 1).drop_last() =~= path@.take(i as int));
            assert(path@.take(i as int + 1).last() == path@[i as int]);
            assert(r@ =~= spec_form_plain(path@.take(i as int + 1)));
        }
        i += 1;
    }
    proof {
        assert(path@.take(n as int) =~= path@);
    }
    r
}

/// One line of an aggregate report: which entity and form failed, and
/// why.
pub open spec fn spec_xml_line(f: XmlCheckFailure) -> Seq<char> {
    spec_dec_int(f.monster_id as int) + seq!['/'] + spec_form_plain(f.form_path@) + ": "@
        + spec_describe_xml_error(f.error)
}

fn xml_line(f: &XmlCheckFailure) -> (r: String)
    ensures
        r@ == spec_xml_line(*f),
{
    let mut r = i32_to_dec(f.monster_id);
    r.append("/");
    let fp = form_plain(&f.form_path);
    r.append(fp.as_str());
    r.append(": ");
    let d = f.error.describe();
    r.append(d.as_str());
    proof {
        reveal_strlit("/");
        assert("/"@ =~= seq!['/']);
        assert(r@ =~= spec_xml_line(*f));
    }
    r
}

/// The per-entity lines of an aggregate report, joined with newlines.
pub open spec fn spec_xml_joined(errs: Seq<XmlCheckFailure>) -> Seq<char>
    decreases errs.len(),
{
    if errs.len() == 0 {
        Seq::empty()
    } else if errs.len() == 1 {
        spec_xml_line(errs[0])
    } else {
        spec_xml_joined(errs.drop_last()) + seq!['\n'] + spec_xml_line(errs.last())
    }
}

fn xml_joined(errs: &Vec<XmlCheckFailure>) -> (r: String)
    ensures
        r@ == spec_xml_joined(errs@),
{
    let mut r = String::new();
    let n = errs.len();
    let mut i: usize = 0;
    proof {
        assert(errs@.take(0) =~= Seq::<XmlCheckFailure>::empty());
        assert(r@ =~= spec_xml_joined(errs@.take(0)));
    }
    while i < n
        invariant
            n == errs@.len(),
            i <= n,
            r@ == spec_xml_joined(errs@.take(i as int)),
        decreases n - i,
    {
        if i > 0 {
            r.append("\n");
        }
        let line = xml_line(&errs[i]);
        r.append(line.as_str());
        proof {
            reveal_strlit("\n");
            assert("\n"@ =~= seq!['\n']);
            assert(errs@.take(i as int + 1).drop_last() =~= errs@.take(i as int));
            assert(errs@.take(i as int + 1).last() == errs@[i as int]);
            assert(r@ =~= spec_xml_joined(errs@.take(i as int + 1)));
        }
        i += 1;
    }
    proof {
        assert(errs@.take(n as int) =~= errs@);
    }
    r
}

/// The one-line-per-failure rendering of a report.
pub open spec fn spec_format_short(rep: DatafilesReport) -> Seq<char> {
    match rep {
        DatafilesReport::Success => "Success."@,
        DatafilesReport::JsonDeserializeError { path, message, .. } => "Failed reading "@
            + spec_file_name(path@) + ": "@ + message@,
        DatafilesReport::CsvDeserializeError { path, message, .. } => "Failed reading "@
            + spec_file_name(path@) + ": "@ + message@,
        DatafilesReport::IoError { path, message } => "Failed reading "@ + spec_file_name(path@)
            + ": "@ + message@,
        DatafilesReport::CreditsDuplicateCreditId { path, credit_id } => "Failed reading "@
            + spec_file_name(path@) + ": "@ + credit_id@,
        DatafilesReport::AnimDataXmlErrors(errs) => if errs@.len() == 0 {
            "Failed reading one or more animation data XML files:"@
        } else {
            "Failed reading one or more animation data XML files:"@ + seq!['\n'] + spec_xml_joined(
                errs@,
            )
        },
    }
}

fn failed_reading(path: &str, what: &str) -> (r: String)
    ensures
        r@ == "Failed reading "@ + spec_file_name(path@) + ": "@ + what@,
{
    let mut r = "Failed reading ".to_owned();
    r.append(last_segment(path, '/'));
    r.append(": ");
    r.append(what);
    r
}

impl DatafilesReport {
    /// The short, loggable rendering: one line per failure, naming the
    /// offending file (or, for the aggregate, one line per failing
    /// entity) and the underlying error.
    pub fn format_short(&self) -> (r: String)
        ensures
            r@ == spec_format_short(*self),
    {
        match self {
            DatafilesReport::Success => "Success.".to_owned(),
            DatafilesReport::JsonDeserializeError { path, message, .. } => {
                failed_reading(path.as_str(), message.as_str())
            },
            DatafilesReport::CsvDeserializeError { path, message, .. } => {
                failed_reading(path.as_str(), message.as_str())
            },
            DatafilesReport::IoError { path, message } => {
                failed_reading(path.as_str(), message.as_str())
            },
            DatafilesReport::CreditsDuplicateCreditId { path, credit_id } => {
                failed_reading(path.as_str(), credit_id.as_str())
            },
            DatafilesReport::AnimDataXmlErrors(errs) => {
                let mut r = "Failed reading one or more animation data XML files:".to_owned();
                if errs.len() > 0 {
                    r.append("\n");
                    let joined = xml_joined(errs);
                    r.append(joined.as_str());
                    proof {
                        reveal_strlit("\n");
                        assert("\n"@ =~= seq!['\n']);
                    }
                }
                r
            },
        }
    }
}

/// The fixed advisory banner of a rich-form failure notification.
pub const DISCORD_UPDATE_INFO: &'static str =
    "The data update failed. I will not send any messages about further failures for 12h. I will send a message when the update works again.";

/// The source-line excerpt of a rich-form notification: for a known,
/// non-zero line number of a re-readable file whose text has that line,
/// the line quoted in a code block, truncated to the excerpt budget;
/// otherwise nothing -- this is best-effort diagnostics.
pub open spec fn spec_preview(source: Option<&str>, line_n: usize) -> Seq<char> {
    match source {
        None => Seq::empty(),
        Some(content) => {
            if line_n == 0 || line_n > spec_lines(content@).len() {
                Seq::empty()
            } else {
                "\nLine "@ + spec_dec_int(line_n as int) + ":\n```\n"@ + truncated_of(
                    spec_lines(content@)[line_n - 1],
                    PREVIEW_WIDTH as nat,
                ) + "\n```"@
            }
        },
    }
}

/// Builds the source-line excerpt. `source` is the offending file's
/// text, if the shell could re-read it.
pub fn discord_preview(source: Option<&str>, line_n: usize) -> (r: String)
    ensures
        r@ == spec_preview(source, line_n),
{
    let content = match source {
        None => {
            return String::new();
        },
        Some(c) => c,
    };
    if line_n == 0 {
        return String::new();
    }
    let line = match line_at(content, line_n - 1) {
        None => {
            return String::new();
        },
        Some(l) => l,
    };
    let mut r = "\nLine ".to_owned();
    let d = u64_to_dec(line_n as u64);
    r.append(d.as_str());
    r.append(":\n```\n");
    let t = truncate_ellipse_str(line, PREVIEW_WIDTH);
    r.append(t.as_str());
    r.append("\n```");
    r
}

/// The rich-form rendering of a report: the heading and the body of one
/// external notification. Every failure body opens with the advisory
/// banner and carries the failure description; a parse failure with a
/// known line number carries the excerpt where the file could be
/// re-read.
pub open spec fn spec_format_for_discord(
    rep: DatafilesReport,
    source: Option<&str>,
) -> (&'static str, Seq<char>) {
    let title = match rep {
        DatafilesReport::Success => "SpriteCollab Update Recovered",
        _ => "Failed SpriteCollab Update",
    };
    let body = match rep {
        DatafilesReport::Success => "The SpriteCollab data update is working again."@,
        DatafilesReport::JsonDeserializeError { path, message, line, .. } => "*"@
            + DISCORD_UPDATE_INFO@ + "*\n\n**Description**:\nFailed reading "@ + spec_file_name(
            path@,
        ) + ": "@ + message@ + spec_preview(source, line),
        DatafilesReport::CsvDeserializeError { path, message, line } => "*"@ + DISCORD_UPDATE_INFO@
            + "*\n\n**Description**:\nFailed reading "@ + spec_file_name(path@) + ": "@ + message@
            + spec_preview(source, line),
        DatafilesReport::IoError { path, message } => "*"@ + DISCORD_UPDATE_INFO@
            + "*\n\n**Description**:\nFailed reading "@ + spec_file_name(path@) + ": "@ + message@,
        DatafilesReport::CreditsDuplicateCreditId { path, credit_id } => "*"@ + DISCORD_UPDATE_INFO@
            + "*\n\n**Description**:\nFailed reading "@ + spec_file_name(path@) + ": "@
            + credit_id@,
        DatafilesReport::AnimDataXmlErrors(errs) => "*"@ + DISCORD_UPDATE_INFO@
            + "*\n\n**Description**:\nFailed reading one or more AnimData.xml files: ```\n"@
            + spec_xml_joined(errs@) + "\n```"@,
    };
    (title, body)
}

fn discord_failed_reading(path: &str, what: &str) -> (r: String)
    ensures
        r@ == "*"@ + DISCORD_UPDATE_INFO@ + "*\n\n**Description**:\nFailed reading "@
            + spec_file_name(path@) + ": "@ + what@,
{
    let mut r = "*".to_owned();
    r.append(DISCORD_UPDATE_INFO);
    r.append("*\n\n**Description**:\nFailed reading ");
    r.append(last_segment(path, '/'));
    r.append(": ");
    r.append(what);
    r
}

impl DatafilesReport {
    /// The rich-form rendering for the notification sink. `source` is
    /// the offending file's text where the shell could re-read it, for
    /// the best-effort excerpt; passing nothing omits the excerpt.
    pub fn format_for_discord(&self, source: Option<&str>) -> (r: (&'static str, String))
        ensures
            r.0 == spec_format_for_discord(*self, source).0,
            r.1@ == spec_format_for_discord(*self, source).1,
    {
        let title: &'static str = match self {
            DatafilesReport::Success => "SpriteCollab Update Recovered",
            _ => "Failed SpriteCollab Update",
        };
        let body = match self {
            DatafilesReport::Success => {
                "The SpriteCollab data update is working again.".to_owned()
            },
            DatafilesReport::JsonDeserializeError { path, message, line, .. } => {
                let mut r = discord_failed_reading(path.as_str(), message.as_str());
                let p = discord_preview(source, *line);
                r.append(p.as_str());
                r
            },
            DatafilesReport::CsvDeserializeError { path, message, line } => {
                let mut r = discord_failed_reading(path.as_str(), message.as_str());
                let p = discord_preview(source, *line);
                r.append(p.as_str());
                r
            },
            DatafilesReport::IoError { path, message } => {
                discord_failed_reading(path.as_str(), message.as_str())
            },
            DatafilesReport::CreditsDuplicateCreditId { path, credit_id } => {
                discord_failed_reading(path.as_str(), credit_id.as_str())
            },
            DatafilesReport::AnimDataXmlErrors(errs) => {
                let mut r = "*".to_owned();
                r.append(DISCORD_UPDATE_INFO);
                r.append("*\n\n**Description**:\nFailed reading one or more AnimData.xml files: ```\n");
                let joined = xml_joined(errs);
                r.append(joined.as_str());
                r.append("\n```");
                r
            },
        };
        (title, body)
    }
}

} // verus!
