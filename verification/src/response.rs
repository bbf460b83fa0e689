//! One line of the wire protocol, decoded.
//!
//! A response from the microcontroller is a single line of JSON text of the
//! shape `{"status": <string>, "command": <string>, "response": <value>}`,
//! where the `response` field may be absent. The library only ever inspects
//! three shapes of payload: an absent payload, a boolean payload, and the
//! handshake payload `{"null": [..names..], "boolean": [..names..]}`; every
//! other payload is carried as [`Payload::Other`].

use vstd::prelude::*;
use vstd::string::*;

verus! {

/// The payload carried in the `response` field of one protocol line.
#[derive(Debug, PartialEq)]
pub enum Payload {
    /// The `response` field is absent or JSON `null`.
    Absent,
    /// The `response` field is a JSON boolean.
    Bool(bool),
    /// The `response` field is the handshake object: two arrays of command
    /// names keyed `"null"` and `"boolean"`.
    CommandLists { null_commands: Vec<String>, bool_commands: Vec<String> },
    /// Any other present payload.
    Other,
}

/// Mathematical model of a [`Payload`].
pub ghost enum PayloadModel {
    Absent,
    Bool(bool),
    CommandLists { null_commands: Seq<Seq<char>>, bool_commands: Seq<Seq<char>> },
    Other,
}

impl View for Payload {
    type V = PayloadModel;

    open spec fn view(&self) -> PayloadModel {
        match self {
            Payload::Absent => PayloadModel::Absent,
            Payload::Bool(b) => PayloadModel::Bool(*b),
            Payload::CommandLists { null_commands, bool_commands } => PayloadModel::CommandLists {
                null_commands: null_commands.deep_view(),
                bool_commands: bool_commands.deep_view(),
            },
            Payload::Other => PayloadModel::Other,
        }
    }
}

/// One decoded protocol response line.
#[derive(Debug, PartialEq)]
pub struct ArduinoCommandResponse {
    pub status: String,
    pub command: String,
    pub response: Payload,
}

/// Mathematical model of an [`ArduinoCommandResponse`].
pub ghost struct ResponseModel {
    pub status: Seq<char>,
    pub command: Seq<char>,
    pub response: PayloadModel,
}

impl View for ArduinoCommandResponse {
    type V = ResponseModel;

    open spec fn view(&self) -> ResponseModel {
        ResponseModel {
            status: self.status@,
            command: self.command@,
            response: self.response@,
        }
    }
}

/// The record, if any, that JSON decoding finds in one line of text
/// (surrounding whitespace ignored). The result depends on the characters
/// alone; its exact value is fixed by the JSON grammar and is not restated
/// here.
pub uninterp spec fn line_record(line: Seq<char>) -> Option<ResponseModel>;

/// The success sentinel of the `status` field.
pub open spec fn ok_status() -> Seq<char> {
    seq!['o', 'k']
}

/// Relies on `serde_json::from_str` (with `serde_json::Value::get`,
/// `Value::as_str` and, through `string_list`, `Value::as_array`) to decode
/// one trimmed line of text into a `{status, command, response}` record:
/// `None` when the line is not such a record. The decode is a function of
/// the characters alone, named `line_record`.
#[verifier::external_body]
fn decode_line(line: &str) -> (r: Option<ArduinoCommandResponse>)
    ensures
        r is Some <==> line_record(line@) is Some,
        r matches Some(rec) ==> rec@ == line_record(line@).unwrap(),
{
    let v: serde_json::Value = serde_json::from_str(line.trim()).ok()?;
    let status = v.get("status")?.as_str()?.to_owned();
    let command = v.get("command")?.as_str()?.to_owned();
    let response = match v.get("response") {
        None | Some(serde_json::Value::Null) => Payload::Absent,
        Some(serde_json::Value::Bool(b)) => Payload::Bool(*b),
        Some(p) => match (string_list(p.get("null")), string_list(p.get("boolean"))) {
            (Some(null_commands), Some(bool_commands)) => Payload::CommandLists {
                null_commands,
                bool_commands,
            },
            _ => Payload::Other,
        },
    };
    Some(ArduinoCommandResponse { status, command, response })
}

/// The JSON value type of `serde_json`, opaque here; it only passes through
/// `decode_line` into `string_list`.
#[verifier::external_type_specification]
#[verifier::external_body]
pub struct ExValue(serde_json::Value);

/// Part of `decode_line`'s body: relies on `serde_json::Value::as_array` and
/// `Value::as_str` to read a JSON array of strings, `None` for any other
/// value.
#[verifier::external_body]
fn string_list(v: Option<&serde_json::Value>) -> (r: Option<Vec<String>>) {
    v?.as_array()?.iter().map(|x| x.as_str().map(str::to_owned)).collect()
}

/// What scanning the accumulated lines of one attempt concluded.
#[derive(Debug, PartialEq)]
pub enum ScanVerdict {
    /// A line with the success status answered the awaited command.
    Matched(Payload),
    /// A line failed to decode as a response record.
    Malformed,
    /// A decoded line carried a non-success status.
    NonOk,
    /// Every line decoded with the success status but none answered the
    /// awaited command; keep waiting.
    Pending,
}

/// Mathematical model of a [`ScanVerdict`].
pub ghost enum ScanVerdictModel {
    Matched(PayloadModel),
    Malformed,
    NonOk,
    Pending,
}

impl View for ScanVerdict {
    type V = ScanVerdictModel;

    open spec fn view(&self) -> ScanVerdictModel {
        match self {
            ScanVerdict::Matched(p) => ScanVerdictModel::Matched(p@),
            ScanVerdict::Malformed => ScanVerdictModel::Malformed,
            ScanVerdict::NonOk => ScanVerdictModel::NonOk,
            ScanVerdict::Pending => ScanVerdictModel::Pending,
        }
    }
}

/// The verdict a single line yields while awaiting `command`, before any
/// later line is considered.
pub open spec fn spec_line_verdict(line: Seq<char>, command: Seq<char>) -> ScanVerdictModel {
    match line_record(line) {
        Option::None => ScanVerdictModel::Malformed,
        Option::Some(rec) => if rec.status != ok_status() {
            ScanVerdictModel::NonOk
        } else if rec.command == command {
            ScanVerdictModel::Matched(rec.response)
        } else {
            ScanVerdictModel::Pending
        },
    }
}

/// The verdict of scanning a sequence of lines in arrival order while
/// awaiting `command`: the first line that fails to decode, carries a
/// non-success status, or answers the command settles the scan.
pub open spec fn spec_scan(lines: Seq<Seq<char>>, command: Seq<char>) -> ScanVerdictModel
    decreases lines.len(),
{
    if lines.len() == 0 {
        ScanVerdictModel::Pending
    } else {
        match spec_line_verdict(lines[0], command) {
            ScanVerdictModel::Pending => spec_scan(lines.drop_first(), command),
            v => v,
        }
    }
}

/// A scan answers with payload `p` only by correlation: some line decoded
/// as a record with the success status whose `command` field equals the
/// awaited command, carrying `p`, and every line before it decoded with the
/// success status but answered another command.
pub proof fn lemma_scan_match_is_correlated(
    lines: Seq<Seq<char>>,
    command: Seq<char>,
    p: PayloadModel,
)
    requires
        spec_scan(lines, command) == ScanVerdictModel::Matched(p),
    ensures
        exists|i: int|
            0 <= i < lines.len() && #[trigger] spec_line_verdict(lines[i], command)
                == ScanVerdictModel::Matched(p) && forall|j: int|
                0 <= j < i ==> #[trigger] spec_line_verdict(lines[j], command)
                    == ScanVerdictModel::Pending,
    decreases lines.len(),
{
    if spec_line_verdict(lines[0], command) == ScanVerdictModel::Matched(p) {
        assert(spec_line_verdict(lines[0], command) == ScanVerdictModel::Matched(p) && forall|
            j: int,
        |
            0 <= j < 0 ==> #[trigger] spec_line_verdict(lines[j], command)
                == ScanVerdictModel::Pending);
    } else {
        assert(spec_line_verdict(lines[0], command) == ScanVerdictModel::Pending);
        let rest = lines.drop_first();
        lemma_scan_match_is_correlated(rest, command, p);
        let i = choose|i: int|
            0 <= i < rest.len() && #[trigger] spec_line_verdict(rest[i], command)
                == ScanVerdictModel::Matched(p) && forall|j: int|
                0 <= j < i ==> #[trigger] spec_line_verdict(rest[j], command)
                    == ScanVerdictModel::Pending;
        assert(rest[i] == lines[i + 1]);
        assert(spec_line_verdict(lines[i + 1], command) == ScanVerdictModel::Matched(p));
        assert forall|j: int|
            0 <= j < i + 1 implies #[trigger] spec_line_verdict(lines[j], command)
            == ScanVerdictModel::Pending by {
            if j > 0 {
                assert(rest[j - 1] == lines[j]);
            }
        }
    }
}

/// Decodes one line and classifies it against the awaited command.
pub fn line_verdict(line: &str, command: &String) -> (v: ScanVerdict)
    ensures
        v@ == spec_line_verdict(line@, command@),
{
    proof {
        reveal_strlit("ok");
    }
    match decode_line(line) {
        None => ScanVerdict::Malformed,
        Some(rec) => {
            let ok = String::from_str("ok");
            assert(ok@ =~= ok_status());
            if !rec.status.eq(&ok) {
                ScanVerdict::NonOk
            } else if rec.command.eq(command) {
                ScanVerdict::Matched(rec.response)
            } else {
                ScanVerdict::Pending
            }
        },
    }
}

/// Scans accumulated lines in arrival order while awaiting `command`.
pub fn scan_lines(lines: &Vec<String>, command: &String) -> (v: ScanVerdict)
    ensures
        v@ == spec_scan(lines.deep_view(), command@),
{
    let ghost all = lines.deep_view();
    proof {
        assert(all.skip(0) =~= all);
    }
    let mut i: usize = 0;
    while i < lines.len()
        invariant
            i <= lines.len(),
            all == lines.deep_view(),
            spec_scan(all, command@) == spec_scan(all.skip(i as int), command@),
            forall|j: int|
                0 <= j < i ==> spec_line_verdict(all[j], command@) == ScanVerdictModel::Pending,
        decreases lines.len() - i,
    {
        assert(all.skip(i as int)[0] == all[i as int]);
        let v = line_verdict(lines[i].as_str(), command);
        if !matches!(v, ScanVerdict::Pending) {
            assert(spec_scan(all.skip(i as int), command@) == v@);
            return v;
        }
        assert(all.skip(i as int).drop_first() =~= all.skip(i as int + 1));
        i = i + 1;
    }
    assert(all.skip(i as int).len() == 0);
    ScanVerdict::Pending
}

} // verus!
