//! Macro files: which of them are accepted, and how failures read.

use vstd::prelude::*;

use crate::model;
use crate::model::MacroData;
use crate::text;
use crate::text::push_dec;

verus! {

/// The format version that is written.
pub const CURRENT_FORMAT_VERSION: i32 = 1;

/// The ending of the name of a macro file.
pub const EXTENSION: &'static str = ".ttx";

/// Why a macro file cannot be used or written, in words.
#[derive(Debug)]
pub struct MalformedMacroFile(pub String);

/// Whether a format version can be read: any but future ones.
pub open spec fn supported(version: i32) -> bool {
    version <= CURRENT_FORMAT_VERSION
}

/// The text of a format version that cannot be read.
pub open spec fn unsupported_text(version: i32) -> Seq<char> {
    "format v"@ + text::dec(version as int) + " not supported (expected v"@ + text::dec(
        CURRENT_FORMAT_VERSION as int,
    ) + ")"@
}

/// A macro as it is taken from a file: with every value in its bounds, in the current format.
pub open spec fn accepted(d: model::MacroView) -> model::MacroView {
    model::MacroView { format_version: CURRENT_FORMAT_VERSION, ..model::sane_macro(d) }
}

/// Takes what was read out of a macro file: the macro, or the reason that its text makes
/// none.
pub fn deserialize(parsed: Result<MacroData, String>) -> (r: Result<MacroData, MalformedMacroFile>)
    ensures
        match parsed {
            Err(e) => r is Err && r->Err_0.0@ == "corrupt .ttx: "@ + e@,
            Ok(d) => if supported(d@.format_version) {
                r is Ok && r->Ok_0@ == accepted(d@)
            } else {
                r is Err && r->Err_0.0@ == unsupported_text(d@.format_version)
            },
        },
{
    let mut data: MacroData = match parsed {
        Ok(data) => data,
        Err(e) => {
            let mut s: String = "corrupt .ttx: ".to_owned();
            s.append(e.as_str());
            return Err(MalformedMacroFile(s));
        },
    };
    if data.format_version > CURRENT_FORMAT_VERSION {
        let mut s: String = "format v".to_owned();
        push_dec(&mut s, data.format_version as i64);
        s.append(" not supported (expected v");
        push_dec(&mut s, CURRENT_FORMAT_VERSION as i64);
        s.append(")");
        return Err(MalformedMacroFile(s));
    }
    data.sanitize();
    data.format_version = CURRENT_FORMAT_VERSION;
    Ok(data)
}

/// The failure to turn a macro into text.
pub fn serialize_error(error: &str) -> (r: MalformedMacroFile)
    ensures
        r.0@ == "serialize failed: "@ + error@,
{
    let mut s: String = "serialize failed: ".to_owned();
    s.append(error);
    MalformedMacroFile(s)
}

/// The failure to write a file.
pub fn write_error(path: &str, error: &str) -> (r: MalformedMacroFile)
    ensures
        r.0@ == "write "@ + path@ + ": "@ + error@,
{
    let mut s: String = "write ".to_owned();
    s.append(path);
    s.append(": ");
    s.append(error);
    MalformedMacroFile(s)
}

/// The failure to read a file.
pub fn read_error(path: &str, error: &str) -> (r: MalformedMacroFile)
    ensures
        r.0@ == "read "@ + path@ + ": "@ + error@,
{
    let mut s: String = "read ".to_owned();
    s.append(path);
    s.append(": ");
    s.append(error);
    MalformedMacroFile(s)
}

/// Reading gives back what was written: a macro in the current format whose values are in
/// their bounds is accepted as it is.
pub proof fn law_sane_macro_is_accepted_as_it_is(d: model::MacroView)
    requires
        d.format_version == CURRENT_FORMAT_VERSION,
        model::sane_macro(d) == d,
    ensures
        supported(d.format_version),
        accepted(d) == d,
{
}

/// What was accepted once is accepted again, unchanged.
pub proof fn law_accepted_macro_stays_accepted(d: model::MacroView)
    ensures
        supported(accepted(d).format_version),
        accepted(accepted(d)) == accepted(d),
{
    model::law_sanitize_is_idempotent(d);
    model::law_sanitize_is_idempotent(accepted(d));
    assert(accepted(accepted(d)) =~= accepted(d));
}

/// A file is refused just where its text is no macro or its format is of the future. Else the
/// macro is taken in the current format, with all its events in their order, each the same
/// but for a negative wait.
pub proof fn law_no_event_is_lost_on_opening(
    parsed: Result<MacroData, String>,
    r: Result<MacroData, MalformedMacroFile>,
)
    requires
        call_ensures(deserialize, (parsed,), r),
    ensures
        r is Ok <==> parsed is Ok && parsed->Ok_0.format_version <= 1,
        r is Ok ==> {
            let d = parsed->Ok_0@;
            let a = r->Ok_0@;
            &&& a.format_version == 1
            &&& a.app_name == d.app_name
            &&& a.saved_at_utc == d.saved_at_utc
            &&& a.infinite_loop == d.infinite_loop
            &&& 1 <= d.loop_count <= 9999 ==> a.loop_count == d.loop_count
            &&& d.interval_ms >= 0 ==> a.interval_ms == d.interval_ms
            &&& a.events.len() == d.events.len()
            &&& forall|i: int|
                0 <= i < d.events.len() ==> (#[trigger] a.events[i]) == (model::MacroEvent {
                    delay_ms: a.events[i].delay_ms,
                    ..d.events[i]
                }) && a.events[i].delay_ms >= 0 && (d.events[i].delay_ms >= 0
                    ==> a.events[i].delay_ms == d.events[i].delay_ms)
        },
{
}

/// What the user is told of a file that failed ends with the reason, and names the file where
/// the file was the trouble.
pub proof fn law_failures_are_told(
    path: &str,
    error: &str,
    parse: Result<MacroData, MalformedMacroFile>,
    text: String,
    serialize: MalformedMacroFile,
    write: MalformedMacroFile,
    read: MalformedMacroFile,
)
    requires
        text@ == error@,
        call_ensures(deserialize, (Err::<MacroData, String>(text),), parse),
        call_ensures(serialize_error, (error,), serialize),
        call_ensures(write_error, (path, error), write),
        call_ensures(read_error, (path, error), read),
    ensures
        parse is Err,
        parse->Err_0.0@.skip(parse->Err_0.0@.len() - error@.len()) == error@,
        serialize.0@.skip(serialize.0@.len() - error@.len()) == error@,
        write.0@.skip(write.0@.len() - error@.len()) == error@,
        read.0@.skip(read.0@.len() - error@.len()) == error@,
        write.0@.subrange(6, 6 + path@.len() as int) == path@,
        read.0@.subrange(5, 5 + path@.len() as int) == path@,
        write.0@[0] == 'w',
        read.0@[0] == 'r',
{
    reveal_strlit("write ");
    reveal_strlit("read ");
    assert(parse->Err_0.0@.skip(parse->Err_0.0@.len() - error@.len()) =~= error@);
    assert(serialize.0@.skip(serialize.0@.len() - error@.len()) =~= error@);
    assert(write.0@.skip(write.0@.len() - error@.len()) =~= error@);
    assert(read.0@.skip(read.0@.len() - error@.len()) =~= error@);
    assert(write.0@.subrange(6, 6 + path@.len() as int) =~= path@);
    assert(read.0@.subrange(5, 5 + path@.len() as int) =~= path@);
}

} // verus!
