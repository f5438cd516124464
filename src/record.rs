use vstd::prelude::*;
use vstd::string::StringExecFns;

use crate::level::Level;

verus! {

/// Where a record was emitted from.
pub struct Metadata {
    /// The module path of the call site.
    pub module: &'static str,
    /// The source file of the call site.
    pub file: &'static str,
    /// The line of the call site.
    pub line: u32,
}

/// One log record, as handed to the extension and to the sink.
pub struct Payload {
    /// The severity of the record.
    pub level: Level,
    /// The formatted message.
    pub args: String,
    /// The call site.
    pub meta: Metadata,
}

/// The text of a rendered record: `[LEVEL] message`.
pub open spec fn line_text(level: Level, message: Seq<char>) -> Seq<char> {
    seq!['['] + level.label() + seq![']', ' '] + message
}

/// Renders a record as `[LEVEL] message`, without a line terminator.
pub fn format_line(payload: &Payload) -> (r: String)
    ensures
        r@ == line_text(payload.level, payload.args@),
{
    proof {
        reveal_strlit("[");
        reveal_strlit("] ");
    }
    let mut out = String::from_str("[");
    out.append(payload.level.as_str());
    out.append("] ");
    out.append(payload.args.as_str());
    assert(out@ =~= line_text(payload.level, payload.args@));
    out
}

} // verus!
