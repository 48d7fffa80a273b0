//! The device writer's one piece of logic: the line format delivered to the
//! hardware for each status message.

use vstd::prelude::*;
use vstd::string::StringExecFns;
use crate::state::{MessageModel, StatusMessage};

verus! {

/// The single line written to the device for one message:
/// the file, a comma, the status, a newline.
pub open spec fn spec_device_line(m: MessageModel) -> Seq<char> {
    m.target_file + ","@ + m.status_text + "\n"@
}

/// Formats one status message as the line the device expects.
pub fn device_line(m: &StatusMessage) -> (line: String)
    ensures
        line@ == spec_device_line(m@),
{
    let mut line = m.target_file.clone();
    line.append(",");
    line.append(m.status_text.as_str());
    line.append("\n");
    proof {
        assert(line@ =~= spec_device_line(m@));
    }
    line
}

} // verus!
