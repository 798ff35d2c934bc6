//! Formatting of diagnostic log lines and masking of the credential, so
//! only a short prefix of the secret can ever reach the log.

use vstd::prelude::*;

verus! {

/// The masked form of a credential: its first four characters and `...`
/// when it is longer than four characters, `***` otherwise.
pub open spec fn masked_of(key: Seq<char>) -> Seq<char> {
    if key.len() > 4 {
        key.take(4) + "..."@
    } else {
        "***"@
    }
}

/// Masks a credential for logging.
pub fn mask_credential(key: &str) -> (r: String)
    ensures
        r@ == masked_of(key@),
{
    let n = key.unicode_len();
    if n > 4 {
        String::from_str(key.substring_char(0, 4)).concat("...")
    } else {
        String::from_str("***")
    }
}

/// One log line: the timestamp in brackets, a space, the message, and a
/// newline.
pub open spec fn log_line_of(timestamp: Seq<char>, message: Seq<char>) -> Seq<char> {
    seq!['['] + timestamp + seq![']', ' '] + message + seq!['\n']
}

/// Formats one timestamped log line.
pub fn format_log_line(timestamp: &str, message: &str) -> (r: String)
    ensures
        r@ == log_line_of(timestamp@, message@),
{
    proof {
        reveal_strlit("[");
        reveal_strlit("] ");
        reveal_strlit("\n");
    }
    let mut out = String::from_str("[");
    out.append(timestamp);
    out.append("] ");
    out.append(message);
    out.append("\n");
    proof {
        assert(out@ =~= log_line_of(timestamp@, message@));
    }
    out
}

} // verus!
