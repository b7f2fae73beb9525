use vstd::prelude::*;
use crate::prompt::{trimmed, trim_text};
use vstd::string::StrSliceExecFns;

verus! {

/// The ten decimal digits, in order.
pub open spec fn digits() -> Seq<char> {
    seq!['0', '1', '2', '3', '4', '5', '6', '7', '8', '9']
}

/// The decimal notation of `n`, without sign or leading zeros.
pub open spec fn decimal(n: nat) -> Seq<char>
    decreases n,
{
    if n < 10 {
        seq![digits()[n as int]]
    } else {
        decimal(n / 10) + seq![digits()[(n % 10) as int]]
    }
}

/// Appends the decimal notation of `n` to `out`.
pub fn append_decimal(out: &mut String, n: usize)
    ensures
        final(out)@ == old(out)@ + decimal(n as nat),
    decreases n,
{
    if n >= 10 {
        append_decimal(out, n / 10);
    }
    let d: usize = n % 10;
    proof {
        reveal_strlit("0123456789");
    }
    let digit = "0123456789".substring_char(d, d + 1);
    proof {
        assert("0123456789"@ =~= digits());
        assert(digit@ =~= seq![digits()[d as int]]);
    }
    out.append(digit);
    proof {
        if n >= 10 {
            assert(final(out)@ =~= old(out)@ + decimal(n as nat));
        }
    }
}

/// The status line shown when no context could be loaded from `path`.
pub open spec fn missing_line(path: Seq<char>) -> Seq<char> {
    "⚠️ No launch plan found at '"@ + path + "'."@
}

/// The status line shown when a context of `len` bytes was loaded.
pub open spec fn loaded_line(len: nat) -> Seq<char> {
    "✅ Launch plan loaded into context ("@ + decimal(len) + " chars)."@
}

/// The status line for a load from `path`, given the trimmed context and the
/// length in bytes of the context as loaded.
pub open spec fn status_line(trimmed_context: Seq<char>, len: nat, path: Seq<char>) -> Seq<char> {
    if trimmed_context.len() == 0 {
        missing_line(path)
    } else {
        loaded_line(len)
    }
}

/// Builds the status line from a context that has already been trimmed and
/// the length in bytes of the context as loaded.
pub fn status_for_trimmed(trimmed_context: &str, context_len: usize, path: &str) -> (r: String)
    ensures
        r@ == status_line(trimmed_context@, context_len as nat, path@),
{
    if trimmed_context.is_empty() {
        let mut r = String::from_str("⚠️ No launch plan found at '");
        r.append(path);
        r.append("'.");
        r
    } else {
        let mut r = String::from_str("✅ Launch plan loaded into context (");
        append_decimal(&mut r, context_len);
        r.append(" chars).");
        r
    }
}

/// Builds the line that tells the channel whether context was found at `path`:
/// where it was looked for when it is blank, else how many bytes it holds.
pub fn status_message(context: &str, path: &str) -> (r: String)
    ensures
        r@ == status_line(trimmed(context@), context.len() as nat, path@),
{
    let t = trim_text(context);
    status_for_trimmed(t, context.len(), path)
}

} // verus!
