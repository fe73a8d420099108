//! The hello announcement that the agent publishes after each connect and
//! each reload.
use vstd::prelude::*;
use vstd::string::StringExecFns;
use crate::config::Config;

verus! {

/// The character of the decimal digit `d`.
pub open spec fn digit_char(d: nat) -> char {
    if d == 0 {
        '0'
    } else if d == 1 {
        '1'
    } else if d == 2 {
        '2'
    } else if d == 3 {
        '3'
    } else if d == 4 {
        '4'
    } else if d == 5 {
        '5'
    } else if d == 6 {
        '6'
    } else if d == 7 {
        '7'
    } else if d == 8 {
        '8'
    } else {
        '9'
    }
}

/// The decimal digits of `n`.
pub open spec fn digits(n: nat) -> Seq<char>
    decreases n,
{
    if n < 10 {
        seq![digit_char(n)]
    } else {
        digits(n / 10).push(digit_char(n % 10))
    }
}

/// `n` in decimal, with a leading `-` where it is negative.
pub open spec fn decimal(n: int) -> Seq<char> {
    if n < 0 {
        seq!['-'] + digits((-n) as nat)
    } else {
        digits(n as nat)
    }
}

fn digit_text(d: u64) -> (r: &'static str)
    requires
        d < 10,
    ensures
        r@ == seq![digit_char(d as nat)],
{
    proof {
        reveal_strlit("0");
        reveal_strlit("1");
        reveal_strlit("2");
        reveal_strlit("3");
        reveal_strlit("4");
        reveal_strlit("5");
        reveal_strlit("6");
        reveal_strlit("7");
        reveal_strlit("8");
        reveal_strlit("9");
    }
    let r = if d == 0 {
        "0"
    } else if d == 1 {
        "1"
    } else if d == 2 {
        "2"
    } else if d == 3 {
        "3"
    } else if d == 4 {
        "4"
    } else if d == 5 {
        "5"
    } else if d == 6 {
        "6"
    } else if d == 7 {
        "7"
    } else if d == 8 {
        "8"
    } else {
        "9"
    };
    assert(r@ =~= seq![digit_char(d as nat)]);
    r
}

fn digits_text(n: u64) -> (r: String)
    ensures
        r@ == digits(n as nat),
    decreases n,
{
    if n < 10 {
        String::from_str(digit_text(n))
    } else {
        let mut s = digits_text(n / 10);
        s.append(digit_text(n % 10));
        assert(s@ =~= digits((n / 10) as nat).push(digit_char((n % 10) as nat)));
        s
    }
}

/// `n` in decimal.
fn int_text(n: i32) -> (r: String)
    ensures
        r@ == decimal(n as int),
{
    if n < 0 {
        proof {
            reveal_strlit("-");
        }
        let mut s = String::from_str("-");
        let m: u64 = (0i64 - n as i64) as u64;
        let d = digits_text(m);
        s.append(d.as_str());
        assert(s@ =~= seq!['-'] + digits((-(n as int)) as nat));
        s
    } else {
        digits_text(n as u64)
    }
}

/// The text of `s` as a quoted, escaped string literal.
pub uninterp spec fn quoted(s: Seq<char>) -> Seq<char>;

/// Relies on the `Debug` of `str`: the text between double quotes, with quotes,
/// backslashes and control characters escaped.
#[verifier::external_body]
fn quoted_text(s: &str) -> (r: String)
    ensures
        r@ == quoted(s@),
{
    format!("{:?}", s)
}

pub open spec fn bool_text(b: bool) -> Seq<char> {
    if b {
        "true"@
    } else {
        "false"@
    }
}

fn push_bool(out: &mut String, b: bool)
    ensures
        final(out)@ == old(out)@ + bool_text(b),
{
    if b {
        out.append("true");
    } else {
        out.append("false");
    }
}

/// The hello announcement: service name, agent version and bundle identifier,
/// with the compiler options, as one JSON object.
pub open spec fn hello_text(cfg: Config, bundle_id: Seq<char>) -> Seq<char> {
    "{\"service\":\"embeddedWorkflowAgent\",\"version\":"@ + quoted(cfg.eea_version@)
        + ",\"bundle\":\""@ + bundle_id
        + "\",\"compilerOptions\":{\"exportMemory\":"@ + bool_text(cfg.eea_export_memory)
        + ",\"disableDebugMessage\":"@ + bool_text(cfg.eea_disable_debug_msg)
        + ",\"traceLevel\":"@ + decimal(cfg.eea_trace_topic_level as int)
        + ",\"debugSymbols\":"@ + bool_text(cfg.eea_debug_symbols)
        + ",\"stackSize\":"@ + decimal(cfg.eea_stack_size as int)
        + ",\"gzip\":"@ + bool_text(cfg.eea_bundle_gzip)
        + "}}"@
}

/// Builds the hello announcement for the running bundle `bundle_id`.
pub fn hello_message(cfg: &Config, bundle_id: &str) -> (r: String)
    ensures
        r@ == hello_text(*cfg, bundle_id@),
{
    let mut out = String::from_str("{\"service\":\"embeddedWorkflowAgent\",\"version\":");
    let version = quoted_text(cfg.eea_version.as_str());
    out.append(version.as_str());
    out.append(",\"bundle\":\"");
    out.append(bundle_id);
    out.append("\",\"compilerOptions\":{\"exportMemory\":");
    push_bool(&mut out, cfg.eea_export_memory);
    out.append(",\"disableDebugMessage\":");
    push_bool(&mut out, cfg.eea_disable_debug_msg);
    out.append(",\"traceLevel\":");
    let level = int_text(cfg.eea_trace_topic_level);
    out.append(level.as_str());
    out.append(",\"debugSymbols\":");
    push_bool(&mut out, cfg.eea_debug_symbols);
    out.append(",\"stackSize\":");
    let stack = int_text(cfg.eea_stack_size);
    out.append(stack.as_str());
    out.append(",\"gzip\":");
    push_bool(&mut out, cfg.eea_bundle_gzip);
    out.append("}}");
    out
}

} // verus!
