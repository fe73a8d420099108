//! The operator's command lines: `info`, `direct <id> <payload>` and `exit`.
use vstd::prelude::*;

verus! {

/// What an operator's (already trimmed) line asks for.
#[derive(Debug, PartialEq, Eq)]
pub enum CliCommand {
    Exit,
    Info,
    /// Fire the direct trigger `id` with `payload`.
    Direct { id: Vec<u8>, payload: Vec<u8> },
    /// A `direct` line whose rest holds no space between identifier and payload.
    MalformedDirect,
    /// Anything else; it is ignored.
    Unrecognized,
}

pub open spec fn exit_word() -> Seq<u8> {
    seq![101u8, 120u8, 105u8, 116u8]
}

pub open spec fn info_word() -> Seq<u8> {
    seq![105u8, 110u8, 102u8, 111u8]
}

pub open spec fn direct_word() -> Seq<u8> {
    seq![100u8, 105u8, 114u8, 101u8, 99u8, 116u8]
}

pub open spec fn space() -> u8 {
    32u8
}

pub open spec fn has_prefix(s: Seq<u8>, p: Seq<u8>) -> bool {
    p.len() <= s.len() && s.take(p.len() as int) == p
}

/// The part of a `direct` line after the word `direct` and one space.
pub open spec fn direct_rest(s: Seq<u8>) -> Seq<u8> {
    if has_prefix(s, direct_word().push(space())) {
        s.skip(7)
    } else {
        s
    }
}

/// `s` is `id`, a space, then `payload`, split at the first space of `s`.
pub open spec fn splits_at_first_space(s: Seq<u8>, id: Seq<u8>, payload: Seq<u8>) -> bool {
    s == id + seq![space()] + payload && !id.contains(space())
}

fn word_matches(s: &[u8], w: &Vec<u8>) -> (r: bool)
    ensures
        r == has_prefix(s@, w@),
{
    if w.len() > s.len() {
        return false;
    }
    let mut i: usize = 0;
    while i < w.len()
        invariant
            w@.len() <= s@.len(),
            i <= w@.len(),
            s@.take(i as int) == w@.take(i as int),
        decreases w@.len() - i,
    {
        if s[i] != w[i] {
            assert(s@.take(w@.len() as int)[i as int] != w@[i as int]);
            return false;
        }
        i = i + 1;
        assert(s@.take(i as int) =~= w@.take(i as int)) by {
            assert(s@.take(i - 1) == w@.take(i - 1));
        };
    }
    assert(w@.take(w@.len() as int) =~= w@);
    true
}

fn copy_range(s: &[u8], from: usize, to: usize) -> (r: Vec<u8>)
    requires
        from <= to <= s@.len(),
    ensures
        r@ == s@.subrange(from as int, to as int),
{
    let mut out: Vec<u8> = Vec::new();
    let mut i: usize = from;
    while i < to
        invariant
            from <= i <= to,
            to <= s@.len(),
            out@ == s@.subrange(from as int, i as int),
        decreases to - i,
    {
        out.push(s[i]);
        i = i + 1;
        assert(out@ =~= s@.subrange(from as int, i as int));
    }
    out
}

/// Reads one operator line.
pub fn parse_cli(line: &[u8]) -> (r: CliCommand)
    ensures
        line@ == exit_word() <==> r == CliCommand::Exit,
        line@ == info_word() <==> r == CliCommand::Info,
        line@ != exit_word() && line@ != info_word() && has_prefix(line@, direct_word()) ==> match r {
            CliCommand::Direct { id, payload } => splits_at_first_space(direct_rest(line@), id@, payload@),
            CliCommand::MalformedDirect => !direct_rest(line@).contains(space()),
            _ => false,
        },
        !has_prefix(line@, direct_word()) && line@ != exit_word() && line@ != info_word()
            ==> r == CliCommand::Unrecognized,
{
    let exit_w: Vec<u8> = vec![101u8, 120u8, 105u8, 116u8];
    let info_w: Vec<u8> = vec![105u8, 110u8, 102u8, 111u8];
    let direct_w: Vec<u8> = vec![100u8, 105u8, 114u8, 101u8, 99u8, 116u8];
    let direct_sp: Vec<u8> = vec![100u8, 105u8, 114u8, 101u8, 99u8, 116u8, 32u8];
    assert(exit_w@ =~= exit_word());
    assert(info_w@ =~= info_word());
    assert(direct_w@ =~= direct_word());
    assert(direct_sp@ =~= direct_word().push(space()));
    if line.len() == 4 && word_matches(line, &exit_w) {
        assert(line@ =~= line@.take(4));
        return CliCommand::Exit;
    }
    if line.len() == 4 && word_matches(line, &info_w) {
        assert(line@ =~= line@.take(4));
        return CliCommand::Info;
    }
    assert(line@ != exit_word() && line@ != info_word()) by {
        if line@ == exit_word() {
            assert(line@.take(4) =~= line@);
        }
        if line@ == info_word() {
            assert(line@.take(4) =~= line@);
        }
    };
    if !word_matches(line, &direct_w) {
        return CliCommand::Unrecognized;
    }
    let start: usize = if word_matches(line, &direct_sp) { 7 } else { 0 };
    let ghost rest = direct_rest(line@);
    assert(rest =~= line@.skip(start as int));
    let mut i: usize = start;
    while i < line.len()
        invariant
            start <= i <= line@.len(),
            rest == line@.skip(start as int),
            rest == direct_rest(line@),
            has_prefix(line@, direct_word()),
            line@ != exit_word() && line@ != info_word(),
            !line@.subrange(start as int, i as int).contains(space()),
        decreases line@.len() - i,
    {
        if line[i] == 32u8 {
            let id = copy_range(line, start, i);
            let payload = copy_range(line, i + 1, line.len());
            assert(rest =~= id@ + seq![space()] + payload@);
            assert(id@ =~= line@.subrange(start as int, i as int));
            return CliCommand::Direct { id, payload };
        }
        assert(line@.subrange(start as int, i + 1) =~= line@.subrange(start as int, i as int).push(line@[i as int]));
        i = i + 1;
    }
    assert(rest =~= line@.subrange(start as int, line@.len() as int));
    CliCommand::MalformedDirect
}

} // verus!
