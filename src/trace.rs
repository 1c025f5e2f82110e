use vstd::prelude::*;
use vstd::utf8::encode_utf8;

use crate::strings::{join, joined, views};

verus! {

/// First line of every record.
pub const RECORD_BEGIN: &'static str = "---\n";

/// Last line of every record.
pub const RECORD_END: &'static str = "\n***\n";

/// Label before the wrapper's arguments.
pub const ARGS_LABEL: &'static str = "ARGS:";

/// Label before the command line.
pub const CMD_LABEL: &'static str = "\nCMD:";

/// Label before the working directory.
pub const CWD_LABEL: &'static str = "\nCWD:";

/// Label before the PATH.
pub const PATH_LABEL: &'static str = "\nPATH:";

/// Label before the exit code.
pub const EXIT_LABEL: &'static str = "\nEXITCODE:";

/// Label before the captured standard input.
pub const STDIN_LABEL: &'static str = "\nSTDIN:\n";

/// Label before the captured standard output.
pub const STDOUT_LABEL: &'static str = "\nSTDOUT:\n";

/// Label before the captured standard error.
pub const STDERR_LABEL: &'static str = "\nSTDERR:\n";

/// Everything recorded about one invocation of the toolchain.
pub struct TraceRecord {
    /// The wrapper's own arguments, program name included.
    pub args: Vec<String>,
    /// The toolchain command line.
    pub command: String,
    /// The working directory the child ran in.
    pub cwd: String,
    /// The PATH the child was given.
    pub path: String,
    /// The child's exit code.
    pub exit_code: i32,
    /// What was sent to the child's standard input.
    pub stdin: Vec<u8>,
    /// What the child wrote to standard output.
    pub stdout: Vec<u8>,
    /// What the child wrote to standard error.
    pub stderr: Vec<u8>,
}

/// UTF-8 bytes of a character sequence.
pub open spec fn utf8(s: Seq<char>) -> Seq<u8> {
    encode_utf8(s)
}

/// ASCII decimal digits of `n`, most significant first.
pub open spec fn digits(n: nat) -> Seq<u8>
    decreases n,
{
    if n < 10 {
        seq![(48 + n) as u8]
    } else {
        digits(n / 10).push((48 + n % 10) as u8)
    }
}

/// ASCII decimal form of `n`, with a leading `-` when negative.
pub open spec fn decimal(n: int) -> Seq<u8> {
    if n < 0 {
        seq![45u8] + digits((-n) as nat)
    } else {
        digits(n as nat)
    }
}

/// The bytes of one record: labelled fields between the begin and end lines,
/// the captured streams verbatim.
pub open spec fn record_bytes(r: TraceRecord) -> Seq<u8> {
    utf8(RECORD_BEGIN@) + utf8(ARGS_LABEL@) + utf8(joined(views(r.args@), " "@)) + utf8(CMD_LABEL@)
        + utf8(r.command@) + utf8(CWD_LABEL@) + utf8(r.cwd@) + utf8(PATH_LABEL@) + utf8(r.path@)
        + utf8(EXIT_LABEL@) + decimal(r.exit_code as int) + utf8(STDIN_LABEL@) + r.stdin@ + utf8(
        STDOUT_LABEL@,
    ) + r.stdout@ + utf8(STDERR_LABEL@) + r.stderr@ + utf8(RECORD_END@)
}

/// Copies `bytes` to the end of `out`.
fn push_bytes(out: &mut Vec<u8>, bytes: &[u8])
    ensures
        final(out)@ == old(out)@ + bytes@,
{
    let mut i: usize = 0;
    while i < bytes.len()
        invariant
            i <= bytes@.len(),
            out@ == old(out)@ + bytes@.take(i as int),
        decreases bytes@.len() - i,
    {
        out.push(bytes[i]);
        assert(bytes@.take(i + 1) =~= bytes@.take(i as int).push(bytes@[i as int]));
        i = i + 1;
    }
    assert(bytes@.take(bytes@.len() as int) =~= bytes@);
}

/// Copies the UTF-8 bytes of `s` to the end of `out`.
fn push_text(out: &mut Vec<u8>, s: &str)
    ensures
        final(out)@ == old(out)@ + utf8(s@),
{
    push_bytes(out, s.as_bytes());
}

/// Writes the decimal digits of `n` to the end of `out`.
fn push_digits(out: &mut Vec<u8>, n: u32)
    ensures
        final(out)@ == old(out)@ + digits(n as nat),
    decreases n,
{
    if n >= 10 {
        push_digits(out, n / 10);
    }
    out.push((48 + n % 10) as u8);
    assert(out@ =~= old(out)@ + digits(n as nat));
}

/// Writes `n` in decimal to the end of `out`.
pub fn push_decimal(out: &mut Vec<u8>, n: i32)
    ensures
        final(out)@ == old(out)@ + decimal(n as int),
{
    if n < 0 {
        out.push(45u8);
        let m: u32 = (-(n as i64)) as u32;
        push_digits(out, m);
        assert(out@ =~= old(out)@ + decimal(n as int));
    } else {
        push_digits(out, n as u32);
    }
}

impl TraceRecord {
    /// Appends this record to `log`, leaving the bytes already there as they are.
    pub fn append_to(&self, log: &mut Vec<u8>)
        ensures
            final(log)@ == old(log)@ + record_bytes(*self),
    {
        push_text(log, RECORD_BEGIN);
        push_text(log, ARGS_LABEL);
        let joined_args = join(&self.args, " ");
        push_text(log, joined_args.as_str());
        push_text(log, CMD_LABEL);
        push_text(log, self.command.as_str());
        push_text(log, CWD_LABEL);
        push_text(log, self.cwd.as_str());
        push_text(log, PATH_LABEL);
        push_text(log, self.path.as_str());
        push_text(log, EXIT_LABEL);
        push_decimal(log, self.exit_code);
        push_text(log, STDIN_LABEL);
        push_bytes(log, self.stdin.as_slice());
        push_text(log, STDOUT_LABEL);
        push_bytes(log, self.stdout.as_slice());
        push_text(log, STDERR_LABEL);
        push_bytes(log, self.stderr.as_slice());
        push_text(log, RECORD_END);
        assert(log@ =~= old(log)@ + record_bytes(*self));
    }

    /// The bytes of this record.
    pub fn to_bytes(&self) -> (r: Vec<u8>)
        ensures
            r@ == record_bytes(*self),
    {
        let mut out: Vec<u8> = Vec::new();
        self.append_to(&mut out);
        assert(out@ =~= record_bytes(*self));
        out
    }
}

/// Appending a record keeps every byte already in the log, and what is added
/// is one record: it opens with the begin line and closes with the end line.
pub proof fn law_append_keeps_log(prior: Seq<u8>, rec: TraceRecord)
    ensures
        (prior + record_bytes(rec)).take(prior.len() as int) == prior,
        (prior + record_bytes(rec)).skip(prior.len() as int) == record_bytes(rec),
        record_bytes(rec).take(utf8(RECORD_BEGIN@).len() as int) == utf8(RECORD_BEGIN@),
        record_bytes(rec).skip(record_bytes(rec).len() - utf8(RECORD_END@).len()) == utf8(
            RECORD_END@,
        ),
{
    let log = prior + record_bytes(rec);
    assert(log.take(prior.len() as int) =~= prior);
    assert(log.skip(prior.len() as int) =~= record_bytes(rec));
    let begin = utf8(RECORD_BEGIN@);
    let end = utf8(RECORD_END@);
    let rest = record_bytes(rec).skip(begin.len() as int);
    assert(record_bytes(rec) =~= begin + rest);
    assert(record_bytes(rec).take(begin.len() as int) =~= begin);
    let front = record_bytes(rec).take(record_bytes(rec).len() - end.len());
    assert(record_bytes(rec) =~= front + end);
    assert(record_bytes(rec).skip(record_bytes(rec).len() - end.len()) =~= end);
}

} // verus!
