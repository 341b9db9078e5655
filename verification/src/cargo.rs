//! The Cargo commands the editor runs, and the report it shows of their output.

use vstd::prelude::*;
use vstd::utf8::{valid_utf8, decode_utf8, encode_utf8_decode_utf8};
use vstd::string::StringSliceAdditionalSpecFns;

verus! {

/// A Cargo command run on the open project.
#[derive(Clone, Copy, Debug, PartialEq, Eq, Structural)]
pub enum CargoAction {
    Build,
    Run,
    Check,
    Clean,
    Test,
}

/// The views of a sequence of string slices.
pub open spec fn views_of(args: Seq<&str>) -> Seq<Seq<char>> {
    args.map_values(|a: &str| a@)
}

impl CargoAction {
    /// The arguments given to `cargo` for this command.
    pub open spec fn arguments(self) -> Seq<Seq<char>> {
        match self {
            CargoAction::Build => seq!["build"@, "--message-format"@, "short"@],
            CargoAction::Run => seq!["run"@, "--message-format"@, "short"@],
            CargoAction::Check => seq!["check"@, "--message-format"@, "short"@],
            CargoAction::Clean => seq!["clean"@],
            CargoAction::Test => seq!["test"@, "--message-format"@, "short"@],
        }
    }

    /// The arguments to run `cargo` with for this command.
    pub fn args(&self) -> (args: Vec<&'static str>)
        ensures
            views_of(args@) == self.arguments(),
    {
        let args: Vec<&'static str> = match self {
            CargoAction::Build => vec!["build", "--message-format", "short"],
            CargoAction::Run => vec!["run", "--message-format", "short"],
            CargoAction::Check => vec!["check", "--message-format", "short"],
            CargoAction::Clean => vec!["clean"],
            CargoAction::Test => vec!["test", "--message-format", "short"],
        };
        assert(views_of(args@) =~= self.arguments());
        args
    }
}

/// The arguments given to `cargo` to start a new project in a directory: a
/// binary crate or a library crate.
pub open spec fn init_arguments(is_binary: bool) -> Seq<Seq<char>> {
    if is_binary {
        seq!["init"@, "--bin"@]
    } else {
        seq!["init"@, "--lib"@]
    }
}

/// The arguments to run `cargo` with to start a new project.
pub fn init_args(is_binary: bool) -> (args: Vec<&'static str>)
    ensures
        views_of(args@) == init_arguments(is_binary),
{
    let args: Vec<&'static str> = if is_binary {
        vec!["init", "--bin"]
    } else {
        vec!["init", "--lib"]
    };
    assert(views_of(args@) =~= init_arguments(is_binary));
    args
}

/// Calls `std::str::from_utf8`, which reads `bytes` as UTF-8 text. The
/// contract claims what its documentation says: it succeeds exactly on valid
/// UTF-8, and the text it gives back is made of those very bytes.
#[verifier::external_body]
fn str_from_utf8(bytes: &[u8]) -> (text: Option<&str>)
    ensures
        text is Some <==> valid_utf8(bytes@),
        text matches Some(t) ==> t.spec_bytes() == bytes@,
{
    std::str::from_utf8(bytes).ok()
}

/// The text that `bytes` encode, or nothing where they are not valid UTF-8.
pub open spec fn text_or_empty(bytes: Seq<u8>) -> Seq<char> {
    if valid_utf8(bytes) {
        decode_utf8(bytes)
    } else {
        Seq::empty()
    }
}

/// A stream's part of the report: the text and a line break, or nothing
/// where the stream said nothing.
pub open spec fn report_section(text: Seq<char>) -> Seq<char> {
    if text.len() > 0 {
        text + seq!['\n']
    } else {
        Seq::empty()
    }
}

/// What a finished Cargo command printed: its standard output, then its
/// standard error, each as UTF-8 text followed by a line break, a stream that
/// is empty or not valid UTF-8 leaving no trace.
pub open spec fn output_text(stdout: Seq<u8>, stderr: Seq<u8>) -> Seq<char> {
    report_section(text_or_empty(stdout)) + report_section(text_or_empty(stderr))
}

fn append_section(report: &mut String, bytes: &[u8])
    ensures
        final(report)@ == old(report)@ + report_section(text_or_empty(bytes@)),
{
    match str_from_utf8(bytes) {
        Some(text) => {
            proof {
                encode_utf8_decode_utf8(text@);
            }
            if !text.is_empty() {
                report.append(text);
                let newline = "\n";
                proof {
                    reveal_strlit("\n");
                }
                report.append(newline);
            } else {
                assert(old(report)@ + report_section(text_or_empty(bytes@)) =~= old(report)@);
            }
        },
        None => {
            assert(old(report)@ + report_section(text_or_empty(bytes@)) =~= old(report)@);
        },
    }
}

/// The report of a finished Cargo command from the bytes it wrote to its
/// standard output and standard error.
pub fn cargo_output_text(stdout: &[u8], stderr: &[u8]) -> (text: String)
    ensures
        text@ == output_text(stdout@, stderr@),
{
    let mut text = String::new();
    append_section(&mut text, stdout);
    append_section(&mut text, stderr);
    assert(text@ =~= output_text(stdout@, stderr@));
    text
}

/// The heading of the message that shows what a Cargo command reported.
pub open spec fn report_heading() -> Seq<char> {
    "A Cargo parancs a következővel tért vissza:\n\n"@
}

/// The message shown after a Cargo command: the heading, then its output.
pub fn cargo_report_message(output: &str) -> (message: String)
    ensures
        message@ == report_heading() + output@,
{
    let mut message = "A Cargo parancs a következővel tért vissza:\n\n".to_owned();
    message.append(output);
    message
}

/// Every command but `clean` is run as `cargo <name> --message-format short`;
/// `clean` takes no other argument.
pub proof fn law_action_arguments(action: CargoAction)
    ensures
        action != CargoAction::Clean ==> action.arguments().len() == 3
            && action.arguments()[1] == "--message-format"@
            && action.arguments()[2] == "short"@,
        action.arguments()[0] == (match action {
            CargoAction::Build => "build"@,
            CargoAction::Run => "run"@,
            CargoAction::Check => "check"@,
            CargoAction::Clean => "clean"@,
            CargoAction::Test => "test"@,
        }),
        CargoAction::Clean.arguments().len() == 1,
{
}

/// A new project is made with `cargo init`, followed by `--bin` for a binary
/// crate and `--lib` for a library.
pub proof fn law_init_arguments(is_binary: bool)
    ensures
        init_arguments(is_binary).len() == 2,
        init_arguments(is_binary)[0] == "init"@,
        init_arguments(is_binary)[1] == (if is_binary { "--bin"@ } else { "--lib"@ }),
{
}

/// For streams of valid UTF-8, the report holds the whole standard output,
/// then a line break if it said anything, then the whole standard error and a
/// line break if it said anything: every character of each stream appears,
/// in order, and nothing else.
pub proof fn law_report_keeps_every_character(stdout: Seq<u8>, stderr: Seq<u8>)
    requires
        valid_utf8(stdout),
        valid_utf8(stderr),
    ensures
        ({
            let o = decode_utf8(stdout);
            let e = decode_utf8(stderr);
            let r = output_text(stdout, stderr);
            let k: int = if o.len() > 0 { o.len() + 1int } else { 0int };
            &&& r.len() == k + (if e.len() > 0 { e.len() + 1int } else { 0int })
            &&& r.subrange(0, o.len() as int) == o
            &&& o.len() > 0 ==> r[o.len() as int] == '\n'
            &&& r.subrange(k, k + e.len()) == e
            &&& e.len() > 0 ==> r[k + e.len()] == '\n'
        }),
{
    let o = decode_utf8(stdout);
    let e = decode_utf8(stderr);
    let r = output_text(stdout, stderr);
    let k: int = if o.len() > 0 { o.len() + 1int } else { 0int };
    assert(r.subrange(0, o.len() as int) =~= o);
    assert(r.subrange(k, k + e.len()) =~= e);
}

/// A stream that is not valid UTF-8 adds nothing to the report: the report
/// is the one of an empty stream in its place; two silent streams give an
/// empty report.
pub proof fn law_invalid_stream_leaves_no_trace(stdout: Seq<u8>, stderr: Seq<u8>)
    ensures
        !valid_utf8(stdout) ==> output_text(stdout, stderr) == output_text(Seq::empty(), stderr),
        !valid_utf8(stderr) ==> output_text(stdout, stderr) == output_text(stdout, Seq::empty()),
        output_text(Seq::empty(), Seq::empty()).len() == 0,
{
    assert(valid_utf8(Seq::<u8>::empty()));
    assert(decode_utf8(Seq::<u8>::empty()) =~= Seq::<char>::empty());
    assert(Seq::<char>::empty() + Seq::<char>::empty() =~= Seq::<char>::empty());
    if !valid_utf8(stdout) {
        assert(output_text(stdout, stderr) =~= output_text(Seq::empty(), stderr));
    }
    if !valid_utf8(stderr) {
        assert(output_text(stdout, stderr) =~= output_text(stdout, Seq::empty()));
    }
}

/// The message after a command starts with the heading and ends with the
/// command's output, whole.
pub proof fn law_report_message_ends_with_output(output: Seq<char>)
    ensures
        report_heading() == "A Cargo parancs a következővel tért vissza:\n\n"@,
        (report_heading() + output).subrange(report_heading().len() as int, (report_heading() + output).len() as int) == output,
{
    assert((report_heading() + output).subrange(report_heading().len() as int, (report_heading() + output).len() as int) =~= output);
}

} // verus!
