//! The command orchestrator. A command runs in two steps around the one
//! network call: `execute` takes the command up to the point where a request
//! is ready to be sent, or to its end where nothing is to be sent; `complete`
//! takes what the network gave and finishes the command. What either step
//! wants shown to the user comes back as reports. A response is cached under
//! the document and the first line of the request block, whichever line of
//! the block the command named.

use crate::document::{CachedResponse, DocumentManager};
use crate::http_client::{
    checked, full_report, headers_report, prepare_request, push_header_lines, push_status_lines,
    uppercase_of, Failure, HttpResponse, Prepared, PreparedRequest, RequestError, Response,
};
use crate::parser::{
    boundaries_of, boundary_at_line, extract_full_request, find_request_at_line, full_request,
    lemma_line_inside_resolves, request_at, FullRequest,
};
use crate::text::{
    clone_pairs, decimal, has_prefix_at, lines_of, push_decimal, spells, to_chars, to_string,
};
use vstd::prelude::*;
use vstd::string::StringExecFns;

verus! {

/// The four commands.
#[derive(Debug, Clone, Copy, PartialEq, Eq, Structural)]
pub enum Command {
    Send,
    Show,
    SaveResponse,
    ShowHeaders,
}

/// The command that a name stands for.
pub open spec fn command_named(name: Seq<char>) -> Option<Command> {
    if name == "http.send"@ {
        Some(Command::Send)
    } else if name == "http.show"@ {
        Some(Command::Show)
    } else if name == "http.saveResponse"@ {
        Some(Command::SaveResponse)
    } else if name == "http.showHeaders"@ {
        Some(Command::ShowHeaders)
    } else {
        None
    }
}

/// Each command name stands for its own command.
pub proof fn lemma_command_names_differ()
    ensures
        command_named("http.send"@) == Some(Command::Send),
        command_named("http.show"@) == Some(Command::Show),
        command_named("http.saveResponse"@) == Some(Command::SaveResponse),
        command_named("http.showHeaders"@) == Some(Command::ShowHeaders),
{
    reveal_strlit("http.send");
    reveal_strlit("http.show");
    reveal_strlit("http.saveResponse");
    reveal_strlit("http.showHeaders");
    assert("http.send"@.len() == 9 && "http.send"@[6] == 'e');
    assert("http.show"@.len() == 9 && "http.show"@[6] == 'h');
    assert("http.saveResponse"@.len() == 17);
    assert("http.showHeaders"@.len() == 16);
}

impl Command {
    /// The command of a name, if it names one.
    pub fn from_name(name: &str) -> (r: Option<Command>)
        ensures
            r == command_named(name@),
    {
        let chars = to_chars(name);
        if spells(&chars, "http.send") {
            Some(Command::Send)
        } else if spells(&chars, "http.show") {
            Some(Command::Show)
        } else if spells(&chars, "http.saveResponse") {
            Some(Command::SaveResponse)
        } else if spells(&chars, "http.showHeaders") {
            Some(Command::ShowHeaders)
        } else {
            None
        }
    }

    /// The name of the command.
    pub fn name(&self) -> (r: &'static str)
        ensures
            command_named(r@) == Some(*self),
    {
        proof {
            lemma_command_names_differ();
        }
        match self {
            Command::Send => "http.send",
            Command::Show => "http.show",
            Command::SaveResponse => "http.saveResponse",
            Command::ShowHeaders => "http.showHeaders",
        }
    }
}

/// A command bound to one request: what a button in the editor runs, with
/// the document and the first line of the request as its two arguments.
#[derive(Debug)]
pub struct CommandLink {
    pub title: String,
    pub command: Command,
    pub uri: String,
    pub line: u32,
}

/// The model of a command link.
pub struct Link {
    pub title: Seq<char>,
    pub command: Command,
    pub uri: Seq<char>,
    pub line: nat,
}

impl View for CommandLink {
    type V = Link;

    open spec fn view(&self) -> Link {
        Link { title: self.title@, command: self.command, uri: self.uri@, line: self.line as nat }
    }
}

impl CommandLink {
    /// The link that runs `command` on the request at `line` of `uri`.
    pub fn new(title: &str, command: Command, uri: &str, line: u32) -> (r: Self)
        ensures
            r@ == (Link { title: title@, command, uri: uri@, line: line as nat }),
    {
        CommandLink { title: title.to_owned(), command, uri: uri.to_owned(), line }
    }
}

/// A positional argument of a command: a text, an unsigned integer, or
/// anything else, which is kept as the caller rendered it.
#[derive(Debug)]
pub enum ArgValue {
    Text(String),
    Unsigned(u64),
    Other(String),
}

/// The model of an argument.
pub enum Arg {
    Text(Seq<char>),
    Unsigned(u64),
    Other(Seq<char>),
}

impl View for ArgValue {
    type V = Arg;

    open spec fn view(&self) -> Arg {
        match self {
            ArgValue::Text(text) => Arg::Text(text@),
            ArgValue::Unsigned(n) => Arg::Unsigned(*n),
            ArgValue::Other(rendered) => Arg::Other(rendered@),
        }
    }
}

impl Clone for ArgValue {
    fn clone(&self) -> (r: Self)
        ensures
            r@ == self@,
    {
        match self {
            ArgValue::Text(text) => ArgValue::Text(text.clone()),
            ArgValue::Unsigned(n) => ArgValue::Unsigned(*n),
            ArgValue::Other(rendered) => ArgValue::Other(rendered.clone()),
        }
    }
}

impl Arg {
    /// How an argument reads in a message: a text in double quotes, an
    /// integer in decimal, anything else as it was rendered.
    pub open spec fn rendered(self) -> Seq<char> {
        match self {
            Arg::Text(text) => "\""@ + text + "\""@,
            Arg::Unsigned(n) => decimal(n as nat),
            Arg::Other(rendered) => rendered,
        }
    }
}

/// The arguments that a vector of argument values stands for.
pub open spec fn args_of(v: Seq<ArgValue>) -> Seq<Arg> {
    Seq::new(v.len(), |i: int| v[i]@)
}

/// How arguments read in a message: each as it is rendered, with a comma and
/// a space between two.
pub open spec fn listed(args: Seq<Arg>) -> Seq<char>
    decreases args.len(),
{
    if args.len() == 0 {
        Seq::empty()
    } else if args.len() == 1 {
        args[0].rendered()
    } else {
        listed(args.drop_last()) + ", "@ + args.last().rendered()
    }
}

/// The model of a failed command.
pub enum CommandFailure {
    /// Fewer than two arguments came: these.
    MissingArguments { received: Seq<Arg> },
    /// The first argument is no text.
    InvalidUri { received: Arg },
    /// The second argument is no line number: it is no unsigned integer, or
    /// it is greater than the greatest line number, 2^32 - 1.
    InvalidLine { received: Arg },
    /// The document is not open.
    DocumentNotFound,
    /// No request block holds the line.
    RequestNotFound,
    /// The request was refused by the checks, or its execution failed.
    Request(Failure),
    /// The name is none of the four commands.
    UnknownCommand,
}

/// The kinds of failure.
#[derive(Debug, Clone, Copy, PartialEq, Eq, Structural)]
pub enum ErrorKind {
    /// Missing or malformed arguments.
    Parameter,
    /// The document is unknown, or no request is at the line.
    NotFound,
    /// The method or a header of the request was refused; nothing was sent.
    Validation,
    /// The transport failed or timed out.
    Execution,
    /// The command does not exist.
    UnknownCommand,
}

impl CommandFailure {
    /// The kind of the failure.
    pub open spec fn kind(self) -> ErrorKind {
        match self {
            CommandFailure::MissingArguments { .. } => ErrorKind::Parameter,
            CommandFailure::InvalidUri { .. } => ErrorKind::Parameter,
            CommandFailure::InvalidLine { .. } => ErrorKind::Parameter,
            CommandFailure::DocumentNotFound => ErrorKind::NotFound,
            CommandFailure::RequestNotFound => ErrorKind::NotFound,
            CommandFailure::Request(failure) => if failure.is_validation() {
                ErrorKind::Validation
            } else {
                ErrorKind::Execution
            },
            CommandFailure::UnknownCommand => ErrorKind::UnknownCommand,
        }
    }

    /// The message of the failure.
    pub open spec fn message(self) -> Seq<char> {
        match self {
            CommandFailure::MissingArguments { received } => "Missing arguments: expected 2, got "@
                + decimal(received.len()) + ". Args: ["@ + listed(received) + "]"@,
            CommandFailure::InvalidUri { received } => "Invalid URI: "@ + received.rendered(),
            CommandFailure::InvalidLine { received } => "Invalid line number: "@
                + received.rendered(),
            CommandFailure::DocumentNotFound => "Document not found"@,
            CommandFailure::RequestNotFound => "No request found at line"@,
            CommandFailure::Request(failure) => failure.message(),
            CommandFailure::UnknownCommand => "Method not found"@,
        }
    }
}

/// Why a command failed.
#[derive(Debug)]
pub enum CommandError {
    /// Fewer than two arguments came: these.
    MissingArguments { received: Vec<ArgValue> },
    /// The first argument is no text.
    InvalidUri { received: ArgValue },
    /// The second argument is no line number: it is no unsigned integer, or
    /// it is greater than the greatest line number, 2^32 - 1.
    InvalidLine { received: ArgValue },
    /// The document is not open.
    DocumentNotFound,
    /// No request block holds the line.
    RequestNotFound,
    /// The request was refused by the checks, or its execution failed.
    Request(RequestError),
    /// The name is none of the four commands.
    UnknownCommand,
}

impl View for CommandError {
    type V = CommandFailure;

    open spec fn view(&self) -> CommandFailure {
        match self {
            CommandError::MissingArguments { received } => CommandFailure::MissingArguments {
                received: args_of(received@),
            },
            CommandError::InvalidUri { received } => CommandFailure::InvalidUri {
                received: received@,
            },
            CommandError::InvalidLine { received } => CommandFailure::InvalidLine {
                received: received@,
            },
            CommandError::DocumentNotFound => CommandFailure::DocumentNotFound,
            CommandError::RequestNotFound => CommandFailure::RequestNotFound,
            CommandError::Request(error) => CommandFailure::Request(error@),
            CommandError::UnknownCommand => CommandFailure::UnknownCommand,
        }
    }
}

fn push_rendered(out: &mut String, arg: &ArgValue)
    ensures
        final(out)@ == old(out)@ + arg@.rendered(),
{
    match arg {
        ArgValue::Text(text) => {
            out.append("\"");
            out.append(text.as_str());
            out.append("\"");
        },
        ArgValue::Unsigned(n) => {
            push_decimal(out, *n as u128);
        },
        ArgValue::Other(rendered) => {
            out.append(rendered.as_str());
        },
    }
}

fn push_listed(out: &mut String, args: &Vec<ArgValue>)
    ensures
        final(out)@ == old(out)@ + listed(args_of(args@)),
{
    let ghost all = args_of(args@);
    let mut i: usize = 0;
    assert(listed(all.take(0)) == Seq::<char>::empty());
    while i < args.len()
        invariant
            i <= args.len(),
            all == args_of(args@),
            out@ == old(out)@ + listed(all.take(i as int)),
        decreases args.len() - i,
    {
        if i > 0 {
            out.append(", ");
        }
        push_rendered(out, &args[i]);
        proof {
            let now = all.take(i + 1);
            assert(now.drop_last() == all.take(i as int));
            assert(now.last() == args@[i as int]@);
            if i > 0 {
                assert(out@ == old(out)@ + (listed(now.drop_last()) + ", "@ + now.last().rendered()));
            } else {
                assert(out@ == old(out)@ + now[0].rendered());
            }
        }
        i += 1;
    }
    assert(all.take(args.len() as int) == all);
}

/// A copy of `args` that holds the same arguments.
pub fn clone_args(args: &Vec<ArgValue>) -> (out: Vec<ArgValue>)
    ensures
        args_of(out@) == args_of(args@),
{
    let mut out: Vec<ArgValue> = Vec::new();
    let mut i: usize = 0;
    while i < args.len()
        invariant
            i <= args.len(),
            args_of(out@) == args_of(args@).take(i as int),
        decreases args.len() - i,
    {
        let arg = args[i].clone();
        assert(args_of(out@.push(arg)) == args_of(out@).push(arg@));
        assert(args_of(args@).take(i + 1) == args_of(args@).take(i as int).push(
            args_of(args@)[i as int],
        ));
        out.push(arg);
        i += 1;
    }
    assert(args_of(args@).take(args.len() as int) == args_of(args@));
    out
}

impl CommandError {
    /// The kind of the failure.
    pub fn kind(&self) -> (r: ErrorKind)
        ensures
            r == self@.kind(),
    {
        match self {
            CommandError::MissingArguments { .. } => ErrorKind::Parameter,
            CommandError::InvalidUri { .. } => ErrorKind::Parameter,
            CommandError::InvalidLine { .. } => ErrorKind::Parameter,
            CommandError::DocumentNotFound => ErrorKind::NotFound,
            CommandError::RequestNotFound => ErrorKind::NotFound,
            CommandError::Request(error) => if error.is_validation() {
                ErrorKind::Validation
            } else {
                ErrorKind::Execution
            },
            CommandError::UnknownCommand => ErrorKind::UnknownCommand,
        }
    }

    /// The message of the failure. That of a parameter failure names the
    /// argument and what was received for it.
    pub fn message(&self) -> (out: String)
        ensures
            out@ == self@.message(),
    {
        match self {
            CommandError::MissingArguments { received } => {
                let mut out = "Missing arguments: expected 2, got ".to_owned();
                push_decimal(&mut out, received.len() as u128);
                out.append(". Args: [");
                push_listed(&mut out, received);
                out.append("]");
                out
            },
            CommandError::InvalidUri { received } => {
                let mut out = "Invalid URI: ".to_owned();
                push_rendered(&mut out, received);
                out
            },
            CommandError::InvalidLine { received } => {
                let mut out = "Invalid line number: ".to_owned();
                push_rendered(&mut out, received);
                out
            },
            CommandError::DocumentNotFound => "Document not found".to_owned(),
            CommandError::RequestNotFound => "No request found at line".to_owned(),
            CommandError::Request(error) => error.message(),
            CommandError::UnknownCommand => "Method not found".to_owned(),
        }
    }
}

/// The document and line that the arguments name: the first must be a
/// text, the second an unsigned integer that is a line number, which is one
/// up to 2^32 - 1.
pub open spec fn parsed(args: Seq<Arg>) -> Result<(Seq<char>, nat), CommandFailure> {
    if args.len() < 2 {
        Err(CommandFailure::MissingArguments { received: args })
    } else {
        match args[0] {
            Arg::Text(uri) => match args[1] {
                Arg::Unsigned(n) => if n <= 0xFFFF_FFFF {
                    Ok((uri, n as nat))
                } else {
                    Err(CommandFailure::InvalidLine { received: args[1] })
                },
                _ => Err(CommandFailure::InvalidLine { received: args[1] }),
            },
            _ => Err(CommandFailure::InvalidUri { received: args[0] }),
        }
    }
}

/// The model of what `parse_args` returns.
pub open spec fn target_of(r: Result<(String, u32), CommandError>) -> Result<
    (Seq<char>, nat),
    CommandFailure,
> {
    match r {
        Ok(target) => Ok((target.0@, target.1 as nat)),
        Err(error) => Err(error@),
    }
}

/// Reads document and line off the arguments of a command. Arguments after
/// the second are not looked at.
pub fn parse_args(args: &Vec<ArgValue>) -> (r: Result<(String, u32), CommandError>)
    ensures
        target_of(r) == parsed(args_of(args@)),
{
    if args.len() < 2 {
        return Err(CommandError::MissingArguments { received: clone_args(args) });
    }
    let uri = match &args[0] {
        ArgValue::Text(uri) => uri.clone(),
        other => {
            return Err(CommandError::InvalidUri { received: other.clone() });
        },
    };
    let line: u32 = match &args[1] {
        ArgValue::Unsigned(n) if *n <= 0xFFFF_FFFF => *n as u32,
        other => {
            return Err(CommandError::InvalidLine { received: other.clone() });
        },
    };
    Ok((uri, line))
}

/// How much a report matters to the user.
#[derive(Debug, Clone, Copy, PartialEq, Eq, Structural)]
pub enum Severity {
    Info,
    Warning,
    Error,
}

/// A text to show to the user.
#[derive(Debug)]
pub struct Report {
    pub severity: Severity,
    pub text: String,
}

/// The model of a report.
pub struct Note {
    pub severity: Severity,
    pub text: Seq<char>,
}

impl View for Report {
    type V = Note;

    open spec fn view(&self) -> Note {
        Note { severity: self.severity, text: self.text@ }
    }
}

/// What a command that succeeded hands back.
#[derive(Debug)]
pub enum Reply {
    /// Nothing: no response was cached.
    Nothing,
    /// The response that was captured or found in the cache.
    Response { status: u16, body: String, duration_ms: u128 },
    /// Where the response would be saved, and its status.
    Saved { saved_to: String, status: u16 },
}

/// The model of a reply.
pub enum Answer {
    Nothing,
    Response { status: nat, body: Seq<char>, duration_ms: nat },
    Saved { saved_to: Seq<char>, status: nat },
}

impl View for Reply {
    type V = Answer;

    open spec fn view(&self) -> Answer {
        match self {
            Reply::Nothing => Answer::Nothing,
            Reply::Response { status, body, duration_ms } => Answer::Response {
                status: *status as nat,
                body: body@,
                duration_ms: *duration_ms as nat,
            },
            Reply::Saved { saved_to, status } => Answer::Saved {
                saved_to: saved_to@,
                status: *status as nat,
            },
        }
    }
}

/// How a command ended: what to show to the user, and what to hand back.
#[derive(Debug)]
pub struct Outcome {
    pub reports: Vec<Report>,
    pub result: Result<Reply, CommandError>,
}

/// The model of an outcome.
pub struct Ending {
    pub reports: Seq<Note>,
    pub result: Result<Answer, CommandFailure>,
}

impl View for Outcome {
    type V = Ending;

    open spec fn view(&self) -> Ending {
        Ending {
            reports: Seq::new(self.reports.len() as nat, |i: int| self.reports[i]@),
            result: match self.result {
                Ok(reply) => Ok(reply@),
                Err(error) => Err(error@),
            },
        }
    }
}

/// A command that waits for the network: the request to send, and where its
/// response belongs, which is the document and the first line of the request
/// block, whatever line of the block the command named.
#[derive(Debug)]
pub struct Pending {
    save: bool,
    uri: String,
    line: u32,
    request: PreparedRequest,
}

/// The model of a pending command.
pub struct Waiting {
    pub save: bool,
    pub uri: Seq<char>,
    pub line: nat,
    pub request: Prepared,
}

impl View for Pending {
    type V = Waiting;

    closed spec fn view(&self) -> Waiting {
        Waiting { save: self.save, uri: self.uri@, line: self.line as nat, request: self.request@ }
    }
}

impl Pending {
    /// The request to send.
    pub fn request(&self) -> (r: &PreparedRequest)
        ensures
            r@ == self@.request,
    {
        &self.request
    }

    /// The document of the request.
    pub fn uri(&self) -> (r: &str)
        ensures
            r@ == self@.uri,
    {
        self.uri.as_str()
    }

    /// The first line of the request.
    pub fn line(&self) -> (r: u32)
        ensures
            r == self@.line,
    {
        self.line
    }

    /// Tells whether the response is to be saved.
    pub fn save(&self) -> (r: bool)
        ensures
            r == self@.save,
    {
        self.save
    }
}

/// Where a command stands after its first step.
#[derive(Debug)]
pub enum Step {
    /// The command has ended.
    Done(Outcome),
    /// The request is to be sent; `complete` then ends the command.
    Execute(Pending),
}

/// The model of a step.
pub enum Stage {
    Done(Ending),
    Execute(Waiting),
}

impl View for Step {
    type V = Stage;

    open spec fn view(&self) -> Stage {
        match self {
            Step::Done(outcome) => Stage::Done(outcome@),
            Step::Execute(pending) => Stage::Execute(pending@),
        }
    }
}

/// An ending without reports.
pub open spec fn failed(failure: CommandFailure) -> Ending {
    Ending { reports: Seq::empty(), result: Err(failure) }
}

/// An ending with one report.
pub open spec fn reported(
    severity: Severity,
    text: Seq<char>,
    result: Result<Answer, CommandFailure>,
) -> Ending {
    Ending { reports: seq![Note { severity, text }], result }
}

/// Tells whether `s` ends with `suffix`.
pub open spec fn ends_with(s: Seq<char>, suffix: Seq<char>) -> bool {
    s.len() >= suffix.len() && s.subrange(s.len() - suffix.len(), s.len() as int) == suffix
}

/// `s` without `suffix` at its end. Where it stands there more than once,
/// only the last goes.
pub open spec fn without_suffix(s: Seq<char>, suffix: Seq<char>) -> Seq<char> {
    if ends_with(s, suffix) {
        s.subrange(0, s.len() - suffix.len())
    } else {
        s
    }
}

/// Where the response of a request of document `uri` would be saved: the
/// identifier without one `.http` at its end, then `.response`.
pub open spec fn response_path_of(uri: Seq<char>) -> Seq<char> {
    without_suffix(uri, ".http"@) + ".response"@
}

/// How `show` and `showHeaders` end: the cached response is reported and
/// handed back; without one, a warning is reported and nothing handed back.
pub open spec fn shown(
    responses: Map<(Seq<char>, nat), Response>,
    uri: Seq<char>,
    line: nat,
    headers_only: bool,
) -> Ending {
    if responses.contains_key((uri, line)) {
        let response = responses[(uri, line)];
        reported(
            Severity::Info,
            if headers_only {
                headers_report(response)
            } else {
                full_report(response)
            },
            Ok(
                Answer::Response {
                    status: response.status,
                    body: response.body,
                    duration_ms: response.duration_ms,
                },
            ),
        )
    } else {
        reported(
            Severity::Warning,
            "No cached response. Send the request first."@,
            Ok(Answer::Nothing),
        )
    }
}

/// The first step of `send` and `saveResponse` for the request at `line` of
/// document `uri`: the document must be open, a request block must hold the
/// line, and the request must pass the checks. A request that does not is
/// reported and never sent. The command then waits under the first line of
/// the block, not under the line that it named.
pub open spec fn started(
    documents: Map<Seq<char>, Seq<char>>,
    uri: Seq<char>,
    line: nat,
    save: bool,
) -> Stage {
    if !documents.contains_key(uri) {
        Stage::Done(failed(CommandFailure::DocumentNotFound))
    } else {
        match boundary_at_line(documents[uri], line) {
            None => Stage::Done(failed(CommandFailure::RequestNotFound)),
            Some(b) => match full_request(lines_of(documents[uri]), b) {
                None => Stage::Done(failed(CommandFailure::RequestNotFound)),
                Some(request) => match checked(request, uppercase_of(request.method)) {
                    Ok(prepared) => Stage::Execute(
                        Waiting { save, uri, line: b.start_line, request: prepared },
                    ),
                    Err(failure) => Stage::Done(
                        reported(
                            Severity::Error,
                            "Request failed: "@ + failure.message(),
                            Err(CommandFailure::Request(failure)),
                        ),
                    ),
                },
            },
        }
    }
}

/// The first step of the command `name` with the arguments `args`.
pub open spec fn first_step(
    documents: Map<Seq<char>, Seq<char>>,
    responses: Map<(Seq<char>, nat), Response>,
    name: Seq<char>,
    args: Seq<Arg>,
) -> Stage {
    match command_named(name) {
        None => Stage::Done(failed(CommandFailure::UnknownCommand)),
        Some(command) => match parsed(args) {
            Err(failure) => Stage::Done(failed(failure)),
            Ok(target) => match command {
                Command::Send => started(documents, target.0, target.1, false),
                Command::SaveResponse => started(documents, target.0, target.1, true),
                Command::Show => Stage::Done(shown(responses, target.0, target.1, false)),
                Command::ShowHeaders => Stage::Done(shown(responses, target.0, target.1, true)),
            },
        },
    }
}

/// How a pending command ends on what the network gave: a response is
/// reported and handed back, for `saveResponse` together with the path where
/// it would be saved; a failure of the transport is reported and returned.
pub open spec fn completed(pending: Waiting, result: Result<Response, Seq<char>>) -> Ending {
    match result {
        Ok(response) => if pending.save {
            reported(
                Severity::Info,
                "Response saved to: "@ + response_path_of(pending.uri) + "\n\n"@ + full_report(
                    response,
                ),
                Ok(
                    Answer::Saved {
                        saved_to: response_path_of(pending.uri),
                        status: response.status,
                    },
                ),
            )
        } else {
            reported(
                Severity::Info,
                full_report(response),
                Ok(
                    Answer::Response {
                        status: response.status,
                        body: response.body,
                        duration_ms: response.duration_ms,
                    },
                ),
            )
        },
        Err(message) => reported(
            Severity::Error,
            "Request failed: "@ + message,
            Err(CommandFailure::Request(Failure::Transport(message))),
        ),
    }
}

/// The cache after a pending command has ended: a response is cached for the
/// request, in place of an earlier one; a failure leaves the cache as it is.
pub open spec fn cached_after(
    responses: Map<(Seq<char>, nat), Response>,
    pending: Waiting,
    result: Result<Response, Seq<char>>,
) -> Map<(Seq<char>, nat), Response> {
    match result {
        Ok(response) => responses.insert((pending.uri, pending.line), response),
        Err(_) => responses,
    }
}

/// The model of what the network gave.
pub open spec fn received(result: Result<HttpResponse, String>) -> Result<Response, Seq<char>> {
    match result {
        Ok(response) => Ok(response@),
        Err(message) => Err(message@),
    }
}

/// The report of a cached response with its headers and body.
pub fn format_full(response: &CachedResponse) -> (out: String)
    ensures
        out@ == full_report(response@),
{
    let mut out = String::new();
    push_status_lines(
        &mut out,
        response.status,
        response.status_text.as_str(),
        response.duration_ms,
    );
    out.append("--- Headers ---\n");
    push_header_lines(&mut out, &response.headers);
    out.append("\n--- Body ---\n");
    out.append(response.body.as_str());
    out
}

/// The report of a cached response without its body.
pub fn format_headers_only(response: &CachedResponse) -> (out: String)
    ensures
        out@ == headers_report(response@),
{
    let mut out = String::new();
    push_status_lines(
        &mut out,
        response.status,
        response.status_text.as_str(),
        response.duration_ms,
    );
    push_header_lines(&mut out, &response.headers);
    out
}

/// Where the response of a request of document `uri` would be saved.
pub fn response_path(uri: &str) -> (path: String)
    ensures
        path@ == response_path_of(uri@),
{
    let chars = to_chars(uri);
    let suffix = to_chars(".http");
    let end: usize = if chars.len() >= suffix.len() && has_prefix_at(
        &chars,
        chars.len() - suffix.len(),
        &suffix,
    ) {
        chars.len() - suffix.len()
    } else {
        chars.len()
    };
    assert(chars@.subrange(0, chars.len() as int) == chars@);
    let mut path = to_string(&chars, 0, end);
    path.append(".response");
    path
}

fn ended(severity: Severity, text: String, result: Result<Reply, CommandError>) -> (r: Outcome)
    ensures
        r@ == reported(
            severity,
            text@,
            match result {
                Ok(reply) => Ok(reply@),
                Err(error) => Err(error@),
            },
        ),
{
    let mut reports: Vec<Report> = Vec::new();
    reports.push(Report { severity, text });
    let r = Outcome { reports, result };
    assert(r@.reports =~= seq![Note { severity, text: text@ }]);
    r
}

fn ended_in_failure(error: CommandError) -> (r: Outcome)
    ensures
        r@ == failed(error@),
{
    let r = Outcome { reports: Vec::new(), result: Err(error) };
    assert(r@.reports =~= Seq::empty());
    r
}

/// Shows the response that is cached for the request at `line` of document
/// `uri`, with or without its body.
pub fn show_cached(documents: &DocumentManager, uri: &str, line: u32, headers_only: bool) -> (r:
    Outcome)
    ensures
        r@ == shown(documents.responses(), uri@, line as nat, headers_only),
{
    match documents.get_cached_response(uri, line) {
        Some(cached) => {
            let output = if headers_only {
                format_headers_only(&cached)
            } else {
                format_full(&cached)
            };
            ended(
                Severity::Info,
                output,
                Ok(
                    Reply::Response {
                        status: cached.status,
                        body: cached.body,
                        duration_ms: cached.duration_ms,
                    },
                ),
            )
        },
        None => ended(
            Severity::Warning,
            "No cached response. Send the request first.".to_owned(),
            Ok(Reply::Nothing),
        ),
    }
}

/// Takes the request at `line` of document `uri` up to the point where it
/// is ready to be sent.
pub fn start_request(documents: &DocumentManager, uri: String, line: u32, save: bool) -> (r: Step)
    ensures
        r@ == started(documents.documents(), uri@, line as nat, save),
{
    let content = match documents.get_content(uri.as_str()) {
        Some(content) => content,
        None => {
            return Step::Done(ended_in_failure(CommandError::DocumentNotFound));
        },
    };
    let boundary = match find_request_at_line(content.as_str(), line) {
        Some(boundary) => boundary,
        None => {
            return Step::Done(ended_in_failure(CommandError::RequestNotFound));
        },
    };
    let request = match extract_full_request(content.as_str(), &boundary) {
        Some(request) => request,
        None => {
            return Step::Done(ended_in_failure(CommandError::RequestNotFound));
        },
    };
    match prepare_request(&request) {
        Ok(prepared) => Step::Execute(
            Pending { save, uri, line: boundary.start_line, request: prepared },
        ),
        Err(error) => {
            let mut text = "Request failed: ".to_owned();
            text.append(error.message().as_str());
            Step::Done(ended(Severity::Error, text, Err(CommandError::Request(error))))
        },
    }
}

/// The command `show`, or `showHeaders` where `headers_only` is set.
pub fn show_response(documents: &DocumentManager, args: &Vec<ArgValue>, headers_only: bool) -> (r:
    Outcome)
    ensures
        r@ == match parsed(args_of(args@)) {
            Ok(target) => shown(documents.responses(), target.0, target.1, headers_only),
            Err(failure) => failed(failure),
        },
{
    match parse_args(args) {
        Ok((uri, line)) => show_cached(documents, uri.as_str(), line, headers_only),
        Err(error) => ended_in_failure(error),
    }
}

/// The first step of the command `send`.
pub fn send_request(documents: &DocumentManager, args: &Vec<ArgValue>) -> (r: Step)
    ensures
        r@ == match parsed(args_of(args@)) {
            Ok(target) => started(documents.documents(), target.0, target.1, false),
            Err(failure) => Stage::Done(failed(failure)),
        },
{
    match parse_args(args) {
        Ok((uri, line)) => start_request(documents, uri, line, false),
        Err(error) => Step::Done(ended_in_failure(error)),
    }
}

/// The first step of the command `saveResponse`.
pub fn save_response(documents: &DocumentManager, args: &Vec<ArgValue>) -> (r: Step)
    ensures
        r@ == match parsed(args_of(args@)) {
            Ok(target) => started(documents.documents(), target.0, target.1, true),
            Err(failure) => Stage::Done(failed(failure)),
        },
{
    match parse_args(args) {
        Ok((uri, line)) => start_request(documents, uri, line, true),
        Err(error) => Step::Done(ended_in_failure(error)),
    }
}

/// The first step of the command `name` with the arguments `args`: the whole
/// command where nothing is to be sent, else all of it that comes before the
/// network call.
pub fn execute(documents: &DocumentManager, name: &str, args: &Vec<ArgValue>) -> (r: Step)
    ensures
        r@ == first_step(documents.documents(), documents.responses(), name@, args_of(args@)),
{
    match Command::from_name(name) {
        Some(Command::Send) => send_request(documents, args),
        Some(Command::Show) => Step::Done(show_response(documents, args, false)),
        Some(Command::SaveResponse) => save_response(documents, args),
        Some(Command::ShowHeaders) => Step::Done(show_response(documents, args, true)),
        None => Step::Done(ended_in_failure(CommandError::UnknownCommand)),
    }
}

/// Ends a pending command on what the network gave. A response is cached
/// for the request; the documents stay as they are.
pub fn complete(
    documents: &mut DocumentManager,
    pending: Pending,
    result: Result<HttpResponse, String>,
) -> (r: Outcome)
    ensures
        r@ == completed(pending@, received(result)),
        final(documents).responses() == cached_after(
            old(documents).responses(),
            pending@,
            received(result),
        ),
        final(documents).documents() == old(documents).documents(),
{
    match result {
        Ok(response) => {
            documents.cache_response(
                pending.uri.as_str(),
                pending.line,
                CachedResponse {
                    status: response.status,
                    status_text: response.status_text.clone(),
                    headers: clone_pairs(&response.headers),
                    body: response.body.clone(),
                    duration_ms: response.duration_ms,
                },
            );
            let output = response.format_full();
            if pending.save {
                let path = response_path(pending.uri.as_str());
                let mut text = "Response saved to: ".to_owned();
                text.append(path.as_str());
                text.append("\n\n");
                text.append(output.as_str());
                ended(Severity::Info, text, Ok(Reply::Saved { saved_to: path, status: response.status }))
            } else {
                ended(
                    Severity::Info,
                    output,
                    Ok(
                        Reply::Response {
                            status: response.status,
                            body: response.body,
                            duration_ms: response.duration_ms,
                        },
                    ),
                )
            }
        },
        Err(message) => {
            let mut text = "Request failed: ".to_owned();
            text.append(message.as_str());
            ended(
                Severity::Error,
                text,
                Err(CommandError::Request(RequestError::Transport { message })),
            )
        },
    }
}

/// A document identifier that does not end with `.http` is kept whole in
/// the path.
pub proof fn lemma_response_path_without_suffix(uri: Seq<char>)
    requires
        !ends_with(uri, ".http"@),
    ensures
        response_path_of(uri) == uri + ".response"@,
{
}

/// A document identifier that ends with `.http` loses these five characters,
/// and no more, before `.response` is put behind it.
pub proof fn lemma_response_path_with_suffix(uri: Seq<char>)
    requires
        ends_with(uri, ".http"@),
    ensures
        response_path_of(uri) == uri.subrange(0, uri.len() - 5) + ".response"@,
{
    reveal_strlit(".http");
}

/// A line beyond the greatest line number is refused as the second argument;
/// it never stands for another line.
pub proof fn lemma_line_out_of_range(args: Seq<Arg>, uri: Seq<char>, n: u64)
    requires
        args.len() >= 2,
        args[0] == Arg::Text(uri),
        args[1] == Arg::Unsigned(n),
    ensures
        n <= 0xFFFF_FFFF ==> parsed(args) is Ok && parsed(args)->Ok_0 == (uri, n as nat),
        n > 0xFFFF_FFFF ==> parsed(args) is Err && parsed(args)->Err_0 == (
            CommandFailure::InvalidLine { received: args[1] }
        ),
{
}

/// A command that names any line of a request block waits under the first
/// line of the block, so that is where its response is cached.
pub proof fn lemma_waits_under_first_line(
    documents: Map<Seq<char>, Seq<char>>,
    responses: Map<(Seq<char>, nat), Response>,
    uri: Seq<char>,
    k: int,
    line: nat,
    save: bool,
    response: Response,
)
    requires
        documents.contains_key(uri),
        0 <= k < boundaries_of(documents[uri]).len(),
        boundaries_of(documents[uri])[k].contains(line),
        started(documents, uri, line, save) is Execute,
    ensures
        started(documents, uri, line, save)->Execute_0.line == boundaries_of(
            documents[uri],
        )[k].start_line,
        cached_after(responses, started(documents, uri, line, save)->Execute_0, Ok(response))[(
            uri,
            boundaries_of(documents[uri])[k].start_line,
        )] == response,
{
    lemma_line_inside_resolves(documents[uri], k, line);
}

/// A command with fewer than two arguments ends at once, whatever the
/// documents and the cache hold: with a parameter failure that tells which
/// arguments came, without a report, and without a request to send.
pub proof fn lemma_missing_arguments(
    documents: Map<Seq<char>, Seq<char>>,
    responses: Map<(Seq<char>, nat), Response>,
    name: Seq<char>,
    args: Seq<Arg>,
)
    requires
        command_named(name) is Some,
        args.len() < 2,
    ensures
        first_step(documents, responses, name, args) == Stage::Done(
            failed(CommandFailure::MissingArguments { received: args }),
        ),
        (CommandFailure::MissingArguments { received: args }).kind() == ErrorKind::Parameter,
{
}

/// A request that the checks refuse is never sent: the command ends with a
/// validation failure.
pub proof fn lemma_refused_request_is_not_sent(
    documents: Map<Seq<char>, Seq<char>>,
    uri: Seq<char>,
    line: nat,
    save: bool,
)
    requires
        documents.contains_key(uri),
        request_at(documents[uri], line) matches Some(request) && checked(
            request,
            uppercase_of(request.method),
        ) is Err,
    ensures
        started(documents, uri, line, save) matches Stage::Done(ending) && (ending.result matches Err(
            failure,
        ) && failure.kind() == ErrorKind::Validation),
{
    let request = request_at(documents[uri], line)->0;
    lemma_checks_fail_in_validation(request, uppercase_of(request.method));
}

/// The checks never end in a failure of the transport.
pub proof fn lemma_checks_fail_in_validation(request: FullRequest, upper: Seq<char>)
    ensures
        checked(request, upper) matches Err(failure) ==> failure.is_validation(),
{
}

/// Of two responses that come in one after the other for the same request,
/// the cache holds the second, as if the first had never come.
pub proof fn lemma_second_response_wins(
    responses: Map<(Seq<char>, nat), Response>,
    first: Waiting,
    second: Waiting,
    earlier: Response,
    later: Response,
)
    requires
        first.uri == second.uri,
        first.line == second.line,
    ensures
        cached_after(cached_after(responses, first, Ok(earlier)), second, Ok(later))
            == cached_after(responses, second, Ok(later)),
        cached_after(cached_after(responses, first, Ok(earlier)), second, Ok(later))[(
            second.uri,
            second.line,
        )] == later,
{
}

} // verus!
