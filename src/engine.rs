//! The decisions of a client for an external move-search process that speaks
//! the line protocol `uci` / `isready` / `ucinewgame` / `setoption` /
//! `position` / `go` / `bestmove`. The process itself, its pipes and its
//! clock belong to the caller, which performs each action and hands back
//! each event.
use vstd::prelude::*;
use crate::text::{
    decimal, decimal_string, has_prefix, same_text, skip_space, skip_space_from, skip_word,
    skip_word_from, starts_with,
};

verus! {

/// `std::io::Error`, carried through unread: the failure of a spawn or a write.
#[verifier::external_type_specification]
#[verifier::external_body]
pub struct ExIoError(std::io::Error);

/// What can go wrong with the external process.
#[derive(Debug)]
pub enum EngineError {
    SpawnFailed(std::io::Error),
    WriteFailed(std::io::Error),
    /// No awaited reply came in time, or a reply could not be read.
    EngineNotReady,
    /// The process closed its output.
    EngineClosed,
}

/// One request for a move: the moves played so far in protocol notation,
/// and the optional search depth, time budget and strength rating (0, like
/// none, leaves the strength unlimited).
pub struct MoveRequest {
    pub moves_uci: String,
    pub depth: Option<u32>,
    pub movetime_ms: Option<u64>,
    pub elo: Option<u32>,
}

/// How long to wait for the handshake replies and for `readyok`.
pub const READY_TIMEOUT_MS: u64 = 5000;

/// How long to wait for `bestmove` once a search has been started.
pub const SEARCH_TIMEOUT_MS: u64 = 30000;

/// Where the conversation with the process stands.
#[derive(Clone, Copy, PartialEq, Eq, Debug, Structural)]
pub enum EnginePhase {
    /// `uci` was sent; `uciok` is awaited.
    AwaitingUciOk,
    /// `isready` was sent during the handshake; `readyok` is awaited.
    AwaitingHandshakeReady,
    /// Ready for a request.
    Idle,
    /// `ucinewgame` and `isready` were sent for a request; `readyok` is awaited.
    AwaitingNewGameReady,
    /// The search was started; `bestmove` is awaited.
    AwaitingBestMove,
    /// The handshake failed; the process is of no further use.
    Stopped,
}

/// What the caller receives from the process while it waits.
pub enum EngineEvent {
    /// One line of output, without its line ending.
    Line(String),
    /// The wait reached its time limit.
    TimedOut,
    /// The output was closed.
    Closed,
    /// Writing a command failed.
    WriteFailed(std::io::Error),
}

/// What the caller does next.
pub enum EngineAction {
    /// Write each line, in order, then wait at most `timeout_ms` in all for
    /// the next events.
    Send { lines: Vec<String>, timeout_ms: u64 },
    /// Go on waiting under the time limit already set.
    KeepWaiting,
    /// The handshake is complete.
    Ready,
    /// The handshake failed.
    Fail(EngineError),
    /// A request is finished: its outcome, a move code or an error.
    Deliver(Result<String, EngineError>),
}

/// The state of the conversation: its phase, and the lines that follow the
/// `readyok` of the request under way.
pub struct EngineSession {
    pub phase: EnginePhase,
    pub pending: Vec<String>,
}

pub open spec fn texts(v: Seq<String>) -> Seq<Seq<char>> {
    v.map_values(|s: String| s@)
}

pub open spec fn set_option_line(name: Seq<char>, value: Seq<char>) -> Seq<char> {
    "setoption name "@ + name + " value "@ + value
}

pub open spec fn position_line(moves: Seq<char>) -> Seq<char> {
    if moves.len() == 0 {
        "position startpos"@
    } else {
        "position startpos moves "@ + moves
    }
}

pub open spec fn go_line(depth: Option<u32>, movetime_ms: Option<u64>) -> Seq<char> {
    "go"@ + match depth {
        Some(d) => " depth "@ + decimal(d as nat),
        None => Seq::empty(),
    } + match movetime_ms {
        Some(t) => " movetime "@ + decimal(t as nat),
        None => Seq::empty(),
    }
}

/// The options that set the playing strength: limited to `elo` when one is
/// given other than 0, else unlimited.
pub open spec fn strength_lines(elo: Option<u32>) -> Seq<Seq<char>> {
    match elo {
        Some(e) if e > 0 => seq![
            set_option_line("UCI_LimitStrength"@, "true"@),
            set_option_line("UCI_Elo"@, decimal(e as nat)),
        ],
        _ => seq![set_option_line("UCI_LimitStrength"@, "false"@)],
    }
}

/// The lines sent for a request once the process is ready.
pub open spec fn request_lines(
    moves: Seq<char>,
    depth: Option<u32>,
    movetime_ms: Option<u64>,
    elo: Option<u32>,
) -> Seq<Seq<char>> {
    strength_lines(elo) + seq![position_line(moves), go_line(depth, movetime_ms)]
}

/// The move code of a `bestmove` line: its second word, when its first word
/// is `bestmove`.
pub open spec fn bestmove_word(s: Seq<char>) -> Option<Seq<char>> {
    let a = skip_space(s, 0);
    let b = skip_word(s, a);
    let c = skip_space(s, b);
    let d = skip_word(s, c);
    if s.subrange(a, b) == "bestmove"@ && c < d {
        Some(s.subrange(c, d))
    } else {
        None
    }
}

/// The line that ends the wait of `phase`.
pub open spec fn awaited(phase: EnginePhase, line: Seq<char>) -> bool {
    match phase {
        EnginePhase::AwaitingUciOk => line == "uciok"@,
        EnginePhase::AwaitingHandshakeReady => line == "readyok"@,
        EnginePhase::AwaitingNewGameReady => line == "readyok"@,
        EnginePhase::AwaitingBestMove => starts_with(line, "bestmove"@),
        _ => false,
    }
}

pub open spec fn in_handshake(phase: EnginePhase) -> bool {
    phase == EnginePhase::AwaitingUciOk || phase == EnginePhase::AwaitingHandshakeReady
}

pub open spec fn in_request(phase: EnginePhase) -> bool {
    phase == EnginePhase::AwaitingNewGameReady || phase == EnginePhase::AwaitingBestMove
}

/// The command that sets option `name` to `value`.
pub fn set_option_command(name: &str, value: &str) -> (r: String)
    ensures
        r@ == set_option_line(name@, value@),
{
    let mut r = String::from_str("setoption name ");
    r.append(name);
    r.append(" value ");
    r.append(value);
    r
}

/// The command that sets the position: the start position and the moves played.
pub fn position_command(moves: &str) -> (r: String)
    ensures
        r@ == position_line(moves@),
{
    if moves.unicode_len() == 0 {
        String::from_str("position startpos")
    } else {
        let mut r = String::from_str("position startpos moves ");
        r.append(moves);
        r
    }
}

/// The command that starts a search, with its optional limits.
pub fn go_command(depth: Option<u32>, movetime_ms: Option<u64>) -> (r: String)
    ensures
        r@ == go_line(depth, movetime_ms),
{
    let mut r = String::from_str("go");
    if let Some(d) = depth {
        r.append(" depth ");
        let n = decimal_string(d as u64);
        r.append(n.as_str());
    }
    let ghost after_depth = r@;
    if let Some(t) = movetime_ms {
        r.append(" movetime ");
        let n = decimal_string(t);
        r.append(n.as_str());
    }
    assert(r@ =~= go_line(depth, movetime_ms));
    r
}

/// The lines to send for a request once the process is ready.
pub fn request_commands(request: &MoveRequest) -> (r: Vec<String>)
    ensures
        texts(r@) == request_lines(
            request.moves_uci@,
            request.depth,
            request.movetime_ms,
            request.elo,
        ),
{
    let mut r: Vec<String> = Vec::new();
    match request.elo {
        Some(elo) if elo > 0 => {
            r.push(set_option_command("UCI_LimitStrength", "true"));
            let e = decimal_string(elo as u64);
            r.push(set_option_command("UCI_Elo", e.as_str()));
        },
        _ => {
            r.push(set_option_command("UCI_LimitStrength", "false"));
        },
    }
    r.push(position_command(request.moves_uci.as_str()));
    r.push(go_command(request.depth, request.movetime_ms));
    assert(texts(r@) =~= request_lines(
        request.moves_uci@,
        request.depth,
        request.movetime_ms,
        request.elo,
    ));
    r
}

/// The move code of a `bestmove` line; `EngineNotReady` when the line's first
/// word is not `bestmove` or no second word follows.
pub fn parse_bestmove(line: &str) -> (r: Result<String, EngineError>)
    ensures
        bestmove_word(line@) matches Some(w) ==> r matches Ok(s) && s@ == w,
        bestmove_word(line@) is None ==> r matches Err(EngineError::EngineNotReady),
{
    let a = skip_space_from(line, 0);
    let b = skip_word_from(line, a);
    let c = skip_space_from(line, b);
    let d = skip_word_from(line, c);
    let first = line.substring_char(a, b);
    if same_text(first, "bestmove") && c < d {
        Ok(String::from_str(line.substring_char(c, d)))
    } else {
        Err(EngineError::EngineNotReady)
    }
}

/// The error that an event other than a line stands for.
pub open spec fn event_error(event: EngineEvent) -> EngineError {
    match event {
        EngineEvent::WriteFailed(e) => EngineError::WriteFailed(e),
        EngineEvent::Closed => EngineError::EngineClosed,
        _ => EngineError::EngineNotReady,
    }
}

pub open spec fn sends(a: EngineAction, lines: Seq<Seq<char>>, timeout_ms: u64) -> bool {
    a matches EngineAction::Send { lines: l, timeout_ms: t } && texts(l@) == lines && t
        == timeout_ms
}

impl EngineSession {
    /// A new session, whose first action starts the handshake.
    pub fn start() -> (r: (EngineSession, EngineAction))
        ensures
            r.0.phase == EnginePhase::AwaitingUciOk,
            r.0.pending@.len() == 0,
            sends(r.1, seq!["uci"@], READY_TIMEOUT_MS),
    {
        let mut lines: Vec<String> = Vec::new();
        lines.push(String::from_str("uci"));
        assert(texts(lines@) =~= seq!["uci"@]);
        (
            EngineSession { phase: EnginePhase::AwaitingUciOk, pending: Vec::new() },
            EngineAction::Send { lines, timeout_ms: READY_TIMEOUT_MS },
        )
    }

    /// Whether a request may be started.
    pub fn is_idle(&self) -> (r: bool)
        ensures
            r == (self.phase == EnginePhase::Idle),
    {
        self.phase == EnginePhase::Idle
    }

    /// Starts a request: resets the game on the process side and awaits its
    /// readiness; the request's own lines follow its `readyok`. One request
    /// at a time: its result must have been delivered before the next starts.
    pub fn request(&mut self, request: &MoveRequest) -> (a: EngineAction)
        requires
            old(self).phase == EnginePhase::Idle,
        ensures
            final(self).phase == EnginePhase::AwaitingNewGameReady,
            texts(final(self).pending@) == request_lines(
                request.moves_uci@,
                request.depth,
                request.movetime_ms,
                request.elo,
            ),
            sends(a, seq!["ucinewgame"@, "isready"@], READY_TIMEOUT_MS),
    {
        self.pending = request_commands(request);
        self.phase = EnginePhase::AwaitingNewGameReady;
        let mut lines: Vec<String> = Vec::new();
        lines.push(String::from_str("ucinewgame"));
        lines.push(String::from_str("isready"));
        assert(texts(lines@) =~= seq!["ucinewgame"@, "isready"@]);
        EngineAction::Send { lines, timeout_ms: READY_TIMEOUT_MS }
    }

    /// Takes one event of the wait under way and says what to do next.
    pub fn handle_event(&mut self, event: EngineEvent) -> (a: EngineAction)
        ensures
            match event {
                EngineEvent::Line(l) => if !awaited(old(self).phase, l@) {
                    a is KeepWaiting && *final(self) == *old(self)
                } else {
                    match old(self).phase {
                        EnginePhase::AwaitingUciOk => final(self).phase
                            == EnginePhase::AwaitingHandshakeReady && final(self).pending
                            == old(self).pending && sends(a, seq!["isready"@], READY_TIMEOUT_MS),
                        EnginePhase::AwaitingHandshakeReady => final(self).phase
                            == EnginePhase::Idle && final(self).pending == old(self).pending
                            && a is Ready,
                        EnginePhase::AwaitingNewGameReady => final(self).phase
                            == EnginePhase::AwaitingBestMove && final(self).pending@.len() == 0
                            && sends(a, texts(old(self).pending@), SEARCH_TIMEOUT_MS),
                        _ => final(self).phase == EnginePhase::Idle && final(self).pending@.len()
                            == 0 && match bestmove_word(l@) {
                            Some(w) => a matches EngineAction::Deliver(Ok(s)) && s@ == w,
                            None => a matches EngineAction::Deliver(
                                Err(EngineError::EngineNotReady),
                            ),
                        },
                    }
                },
                _ => if in_handshake(old(self).phase) {
                    final(self).phase == EnginePhase::Stopped && final(self).pending
                        == old(self).pending && a == EngineAction::Fail(event_error(event))
                } else if in_request(old(self).phase) {
                    final(self).phase == EnginePhase::Idle && final(self).pending@.len() == 0 && a
                        == EngineAction::Deliver(Err(event_error(event)))
                } else {
                    a is KeepWaiting && *final(self) == *old(self)
                },
            },
    {
        match event {
            EngineEvent::Line(line) => match self.phase {
                EnginePhase::AwaitingUciOk => {
                    if !same_text(line.as_str(), "uciok") {
                        return EngineAction::KeepWaiting;
                    }
                    self.phase = EnginePhase::AwaitingHandshakeReady;
                    let mut lines: Vec<String> = Vec::new();
                    lines.push(String::from_str("isready"));
                    assert(texts(lines@) =~= seq!["isready"@]);
                    EngineAction::Send { lines, timeout_ms: READY_TIMEOUT_MS }
                },
                EnginePhase::AwaitingHandshakeReady => {
                    if !same_text(line.as_str(), "readyok") {
                        return EngineAction::KeepWaiting;
                    }
                    self.phase = EnginePhase::Idle;
                    EngineAction::Ready
                },
                EnginePhase::AwaitingNewGameReady => {
                    if !same_text(line.as_str(), "readyok") {
                        return EngineAction::KeepWaiting;
                    }
                    self.phase = EnginePhase::AwaitingBestMove;
                    let mut lines: Vec<String> = Vec::new();
                    core::mem::swap(&mut lines, &mut self.pending);
                    EngineAction::Send { lines, timeout_ms: SEARCH_TIMEOUT_MS }
                },
                EnginePhase::AwaitingBestMove => {
                    if !has_prefix(line.as_str(), "bestmove") {
                        return EngineAction::KeepWaiting;
                    }
                    self.phase = EnginePhase::Idle;
                    self.pending = Vec::new();
                    EngineAction::Deliver(parse_bestmove(line.as_str()))
                },
                _ => EngineAction::KeepWaiting,
            },
            _ => {
                let error = match event {
                    EngineEvent::WriteFailed(e) => EngineError::WriteFailed(e),
                    EngineEvent::Closed => EngineError::EngineClosed,
                    _ => EngineError::EngineNotReady,
                };
                match self.phase {
                    EnginePhase::AwaitingUciOk | EnginePhase::AwaitingHandshakeReady => {
                        self.phase = EnginePhase::Stopped;
                        EngineAction::Fail(error)
                    },
                    EnginePhase::AwaitingNewGameReady | EnginePhase::AwaitingBestMove => {
                        self.phase = EnginePhase::Idle;
                        self.pending = Vec::new();
                        EngineAction::Deliver(Err(error))
                    },
                    _ => EngineAction::KeepWaiting,
                }
            },
        }
    }
}

/// `std::sync::mpsc::Sender`, the sending end of a queue, held unread.
#[verifier::external_type_specification]
#[verifier::external_body]
#[verifier::reject_recursive_types(T)]
pub struct ExSender<T>(std::sync::mpsc::Sender<T>);

/// `std::sync::mpsc::Receiver`, the receiving end of a queue, held unread.
#[verifier::external_type_specification]
#[verifier::external_body]
#[verifier::reject_recursive_types(T)]
pub struct ExReceiver<T>(std::sync::mpsc::Receiver<T>);

/// `std::sync::mpsc::SendError`, returned by `Sender::send` and discarded.
#[verifier::external_type_specification]
#[verifier::external_body]
#[verifier::reject_recursive_types(T)]
pub struct ExSendError<T>(std::sync::mpsc::SendError<T>);

/// `std::sync::mpsc::TryRecvError`, returned by `Receiver::try_recv` and discarded.
#[verifier::external_type_specification]
#[verifier::external_body]
pub struct ExTryRecvError(std::sync::mpsc::TryRecvError);

/// Relies on `Sender::send`: it queues the value for the receiving side and
/// does not block; it fails only when that side is gone.
pub assume_specification<T>[ std::sync::mpsc::Sender::<T>::send ](
    sender: &std::sync::mpsc::Sender<T>,
    t: T,
) -> Result<(), std::sync::mpsc::SendError<T>>;

/// Relies on `Receiver::try_recv`: it returns a queued value if there is one
/// and does not block.
pub assume_specification<T>[ std::sync::mpsc::Receiver::<T>::try_recv ](
    receiver: &std::sync::mpsc::Receiver<T>,
) -> Result<T, std::sync::mpsc::TryRecvError>;

/// The interactive side of a session run by a worker: requests go out on
/// one queue and results come back on the other, in the order of the
/// requests. Neither operation blocks.
pub struct EngineHandle {
    request_sender: std::sync::mpsc::Sender<MoveRequest>,
    result_receiver: std::sync::mpsc::Receiver<Result<String, EngineError>>,
}

impl EngineHandle {
    /// A handle over the two queues of a worker that has completed its handshake.
    pub fn from_channels(
        request_sender: std::sync::mpsc::Sender<MoveRequest>,
        result_receiver: std::sync::mpsc::Receiver<Result<String, EngineError>>,
    ) -> (r: EngineHandle) {
        EngineHandle { request_sender, result_receiver }
    }

    /// Queues a request for a move, without waiting. A request made before the
    /// result of the previous one was received breaks the one-at-a-time order.
    pub fn request_move(
        &self,
        moves_uci: String,
        depth: Option<u32>,
        movetime_ms: Option<u64>,
        elo: Option<u32>,
    ) {
        let _ = self.request_sender.send(MoveRequest { moves_uci, depth, movetime_ms, elo });
    }

    /// The next result, if one has arrived; `None` at once otherwise.
    pub fn try_recv_move(&self) -> (r: Option<Result<String, EngineError>>) {
        self.result_receiver.try_recv().ok()
    }
}

} // verus!
