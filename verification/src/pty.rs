//! PTY pump control: the startup write sequence, shell escaping, and the
//! single-task pump state machine that forwards channel data and serves
//! write/resize/close commands.

use vstd::prelude::*;
use crate::text::push_char;

verus! {

/// PTY-level failures.
pub enum PtyError {
    ChannelError(String),
    IoError(String),
}

/// One chunk of terminal output on its way to the UI.
pub struct TerminalOutputEvent {
    pub terminal_id: String,
    pub data: Vec<u8>,
}

/// How one character is rendered inside single quotes: a quote becomes
/// quote, backslash, quote, quote; everything else stands as itself.
pub open spec fn escape_char(c: char) -> Seq<char> {
    if c == '\'' {
        seq!['\'', '\\', '\'', '\'']
    } else {
        seq![c]
    }
}

pub open spec fn shell_escape_body(s: Seq<char>) -> Seq<char>
    decreases s.len(),
{
    if s.len() == 0 {
        Seq::empty()
    } else {
        shell_escape_body(s.drop_last()) + escape_char(s.last())
    }
}

/// A string wrapped in single quotes with embedded quotes escaped, safe to
/// splice into a shell command line.
pub open spec fn shell_escape_spec(s: Seq<char>) -> Seq<char> {
    seq!['\''] + shell_escape_body(s) + seq!['\'']
}

/// Escape a path for use in a shell command.
pub fn shell_escape(s: &str) -> (r: String)
    ensures
        r@ == shell_escape_spec(s@),
{
    let n = s.unicode_len();
    let mut out = String::new();
    push_char(&mut out, '\'');
    let mut i: usize = 0;
    while i < n
        invariant
            i <= n,
            n == s@.len(),
            out@ =~= seq!['\''] + shell_escape_body(s@.subrange(0, i as int)),
        decreases n - i,
    {
        let c = s.get_char(i);
        if c == '\'' {
            push_char(&mut out, '\'');
            push_char(&mut out, '\\');
            push_char(&mut out, '\'');
            push_char(&mut out, '\'');
        } else {
            push_char(&mut out, c);
        }
        proof {
            let pre = s@.subrange(0, i as int);
            let cur = s@.subrange(0, i + 1);
            assert(cur.drop_last() =~= pre);
            assert(cur.last() == s@[i as int]);
            assert(out@ =~= seq!['\''] + shell_escape_body(cur));
        }
        i = i + 1;
    }
    push_char(&mut out, '\'');
    proof {
        assert(s@.subrange(0, n as int) =~= s@);
        assert(out@ =~= shell_escape_spec(s@));
    }
    out
}

/// One write the pump performs before entering its loop, after a delay that
/// lets the remote shell settle.
pub struct StartupWrite {
    pub delay_ms: u64,
    pub data: String,
}

/// The command line a provided startup command turns into: itself, with a
/// newline appended when it lacks one.
pub open spec fn startup_command_line(c: Seq<char>) -> Seq<char> {
    if c.len() > 0 && c.last() == '\n' {
        c
    } else {
        c + "\n"@
    }
}

/// The writes the pump performs at startup: a `cd` into the working
/// directory (quoted, no `clear`, preserving scrollback) after 100 ms, then
/// the startup command after another 50 ms.
pub fn startup_writes(working_dir: &Option<String>, startup_command: &Option<String>) -> (r: Vec<
    StartupWrite,
>)
    ensures
        r@.len() == (if working_dir is Some {
            1int
        } else {
            0int
        }) + (if startup_command is Some {
            1int
        } else {
            0int
        }),
        working_dir matches Some(d) ==> r@[0].delay_ms == 100 && r@[0].data@ == "cd "@
            + shell_escape_spec(d@) + "\n"@,
        startup_command matches Some(c) ==> {
            let idx = if working_dir is Some {
                1int
            } else {
                0int
            };
            r@[idx].delay_ms == 50 && r@[idx].data@ == startup_command_line(c@)
        },
{
    let mut r: Vec<StartupWrite> = Vec::new();
    match working_dir {
        Some(dir) => {
            let mut data = String::new();
            data.append("cd ");
            let escaped = shell_escape(dir.as_str());
            data.append(escaped.as_str());
            data.append("\n");
            r.push(StartupWrite { delay_ms: 100, data });
        },
        None => {},
    }
    match startup_command {
        Some(cmd) => {
            let n = cmd.as_str().unicode_len();
            let data = if n > 0 && cmd.as_str().get_char(n - 1) == '\n' {
                cmd.clone()
            } else {
                let mut d = cmd.clone();
                d.append("\n");
                d
            };
            r.push(StartupWrite { delay_ms: 50, data });
        },
        None => {},
    }
    r
}

/// What the pump observes: channel traffic on one side, commands on the
/// other. `ChannelClosed` stands for EOF, a close message, or a drained
/// channel; `CmdClose` for an explicit close command or all senders gone;
/// `WriteFailed` is reported back by the driver when a write did not go
/// through.
pub enum PumpEvent {
    ChannelData(Vec<u8>),
    ChannelExtendedData(Vec<u8>),
    ChannelClosed,
    ChannelOther,
    CmdWrite(Vec<u8>),
    CmdResize { cols: u32, rows: u32 },
    CmdClose,
    WriteFailed,
}

/// What the driver must do next. `CloseChannel` closes the channel and
/// shuts the writer down; `Shutdown` only shuts the writer down; both stop
/// the pump, as does `Stop`.
pub enum PumpAction {
    EmitOutput(TerminalOutputEvent),
    WriteBytes(Vec<u8>),
    WindowChange { cols: u32, rows: u32, pix_width: u32, pix_height: u32 },
    CloseChannel,
    Shutdown,
    Stop,
    Continue,
}

/// Ghost pump status: whether it has stopped, and whether it has closed the
/// channel.
pub ghost struct PumpStatus {
    pub terminated: bool,
    pub closed: bool,
}

/// The pump transition: the status after one event, whether this step
/// closes the channel, and whether this step stops the pump.
pub open spec fn pump_step_spec(st: PumpStatus, e: PumpEvent) -> (PumpStatus, bool, bool) {
    if st.terminated {
        (st, false, false)
    } else {
        match e {
            PumpEvent::ChannelClosed => (
                PumpStatus { terminated: true, closed: st.closed },
                false,
                true,
            ),
            PumpEvent::CmdClose => (PumpStatus { terminated: true, closed: true }, true, true),
            PumpEvent::WriteFailed => (
                PumpStatus { terminated: true, closed: st.closed },
                false,
                true,
            ),
            _ => (st, false, false),
        }
    }
}

/// The pump task's state: its terminal, whether it has stopped, and whether
/// it has closed the channel.
pub struct PtyPump {
    pub terminal_id: String,
    pub terminated: bool,
    pub closed_channel: bool,
}

impl PtyPump {
    pub open spec fn status(&self) -> PumpStatus {
        PumpStatus { terminated: self.terminated, closed: self.closed_channel }
    }

    /// A running pump for one terminal.
    pub fn new(terminal_id: String) -> (r: Self)
        ensures
            r.terminal_id@ == terminal_id@,
            !r.terminated,
            !r.closed_channel,
    {
        PtyPump { terminal_id, terminated: false, closed_channel: false }
    }

    /// Serve one event. A stopped pump does nothing; otherwise channel data
    /// is forwarded as terminal output, write commands become writes,
    /// resizes become window changes with zero pixel sizes, and close
    /// events stop the pump, closing the channel only for an explicit close
    /// command.
    pub fn step(&mut self, event: PumpEvent) -> (a: PumpAction)
        ensures
            final(self).terminal_id == old(self).terminal_id,
            (final(self).status(), a is CloseChannel, final(self).terminated
                && !old(self).terminated) == pump_step_spec(old(self).status(), event),
            old(self).terminated ==> a is Continue && *final(self) == *old(self),
            !old(self).terminated ==> match event {
                PumpEvent::ChannelData(d) => a matches PumpAction::EmitOutput(ev)
                    && ev.terminal_id@ == old(self).terminal_id@ && ev.data@ == d@,
                PumpEvent::ChannelExtendedData(d) => a matches PumpAction::EmitOutput(ev)
                    && ev.terminal_id@ == old(self).terminal_id@ && ev.data@ == d@,
                PumpEvent::ChannelClosed => a is Stop,
                PumpEvent::ChannelOther => a is Continue,
                PumpEvent::CmdWrite(d) => a matches PumpAction::WriteBytes(w) && w@ == d@,
                PumpEvent::CmdResize { cols, rows } => a matches PumpAction::WindowChange {
                    cols: c,
                    rows: r,
                    pix_width: pw,
                    pix_height: ph,
                } && c == cols && r == rows && pw == 0 && ph == 0,
                PumpEvent::CmdClose => a is CloseChannel,
                PumpEvent::WriteFailed => a is Shutdown,
            },
    {
        if self.terminated {
            return PumpAction::Continue;
        }
        match event {
            PumpEvent::ChannelData(data) => PumpAction::EmitOutput(
                TerminalOutputEvent { terminal_id: self.terminal_id.clone(), data },
            ),
            PumpEvent::ChannelExtendedData(data) => PumpAction::EmitOutput(
                TerminalOutputEvent { terminal_id: self.terminal_id.clone(), data },
            ),
            PumpEvent::ChannelClosed => {
                self.terminated = true;
                PumpAction::Stop
            },
            PumpEvent::ChannelOther => PumpAction::Continue,
            PumpEvent::CmdWrite(data) => PumpAction::WriteBytes(data),
            PumpEvent::CmdResize { cols, rows } => PumpAction::WindowChange {
                cols,
                rows,
                pix_width: 0,
                pix_height: 0,
            },
            PumpEvent::CmdClose => {
                self.terminated = true;
                self.closed_channel = true;
                PumpAction::CloseChannel
            },
            PumpEvent::WriteFailed => {
                self.terminated = true;
                PumpAction::Shutdown
            },
        }
    }
}

/// Channel closes performed over a whole run of events.
pub open spec fn run_closes(st: PumpStatus, events: Seq<PumpEvent>) -> int
    decreases events.len(),
{
    if events.len() == 0 {
        0
    } else {
        let step = pump_step_spec(st, events.first());
        (if step.1 {
            1int
        } else {
            0int
        }) + run_closes(step.0, events.drop_first())
    }
}

/// Stops performed over a whole run of events.
pub open spec fn run_stops(st: PumpStatus, events: Seq<PumpEvent>) -> int
    decreases events.len(),
{
    if events.len() == 0 {
        0
    } else {
        let step = pump_step_spec(st, events.first());
        (if step.2 {
            1int
        } else {
            0int
        }) + run_stops(step.0, events.drop_first())
    }
}

proof fn lemma_pump_run_bounds(st: PumpStatus, events: Seq<PumpEvent>)
    ensures
        run_closes(st, events) <= if st.terminated {
            0int
        } else {
            1int
        },
        run_stops(st, events) <= if st.terminated {
            0int
        } else {
            1int
        },
        0 <= run_closes(st, events),
        0 <= run_stops(st, events),
    decreases events.len(),
{
    if events.len() > 0 {
        let step = pump_step_spec(st, events.first());
        lemma_pump_run_bounds(step.0, events.drop_first());
    }
}

/// Law: however channel traffic and commands interleave, a pump that starts
/// running stops at most once and closes its channel at most once.
pub proof fn lemma_pump_lifecycle(events: Seq<PumpEvent>)
    ensures
        0 <= run_closes(PumpStatus { terminated: false, closed: false }, events) <= 1,
        0 <= run_stops(PumpStatus { terminated: false, closed: false }, events) <= 1,
{
    lemma_pump_run_bounds(PumpStatus { terminated: false, closed: false }, events);
}

} // verus!
