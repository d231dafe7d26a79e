//! The terminal launcher: opens a built command in a visible, interactive
//! terminal window, detached from the caller.
//!
//! One of three platform families applies: a single fixed launch call, a
//! scripting-bridge call, or — on the family with many terminal emulators —
//! an ordered probe-and-launch loop over a fixed preference list. The loop's
//! state machine lives here: the caller probes for the pending candidate,
//! attempts the spawn, and reports both outcomes back; the first present
//! emulator that spawns wins and no further candidate is tried. Probing and
//! spawning themselves are process I/O and happen outside the library.

use vstd::prelude::*;
use vstd::string::StringExecFns;
use crate::command::TerminalCommand;
use crate::errors::OpError;

verus! {

/// How many emulators the preference list holds.
pub const EMULATOR_COUNT: usize = 6;

/// The fixed, ordered preference list of terminal emulators.
pub open spec fn spec_emulator_name(i: int) -> Seq<char> {
    if i == 0 {
        "gnome-terminal"@
    } else if i == 1 {
        "konsole"@
    } else if i == 2 {
        "xfce4-terminal"@
    } else if i == 3 {
        "xterm"@
    } else if i == 4 {
        "terminator"@
    } else {
        "alacritty"@
    }
}

/// The name of the emulator at one position of the preference list.
pub fn emulator_name(i: usize) -> (r: &'static str)
    requires
        i < EMULATOR_COUNT,
    ensures
        r@ == spec_emulator_name(i as int),
{
    if i == 0 {
        "gnome-terminal"
    } else if i == 1 {
        "konsole"
    } else if i == 2 {
        "xfce4-terminal"
    } else if i == 3 {
        "xterm"
    } else if i == 4 {
        "terminator"
    } else {
        "alacritty"
    }
}

/// The script a spawned terminal runs: it echoes the command line so the
/// window shows what runs, runs it, then pauses interactively so the window
/// does not vanish when the command finishes — even when it fails.
pub open spec fn spec_wrapped_script(cmd: Seq<char>) -> Seq<char> {
    "echo "@ + spec_wrapped_plain(cmd) + "; "@ + spec_wrapped_plain(cmd)
        + "; read -p 'Press Enter to exit...'"@
}

/// The emulator-specific arguments that precede the script.
pub open spec fn spec_emulator_prefix(i: int) -> Seq<Seq<char>> {
    if i == 0 {
        seq!["--"@]
    } else if i == 1 {
        seq!["--noclose"@, "-e"@]
    } else if i == 2 {
        seq!["--hold"@, "-e"@]
    } else {
        seq!["-e"@]
    }
}

/// The full argument list handed to the emulator at one position: its own
/// prefix, then the script under `bash -c`.
pub open spec fn spec_invocation_args(i: int, cmd: Seq<char>) -> Seq<Seq<char>> {
    spec_emulator_prefix(i) + seq!["bash"@, "-c"@, spec_wrapped_script(cmd)]
}

/// One process invocation: a program and its argument list, ready to spawn.
pub struct Invocation {
    pub program: String,
    pub args: Vec<String>,
}

/// Where a launch stands.
#[derive(Clone, Copy, Debug, PartialEq, Eq, Structural)]
pub enum LaunchState {
    NotStarted,
    Probing,
    Launched,
    Failed,
}

/// The probe-and-launch state machine. The caller drives it: ask for the
/// pending candidate, probe and spawn outside, report the outcomes, repeat.
pub struct TerminalLauncher {
    command: TerminalCommand,
    idx: usize,
    state: LaunchState,
}

fn wrapped_script(cmd: &TerminalCommand) -> (r: String)
    ensures
        r@ == spec_wrapped_script(cmd@),
{
    let plain = "kubectl ".to_owned().concat(cmd.as_line());
    let r = "echo ".to_owned().concat(plain.as_str()).concat("; ").concat(plain.as_str()).concat(
        "; read -p 'Press Enter to exit...'",
    );
    proof {
        assert(r@ =~= spec_wrapped_script(cmd@));
    }
    r
}

impl TerminalLauncher {
    /// The launch state.
    pub closed spec fn spec_state(self) -> LaunchState {
        self.state
    }

    /// The position the machine stands at: the next candidate while probing,
    /// the winning candidate once launched.
    pub closed spec fn spec_idx(self) -> int {
        self.idx as int
    }

    /// The command line the launch carries.
    pub closed spec fn spec_command(self) -> Seq<char> {
        self.command@
    }

    /// The machine's invariant: the position never passes the end of the
    /// preference list, and while probing a candidate remains.
    pub open spec fn wf(self) -> bool {
        &&& self.spec_idx() <= EMULATOR_COUNT as int
        &&& (self.spec_state() is Probing ==> self.spec_idx() < EMULATOR_COUNT as int)
        &&& (self.spec_state() is Launched ==> self.spec_idx() < EMULATOR_COUNT as int)
        &&& (self.spec_state() is NotStarted ==> self.spec_idx() == 0)
    }

    /// A launch that has not started, carrying its command.
    pub fn new(command: TerminalCommand) -> (l: Self)
        ensures
            l.wf(),
            l.spec_state() is NotStarted,
            l.spec_idx() == 0,
            l.spec_command() == command@,
    {
        TerminalLauncher { command, idx: 0, state: LaunchState::NotStarted }
    }

    /// Start probing, at the head of the preference list.
    pub fn begin(&mut self)
        requires
            old(self).wf(),
            old(self).spec_state() is NotStarted,
        ensures
            final(self).wf(),
            final(self).spec_state() is Probing,
            final(self).spec_idx() == 0,
            final(self).spec_command() == old(self).spec_command(),
    {
        self.state = LaunchState::Probing;
    }

    /// The position the machine stands at, observably.
    pub fn position(&self) -> (r: usize)
        ensures
            r as int == self.spec_idx(),
    {
        self.idx
    }

    /// Whether the machine is still probing.
    pub fn probing(&self) -> (r: bool)
        ensures
            r == (self.spec_state() is Probing),
    {
        matches!(self.state, LaunchState::Probing)
    }

    /// The launch state, observably.
    pub fn state(&self) -> (s: LaunchState)
        ensures
            s == self.spec_state(),
    {
        self.state
    }

    /// The emulator to probe next, while one remains.
    pub fn pending_candidate(&self) -> (r: Option<&'static str>)
        requires
            self.wf(),
        ensures
            match r {
                Some(name) => self.spec_state() is Probing && name@ == spec_emulator_name(
                    self.spec_idx(),
                ),
                None => !(self.spec_state() is Probing),
            },
    {
        match self.state {
            LaunchState::Probing => Some(emulator_name(self.idx)),
            _ => None,
        }
    }

    /// The process invocation that would spawn the pending candidate
    /// wrapping the command.
    pub fn invocation(&self) -> (inv: Invocation)
        requires
            self.wf(),
            self.spec_state() is Probing,
        ensures
            inv.program@ == spec_emulator_name(self.spec_idx()),
            inv.args.deep_view() == spec_invocation_args(self.spec_idx(), self.spec_command()),
    {
        let program = emulator_name(self.idx).to_owned();
        let script = wrapped_script(&self.command);
        let mut args: Vec<String> = Vec::new();
        if self.idx == 0 {
            args.push("--".to_owned());
        } else if self.idx == 1 {
            args.push("--noclose".to_owned());
            args.push("-e".to_owned());
        } else if self.idx == 2 {
            args.push("--hold".to_owned());
            args.push("-e".to_owned());
        } else {
            args.push("-e".to_owned());
        }
        args.push("bash".to_owned());
        args.push("-c".to_owned());
        args.push(script);
        proof {
            assert(args.deep_view() =~= spec_invocation_args(self.spec_idx(), self.spec_command()));
        }
        Invocation { program, args }
    }

    /// Report one candidate's outcomes: whether the presence probe found it,
    /// and whether the spawn succeeded. The first present candidate that
    /// spawns transitions the machine to `Launched` and the loop stops;
    /// otherwise the machine moves on, failing once the list is exhausted.
    pub fn advance(&mut self, present: bool, spawned: bool)
        requires
            old(self).wf(),
            old(self).spec_state() is Probing,
        ensures
            final(self).wf(),
            final(self).spec_command() == old(self).spec_command(),
            present && spawned ==> (final(self).spec_state() is Launched
                && final(self).spec_idx() == old(self).spec_idx()),
            !(present && spawned) ==> {
                &&& final(self).spec_idx() == old(self).spec_idx() + 1
                &&& (old(self).spec_idx() + 1 == EMULATOR_COUNT as int
                    ==> final(self).spec_state() is Failed)
                &&& (old(self).spec_idx() + 1 < EMULATOR_COUNT as int
                    ==> final(self).spec_state() is Probing)
            },
    {
        if present && spawned {
            self.state = LaunchState::Launched;
        } else {
            self.idx = self.idx + 1;
            if self.idx == EMULATOR_COUNT {
                self.state = LaunchState::Failed;
            }
        }
    }

    /// The launch's outcome, once the machine has stopped: the position of
    /// the emulator that was launched, or `NoTerminalFound` when no
    /// candidate on the list could be launched.
    pub fn outcome(&self) -> (r: Result<usize, OpError>)
        requires
            self.wf(),
            !(self.spec_state() is NotStarted),
            !(self.spec_state() is Probing),
        ensures
            self.spec_state() is Launched ==> (r matches Ok(i) && i as int == self.spec_idx()),
            self.spec_state() is Failed ==> (r matches Err(e) && e is NoTerminalFound),
    {
        match self.state {
            LaunchState::Launched => Ok(self.idx),
            _ => Err(OpError::NoTerminalFound),
        }
    }
}

/// The single fixed launch call of the platform family with one shell: a
/// new console window that echoes the command, runs it, and stays open.
pub open spec fn spec_console_invocation_args(cmd: Seq<char>) -> Seq<Seq<char>> {
    seq!["/C"@, "start"@, "cmd"@, "/K"@, "echo "@ + spec_wrapped_plain(cmd) + " && "@
        + spec_wrapped_plain(cmd)]
}

/// The tool with the built command, with no interactive suffix — the
/// families whose windows stay open by themselves need none.
pub open spec fn spec_wrapped_plain(cmd: Seq<char>) -> Seq<char> {
    "kubectl "@ + cmd
}

/// Build the fixed-call invocation for the single-shell platform family.
pub fn console_invocation(cmd: &TerminalCommand) -> (inv: Invocation)
    ensures
        inv.program@ == "cmd"@,
        inv.args.deep_view() == spec_console_invocation_args(cmd@),
{
    let plain = "kubectl ".to_owned().concat(cmd.as_line());
    let echoed = "echo ".to_owned().concat(plain.as_str()).concat(" && ").concat(plain.as_str());
    let mut args: Vec<String> = Vec::new();
    args.push("/C".to_owned());
    args.push("start".to_owned());
    args.push("cmd".to_owned());
    args.push("/K".to_owned());
    args.push(echoed);
    proof {
        assert(args.deep_view() =~~= spec_console_invocation_args(cmd@));
    }
    Invocation { program: "cmd".to_owned(), args }
}

/// The scripting-bridge call of the platform family driven through a script
/// runner: a script that tells the terminal application to run the command
/// and come to the front.
pub open spec fn spec_bridge_script(cmd: Seq<char>) -> Seq<char> {
    "tell application \"Terminal\"\ndo script \""@ + spec_wrapped_plain(cmd)
        + "\"\nactivate\nend tell"@
}

/// Build the scripting-bridge invocation.
pub fn bridge_invocation(cmd: &TerminalCommand) -> (inv: Invocation)
    ensures
        inv.program@ == "osascript"@,
        inv.args.deep_view() == seq!["-e"@, spec_bridge_script(cmd@)],
{
    let script = "tell application \"Terminal\"\ndo script \"".to_owned().concat(
        "kubectl ",
    ).concat(cmd.as_line()).concat("\"\nactivate\nend tell");
    let mut args: Vec<String> = Vec::new();
    args.push("-e".to_owned());
    args.push(script);
    proof {
        assert(args.deep_view() =~~= seq!["-e"@, spec_bridge_script(cmd@)]);
    }
    Invocation { program: "osascript".to_owned(), args }
}

/// The first position from `from` on whose emulator is present and spawns.
pub open spec fn spec_first_viable_from(present: Seq<bool>, spawns: Seq<bool>, from: int) -> Option<
    int,
>
    decreases present.len() - from,
{
    if from < 0 || from >= present.len() {
        None
    } else if present[from] && spawns[from] {
        Some(from)
    } else {
        spec_first_viable_from(present, spawns, from + 1)
    }
}

/// The first position on the preference list whose emulator is present and
/// spawns.
pub open spec fn spec_first_viable(present: Seq<bool>, spawns: Seq<bool>) -> Option<int> {
    spec_first_viable_from(present, spawns, 0)
}

/// Law: run the probe-and-launch loop against given probe and spawn
/// dispositions — `present[i]` says whether the emulator at position `i`
/// exists, `spawns[i]` whether spawning it would succeed. The machine ends
/// `Launched` exactly at the first viable position, having tried no later
/// candidate, and ends `Failed` when no position is viable.
pub fn run_probe_sequence(command: TerminalCommand, present: &Vec<bool>, spawns: &Vec<bool>) -> (l:
    TerminalLauncher)
    requires
        present@.len() == EMULATOR_COUNT as int,
        spawns@.len() == EMULATOR_COUNT as int,
    ensures
        l.wf(),
        l.spec_command() == command@,
        match spec_first_viable(present@, spawns@) {
            Some(i) => l.spec_state() is Launched && l.spec_idx() == i,
            None => l.spec_state() is Failed,
        },
{
    let mut l = TerminalLauncher::new(command);
    l.begin();
    while l.probing()
        invariant
            l.wf(),
            l.spec_command() == command@,
            present@.len() == EMULATOR_COUNT as int,
            spawns@.len() == EMULATOR_COUNT as int,
            l.spec_state() is Probing || l.spec_state() is Launched || l.spec_state() is Failed,
            l.spec_state() is Probing ==> spec_first_viable(present@, spawns@)
                == spec_first_viable_from(present@, spawns@, l.spec_idx()),
            l.spec_state() is Launched ==> spec_first_viable(present@, spawns@) == Some(
                l.spec_idx(),
            ),
            l.spec_state() is Failed ==> spec_first_viable(present@, spawns@) is None,
        decreases EMULATOR_COUNT as int - l.spec_idx(), (if l.spec_state() is Probing {
            1int
        } else {
            0int
        }),
    {
        let ghost i = l.spec_idx();
        let pos = l.position();
        let p = present[pos];
        let s = spawns[pos];
        l.advance(p, s);
        proof {
            if p && s {
                assert(spec_first_viable_from(present@, spawns@, i) == Some(i));
            } else {
                assert(spec_first_viable_from(present@, spawns@, i) == spec_first_viable_from(
                    present@,
                    spawns@,
                    i + 1,
                ));
            }
        }
    }
    l
}

} // verus!
