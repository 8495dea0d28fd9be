//! Starting, probing and stopping the dsh web service.
//!
//! On Windows the service runs either natively (`cmd /C npx ...`) or inside the default
//! WSL distribution through an interactive login shell (`wsl bash -il`), so that Node
//! set up by mise / nvm / asdf / fnm in the shell profile is found. WSL2 forwards the
//! distribution's `127.0.0.1` to the host, so the service address is the same in both
//! modes. Elsewhere the service runs through `sh -c`.
//!
//! The functions here decide which commands run, with which standard streams and which
//! script on standard input, and what the probe output says; the caller runs them.

use vstd::prelude::*;
use vstd::slice::slice_subrange;
use crate::text::{
    chars_to_string, decimal, decimal_string, decode_lossy, find, find_from, lemma_find_from_first,
    matches_at, occurs_at, trim, trim_bounds, utf8_lossy, is_white_space, lemma_find_after_body,
    lemma_trim_unchanged, lemma_trim_keeps_prefix, lemma_trim_all_white,
    lemma_decimal_reads_back, numeral_value, lemma_trim_strips_around,
};

verus! {

/// Address of the dsh web service (the same in WSL mode, through WSL2 localhost forwarding).
pub const SERVICE_URL: &'static str = "http://127.0.0.1:3080";

/// Host that the readiness probe connects to.
pub const SERVICE_HOST: &'static str = "127.0.0.1";

/// Port that the readiness probe connects to.
pub const SERVICE_PORT: u16 = 3080;

/// The command line that starts the dsh web service.
pub const DSH_WEB_COMMAND: &'static str = "npx --yes @deepseek-ai/dsh web";

/// Script fed to an interactive login shell in WSL to find `npx`; the path is framed by
/// `__PROBE__` and `__END__` so that it can be found among terminal escape sequences.
pub const WSL_PROBE_SCRIPT: &'static str = "printf '__PROBE__%s__END__\\n' \"$(command -v npx 2>/dev/null || true)\"\nexit\n";

/// Script fed to the WSL shell that starts the service: it records the foreground process
/// group (for the later clean-up), checks that `npx` is installed in the distribution and
/// not the Windows one under `/mnt/`, then starts the service.
pub const WSL_LAUNCH_SCRIPT: &'static str = r#"echo $$ > /tmp/dsh-desktop.pid
NPX="$(command -v npx 2>/dev/null || true)"
if [ -z "$NPX" ]; then
  echo "WSL 发行版内未安装 Node.js（npx）" >&2
  exit 1
fi
case "$NPX" in
  /mnt/*)
    echo "WSL 发行版内未安装 Node.js，检测到的 npx 来自 Windows" >&2
    exit 1
    ;;
esac
exec "$NPX" --yes @deepseek-ai/dsh web
"#;

/// Script run in WSL on exit: it ends the recorded process group (npx, sh, node) and
/// falls back on `pkill` should the pid file be gone.
pub const WSL_KILL_SCRIPT: &'static str = r#"if [ -f /tmp/dsh-desktop.pid ]; then
  PGID="$(cat /tmp/dsh-desktop.pid 2>/dev/null || true)"
  if [ -n "$PGID" ] && kill -0 -- "-$PGID" 2>/dev/null; then
    kill -TERM -- "-$PGID" 2>/dev/null || true
    sleep 1
    kill -KILL -- "-$PGID" 2>/dev/null || true
  fi
  rm -f /tmp/dsh-desktop.pid
fi
pkill -f '@deepseek-ai/dsh' 2>/dev/null
pkill -f '\.bin/dsh' 2>/dev/null
true
"#;

/// How the dsh web service is started (chosen on the start page).
#[derive(Debug, Clone, Copy, PartialEq, Eq, Structural)]
pub enum LaunchMode {
    /// Node.js of this machine (`cmd /C npx ...`).
    Native,
    /// The default WSL distribution (`wsl bash -il`).
    Wsl,
}

/// The operating system the shell runs on.
#[derive(Debug, Clone, Copy, PartialEq, Eq, Structural)]
pub enum Platform {
    Windows,
    Other,
}

/// Which launch modes are available (shown on the start page).
#[derive(Debug, Clone, Copy, PartialEq, Eq, Structural)]
pub struct ModeAvailability {
    /// `npx` is on the `PATH` of this machine.
    pub native: bool,
    /// Launching through WSL is usable: an installed distribution exists (its login shell
    /// ran and exited successfully). Whether it has its own `npx` is checked when the
    /// service is started in WSL mode (`plan_launch`).
    pub wsl: bool,
}

/// What the WSL probe shell printed, once it ended.
pub struct ProbeOutput {
    /// The shell exited successfully.
    pub success: bool,
    /// Its standard output.
    pub stdout: Vec<u8>,
}

/// How a standard stream of a child process is set up.
#[derive(Debug, Clone, Copy, PartialEq, Eq, Structural)]
pub enum StdioSetting {
    /// Left as the way of running the command sets it.
    Unset,
    /// Connected to nothing.
    Null,
    /// A pipe to the shell.
    Piped,
}

/// A command to run: program, arguments, standard streams, and whether it runs without a
/// console window (`CREATE_NO_WINDOW` on Windows).
pub struct CommandSpec {
    pub program: String,
    pub args: Vec<String>,
    pub stdin: StdioSetting,
    pub stdout: StdioSetting,
    pub stderr: StdioSetting,
    pub hide_console: bool,
}

/// A command as characters.
pub struct CommandView {
    pub program: Seq<char>,
    pub args: Seq<Seq<char>>,
    pub stdin: StdioSetting,
    pub stdout: StdioSetting,
    pub stderr: StdioSetting,
    pub hide_console: bool,
}

impl View for CommandSpec {
    type V = CommandView;

    open spec fn view(&self) -> CommandView {
        CommandView {
            program: self.program@,
            args: self.args@.map_values(|a: String| a@),
            stdin: self.stdin,
            stdout: self.stdout,
            stderr: self.stderr,
            hide_console: self.hide_console,
        }
    }
}

/// How to start the service: the command and the script to write to its standard input.
pub struct LaunchPlan {
    pub command: CommandSpec,
    pub stdin_script: Option<&'static str>,
}

/// Why the service cannot be started.
#[derive(Debug, Clone, Copy, PartialEq, Eq, Structural)]
pub enum LaunchError {
    /// WSL mode was chosen, but no `npx` of the distribution itself was found.
    WslNodeMissing,
}

/// One step of stopping the service.
pub enum KillStep {
    /// Run a command and wait for it, whatever it reports.
    Run(CommandSpec),
    /// Kill the service's child process.
    KillChild,
    /// Wait for the service's child process to end.
    WaitChild,
}

/// A step of stopping the service, as characters.
pub enum KillStepView {
    Run(CommandView),
    KillChild,
    WaitChild,
}

impl View for KillStep {
    type V = KillStepView;

    open spec fn view(&self) -> KillStepView {
        match self {
            KillStep::Run(c) => KillStepView::Run(c@),
            KillStep::KillChild => KillStepView::KillChild,
            KillStep::WaitChild => KillStepView::WaitChild,
        }
    }
}

/// The marker before the probed path.
pub open spec fn probe_begin() -> Seq<char> {
    seq!['_', '_', 'P', 'R', 'O', 'B', 'E', '_', '_']
}

/// The marker after the probed path.
pub open spec fn probe_end() -> Seq<char> {
    seq!['_', '_', 'E', 'N', 'D', '_', '_']
}

/// Where Windows drives appear inside WSL; an `npx` there is the Windows one.
pub open spec fn windows_mount() -> Seq<char> {
    seq!['/', 'm', 'n', 't', '/']
}

/// The `npx` path that the probe text reports: the trimmed text between the first
/// `__PROBE__` and the first `__END__` after it, unless it is empty or lies under `/mnt/`.
pub open spec fn probe_path(text: Seq<char>) -> Option<Seq<char>> {
    match find_from(text, probe_begin(), 0) {
        None => None,
        Some(b) => {
            let start = b + probe_begin().len();
            match find_from(text, probe_end(), start) {
                None => None,
                Some(e) => {
                    let path = trim(text.subrange(start, e));
                    if path.len() == 0 || occurs_at(path, windows_mount(), 0) {
                        None
                    } else {
                        Some(path)
                    }
                },
            }
        },
    }
}

/// The `npx` path inside WSL that a probe run reports: none when the probe did not run or
/// did not succeed, else what its output, decoded as `String::from_utf8_lossy` does, says.
pub open spec fn wsl_npx(probe: Option<ProbeOutput>) -> Option<Seq<char>> {
    match probe {
        None => None,
        Some(p) => if p.success {
            probe_path(utf8_lossy(p.stdout@))
        } else {
            None
        },
    }
}

/// Availability of the launch modes, from what the probes found: on Windows native when
/// `npx` is on the `PATH`, WSL when a distribution is installed, i.e. its login shell ran
/// and exited successfully.
pub open spec fn availability(
    platform: Platform,
    npx_lookup: Option<bool>,
    wsl_probe: Option<ProbeOutput>,
) -> ModeAvailability {
    match platform {
        Platform::Windows => ModeAvailability {
            native: npx_lookup == Some(true),
            wsl: wsl_probe matches Some(p) && p.success,
        },
        Platform::Other => ModeAvailability { native: true, wsl: false },
    }
}

/// The user's hint when the service did not become ready in time.
pub open spec fn timeout_hint_text(mode: LaunchMode) -> Seq<char> {
    match mode {
        LaunchMode::Wsl => "服务启动超时，请确认 WSL 发行版内已安装 Node.js（npx）后重试"@,
        LaunchMode::Native => "服务启动超时，请确认本机已安装 Node.js / npx 后重试"@,
    }
}

/// A command that runs without a console window, with the given streams.
pub open spec fn hidden(
    program: Seq<char>,
    args: Seq<Seq<char>>,
    stdin: StdioSetting,
    stdout: StdioSetting,
    stderr: StdioSetting,
) -> CommandView {
    CommandView { program, args, stdin, stdout, stderr, hide_console: true }
}

/// The command that looks `name` up on the `PATH` (`cmd /C where name`).
pub open spec fn lookup_command_view(name: Seq<char>) -> CommandView {
    hidden(
        "cmd"@,
        seq!["/C"@, "where"@, name],
        StdioSetting::Null,
        StdioSetting::Null,
        StdioSetting::Null,
    )
}

/// The interactive login shell in WSL that the probe script is fed to.
pub open spec fn wsl_probe_command_view() -> CommandView {
    hidden(
        "wsl"@,
        seq!["bash"@, "-il"@],
        StdioSetting::Piped,
        StdioSetting::Piped,
        StdioSetting::Null,
    )
}

/// The command that starts the service.
pub open spec fn launch_command_view(platform: Platform, mode: LaunchMode) -> CommandView {
    match (platform, mode) {
        (Platform::Windows, LaunchMode::Native) => hidden(
            "cmd"@,
            seq!["/C"@, DSH_WEB_COMMAND@],
            StdioSetting::Null,
            StdioSetting::Null,
            StdioSetting::Null,
        ),
        (Platform::Windows, LaunchMode::Wsl) => hidden(
            "wsl"@,
            seq!["bash"@, "-il"@],
            StdioSetting::Piped,
            StdioSetting::Null,
            StdioSetting::Null,
        ),
        (Platform::Other, _) => CommandView {
            program: "sh"@,
            args: seq!["-c"@, DSH_WEB_COMMAND@],
            stdin: StdioSetting::Null,
            stdout: StdioSetting::Null,
            stderr: StdioSetting::Null,
            hide_console: false,
        },
    }
}

/// The steps that stop the service started in `mode` whose process id is `pid`: on
/// Windows the WSL clean-up script (in WSL mode), then `taskkill /F /T` on the process
/// tree, then a wait; elsewhere a kill and a wait.
pub open spec fn kill_steps(platform: Platform, mode: LaunchMode, pid: u32) -> Seq<KillStepView> {
    match platform {
        Platform::Windows => {
            let taskkill = KillStepView::Run(
                hidden(
                    "taskkill"@,
                    seq!["/F"@, "/T"@, "/PID"@, decimal(pid as nat)],
                    StdioSetting::Unset,
                    StdioSetting::Unset,
                    StdioSetting::Unset,
                ),
            );
            let tail = seq![taskkill, KillStepView::WaitChild];
            if mode == LaunchMode::Wsl {
                seq![
                    KillStepView::Run(
                        hidden(
                            "wsl"@,
                            seq!["bash"@, "-lc"@, WSL_KILL_SCRIPT@],
                            StdioSetting::Null,
                            StdioSetting::Null,
                            StdioSetting::Null,
                        ),
                    ),
                ] + tail
            } else {
                tail
            }
        },
        Platform::Other => seq![KillStepView::KillChild, KillStepView::WaitChild],
    }
}

/// What the probe script prints is what the parser reads: a path framed by the markers,
/// with text around it that holds no earlier marker, is reported as it stands, provided it
/// is not empty, has no surrounding white space and does not lie under `/mnt/`.
pub proof fn lemma_probe_round_trip(prefix: Seq<char>, path: Seq<char>, suffix: Seq<char>)
    requires
        forall|j: int| 0 <= j < prefix.len() ==> !occurs_at(prefix + probe_begin(), probe_begin(), j),
        forall|j: int| 0 <= j < path.len() ==> !occurs_at(path + probe_end(), probe_end(), j),
        path.len() > 0,
        !is_white_space(path[0]),
        !is_white_space(path.last()),
        !occurs_at(path, windows_mount(), 0),
    ensures
        probe_path(prefix + probe_begin() + path + probe_end() + suffix) == Some(path),
{
    lemma_probe_framed(prefix, path, suffix);
    lemma_trim_unchanged(path);
}

/// Where a path is framed by the markers with no earlier marker, the probe text reads as
/// that path, trimmed.
proof fn lemma_probe_framed(prefix: Seq<char>, path: Seq<char>, suffix: Seq<char>)
    requires
        forall|j: int| 0 <= j < prefix.len() ==> !occurs_at(prefix + probe_begin(), probe_begin(), j),
        forall|j: int| 0 <= j < path.len() ==> !occurs_at(path + probe_end(), probe_end(), j),
    ensures
        probe_path(prefix + probe_begin() + path + probe_end() + suffix) == (if trim(path).len()
            == 0 || occurs_at(trim(path), windows_mount(), 0) {
            None
        } else {
            Some(trim(path))
        }),
{
    let begin = probe_begin();
    let end = probe_end();
    let text = prefix + begin + path + end + suffix;
    let empty = Seq::<char>::empty();
    lemma_find_after_body(empty, prefix, begin, path + end + suffix);
    assert(empty + prefix + begin + (path + end + suffix) =~= text);
    assert(empty + prefix =~= prefix);
    lemma_find_after_body(prefix + begin, path, end, suffix);
    let start = (prefix.len() + begin.len()) as int;
    assert(text.subrange(start, start + path.len() as int) =~= path);
}

/// The reported path is the framed text without the white space around it (as terminal
/// output leaves it): a framed `lead + core + trail`, with white space only in `lead` and
/// `trail`, reports `core`, unless `core` lies under `/mnt/`.
pub proof fn lemma_probe_trims_path(
    prefix: Seq<char>,
    lead: Seq<char>,
    core: Seq<char>,
    trail: Seq<char>,
    suffix: Seq<char>,
)
    requires
        forall|j: int| 0 <= j < prefix.len() ==> !occurs_at(prefix + probe_begin(), probe_begin(), j),
        forall|j: int|
            0 <= j < (lead + core + trail).len() ==> !occurs_at(
                lead + core + trail + probe_end(),
                probe_end(),
                j,
            ),
        forall|j: int| 0 <= j < lead.len() ==> is_white_space(#[trigger] lead[j]),
        forall|j: int| 0 <= j < trail.len() ==> is_white_space(#[trigger] trail[j]),
        core.len() > 0,
        !is_white_space(core[0]),
        !is_white_space(core.last()),
        !(core.len() >= 5 && core.subrange(0, 5) == seq!['/', 'm', 'n', 't', '/']),
    ensures
        probe_path(prefix + probe_begin() + (lead + core + trail) + probe_end() + suffix) == Some(core),
{
    lemma_probe_framed(prefix, lead + core + trail, suffix);
    lemma_trim_strips_around(lead, core, trail);
}

/// An `npx` under `/mnt/` (any drive: `/mnt/c/`, `/mnt/d/`, ...) is the Windows one that
/// WSL interop finds: a probe text that frames such a path reports no path, whatever
/// white space follows it.
pub proof fn lemma_probe_rejects_windows_npx(prefix: Seq<char>, path: Seq<char>, suffix: Seq<char>)
    requires
        forall|j: int| 0 <= j < prefix.len() ==> !occurs_at(prefix + probe_begin(), probe_begin(), j),
        forall|j: int| 0 <= j < path.len() ==> !occurs_at(path + probe_end(), probe_end(), j),
        path.len() >= 5,
        path.subrange(0, 5) == seq!['/', 'm', 'n', 't', '/'],
    ensures
        probe_path(prefix + probe_begin() + path + probe_end() + suffix) is None,
{
    lemma_probe_framed(prefix, path, suffix);
    assert(path[0] == '/' && path[4] == '/') by {
        assert(path.subrange(0, 5)[0] == '/' && path.subrange(0, 5)[4] == '/');
    }
    lemma_trim_keeps_prefix(path, 4);
    let p = trim(path);
    assert(p.subrange(0, 5) =~= path.subrange(0, 5)) by {
        assert(p == path.subrange(0, p.len() as int));
    }
    assert(occurs_at(p, windows_mount(), 0));
}

/// A probe text without the begin marker, or whose framed path is empty or only white
/// space, reports no path.
pub proof fn lemma_probe_without_path(text: Seq<char>, prefix: Seq<char>, path: Seq<char>, suffix: Seq<char>)
    requires
        forall|j: int| 0 <= j < prefix.len() ==> !occurs_at(prefix + probe_begin(), probe_begin(), j),
        forall|j: int| 0 <= j < path.len() ==> !occurs_at(path + probe_end(), probe_end(), j),
        forall|j: int| 0 <= j < path.len() ==> is_white_space(#[trigger] path[j]),
    ensures
        (forall|j: int| 0 <= j < text.len() ==> !occurs_at(text, probe_begin(), j)) ==> probe_path(
            text,
        ) is None,
        probe_path(prefix + probe_begin() + path + probe_end() + suffix) is None,
{
    lemma_find_from_first(text, probe_begin(), 0);
    lemma_probe_framed(prefix, path, suffix);
    lemma_trim_all_white(path);
}

/// The window is pointed at the same place that the readiness wait connects to: the
/// service address is `http://` followed by the host, a colon and the port.
pub proof fn lemma_service_url_matches_endpoint()
    ensures
        SERVICE_URL@ == "http://"@ + SERVICE_HOST@ + ":"@ + decimal(SERVICE_PORT as nat),
{
    reveal_strlit("http://127.0.0.1:3080");
    reveal_strlit("http://");
    reveal_strlit("127.0.0.1");
    reveal_strlit(":");
    reveal_with_fuel(decimal, 5);
    assert(decimal(3080) =~= seq!['3', '0', '8', '0']);
    assert(SERVICE_URL@ =~= "http://"@ + SERVICE_HOST@ + ":"@ + decimal(SERVICE_PORT as nat));
}

/// The probe script prints the path between exactly the markers that the parser looks for
/// (`printf '__PROBE__%s__END__\n'`).
pub proof fn lemma_probe_script_markers()
    ensures
        WSL_PROBE_SCRIPT@.subrange(8, 17) == probe_begin(),
        WSL_PROBE_SCRIPT@.subrange(17, 19) == seq!['%', 's'],
        WSL_PROBE_SCRIPT@.subrange(19, 26) == probe_end(),
{
    reveal_strlit("printf '__PROBE__%s__END__\\n' \"$(command -v npx 2>/dev/null || true)\"\nexit\n");
    assert(WSL_PROBE_SCRIPT@.subrange(8, 17) =~= probe_begin());
    assert(WSL_PROBE_SCRIPT@.subrange(17, 19) =~= seq!['%', 's']);
    assert(WSL_PROBE_SCRIPT@.subrange(19, 26) =~= probe_end());
}

/// On Windows no command opens a console window: the lookup, the probe shell, both ways
/// of starting the service and every command run to stop it.
pub proof fn lemma_windows_commands_hidden(name: Seq<char>, mode: LaunchMode, pid: u32)
    ensures
        lookup_command_view(name).hide_console,
        wsl_probe_command_view().hide_console,
        launch_command_view(Platform::Windows, mode).hide_console,
        forall|i: int|
            0 <= i < kill_steps(Platform::Windows, mode, pid).len() ==> (#[trigger] kill_steps(
                Platform::Windows,
                mode,
                pid,
            )[i] matches KillStepView::Run(c) ==> c.hide_console),
{
}

/// On Windows, stopping the service in either mode ends with `taskkill /F /T` on the
/// service's process id, which takes the whole process tree, and a wait for the child.
pub proof fn lemma_windows_kill_takes_tree(mode: LaunchMode, pid: u32)
    ensures
        ({
            let steps = kill_steps(Platform::Windows, mode, pid);
            &&& steps.len() >= 2
            &&& steps.last() == KillStepView::WaitChild
            &&& steps[steps.len() - 2] matches KillStepView::Run(c) && c.program == "taskkill"@
                && c.args == seq!["/F"@, "/T"@, "/PID"@, decimal(pid as nat)]
        }),
{
}

/// The WSL probe runs in the very shell that WSL mode starts the service in (`wsl bash
/// -il`), reading its output through a pipe; the `PATH` lookup runs `where` on exactly
/// the name asked for. Neither shows a console window.
pub proof fn lemma_probe_commands(name: Seq<char>)
    ensures
        wsl_probe_command_view().program == launch_command_view(
            Platform::Windows,
            LaunchMode::Wsl,
        ).program,
        wsl_probe_command_view().args == launch_command_view(Platform::Windows, LaunchMode::Wsl).args,
        wsl_probe_command_view().program == "wsl"@,
        wsl_probe_command_view().args == seq!["bash"@, "-il"@],
        wsl_probe_command_view().stdin == StdioSetting::Piped,
        wsl_probe_command_view().stdout == StdioSetting::Piped,
        wsl_probe_command_view().stderr == StdioSetting::Null,
        lookup_command_view(name).program == "cmd"@,
        lookup_command_view(name).args == seq!["/C"@, "where"@, name],
        lookup_command_view(name).stdout == StdioSetting::Null,
        lookup_command_view(name).hide_console && wsl_probe_command_view().hide_console,
{
}

/// Every plan to stop the service kills it before waiting for it: elsewhere than Windows
/// it kills the child and waits, in every mode; on Windows the step before the final wait
/// is `taskkill /F /T /PID` with the decimal numeral of the service's own process id,
/// preceded in WSL mode (only) by the WSL clean-up script. The only wait is the last step.
pub proof fn lemma_stop_kills_before_waiting(platform: Platform, mode: LaunchMode, pid: u32)
    ensures
        ({
            let steps = kill_steps(platform, mode, pid);
            &&& steps.len() >= 2
            &&& steps.last() == KillStepView::WaitChild
            &&& forall|i: int| 0 <= i < steps.len() - 1 ==> !(#[trigger] steps[i] is WaitChild)
            &&& platform == Platform::Other ==> steps == seq![
                KillStepView::KillChild,
                KillStepView::WaitChild,
            ]
            &&& platform == Platform::Windows ==> {
                &&& steps[steps.len() - 2] matches KillStepView::Run(c)
                &&& c.program == "taskkill"@
                &&& c.args.len() == 4
                &&& c.args[0] == "/F"@
                &&& c.args[1] == "/T"@
                &&& c.args[2] == "/PID"@
                &&& numeral_value(c.args[3]) == pid
                &&& steps.len() == (if mode == LaunchMode::Wsl { 3int } else { 2int })
                &&& mode == LaunchMode::Wsl ==> (steps[0] matches KillStepView::Run(w)
                    && w.program == "wsl"@ && w.args == seq!["bash"@, "-lc"@, WSL_KILL_SCRIPT@])
            }
        }),
{
    lemma_decimal_reads_back(pid as nat);
    let steps = kill_steps(platform, mode, pid);
    assert forall|i: int| 0 <= i < steps.len() - 1 implies !(#[trigger] steps[i] is WaitChild) by {
        if platform == Platform::Windows && mode == LaunchMode::Wsl {
            assert(i == 0 || i == 1);
        }
    }
}

/// What detection reports on Windows depends on each probe alone: native exactly when
/// `where npx` succeeded, whatever WSL gave; WSL exactly when the distribution's login
/// shell ran and exited successfully, whatever the lookup gave. Elsewhere native is
/// offered and WSL is not, whatever the probes.
pub proof fn lemma_detect_each_mode_by_its_probe(
    lookup: Option<bool>,
    other_lookup: Option<bool>,
    probe: Option<ProbeOutput>,
    other_probe: Option<ProbeOutput>,
)
    ensures
        availability(Platform::Windows, lookup, probe).native == (lookup == Some(true)),
        availability(Platform::Windows, lookup, probe).native == availability(
            Platform::Windows,
            lookup,
            other_probe,
        ).native,
        availability(Platform::Windows, lookup, probe).wsl == (probe matches Some(p) && p.success),
        availability(Platform::Windows, lookup, probe).wsl == availability(
            Platform::Windows,
            other_lookup,
            probe,
        ).wsl,
        availability(Platform::Other, lookup, probe).native,
        !availability(Platform::Other, lookup, probe).wsl,
{
}

/// The service is started with its output discarded: standard output and error go
/// nowhere; standard input is a pipe only for the WSL shell (which is fed the launch
/// script), else nothing; the console is hidden exactly on Windows. Natively and elsewhere
/// the shell is given the dsh command line itself.
pub proof fn lemma_launch_commands(platform: Platform, mode: LaunchMode)
    ensures
        ({
            let c = launch_command_view(platform, mode);
            &&& c.stdout == StdioSetting::Null
            &&& c.stderr == StdioSetting::Null
            &&& c.hide_console == (platform == Platform::Windows)
            &&& (c.stdin == StdioSetting::Piped) == (platform == Platform::Windows && mode
                == LaunchMode::Wsl)
            &&& c.stdin != StdioSetting::Piped ==> c.stdin == StdioSetting::Null
            &&& platform == Platform::Windows && mode == LaunchMode::Wsl ==> c.program == "wsl"@
                && c.args == seq!["bash"@, "-il"@]
            &&& platform == Platform::Windows && mode == LaunchMode::Native ==> c.program
                == "cmd"@ && c.args == seq!["/C"@, "npx --yes @deepseek-ai/dsh web"@]
            &&& platform == Platform::Other ==> c.program == "sh"@ && c.args == seq![
                "-c"@,
                "npx --yes @deepseek-ai/dsh web"@,
            ]
        }),
{
}

/// Owned copies of the given arguments.
fn owned_args(parts: &[&str]) -> (r: Vec<String>)
    ensures
        r@.map_values(|a: String| a@) == parts@.map_values(|p: &str| p@),
{
    let mut r: Vec<String> = Vec::new();
    let n = parts.len();
    let mut i: usize = 0;
    while i < n
        invariant
            n == parts@.len(),
            i <= n,
            r@.map_values(|a: String| a@) =~= parts@.subrange(0, i as int).map_values(
                |p: &str| p@,
            ),
        decreases n - i,
    {
        let a = parts[i].to_owned();
        let ghost prev = r@;
        r.push(a);
        assert(r@.map_values(|a: String| a@) =~= prev.map_values(|a: String| a@).push(a@));
        assert(parts@.subrange(0, i + 1) =~= parts@.subrange(0, i as int).push(parts@[i as int]));
        i = i + 1;
    }
    assert(parts@.subrange(0, n as int) =~= parts@);
    r
}

/// A command with the given program, arguments and streams.
fn command(
    program: &str,
    parts: &[&str],
    stdin: StdioSetting,
    stdout: StdioSetting,
    stderr: StdioSetting,
    hide_console: bool,
) -> (r: CommandSpec)
    ensures
        r@ == (CommandView {
            program: program@,
            args: parts@.map_values(|p: &str| p@),
            stdin,
            stdout,
            stderr,
            hide_console,
        }),
{
    CommandSpec { program: program.to_owned(), args: owned_args(parts), stdin, stdout, stderr, hide_console }
}

/// Hint shown to the user when the service did not become ready in time.
pub fn timeout_hint(mode: LaunchMode) -> (hint: &'static str)
    ensures
        hint@ == timeout_hint_text(mode),
{
    match mode {
        LaunchMode::Wsl => "服务启动超时，请确认 WSL 发行版内已安装 Node.js（npx）后重试",
        LaunchMode::Native => "服务启动超时，请确认本机已安装 Node.js / npx 后重试",
    }
}

/// The `npx` path that the probe text reports, if any (see `probe_path`).
pub fn parse_probe_text(text: &[char]) -> (r: Option<String>)
    ensures
        r matches Some(p) ==> probe_path(text@) == Some(p@),
        r is None ==> probe_path(text@) is None,
{
    let begin = vec!['_', '_', 'P', 'R', 'O', 'B', 'E', '_', '_'];
    let end = vec!['_', '_', 'E', 'N', 'D', '_', '_'];
    let mount = vec!['/', 'm', 'n', 't', '/'];
    assert(begin@ =~= probe_begin());
    assert(end@ =~= probe_end());
    assert(mount@ =~= windows_mount());
    let n = text.len();
    match find(text, begin.as_slice(), 0) {
        None => None,
        Some(b) => {
            proof {
                lemma_find_from_first(text@, probe_begin(), 0);
                assert(occurs_at(text@, probe_begin(), b as int));
                assert(b + begin@.len() <= n);
            }
            let start = b + begin.len();
            match find(text, end.as_slice(), start) {
                None => None,
                Some(e) => {
                    proof {
                        lemma_find_from_first(text@, probe_end(), start as int);
                        assert(occurs_at(text@, probe_end(), e as int));
                    }
                    let inner = slice_subrange(text, start, e);
                    let (lo, hi) = trim_bounds(inner);
                    let path = slice_subrange(inner, lo, hi);
                    if path.len() == 0 || matches_at(path, mount.as_slice(), 0) {
                        None
                    } else {
                        Some(chars_to_string(path))
                    }
                },
            }
        },
    }
}

/// The `npx` path inside WSL that a probe run reports (see `wsl_npx`).
pub fn wsl_npx_path(probe: &Option<ProbeOutput>) -> (r: Option<String>)
    ensures
        r matches Some(p) ==> wsl_npx(*probe) == Some(p@),
        r is None ==> wsl_npx(*probe) is None,
{
    match probe {
        None => None,
        Some(p) => {
            if !p.success {
                return None;
            }
            let text = decode_lossy(p.stdout.as_slice());
            parse_probe_text(text.as_slice())
        },
    }
}

/// Availability of the launch modes. `npx_lookup` is whether `cmd /C where npx` succeeded
/// (`None`: it could not run), `wsl_probe` how the WSL login shell ended (`None`: it could
/// not run, so no distribution is installed); both are read on Windows only.
pub fn detect(platform: Platform, npx_lookup: Option<bool>, wsl_probe: Option<ProbeOutput>) -> (r:
    ModeAvailability)
    ensures
        r == availability(platform, npx_lookup, wsl_probe),
{
    match platform {
        Platform::Windows => {
            let native = match npx_lookup {
                Some(found) => found,
                None => false,
            };
            let wsl = match &wsl_probe {
                Some(p) => p.success,
                None => false,
            };
            ModeAvailability { native, wsl }
        },
        Platform::Other => ModeAvailability { native: true, wsl: false },
    }
}

/// Whether starting in `mode` first probes WSL for its own `npx`.
pub fn needs_wsl_probe(platform: Platform, mode: LaunchMode) -> (r: bool)
    ensures
        r == (platform == Platform::Windows && mode == LaunchMode::Wsl),
{
    match (platform, mode) {
        (Platform::Windows, LaunchMode::Wsl) => true,
        _ => false,
    }
}

/// The command that looks `name` up on the `PATH`.
pub fn lookup_command(name: &str) -> (r: CommandSpec)
    ensures
        r@ == lookup_command_view(name@),
{
    let parts = vec!["/C", "where", name];
    let r = command(
        "cmd",
        parts.as_slice(),
        StdioSetting::Null,
        StdioSetting::Null,
        StdioSetting::Null,
        true,
    );
    assert(r@.args =~= seq!["/C"@, "where"@, name@]);
    r
}

/// The WSL shell that the probe script is fed to.
pub fn wsl_probe_command() -> (r: CommandSpec)
    ensures
        r@ == wsl_probe_command_view(),
{
    let parts = vec!["bash", "-il"];
    let r = command(
        "wsl",
        parts.as_slice(),
        StdioSetting::Piped,
        StdioSetting::Piped,
        StdioSetting::Null,
        true,
    );
    assert(r@.args =~= seq!["bash"@, "-il"@]);
    r
}

/// How to start the service in `mode`. In WSL mode on Windows the start is refused when
/// the probe found no `npx` of the distribution.
pub fn plan_launch(platform: Platform, mode: LaunchMode, wsl_probe: Option<ProbeOutput>) -> (r:
    Result<LaunchPlan, LaunchError>)
    ensures
        platform == Platform::Windows && mode == LaunchMode::Wsl && wsl_npx(wsl_probe) is None
            <==> r is Err,
        r matches Err(e) ==> e == LaunchError::WslNodeMissing,
        r matches Ok(plan) ==> {
            &&& plan.command@ == launch_command_view(platform, mode)
            &&& (platform == Platform::Windows && mode == LaunchMode::Wsl) ==> (
            plan.stdin_script matches Some(s) && s@ == WSL_LAUNCH_SCRIPT@)
            &&& !(platform == Platform::Windows && mode == LaunchMode::Wsl)
                ==> plan.stdin_script is None
        },
{
    match platform {
        Platform::Windows => match mode {
            LaunchMode::Native => {
                let parts = vec!["/C", DSH_WEB_COMMAND];
                let command = command(
                    "cmd",
                    parts.as_slice(),
                    StdioSetting::Null,
                    StdioSetting::Null,
                    StdioSetting::Null,
                    true,
                );
                assert(command@.args =~= seq!["/C"@, DSH_WEB_COMMAND@]);
                Ok(LaunchPlan { command, stdin_script: None })
            },
            LaunchMode::Wsl => {
                if wsl_npx_path(&wsl_probe).is_none() {
                    return Err(LaunchError::WslNodeMissing);
                }
                let parts = vec!["bash", "-il"];
                let command = command(
                    "wsl",
                    parts.as_slice(),
                    StdioSetting::Piped,
                    StdioSetting::Null,
                    StdioSetting::Null,
                    true,
                );
                assert(command@.args =~= seq!["bash"@, "-il"@]);
                Ok(LaunchPlan { command, stdin_script: Some(WSL_LAUNCH_SCRIPT) })
            },
        },
        Platform::Other => {
            let parts = vec!["-c", DSH_WEB_COMMAND];
            let command = command(
                "sh",
                parts.as_slice(),
                StdioSetting::Null,
                StdioSetting::Null,
                StdioSetting::Null,
                false,
            );
            assert(command@.args =~= seq!["-c"@, DSH_WEB_COMMAND@]);
            Ok(LaunchPlan { command, stdin_script: None })
        },
    }
}

impl LaunchError {
    /// The message shown to the user (an `ErrorKind::NotFound` error).
    pub fn message(&self) -> (m: &'static str)
        ensures
            m@ == "WSL 发行版内未检测到可用的 Node.js（npx），请先在发行版内安装 Node.js 后重试"@,
    {
        match self {
            LaunchError::WslNodeMissing => "WSL 发行版内未检测到可用的 Node.js（npx），请先在发行版内安装 Node.js 后重试",
        }
    }
}

/// The steps that stop the service started in `mode` whose process id is `pid`.
pub fn kill_plan(platform: Platform, mode: LaunchMode, pid: u32) -> (r: Vec<KillStep>)
    ensures
        r@.map_values(|s: KillStep| s@) == kill_steps(platform, mode, pid),
{
    let mut steps: Vec<KillStep> = Vec::new();
    match platform {
        Platform::Windows => {
            if mode == LaunchMode::Wsl {
                let parts = vec!["bash", "-lc", WSL_KILL_SCRIPT];
                let wsl_kill = command(
                    "wsl",
                    parts.as_slice(),
                    StdioSetting::Null,
                    StdioSetting::Null,
                    StdioSetting::Null,
                    true,
                );
                assert(wsl_kill@.args =~= seq!["bash"@, "-lc"@, WSL_KILL_SCRIPT@]);
                steps.push(KillStep::Run(wsl_kill));
            }
            let pid_text = decimal_string(pid);
            let parts = vec!["/F", "/T", "/PID", pid_text.as_str()];
            let taskkill = command(
                "taskkill",
                parts.as_slice(),
                StdioSetting::Unset,
                StdioSetting::Unset,
                StdioSetting::Unset,
                true,
            );
            assert(taskkill@.args =~= seq!["/F"@, "/T"@, "/PID"@, decimal(pid as nat)]);
            steps.push(KillStep::Run(taskkill));
            steps.push(KillStep::WaitChild);
        },
        Platform::Other => {
            steps.push(KillStep::KillChild);
            steps.push(KillStep::WaitChild);
        },
    }
    assert(steps@.map_values(|s: KillStep| s@) =~= kill_steps(platform, mode, pid));
    steps
}

} // verus!
