use vstd::prelude::*;

use crate::node::{derivation_text, push_text, switch_action, target_text, Name, Push, SwitchToConfigurationGoal, Target};
use crate::nix_output::ChildOutputMode;
use crate::watch::Needles;

verus! {

/// How ssh treats a host key it does not know yet.
#[derive(Clone, Copy, Debug, PartialEq, Eq, Structural)]
pub enum StrictHostKeyChecking {
    /// do not accept new host. dangerous!
    No,
    /// accept-new, default
    AcceptNew,
}

impl StrictHostKeyChecking {
    /// The default: accept new host keys.
    pub fn default_mode() -> (res: Self)
        ensures
            res == StrictHostKeyChecking::AcceptNew,
    {
        StrictHostKeyChecking::AcceptNew
    }
}

/// The value of ssh's `StrictHostKeyChecking` option for `accept`.
pub open spec fn host_key_option(accept: StrictHostKeyChecking) -> Seq<char> {
    match accept {
        StrictHostKeyChecking::AcceptNew => "StrictHostKeyChecking=accept-new"@,
        StrictHostKeyChecking::No => "StrictHostKeyChecking=no"@,
    }
}

/// The arguments of ssh that reach `target`: its user, its port, the host
/// key policy, then the host.
pub open spec fn ssh_args_of(target: Target, accept: StrictHostKeyChecking) -> Seq<Seq<char>> {
    seq![
        "-l"@,
        target.user@,
        "-p"@,
        crate::text::decimal(target.port as nat),
        "-o"@,
        host_key_option(accept),
        target.host@,
    ]
}

/// The arguments that ssh is run with to reach `target`.
pub fn ssh_arguments(target: &Target, accept: StrictHostKeyChecking) -> (res: Vec<String>)
    ensures
        res@.map_values(|a: String| a@) == ssh_args_of(*target, accept),
{
    let policy = match accept {
        StrictHostKeyChecking::AcceptNew => String::from_str("StrictHostKeyChecking=accept-new"),
        StrictHostKeyChecking::No => String::from_str("StrictHostKeyChecking=no"),
    };
    let res = vec![
        String::from_str("-l"),
        target.user.clone(),
        String::from_str("-p"),
        crate::text::u64_to_string(target.port as u64),
        String::from_str("-o"),
        policy,
        target.host.clone(),
    ];
    proof {
        assert(res@.map_values(|a: String| a@) =~= ssh_args_of(*target, accept));
    }
    res
}

/// The ssh options that `nix copy` is given, in `NIX_SSHOPTS`, to reach
/// `target` (its user and host are in the store URL): the port and the host
/// key policy, as the ssh command uses them.
pub open spec fn nix_ssh_options_of(target: Target, accept: StrictHostKeyChecking) -> Seq<char> {
    "-p "@ + crate::text::decimal(target.port as nat) + " -o "@ + host_key_option(accept)
}

/// The value of `NIX_SSHOPTS` for copying to `target`.
pub fn nix_ssh_options(target: &Target, accept: StrictHostKeyChecking) -> (res: String)
    ensures
        res@ == nix_ssh_options_of(*target, accept),
{
    let mut s = String::from_str("-p ");
    s.append(crate::text::u64_to_string(target.port as u64).as_str());
    s.append(" -o ");
    match accept {
        StrictHostKeyChecking::AcceptNew => s.append("StrictHostKeyChecking=accept-new"),
        StrictHostKeyChecking::No => s.append("StrictHostKeyChecking=no"),
    }
    s
}

/// Options that every command of a run shares.
#[derive(Clone, Copy, Debug, PartialEq, Eq, Structural)]
pub struct SubCommandModifiers {
    pub show_trace: bool,
    pub non_interactive: bool,
    pub ssh_accept_host: StrictHostKeyChecking,
}

impl SubCommandModifiers {
    /// The default options: no trace, interactive exactly when stdin is a
    /// terminal, new host keys accepted.
    pub fn default_for(stdin_is_terminal: bool) -> (res: Self)
        ensures
            res == (SubCommandModifiers {
                show_trace: false,
                non_interactive: !stdin_is_terminal,
                ssh_accept_host: StrictHostKeyChecking::AcceptNew,
            }),
    {
        SubCommandModifiers {
            show_trace: false,
            non_interactive: !stdin_is_terminal,
            ssh_accept_host: StrictHostKeyChecking::default_mode(),
        }
    }
}

/// One of two values.
#[derive(Debug)]
pub enum Either<L, R> {
    Left(L),
    Right(R),
}

/// What to evaluate of a hive.
#[derive(Debug)]
pub enum EvalGoal<'a> {
    Inspect,
    GetTopLevel(&'a Name),
}

/// A command to run, locally or on a target.
#[derive(Debug)]
pub struct CommandArguments {
    pub modifiers: SubCommandModifiers,
    pub target: Option<Target>,
    pub output_mode: ChildOutputMode,
    pub command_string: String,
    pub keep_stdin_open: bool,
    pub elevated: bool,
    pub log_stdout: bool,
}

impl CommandArguments {
    /// A command run locally, in raw mode, without elevation.
    pub fn new(command_string: String, modifiers: SubCommandModifiers) -> (res: Self)
        ensures
            res.command_string == command_string,
            res.modifiers == modifiers,
            res.target is None,
            res.output_mode == ChildOutputMode::Raw,
            !res.keep_stdin_open,
            !res.elevated,
            !res.log_stdout,
    {
        Self {
            command_string,
            keep_stdin_open: false,
            elevated: false,
            log_stdout: false,
            target: None,
            output_mode: ChildOutputMode::Raw,
            modifiers,
        }
    }

    /// The command, run on `target` (locally for `None`).
    pub fn on_target(self, target: Option<Target>) -> (res: Self)
        ensures
            res == (CommandArguments { target, ..self }),
    {
        CommandArguments { target, ..self }
    }

    /// The command, with its output read as nix logs.
    pub fn nix(self) -> (res: Self)
        ensures
            res == (CommandArguments { output_mode: ChildOutputMode::Nix, ..self }),
    {
        CommandArguments { output_mode: ChildOutputMode::Nix, ..self }
    }

    /// The command, with stdin kept open after it started.
    pub fn keep_stdin_open(self) -> (res: Self)
        ensures
            res == (CommandArguments { keep_stdin_open: true, ..self }),
    {
        CommandArguments { keep_stdin_open: true, ..self }
    }

    /// The command, run as root.
    pub fn elevated(self) -> (res: Self)
        ensures
            res == (CommandArguments { elevated: true, ..self }),
    {
        CommandArguments { elevated: true, ..self }
    }

    /// The command, with its stdout logged.
    pub fn log_stdout(self) -> (res: Self)
        ensures
            res == (CommandArguments { log_stdout: true, ..self }),
    {
        CommandArguments { log_stdout: true, ..self }
    }

    /// Whether the command runs as root.
    pub fn is_elevated(&self) -> (res: bool)
        ensures
            res == self.elevated,
    {
        self.elevated
    }

    /// Whether the command runs in a pseudo terminal that the user can
    /// answer: not when non-interactive mode is forced, nor when nothing can
    /// ask (a local command that is not elevated).
    pub fn runs_interactively(&self) -> (res: bool)
        ensures
            res == !(self.modifiers.non_interactive || (!self.elevated && self.target is None)),
    {
        !(self.modifiers.non_interactive || (!self.elevated && self.target.is_none()))
    }
}

/// The redirection that marks each line the command writes to stdout with `#`.
pub open spec fn io_subs() -> Seq<char> {
    "1> >(while IFS= read -r line; do echo \"#$line\"; done)"@
}

/// The part of the shell line before the command: echo the start needle.
pub open spec fn starting_segment(start: Seq<char>) -> Seq<char> {
    "echo '"@ + start + "' && "@
}

/// The part of the shell line after the command: echo the success needle,
/// or else the failure needle.
pub open spec fn ending_segment(needles: (Seq<char>, Seq<char>, Seq<char>)) -> Seq<char> {
    let (succeed, fail, _start) = needles;
    "echo '"@ + succeed + "' || echo '"@ + fail + "'"@
}

/// The flags added to a command for its output mode.
pub open spec fn mode_flags(mode: ChildOutputMode) -> Seq<char> {
    if mode == ChildOutputMode::Nix {
        "--log-format internal-json"@
    } else {
        Seq::empty()
    }
}

/// The needles as text.
pub open spec fn needles_text(needles: Needles) -> (Seq<char>, Seq<char>, Seq<char>) {
    (
        crate::text::utf8_lossy(needles.succeed@),
        crate::text::utf8_lossy(needles.fail@),
        crate::text::utf8_lossy(needles.start@),
    )
}

/// The starting segment of the shell line of a command: echo the start
/// needle, whatever the command's output mode.
pub fn create_starting_segment(_arguments: &CommandArguments, start_needle: &Vec<u8>) -> (res: String)
    ensures
        res@ == starting_segment(crate::text::utf8_lossy(start_needle@)),
{
    let mut s = String::from_str("echo '");
    s.append(crate::text::from_utf8_lossy(start_needle.as_slice()).as_str());
    s.append("' && ");
    s
}

/// The ending segment of the shell line of a command: echo the success
/// needle, or else the failure needle, whatever the command's output mode.
pub fn create_ending_segment(_arguments: &CommandArguments, needles: &Needles) -> (res: String)
    ensures
        res@ == ending_segment(needles_text(*needles)),
{
    let succeed = crate::text::from_utf8_lossy(needles.succeed.as_slice());
    let fail = crate::text::from_utf8_lossy(needles.fail.as_slice());
    let mut s = String::from_str("echo '");
    s.append(succeed.as_str());
    s.append("' || echo '");
    s.append(fail.as_str());
    s.append("'");
    s
}

/// The shell line that runs a command in a pseudo terminal: the starting
/// segment, the command with its flags and stdout marking, then the ending
/// segment.
pub open spec fn interactive_line(arguments: CommandArguments, needles: Needles) -> Seq<char> {
    starting_segment(needles_text(needles).2) + arguments.command_string@ + " "@ + mode_flags(
        arguments.output_mode,
    ) + " "@ + io_subs() + " && "@ + ending_segment(needles_text(needles))
}

/// The shell line that runs `arguments` in a pseudo terminal.
pub fn interactive_command_string(arguments: &CommandArguments, needles: &Needles) -> (res: String)
    ensures
        res@ == interactive_line(*arguments, *needles),
{
    let mut s = create_starting_segment(arguments, &needles.start);
    s.append(arguments.command_string.as_str());
    s.append(" ");
    match arguments.output_mode {
        ChildOutputMode::Nix => s.append("--log-format internal-json"),
        _ => {},
    }
    s.append(" ");
    s.append("1> >(while IFS= read -r line; do echo \"#$line\"; done)");
    s.append(" && ");
    s.append(create_ending_segment(arguments, needles).as_str());
    s
}

/// The last argument of the command: the shell line, run as root through
/// `sudo` when the command is elevated.
pub open spec fn command_argument(elevated: bool, line: Seq<char>) -> Seq<char> {
    if elevated {
        "sudo -u root -- sh -c '"@ + line + "'"@
    } else {
        line
    }
}

/// The last argument of the command for `arguments` and its shell line.
pub fn command_argument_for(arguments: &CommandArguments, command_string: &String) -> (res: String)
    ensures
        res@ == command_argument(arguments.elevated, command_string@),
{
    if arguments.is_elevated() {
        let mut s = String::from_str("sudo -u root -- sh -c '");
        s.append(command_string.as_str());
        s.append("'");
        s
    } else {
        command_string.clone()
    }
}

/// The line shown before an elevated command asks for a password: where it
/// runs, then the command.
pub open spec fn authenticate_warning(target: Option<Target>, command: Seq<char>) -> Seq<char> {
    let place = match target {
        Some(t) => target_text(t),
        None => "localhost (!)"@,
    };
    place + " | Authenticate for \"sudo "@ + command + "\":\n"@
}

/// The line shown before an elevated command asks for a password; `None`
/// when the command is not elevated.
pub fn authenticate_message(arguments: &CommandArguments) -> (res: Option<String>)
    ensures
        !arguments.elevated ==> res is None,
        arguments.elevated ==> (res matches Some(m) && m@ == authenticate_warning(arguments.target, arguments.command_string@)),
{
    if !arguments.is_elevated() {
        return None;
    }
    let mut s = match &arguments.target {
        Some(t) => t.to_display_string(),
        None => String::from_str("localhost (!)"),
    };
    s.append(" | Authenticate for \"sudo ");
    s.append(arguments.command_string.as_str());
    s.append("\":\n");
    Some(s)
}

/// Where a hive is defined.
#[derive(Debug)]
pub enum HiveLocation {
    HiveNix(String),
    Flake(String),
}

/// The attribute that `nix eval` is given for `goal` on the hive at
/// `location`.
pub open spec fn eval_attribute(location: HiveLocation, goal: EvalGoal) -> Seq<char> {
    match location {
        HiveLocation::Flake(uri) => uri@ + "#wire --apply \"hive: "@ + match goal {
            EvalGoal::Inspect => "hive.inspect"@,
            EvalGoal::GetTopLevel(node) => "hive.topLevels."@ + node.0@,
        } + "\""@,
        HiveLocation::HiveNix(path) => "--file "@ + path@ + " "@ + match goal {
            EvalGoal::Inspect => "inspect"@,
            EvalGoal::GetTopLevel(node) => "topLevels."@ + node.0@,
        },
    }
}

/// A flake and a `hive.nix` file evaluate the same attribute of the hive:
/// the flake's `wire` output applies `hive: hive.X` where the file is given
/// `X` itself, for the whole inspection (`inspect`) and for a node's top
/// level (`topLevels.` and the node's name).
pub proof fn flake_and_file_evaluate_the_same_attribute(uri: String, path: String, node: Name)
    ensures
        ({
            let x = "topLevels."@ + node.0@;
            &&& eval_attribute(HiveLocation::HiveNix(path), EvalGoal::GetTopLevel(&node)) == "--file "@ + path@ + " "@ + x
            &&& eval_attribute(HiveLocation::Flake(uri), EvalGoal::GetTopLevel(&node)) == uri@ + "#wire --apply \"hive: "@
                + "hive."@ + x + "\""@
        }),
        eval_attribute(HiveLocation::HiveNix(path), EvalGoal::Inspect) == "--file "@ + path@ + " "@ + "inspect"@,
        eval_attribute(HiveLocation::Flake(uri), EvalGoal::Inspect) == uri@ + "#wire --apply \"hive: "@ + "hive."@
            + "inspect"@ + "\""@,
{
    reveal_strlit("topLevels.");
    reveal_strlit("hive.topLevels.");
    reveal_strlit("hive.");
    reveal_strlit("inspect");
    reveal_strlit("hive.inspect");
    assert("hive.topLevels."@ =~= "hive."@ + "topLevels."@);
    assert("hive.inspect"@ =~= "hive."@ + "inspect"@);
    let x = "topLevels."@ + node.0@;
    assert("hive.topLevels."@ + node.0@ =~= "hive."@ + x);
}

/// The attribute that `nix eval` is given.
pub fn eval_attribute_for(location: &HiveLocation, goal: &EvalGoal) -> (res: String)
    ensures
        res@ == eval_attribute(*location, *goal),
{
    match location {
        HiveLocation::Flake(uri) => {
            let mut s = uri.clone();
            s.append("#wire --apply \"hive: ");
            match goal {
                EvalGoal::Inspect => s.append("hive.inspect"),
                EvalGoal::GetTopLevel(node) => {
                    s.append("hive.topLevels.");
                    s.append(node.0.as_str());
                },
            }
            s.append("\"");
            s
        },
        HiveLocation::HiveNix(path) => {
            let mut s = String::from_str("--file ");
            s.append(path.as_str());
            s.append(" ");
            match goal {
                EvalGoal::Inspect => s.append("inspect"),
                EvalGoal::GetTopLevel(node) => {
                    s.append("topLevels.");
                    s.append(node.0.as_str());
                },
            }
            s
        },
    }
}

/// The `nix eval` command for an attribute, with `--show-trace` when asked.
pub open spec fn eval_command(show_trace: bool, attribute: Seq<char>) -> Seq<char> {
    "nix --extra-experimental-features nix-command --extra-experimental-features flakes eval --json "@ + (if show_trace {
        "--show-trace"@
    } else {
        Seq::empty()
    }) + " "@ + attribute
}

/// The `nix eval` command that evaluates `goal` on the hive at `location`.
pub fn eval_command_string(location: &HiveLocation, goal: &EvalGoal, modifiers: SubCommandModifiers) -> (res: String)
    ensures
        res@ == eval_command(modifiers.show_trace, eval_attribute(*location, *goal)),
{
    let attribute = eval_attribute_for(location, goal);
    let mut s = String::from_str("nix --extra-experimental-features nix-command --extra-experimental-features flakes eval --json ");
    if modifiers.show_trace {
        s.append("--show-trace");
    }
    s.append(" ");
    s.append(attribute.as_str());
    s
}

/// What `nix copy` is given to copy: a derivation is copied as one.
pub open spec fn copy_argument(push: Push) -> Seq<char> {
    match push {
        Push::Derivation(_) => push_text(push) + " --derivation"@,
        Push::Path(p) => p@,
    }
}

/// The `nix copy` command that copies `push` to `user@host`.
pub open spec fn copy_command(user: Seq<char>, host: Seq<char>, push: Push) -> Seq<char> {
    "nix --extra-experimental-features nix-command copy --substitute-on-destination --to ssh://"@ + user + "@"@ + host
        + " "@ + copy_argument(push)
}

/// The `nix copy` command that copies `push` to `target`.
pub fn copy_command_string(target: &Target, push: &Push) -> (res: String)
    ensures
        res@ == copy_command(target.user@, target.host@, *push),
{
    let mut s = String::from_str("nix --extra-experimental-features nix-command copy --substitute-on-destination --to ssh://");
    s.append(target.user.as_str());
    s.append("@");
    s.append(target.host.as_str());
    s.append(" ");
    match push {
        Push::Derivation(_) => {
            s.append(push.to_display_string().as_str());
            s.append(" --derivation");
        },
        Push::Path(p) => s.append(p.as_str()),
    }
    s
}

/// The `nix build` command for a node's top-level derivation.
pub open spec fn build_command(top_level: Seq<char>) -> Seq<char> {
    "nix --extra-experimental-features nix-command build --print-build-logs --no-link --print-out-paths "@
        + derivation_text(top_level)
}

/// The `nix build` command for the derivation `top_level`.
pub fn build_command_string(top_level: &crate::node::Derivation) -> (res: String)
    ensures
        res@ == build_command(top_level.0@),
{
    let mut s = String::from_str("nix --extra-experimental-features nix-command build --print-build-logs --no-link --print-out-paths ");
    s.append(top_level.to_display_string().as_str());
    s
}

/// The command that makes `built_path` the system profile.
pub open spec fn set_profile_command(built_path: Seq<char>) -> Seq<char> {
    "nix-env -p /nix/var/nix/profiles/system/ --set "@ + built_path
}

/// The command that makes `built_path` the system profile.
pub fn set_profile_command_string(built_path: &String) -> (res: String)
    ensures
        res@ == set_profile_command(built_path@),
{
    let mut s = String::from_str("nix-env -p /nix/var/nix/profiles/system/ --set ");
    s.append(built_path.as_str());
    s
}

/// The command that activates `built_path` for `goal`.
pub open spec fn switch_command(built_path: Seq<char>, goal: SwitchToConfigurationGoal) -> Seq<char> {
    built_path + "/bin/switch-to-configuration "@ + switch_action(goal)
}

/// The command that activates `built_path` for `goal`.
pub fn switch_command_string(built_path: &String, goal: SwitchToConfigurationGoal) -> (res: String)
    ensures
        res@ == switch_command(built_path@, goal),
{
    let mut s = built_path.clone();
    s.append("/bin/switch-to-configuration ");
    s.append(goal.action_argument().as_str());
    s
}

/// The command that runs the key agent from `agent_directory`.
pub open spec fn key_agent_command(agent_directory: Seq<char>) -> Seq<char> {
    agent_directory + "/bin/key_agent"@
}

/// The command that runs the key agent from `agent_directory`.
pub fn key_agent_command_string(agent_directory: &String) -> (res: String)
    ensures
        res@ == key_agent_command(agent_directory@),
{
    let mut s = agent_directory.clone();
    s.append("/bin/key_agent");
    s
}

/// The arguments of the command, run on the target unless applied locally.
pub fn target_unless_local(should_apply_locally: bool, target: &Target) -> (res: Option<Target>)
    ensures
        should_apply_locally ==> res is None,
        !should_apply_locally ==> res == Some(*target),
{
    if should_apply_locally {
        None
    } else {
        Some(target.copied())
    }
}

} // verus!
