// Typed builder for ADB command lines.
use vstd::prelude::*;

verus! {

/// The characters of each string in a sequence.
pub open spec fn strs(v: Seq<String>) -> Seq<Seq<char>> {
    Seq::new(v.len(), |i: int| v[i]@)
}

/// Appends a copy of `s` to `v`.
pub fn push_str_copy(v: &mut Vec<String>, s: &str)
    ensures
        strs(final(v)@) == strs(old(v)@).push(s@),
{
    let ghost before = v@;
    v.push(s.to_string());
    proof {
        assert(strs(v@) =~= strs(before).push(s@));
    }
}

/// The words as owned strings, in order.
pub(crate) fn args_of(parts: &[&str]) -> (r: Vec<String>)
    ensures
        strs(r@) == Seq::new(parts@.len(), |i: int| parts@[i]@),
{
    let mut v: Vec<String> = Vec::new();
    let mut i: usize = 0;
    while i < parts.len()
        invariant
            i <= parts.len(),
            strs(v@) == Seq::new(i as nat, |k: int| parts@[k]@),
        decreases parts.len() - i,
    {
        let ghost before = strs(v@);
        crate::adb::command_builder::push_str_copy(&mut v, parts[i]);
        assert(strs(v@) =~= Seq::new((i + 1) as nat, |k: int| parts@[k]@));
        i = i + 1;
    }
    v
}

/// Appends copies of all strings of `src` to `v`.
pub fn extend_copies(v: &mut Vec<String>, src: &Vec<String>)
    ensures
        strs(final(v)@) == strs(old(v)@) + strs(src@),
{
    let ghost start = strs(v@);
    let mut i: usize = 0;
    while i < src.len()
        invariant
            i <= src.len(),
            strs(v@) == start + strs(src@).take(i as int),
        decreases src.len() - i,
    {
        push_str_copy(v, src[i].as_str());
        i = i + 1;
        assert(strs(v@) =~= start + strs(src@).take(i as int));
    }
    assert(strs(src@).take(src.len() as int) =~= strs(src@));
}

/// An ADB command.
#[derive(Debug, Clone)]
pub enum AdbCommand {
    Version,
    Devices { long: bool },
    Shell(Vec<String>),
    Install { path: String, reinstall: bool },
    Uninstall { package: String, keep_data: bool },
    Push { local: String, remote: String },
    Pull { remote: String, local: String },
    Reboot { mode: Option<String> },
    StartServer,
    KillServer,
    GetProp(String),
}

/// The argument list of a command, without device targeting.
pub open spec fn command_args(cmd: AdbCommand) -> Seq<Seq<char>> {
    match cmd {
        AdbCommand::Version => seq!["version"@],
        AdbCommand::Devices { long } => if long {
            seq!["devices"@, "-l"@]
        } else {
            seq!["devices"@]
        },
        AdbCommand::Shell(args) => seq!["shell"@] + strs(args@),
        AdbCommand::Install { path, reinstall } => if reinstall {
            seq!["install"@, "-r"@, path@]
        } else {
            seq!["install"@, path@]
        },
        AdbCommand::Uninstall { package, keep_data } => if keep_data {
            seq!["uninstall"@, "-k"@, package@]
        } else {
            seq!["uninstall"@, package@]
        },
        AdbCommand::Push { local, remote } => seq!["push"@, local@, remote@],
        AdbCommand::Pull { remote, local } => seq!["pull"@, remote@, local@],
        AdbCommand::Reboot { mode } => match mode {
            Some(m) => seq!["reboot"@, m@],
            None => seq!["reboot"@],
        },
        AdbCommand::StartServer => seq!["start-server"@],
        AdbCommand::KillServer => seq!["kill-server"@],
        AdbCommand::GetProp(prop) => seq!["shell"@, "getprop"@, prop@],
    }
}

impl AdbCommand {
    /// The arguments to hand to the adb process for this command.
    pub fn to_args(&self) -> (r: Vec<String>)
        ensures
            strs(r@) == command_args(*self),
    {
        let mut args: Vec<String> = Vec::new();
        match self {
            AdbCommand::Version => {
                push_str_copy(&mut args, "version");
            },
            AdbCommand::Devices { long } => {
                push_str_copy(&mut args, "devices");
                if *long {
                    push_str_copy(&mut args, "-l");
                }
            },
            AdbCommand::Shell(shell_args) => {
                push_str_copy(&mut args, "shell");
                extend_copies(&mut args, shell_args);
            },
            AdbCommand::Install { path, reinstall } => {
                push_str_copy(&mut args, "install");
                if *reinstall {
                    push_str_copy(&mut args, "-r");
                }
                push_str_copy(&mut args, path.as_str());
            },
            AdbCommand::Uninstall { package, keep_data } => {
                push_str_copy(&mut args, "uninstall");
                if *keep_data {
                    push_str_copy(&mut args, "-k");
                }
                push_str_copy(&mut args, package.as_str());
            },
            AdbCommand::Push { local, remote } => {
                push_str_copy(&mut args, "push");
                push_str_copy(&mut args, local.as_str());
                push_str_copy(&mut args, remote.as_str());
            },
            AdbCommand::Pull { remote, local } => {
                push_str_copy(&mut args, "pull");
                push_str_copy(&mut args, remote.as_str());
                push_str_copy(&mut args, local.as_str());
            },
            AdbCommand::Reboot { mode } => {
                push_str_copy(&mut args, "reboot");
                if let Some(m) = mode {
                    push_str_copy(&mut args, m.as_str());
                }
            },
            AdbCommand::StartServer => {
                push_str_copy(&mut args, "start-server");
            },
            AdbCommand::KillServer => {
                push_str_copy(&mut args, "kill-server");
            },
            AdbCommand::GetProp(prop) => {
                push_str_copy(&mut args, "shell");
                push_str_copy(&mut args, "getprop");
                push_str_copy(&mut args, prop.as_str());
            },
        }
        assert(strs(args@) =~= command_args(*self));
        args
    }
}

/// Builder for command lines that may target one device.
pub struct AdbCommandBuilder {
    device_id: Option<String>,
}

/// The full argument list: `-s <id>` when a device is targeted, then the command.
pub open spec fn targeted_args(device: Option<Seq<char>>, cmd: AdbCommand) -> Seq<Seq<char>> {
    match device {
        Some(id) => seq!["-s"@, id] + command_args(cmd),
        None => command_args(cmd),
    }
}

impl AdbCommandBuilder {
    /// The targeted device, if any.
    pub closed spec fn device(self) -> Option<Seq<char>> {
        match self.device_id {
            Some(id) => Some(id@),
            None => None,
        }
    }

    pub fn new() -> (r: Self)
        ensures
            r.device() == None::<Seq<char>>,
    {
        AdbCommandBuilder { device_id: None }
    }

    /// Target a specific device by its serial.
    pub fn target(self, device_id: &str) -> (r: Self)
        ensures
            r.device() == Some(device_id@),
    {
        let mut b = self;
        b.device_id = Some(device_id.to_string());
        b
    }

    /// The full argument list, device targeting included.
    pub fn build(&self, command: AdbCommand) -> (r: Vec<String>)
        ensures
            strs(r@) == targeted_args(self.device(), command),
    {
        let mut args: Vec<String> = Vec::new();
        if let Some(id) = &self.device_id {
            push_str_copy(&mut args, "-s");
            push_str_copy(&mut args, id.as_str());
        }
        let rest = command.to_args();
        extend_copies(&mut args, &rest);
        assert(strs(args@) =~= targeted_args(self.device(), command));
        args
    }
}

/// Targeting a device puts exactly `-s <serial>` in front of the untargeted
/// argument list, whatever the command.
pub proof fn law_target_prefixes_serial(serial: Seq<char>, cmd: AdbCommand)
    ensures
        targeted_args(Some(serial), cmd) == seq!["-s"@, serial] + targeted_args(None, cmd),
        targeted_args(Some(serial), cmd).len() == targeted_args(None, cmd).len() + 2,
{
}

/// Helper to build a shell command word by word.
pub struct ShellCommandBuilder {
    args: Vec<String>,
}

impl ShellCommandBuilder {
    /// The words collected so far.
    pub closed spec fn words(self) -> Seq<Seq<char>> {
        strs(self.args@)
    }

    pub fn new(command: &str) -> (r: Self)
        ensures
            r.words() == seq![command@],
    {
        let mut args: Vec<String> = Vec::new();
        push_str_copy(&mut args, command);
        assert(strs(args@) =~= seq![command@]);
        ShellCommandBuilder { args }
    }

    pub fn arg(self, value: &str) -> (r: Self)
        ensures
            r.words() == self.words().push(value@),
    {
        let mut args = self.args;
        push_str_copy(&mut args, value);
        ShellCommandBuilder { args }
    }

    pub fn build(self) -> (r: Vec<String>)
        ensures
            strs(r@) == self.words(),
    {
        self.args
    }
}

} // verus!
