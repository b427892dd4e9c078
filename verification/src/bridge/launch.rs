use vstd::prelude::*;
use vstd::string::StringExecFns;

verus! {

/// The platforms whose launch rules differ.
#[derive(Clone, Copy, Debug, PartialEq, Eq, Structural)]
pub enum Platform {
    /// The engine may be reached through the `wsl` wrapper, and no console
    /// window may open for it.
    Windows,
    /// A configured binary that does not exist is replaced by the usual
    /// installation path.
    MacOs,
    /// The configured binary is launched as it is.
    Other,
}

/// Everything needed to start the engine process.
#[derive(Debug, PartialEq, Eq)]
pub struct LaunchPlan {
    /// The executable to start.
    pub program: String,
    /// Its arguments, in order.
    pub arguments: Vec<String>,
    /// Whether the child writes its diagnostics to the parent's standard error.
    pub inherit_stderr: bool,
    /// Process creation flags to set, on platforms that have them.
    pub creation_flags: Option<u32>,
}

/// Creation flag that keeps a console window from opening.
pub const CREATE_NO_WINDOW: u32 = 0x0800_0000;

/// The name of the engine binary where nothing else is configured.
pub open spec fn default_binary() -> Seq<char> {
    "nvim"@
}

/// Where the engine is usually installed on macOS.
pub open spec fn fallback_path() -> Seq<char> {
    "/usr/local/bin/nvim"@
}

/// The binary that the configuration asks for.
pub open spec fn configured_binary(configured: Option<Seq<char>>) -> Seq<char> {
    match configured {
        Some(path) => path,
        None => default_binary(),
    }
}

/// The configured path as plain text.
pub open spec fn text_of(configured: Option<String>) -> Option<Seq<char>> {
    match configured {
        Some(path) => Some(path@),
        None => None,
    }
}

/// Whether the process was asked to go through the compatibility layer.
pub open spec fn asks_for_wsl(process_arguments: Seq<Seq<char>>) -> bool {
    process_arguments.contains("--wsl"@)
}

/// The executable that is started for `bin` on `platform`.
pub open spec fn launch_program(
    platform: Platform,
    bin: Seq<char>,
    wsl: bool,
    bin_exists: bool,
) -> Seq<char> {
    match platform {
        Platform::Windows => if wsl {
            "wsl"@
        } else {
            bin
        },
        Platform::MacOs => if bin_exists {
            bin
        } else {
            fallback_path()
        },
        Platform::Other => bin,
    }
}

/// The arguments that the platform's rule puts in front of all others.
pub open spec fn launch_prefix(platform: Platform, bin: Seq<char>, wsl: bool) -> Seq<Seq<char>> {
    if platform == Platform::Windows && wsl {
        seq![bin]
    } else {
        Seq::empty()
    }
}

/// The arguments handed on to the engine: all but the first, which names
/// the front-end itself.
pub open spec fn passthrough(arguments: Seq<Seq<char>>) -> Seq<Seq<char>> {
    if arguments.len() > 0 {
        arguments.skip(1)
    } else {
        arguments
    }
}

/// The creation flags that `platform` needs.
pub open spec fn platform_creation_flags(platform: Platform) -> Option<u32> {
    if platform == Platform::Windows {
        Some(CREATE_NO_WINDOW)
    } else {
        None
    }
}

impl LaunchPlan {
    /// The plan in terms of plain text.
    pub open spec fn arguments_text(&self) -> Seq<Seq<char>> {
        self.arguments.deep_view()
    }
}

/// The engine binary: the configured override, or `nvim`.
pub fn engine_binary(configured: Option<String>) -> (bin: String)
    ensures
        bin@ == configured_binary(text_of(configured)),
{
    match configured {
        Some(path) => path,
        None => String::from_str("nvim"),
    }
}

/// Whether `--wsl` is among the process arguments.
pub fn wsl_requested(process_arguments: &Vec<String>) -> (wsl: bool)
    ensures
        wsl == asks_for_wsl(process_arguments.deep_view()),
{
    let flag = String::from_str("--wsl");
    let mut i: usize = 0;
    while i < process_arguments.len()
        invariant
            i <= process_arguments.len(),
            flag@ == "--wsl"@,
            forall|k: int| 0 <= k < i ==> process_arguments.deep_view()[k] != "--wsl"@,
        decreases process_arguments.len() - i,
    {
        if process_arguments[i] == flag {
            assert(process_arguments.deep_view()[i as int] == "--wsl"@);
            return true;
        }
        i = i + 1;
    }
    false
}

/// Applies the platform's rule to the binary: which executable is started,
/// and with which leading arguments.
pub fn platform_build_nvim_cmd(platform: Platform, bin: &str, wsl: bool, bin_exists: bool) -> (plan:
    LaunchPlan)
    ensures
        plan.program@ == launch_program(platform, bin@, wsl, bin_exists),
        plan.arguments_text() == launch_prefix(platform, bin@, wsl),
        !plan.inherit_stderr,
        plan.creation_flags is None,
{
    let mut arguments: Vec<String> = Vec::new();
    let program = match platform {
        Platform::Windows => {
            if wsl {
                arguments.push(String::from_str(bin));
                String::from_str("wsl")
            } else {
                String::from_str(bin)
            }
        },
        Platform::MacOs => {
            if bin_exists {
                String::from_str(bin)
            } else {
                String::from_str("/usr/local/bin/nvim")
            }
        },
        Platform::Other => String::from_str(bin),
    };
    assert(arguments.deep_view() =~= launch_prefix(platform, bin@, wsl));
    LaunchPlan { program, arguments, inherit_stderr: false, creation_flags: None }
}

/// Chooses the binary and applies the platform's rule to it. `bin_exists`
/// says whether the chosen binary is a path that exists.
pub fn build_nvim_cmd(
    platform: Platform,
    configured: Option<String>,
    process_arguments: &Vec<String>,
    bin_exists: bool,
) -> (plan: LaunchPlan)
    ensures
        plan.program@ == launch_program(
            platform,
            configured_binary(text_of(configured)),
            asks_for_wsl(process_arguments.deep_view()),
            bin_exists,
        ),
        plan.arguments_text() == launch_prefix(
            platform,
            configured_binary(text_of(configured)),
            asks_for_wsl(process_arguments.deep_view()),
        ),
        !plan.inherit_stderr,
        plan.creation_flags is None,
{
    let bin = engine_binary(configured);
    let wsl = wsl_requested(process_arguments);
    platform_build_nvim_cmd(platform, bin.as_str(), wsl, bin_exists)
}

/// The complete plan for starting the engine: the platform's executable and
/// leading arguments, then `--embed`, then the arguments that are passed
/// through; diagnostics go to the parent's standard error, and no console
/// window opens where one otherwise would.
pub fn create_nvim_command(
    platform: Platform,
    configured: Option<String>,
    process_arguments: &Vec<String>,
    neovim_arguments: &Vec<String>,
    bin_exists: bool,
) -> (plan: LaunchPlan)
    ensures
        plan.program@ == launch_program(
            platform,
            configured_binary(text_of(configured)),
            asks_for_wsl(process_arguments.deep_view()),
            bin_exists,
        ),
        plan.arguments_text() == launch_prefix(
            platform,
            configured_binary(text_of(configured)),
            asks_for_wsl(process_arguments.deep_view()),
        ) + seq!["--embed"@] + passthrough(neovim_arguments.deep_view()),
        plan.inherit_stderr,
        plan.creation_flags == platform_creation_flags(platform),
{
    let mut plan = build_nvim_cmd(platform, configured, process_arguments, bin_exists);
    let ghost prefix = plan.arguments_text();
    let ghost program = plan.program;
    plan.arguments.push(String::from_str("--embed"));
    assert(plan.arguments.deep_view() =~= prefix + seq!["--embed"@]);
    let mut i: usize = 1;
    while i < neovim_arguments.len()
        invariant
            1 <= i,
            neovim_arguments.len() > 0 ==> i <= neovim_arguments.len(),
            neovim_arguments.len() > 0 ==> plan.arguments.deep_view() == prefix + seq!["--embed"@]
                + neovim_arguments.deep_view().subrange(1, i as int),
            neovim_arguments.len() == 0 ==> plan.arguments.deep_view() == prefix + seq!["--embed"@],
            plan.program == program,
        decreases neovim_arguments.len() - i,
    {
        let ghost before = plan.arguments.deep_view();
        plan.arguments.push(neovim_arguments[i].clone());
        assert(plan.arguments.deep_view() =~= before.push(neovim_arguments.deep_view()[i as int]));
        assert(neovim_arguments.deep_view().subrange(1, i as int + 1)
            =~= neovim_arguments.deep_view().subrange(1, i as int).push(
            neovim_arguments.deep_view()[i as int],
        ));
        i = i + 1;
    }
    assert(neovim_arguments.len() > 0 ==> neovim_arguments.deep_view().subrange(1, i as int)
        =~= neovim_arguments.deep_view().skip(1));
    assert(neovim_arguments.len() == 0 ==> passthrough(neovim_arguments.deep_view())
        =~= Seq::<Seq<char>>::empty());
    plan.inherit_stderr = true;
    plan.creation_flags = set_windows_creation_flags(platform);
    plan
}

/// The process creation flags of the platform: on Windows the one that
/// suppresses the console window, elsewhere none.
pub fn set_windows_creation_flags(platform: Platform) -> (flags: Option<u32>)
    ensures
        flags == platform_creation_flags(platform),
{
    match platform {
        Platform::Windows => Some(CREATE_NO_WINDOW),
        _ => None,
    }
}

} // verus!
